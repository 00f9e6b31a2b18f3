//! Time units.
//!
//! Frequencies are plain unsigned counts of cycles per second.  Dividing a
//! frequency by a prescaler is only meaningful when the division is exact;
//! the clock engine in [`crate::rcc`] therefore checks divisibility before it
//! ever divides.

use vstd::prelude::*;

verus! {

/// A frequency, stored as a whole number of hertz.
#[derive(Clone, Copy, Debug, PartialEq, Eq, Structural)]
pub struct Hertz {
    pub raw: u32,
}

/// A frequency entered in kilohertz (stored in hertz).
pub type KiloHertz = Hertz;

/// A frequency entered in megahertz (stored in hertz).
pub type MegaHertz = Hertz;

/// A duration in milliseconds.
#[derive(Clone, Copy, Debug, PartialEq, Eq, Structural)]
pub struct MilliSeconds {
    pub ticks: u32,
}

/// A duration in microseconds.
#[derive(Clone, Copy, Debug, PartialEq, Eq, Structural)]
pub struct MicroSeconds {
    pub ticks: u32,
}

/// Bits per second
#[derive(Clone, Copy, Debug, PartialEq, Eq, Structural)]
pub struct Bps(pub u32);

impl Hertz {
    /// Wrap a raw count of hertz.
    pub fn from_raw(raw: u32) -> (r: Hertz)
        ensures
            r.raw == raw,
    {
        Hertz { raw }
    }

    /// The raw count of hertz.
    pub fn raw(self) -> (r: u32)
        ensures
            r == self.raw,
    {
        self.raw
    }

    /// The frequency in hertz.
    pub fn to_Hz(self) -> (r: u32)
        ensures
            r == self.raw,
    {
        self.raw
    }

    /// The frequency in whole kilohertz, truncated.
    pub fn to_kHz(self) -> (r: u32)
        ensures
            r == self.raw / 1000,
    {
        self.raw / 1000
    }

    /// The frequency in whole megahertz, truncated.
    pub fn to_MHz(self) -> (r: u32)
        ensures
            r == self.raw / 1_000_000,
    {
        self.raw / 1_000_000
    }

    /// A frequency of `val` megahertz.
    pub fn MHz(val: u32) -> (r: Hertz)
        requires
            val * 1_000_000 <= u32::MAX,
        ensures
            r.raw == val * 1_000_000,
    {
        Hertz { raw: val * 1_000_000 }
    }

    /// A frequency of `val` kilohertz.
    pub fn kHz(val: u32) -> (r: Hertz)
        requires
            val * 1000 <= u32::MAX,
        ensures
            r.raw == val * 1000,
    {
        Hertz { raw: val * 1000 }
    }
}

/// A frequency of `val` hertz.
pub fn Hz(val: u32) -> (r: Hertz)
    ensures
        r.raw == val,
{
    Hertz { raw: val }
}

/// A frequency of `val` kilohertz.
pub fn kHz(val: u32) -> (r: KiloHertz)
    requires
        val * 1000 <= u32::MAX,
    ensures
        r.raw == val * 1000,
{
    Hertz { raw: val * 1000 }
}

/// A frequency of `val` megahertz.
pub fn MHz(val: u32) -> (r: MegaHertz)
    requires
        val * 1_000_000 <= u32::MAX,
    ensures
        r.raw == val * 1_000_000,
{
    Hertz { raw: val * 1_000_000 }
}

/// A duration of `val` milliseconds.
pub fn ms(val: u32) -> (r: MilliSeconds)
    ensures
        r.ticks == val,
{
    MilliSeconds { ticks: val }
}

/// A duration of `val` microseconds.
pub fn us(val: u32) -> (r: MicroSeconds)
    ensures
        r.ticks == val,
{
    MicroSeconds { ticks: val }
}

impl MilliSeconds {
    /// The number of milliseconds.
    pub fn ticks(self) -> (r: u32)
        ensures
            r == self.ticks,
    {
        self.ticks
    }
}

impl MicroSeconds {
    /// The number of microseconds.
    pub fn ticks(self) -> (r: u32)
        ensures
            r == self.ticks,
    {
        self.ticks
    }
}

/// Extension trait that adds convenience methods to the `u32` type
pub trait U32Ext {
    /// Wrap in `Bps`
    fn bps(self) -> Bps;
}

impl U32Ext for u32 {
    fn bps(self) -> (r: Bps)
        ensures
            r.0 == self,
    {
        Bps(self)
    }
}

} // verus!
