//! Hardware abstraction layer for CH32V00x-class RISC-V microcontrollers.
//!
//! The heart of the crate is the clock-tree configuration engine in [`rcc`]:
//! a declarative [`rcc::Config`] is validated and turned into an immutable
//! [`rcc::Clocks`] snapshot together with the register field values that an
//! embedding writes to the hardware.  All frequency arithmetic, divisor and
//! multiplier encodings, and bus-gating rules are verified; the volatile
//! register traffic itself is performed by the (unverified) embedding.
#![allow(non_camel_case_types)]
#![allow(non_snake_case)]

use vstd::prelude::*;

pub mod adc;
pub mod afio;
pub mod delay;
pub mod extend;
pub mod gpio;
pub mod i2c;
pub mod pfic;
pub mod pwr;
pub mod rcc;
pub mod rt;
pub mod serial;
pub mod time;
pub mod timer;
pub mod watchdog;

verus! {

/// Indicates that a peripheral is enabled (type state).
pub struct Enabled;

/// Indicates that a peripheral is disabled (type state).
pub struct Disabled;

/// Marker trait restricting which types may implement this crate's traits.
pub trait Sealed {}

/// Bits per second
pub type BitsPerSecond = crate::time::Hertz;

/// Extension trait that adds convenience methods to the `u32` type
pub trait U32Ext {
    /// Wrap in `Bps`
    fn bps(self) -> BitsPerSecond;
}

impl U32Ext for u32 {
    fn bps(self) -> (r: BitsPerSecond)
        ensures
            r.raw == self,
    {
        crate::time::Hertz { raw: self }
    }
}

} // verus!
