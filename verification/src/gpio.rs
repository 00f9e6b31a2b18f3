//! GPIO and alternate function
//!
//! Each pin is a type-state value: its mode is carried in the type, and the
//! pin owns the model of its slice of the port registers — the four
//! configuration bits, the output latch, and the last observed input
//! level.  Mode conversions compute the configuration nibble that the
//! embedding writes to the port's configuration register.

use vstd::prelude::*;

use core::marker::PhantomData;

pub mod convert;
pub mod gpioa;
pub mod gpioc;
pub mod gpiod;

pub use convert::PinMode;
pub use gpioa::{PA1, PA2};
pub use gpioc::{PC0, PC1, PC2, PC3, PC4, PC5, PC6, PC7};
pub use gpiod::{PD0, PD1, PD2, PD3, PD4, PD5, PD6, PD7};

verus! {

/// Logic level of a pin.
#[derive(Clone, Copy, Debug, PartialEq, Eq, Structural)]
pub enum PinState {
    /// Low logic level.
    Low,
    /// High logic level.
    High,
}

/// A filler pin type
#[derive(Debug)]
pub struct NoPin;

/// Extension trait to split a GPIO peripheral in independent pins and registers
pub trait GpioExt {
    /// The parts to split the GPIO into
    type Parts;

    /// Splits the GPIO block into independent pins and registers
    fn split(self, rcc: &mut crate::rcc::Rcc) -> Self::Parts;
}

/// Identification of a pin: its number and its port.
pub trait PinExt {
    type Mode;

    /// The pin number this value stands for.
    spec fn spec_pin_id(&self) -> u8;

    /// The port index this value stands for.
    spec fn spec_port_id(&self) -> u8;

    /// Return pin number
    fn pin_id(&self) -> (r: u8)
        ensures
            r == self.spec_pin_id(),
    ;

    /// Return port number
    fn port_id(&self) -> (r: u8)
        ensures
            r == self.spec_port_id(),
    ;
}

/// Some alternate mode (type state)
pub struct Alternate<Otype = PushPull>(pub PhantomData<Otype>);

/// Input mode (type state)
pub struct Input<MODE = Floating> {
    pub _mode: PhantomData<MODE>,
}

/// Floating input (type state)
pub struct Floating;

/// Pulled down input (type state)
pub struct PullDown;

/// Pulled up input (type state)
pub struct PullUp;

/// Open drain input or output (type state)
pub struct OpenDrain;

/// Output mode (type state)
pub struct Output<MODE = PushPull> {
    pub _mode: PhantomData<MODE>,
}

/// Push pull output (type state)
pub struct PushPull;

/// Analog mode (type state)
pub struct Analog;

/// Slew rates available for output and relevant alternate-mode pins.
#[derive(Clone, Copy, Debug, PartialEq, Eq, Structural)]
pub enum Speed {
    /// Slew at 10 MHz
    Mhz10,
    /// Slew at 2 MHz
    Mhz2,
    /// Slew at 50 MHz
    Mhz50,
}

impl Speed {
    /// Register encoding of the slew rate (the `MODE` bits of an output
    /// pin).
    pub open spec fn spec_bits(self) -> u8 {
        match self {
            Speed::Mhz10 => 0b01,
            Speed::Mhz2 => 0b10,
            Speed::Mhz50 => 0b11,
        }
    }

    /// Register encoding of the slew rate.
    #[verifier::when_used_as_spec(spec_bits)]
    pub fn bits(self) -> (r: u8)
        ensures
            r == self.spec_bits(),
    {
        match self {
            Speed::Mhz10 => 0b01,
            Speed::Mhz2 => 0b10,
            Speed::Mhz50 => 0b11,
        }
    }
}

/// Allow setting of the slew rate of an IO pin
///
/// Initially all pins are set to the maximum slew rate
pub trait OutputSpeed {
    /// Replace the `MODE` bits of the configuration nibble with the slew
    /// rate.
    fn set_output_speed(&mut self, speed: Speed);
}

/// Generic pin type
///
/// - `MODE` is one of the pin modes (type states above).
/// - `P` is the port index: 0 for port A, 2 for port C, 3 for port D.
/// - `N` is the pin number: from 0 to 7.
///
/// The fields model the pin's slice of the port registers; the embedding
/// mirrors them to the hardware.
pub struct Pin<const P: u8, const N: u8, MODE = Input<Floating>> {
    /// The pin's four bits of the port configuration register:
    /// `CNF << 2 | MODE`.
    pub cfg: u8,
    /// The pin's bit of the output data register.
    pub out: bool,
    /// The last observed level of the pin's bit of the input data
    /// register.
    pub inp: bool,
    pub _mode: PhantomData<MODE>,
}

impl<const P: u8, const N: u8, MODE> PinExt for Pin<P, N, MODE> {
    type Mode = MODE;

    open spec fn spec_pin_id(&self) -> u8 {
        N
    }

    open spec fn spec_port_id(&self) -> u8 {
        P
    }

    fn pin_id(&self) -> (r: u8) {
        N
    }

    fn port_id(&self) -> (r: u8) {
        P
    }
}

impl<const P: u8, const N: u8, MODE> Pin<P, N, MODE> {
    /// Record the electrical level sampled from the input data register.
    /// The embedding calls this after each read of the hardware register.
    pub fn sync_input(&mut self, level: bool)
        ensures
            final(self).inp == level,
            final(self).cfg == old(self).cfg,
            final(self).out == old(self).out,
    {
        self.inp = level;
    }

    /// Set the output latch regardless of the pin's mode.  Used to choose
    /// the initial level before switching the pin to an output, avoiding a
    /// short spike of an incorrect value.
    fn update_state(&mut self, state: PinState)
        ensures
            final(self).out == (state == PinState::High),
            final(self).cfg == old(self).cfg,
            final(self).inp == old(self).inp,
    {
        match state {
            PinState::High => self.out = true,
            PinState::Low => self.out = false,
        }
    }
}

impl<const P: u8, const N: u8, MODE> Pin<P, N, Output<MODE>> {
    /// Drive the pin high.
    #[inline(always)]
    pub fn set_high(&mut self)
        ensures
            final(self).out,
            final(self).cfg == old(self).cfg,
            final(self).inp == old(self).inp,
    {
        self.out = true;
    }

    /// Drive the pin low.
    #[inline(always)]
    pub fn set_low(&mut self)
        ensures
            !final(self).out,
            final(self).cfg == old(self).cfg,
            final(self).inp == old(self).inp,
    {
        self.out = false;
    }

    /// The level currently latched on the output.
    #[inline(always)]
    pub fn get_state(&self) -> (r: PinState)
        ensures
            r == (if self.out {
                PinState::High
            } else {
                PinState::Low
            }),
    {
        if self.is_set_low() {
            PinState::Low
        } else {
            PinState::High
        }
    }

    /// Latch the given level on the output.
    #[inline(always)]
    pub fn set_state(&mut self, state: PinState)
        ensures
            final(self).out == (state == PinState::High),
            final(self).cfg == old(self).cfg,
            final(self).inp == old(self).inp,
    {
        match state {
            PinState::Low => self.set_low(),
            PinState::High => self.set_high(),
        }
    }

    /// Whether the output latch is high.
    #[inline(always)]
    pub fn is_set_high(&self) -> (r: bool)
        ensures
            r == self.out,
    {
        !self.is_set_low()
    }

    /// Whether the output latch is low.
    #[inline(always)]
    pub fn is_set_low(&self) -> (r: bool)
        ensures
            r == !self.out,
    {
        !self.out
    }

    /// Invert the output latch.
    #[inline(always)]
    pub fn toggle(&mut self)
        ensures
            final(self).out == !old(self).out,
            final(self).cfg == old(self).cfg,
            final(self).inp == old(self).inp,
    {
        let s = self.get_state();
        match s {
            PinState::Low => self.set_state(PinState::High),
            PinState::High => self.set_state(PinState::Low),
        }
    }
}

impl<const P: u8, const N: u8, MODE> Pin<P, N, Output<MODE>> {
    /// Set pin speed: replace the `MODE` bits of the configuration nibble.
    pub fn set_speed(self, speed: Speed) -> (r: Self)
        ensures
            r.cfg == (self.cfg & 0b1100) | speed.spec_bits(),
            r.out == self.out,
            r.inp == self.inp,
    {
        Self { cfg: (self.cfg & 0b1100) | speed.bits(), ..self }
    }
}

impl<const P: u8, const N: u8> Pin<P, N, Alternate<PushPull>> {
    /// Set pin speed: replace the `MODE` bits of the configuration nibble.
    pub fn set_speed(self, speed: Speed) -> (r: Self)
        ensures
            r.cfg == (self.cfg & 0b1100) | speed.spec_bits(),
            r.out == self.out,
            r.inp == self.inp,
    {
        Self { cfg: (self.cfg & 0b1100) | speed.bits(), ..self }
    }

    /// Turns pin alternate configuration pin into open drain
    pub fn set_open_drain(self) -> (r: Pin<P, N, Alternate<OpenDrain>>)
        ensures
            r.cfg == self.cfg | 0b1100,
            r.out == self.out,
            r.inp == self.inp,
    {
        Pin { cfg: self.cfg | 0b1100, out: self.out, inp: self.inp, _mode: PhantomData }
    }
}


impl<const P: u8, const N: u8, MODE> OutputSpeed for Pin<P, N, Output<MODE>> {
    fn set_output_speed(&mut self, speed: Speed) {
        self.cfg = (self.cfg & 0b1100) | speed.bits();
    }
}

impl<const P: u8, const N: u8> OutputSpeed for Pin<P, N, Alternate<PushPull>> {
    fn set_output_speed(&mut self, speed: Speed) {
        self.cfg = (self.cfg & 0b1100) | speed.bits();
    }
}

// Reading the line: open-drain outputs and inputs observe the electrical
// level, not the latch.

impl<const P: u8, const N: u8> Pin<P, N, Output<OpenDrain>> {
    /// Whether the observed line level is high.
    #[inline(always)]
    pub fn is_high(&self) -> (r: bool)
        ensures
            r == self.inp,
    {
        !self.is_low()
    }

    /// Whether the observed line level is low.
    #[inline(always)]
    pub fn is_low(&self) -> (r: bool)
        ensures
            r == !self.inp,
    {
        !self.inp
    }
}

impl<const P: u8, const N: u8, MODE> Pin<P, N, Input<MODE>> {
    /// Whether the observed line level is high.
    #[inline(always)]
    pub fn is_high(&self) -> (r: bool)
        ensures
            r == self.inp,
    {
        !self.is_low()
    }

    /// Whether the observed line level is low.
    #[inline(always)]
    pub fn is_low(&self) -> (r: bool)
        ensures
            r == !self.inp,
    {
        !self.inp
    }
}

} // verus!
