//! Conversion between pin modes.
//!
//! Each target mode has a fixed configuration nibble (`CNF << 2 | MODE`)
//! and, for the pulled inputs, a required output-latch level that selects
//! the pull direction.

use vstd::prelude::*;

use core::marker::PhantomData;

use super::{
    Alternate, Analog, Floating, Input, OpenDrain, Output, Pin, PinState, PullDown, PullUp,
    PushPull,
};

verus! {

/// Marker trait for valid pin modes (type state).
///
/// It can not be implemented by outside types.
pub trait PinMode: crate::Sealed {
    /// The mode's configuration nibble: `CNF << 2 | MODE`.
    spec fn spec_cfg_bits() -> u8;

    /// The output-latch level the mode requires, where it requires one
    /// (the pulled inputs select their pull direction through the latch).
    spec fn spec_odr() -> Option<bool>;

    /// The mode's configuration nibble.
    fn cfg_bits() -> (r: u8)
        ensures
            r == Self::spec_cfg_bits(),
    ;

    /// The output-latch level the mode requires, if any.
    fn odr() -> (r: Option<bool>)
        ensures
            r == Self::spec_odr(),
    ;
}

impl crate::Sealed for Input<Floating> {}

impl PinMode for Input<Floating> {
    open spec fn spec_cfg_bits() -> u8 {
        0b0100
    }

    open spec fn spec_odr() -> Option<bool> {
        None
    }

    fn cfg_bits() -> (r: u8) {
        0b0100
    }

    fn odr() -> (r: Option<bool>) {
        None
    }
}

impl crate::Sealed for Input<PullDown> {}

impl PinMode for Input<PullDown> {
    open spec fn spec_cfg_bits() -> u8 {
        0b1000
    }

    open spec fn spec_odr() -> Option<bool> {
        Some(false)
    }

    fn cfg_bits() -> (r: u8) {
        0b1000
    }

    fn odr() -> (r: Option<bool>) {
        Some(false)
    }
}

impl crate::Sealed for Input<PullUp> {}

impl PinMode for Input<PullUp> {
    open spec fn spec_cfg_bits() -> u8 {
        0b1000
    }

    open spec fn spec_odr() -> Option<bool> {
        Some(true)
    }

    fn cfg_bits() -> (r: u8) {
        0b1000
    }

    fn odr() -> (r: Option<bool>) {
        Some(true)
    }
}

impl crate::Sealed for Analog {}

impl PinMode for Analog {
    open spec fn spec_cfg_bits() -> u8 {
        0b0000
    }

    open spec fn spec_odr() -> Option<bool> {
        None
    }

    fn cfg_bits() -> (r: u8) {
        0b0000
    }

    fn odr() -> (r: Option<bool>) {
        None
    }
}

impl crate::Sealed for Output<OpenDrain> {}

impl PinMode for Output<OpenDrain> {
    open spec fn spec_cfg_bits() -> u8 {
        0b0111
    }

    open spec fn spec_odr() -> Option<bool> {
        None
    }

    fn cfg_bits() -> (r: u8) {
        0b0111
    }

    fn odr() -> (r: Option<bool>) {
        None
    }
}

impl crate::Sealed for Output<PushPull> {}

impl PinMode for Output<PushPull> {
    open spec fn spec_cfg_bits() -> u8 {
        0b0011
    }

    open spec fn spec_odr() -> Option<bool> {
        None
    }

    fn cfg_bits() -> (r: u8) {
        0b0011
    }

    fn odr() -> (r: Option<bool>) {
        None
    }
}

impl<const P: u8, const N: u8, MODE> Pin<P, N, MODE> {
    /// Switch the configuration nibble to alternate push-pull output at
    /// the maximum slew rate.
    pub(super) fn set_alternate(&mut self)
        ensures
            final(self).cfg == 0b1011,
            final(self).out == old(self).out,
            final(self).inp == old(self).inp,
    {
        self.cfg = 0b1011;
    }

    /// Configures the pin to operate alternate mode
    pub fn into_alternate(self) -> (r: Pin<P, N, Alternate<PushPull>>)
        ensures
            r.cfg == 0b1011,
            r.out == self.out,
            r.inp == self.inp,
    {
        let mut this = self;
        this.set_alternate();
        Pin { cfg: this.cfg, out: this.out, inp: this.inp, _mode: PhantomData }
    }

    /// Configures the pin to operate in alternate open drain mode
    pub fn into_alternate_open_drain(self) -> (r: Pin<P, N, Alternate<OpenDrain>>)
        ensures
            r.cfg == 0b1111,
            r.out == self.out,
            r.inp == self.inp,
    {
        proof {
            assert(0b1011u8 | 0b1100u8 == 0b1111u8) by (bit_vector);
        }
        self.into_alternate().set_open_drain()
    }

    /// Configures the pin to operate as a floating input pin
    pub fn into_floating_input(self) -> (r: Pin<P, N, Input<Floating>>)
        ensures
            r.cfg == 0b0100,
            r.out == self.out,
            r.inp == self.inp,
    {
        let mut this = self;
        this.mode::<Input<Floating>>();
        Pin { cfg: this.cfg, out: this.out, inp: this.inp, _mode: PhantomData }
    }

    /// Configures the pin to operate as a pulled down input pin
    pub fn into_pull_down_input(self) -> (r: Pin<P, N, Input<PullDown>>)
        ensures
            r.cfg == 0b1000,
            !r.out,
            r.inp == self.inp,
    {
        let mut this = self;
        this.mode::<Input<PullDown>>();
        Pin { cfg: this.cfg, out: this.out, inp: this.inp, _mode: PhantomData }
    }

    /// Configures the pin to operate as a pulled up input pin
    pub fn into_pull_up_input(self) -> (r: Pin<P, N, Input<PullUp>>)
        ensures
            r.cfg == 0b1000,
            r.out,
            r.inp == self.inp,
    {
        let mut this = self;
        this.mode::<Input<PullUp>>();
        Pin { cfg: this.cfg, out: this.out, inp: this.inp, _mode: PhantomData }
    }

    /// Configures the pin to operate as an open drain output pin.
    /// The output latch keeps its previous level.
    pub fn into_open_drain_output(self) -> (r: Pin<P, N, Output<OpenDrain>>)
        ensures
            r.cfg == 0b0111,
            r.out == self.out,
            r.inp == self.inp,
    {
        let mut this = self;
        this.mode::<Output<OpenDrain>>();
        Pin { cfg: this.cfg, out: this.out, inp: this.inp, _mode: PhantomData }
    }

    /// Configures the pin to operate as an open-drain output pin.
    /// `initial_state` specifies whether the pin should be initially high or low.
    pub fn into_open_drain_output_in_state(self, initial_state: PinState) -> (r: Pin<
        P,
        N,
        Output<OpenDrain>,
    >)
        ensures
            r.cfg == 0b0111,
            r.out == (initial_state == PinState::High),
            r.inp == self.inp,
    {
        let mut this = self;
        this.update_state(initial_state);
        this.mode::<Output<OpenDrain>>();
        Pin { cfg: this.cfg, out: this.out, inp: this.inp, _mode: PhantomData }
    }

    /// Configures the pin to operate as an push pull output pin.
    /// Initial state will be low.
    pub fn into_push_pull_output(self) -> (r: Pin<P, N, Output<PushPull>>)
        ensures
            r.cfg == 0b0011,
            !r.out,
            r.inp == self.inp,
    {
        let mut this = self;
        this.update_state(PinState::Low);
        this.mode::<Output<PushPull>>();
        Pin { cfg: this.cfg, out: this.out, inp: this.inp, _mode: PhantomData }
    }

    /// Configures the pin to operate as an push-pull output pin.
    /// `initial_state` specifies whether the pin should be initially high or low.
    pub fn into_push_pull_output_in_state(self, initial_state: PinState) -> (r: Pin<
        P,
        N,
        Output<PushPull>,
    >)
        ensures
            r.cfg == 0b0011,
            r.out == (initial_state == PinState::High),
            r.inp == self.inp,
    {
        let mut this = self;
        this.update_state(initial_state);
        this.mode::<Output<PushPull>>();
        Pin { cfg: this.cfg, out: this.out, inp: this.inp, _mode: PhantomData }
    }

    /// Configures the pin to operate as an analog input pin
    pub fn into_analog(self) -> (r: Pin<P, N, Analog>)
        ensures
            r.cfg == 0b0000,
            r.out == self.out,
            r.inp == self.inp,
    {
        let mut this = self;
        this.mode::<Analog>();
        Pin { cfg: this.cfg, out: this.out, inp: this.inp, _mode: PhantomData }
    }

    /// Puts `self` into mode `M`: writes the mode's configuration nibble
    /// and, where the mode requires one, the output latch.
    ///
    /// This violates the type state constraints from `MODE`, so callers
    /// must ensure they use this properly.
    #[inline(always)]
    pub(super) fn mode<M: PinMode>(&mut self)
        ensures
            final(self).cfg == M::spec_cfg_bits(),
            final(self).out == (match M::spec_odr() {
                Some(level) => level,
                None => old(self).out,
            }),
            final(self).inp == old(self).inp,
    {
        self.cfg = M::cfg_bits();
        if let Some(level) = M::odr() {
            self.out = level;
        }
    }
}

} // verus!
