//! In-built operation amplifier control.
//!
//! The OPA peripheral does not have programmable gain - it relies on
//! external feedback resistors/connections.  Enabling it computes the
//! input-selection bits of the extension control register, modelled here;
//! the embedding writes them to the hardware.

use vstd::prelude::*;

use crate::gpio::{Analog, Input, PA1, PA2, PD0, PD4, PD7};
use crate::Sealed;

verus! {

/// Field-level model of the extension control register's amplifier bits.
#[derive(Clone, Copy, Debug, PartialEq, Eq, Structural)]
pub struct ExtendCtr {
    /// `OPA_EN`: the amplifier is enabled.
    pub opa_en: bool,
    /// `OPA_PSEL`: non-inverting input selection.
    pub opa_psel: bool,
    /// `OPA_NSEL`: inverting input selection.
    pub opa_nsel: bool,
}

impl ExtendCtr {
    /// The reset state of the register.
    pub fn new() -> (r: ExtendCtr)
        ensures
            r == (ExtendCtr { opa_en: false, opa_psel: false, opa_nsel: false }),
    {
        ExtendCtr { opa_en: false, opa_psel: false, opa_nsel: false }
    }
}

/// Pins that can be used as the non-inverting input to the operation
/// amplifier impl this trait.
pub trait NonInvertingPin: Sealed {
    /// Value of the selection bit that routes this pin to the
    /// non-inverting input.
    spec fn spec_sel() -> bool;

    /// Value of the selection bit that routes this pin to the
    /// non-inverting input.
    fn sel() -> (r: bool)
        ensures
            r == Self::spec_sel(),
    ;
}

/// Pins that can be used as the inverting input to the operation
/// amplifier impl this trait.
pub trait InvertingPin: Sealed {
    /// Value of the selection bit that routes this pin to the inverting
    /// input.
    spec fn spec_sel() -> bool;

    /// Value of the selection bit that routes this pin to the inverting
    /// input.
    fn sel() -> (r: bool)
        ensures
            r == Self::spec_sel(),
    ;
}

impl<T> Sealed for PD0<T> {}

impl<T> Sealed for PA1<T> {}

impl<T> Sealed for PD7<T> {}

impl<T> Sealed for PA2<T> {}

/// `OPP0` - `PA2`
impl<MODE: ValidPinMode> NonInvertingPin for PA2<MODE> {
    open spec fn spec_sel() -> bool {
        false
    }

    fn sel() -> (r: bool) {
        false
    }
}

/// `OPP1` - `PD7`
impl<MODE: ValidPinMode> NonInvertingPin for PD7<MODE> {
    open spec fn spec_sel() -> bool {
        true
    }

    fn sel() -> (r: bool) {
        true
    }
}

/// `OPN0` - `PA1`
impl<MODE: ValidPinMode> InvertingPin for PA1<MODE> {
    open spec fn spec_sel() -> bool {
        false
    }

    fn sel() -> (r: bool) {
        false
    }
}

/// `OPN1` - `PD0`
impl<MODE: ValidPinMode> InvertingPin for PD0<MODE> {
    open spec fn spec_sel() -> bool {
        true
    }

    fn sel() -> (r: bool) {
        true
    }
}

/// Pin modes implementing this are pin modes which are suitable to use
/// with OPA.
pub trait ValidPinMode {}

/// A GPIO which is also being measured by the ADC can be used with OPA.
impl ValidPinMode for Analog {}

/// A GPIO which is an input, even if it has a pull-resistor enabled, can
/// still be used with OPA.
impl<MODE> ValidPinMode for Input<MODE> {}

/// In-built operational amplifier control.
pub struct OpAmp<MODE, P: NonInvertingPin, N: InvertingPin> {
    pub non_inverting_pin: P,
    pub inverting_pin: N,
    pub output_pin: PD4<MODE>,
}

impl<MODE: ValidPinMode, P: NonInvertingPin, N: InvertingPin> OpAmp<MODE, P, N> {
    /// Enable the OPA, taking hold of the pins the OPA is using until
    /// disabled.
    ///
    /// Pins that can be passed for non-inverting input - `non_inverting_pin`:
    /// * `PA2`
    /// * `PD7`
    ///
    /// Pins that can be passed for inverting input - `inverting_pin`:
    /// * `PA1`
    /// * `PD0`
    ///
    /// The output of the amplifier is always `PD4`.
    pub fn enable(
        non_inverting_pin: P,
        inverting_pin: N,
        output_pin: PD4<MODE>,
        ctr: &mut ExtendCtr,
    ) -> (r: Self)
        ensures
            final(ctr).opa_en,
            final(ctr).opa_psel == P::spec_sel(),
            final(ctr).opa_nsel == N::spec_sel(),
    {
        ctr.opa_en = true;
        ctr.opa_psel = P::sel();
        ctr.opa_nsel = N::sel();

        // We hold on to the pins until the OPA is disabled.
        OpAmp { non_inverting_pin, inverting_pin, output_pin }
    }

    /// Turn off the OPA peripheral, returning the pins it was using.
    pub fn disable(self, ctr: &mut ExtendCtr) -> (r: (P, N, PD4<MODE>))
        ensures
            *final(ctr) == (ExtendCtr { opa_en: false, opa_psel: false, opa_nsel: false }),
    {
        // Clearing all bits back to reset value of 0.
        ctr.opa_en = false;
        ctr.opa_psel = false;
        ctr.opa_nsel = false;

        (self.non_inverting_pin, self.inverting_pin, self.output_pin)
    }
}

} // verus!
