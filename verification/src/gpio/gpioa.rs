//! GPIO port A: the port split into independent pins.

use vstd::prelude::*;

use core::marker::PhantomData;

use crate::gpio::{Alternate, Floating, GpioExt, Input, Pin, PushPull};
use crate::rcc::enable::GPIOA;
use crate::rcc::{Enable, Rcc, Reset};

verus! {

/// GPIO parts
pub struct Parts {
    /// Pin
    pub pa1: PA1,
    /// Pin
    pub pa2: PA2,
}

/// Pin A1.
pub type PA1<MODE = Input<Floating>> = Pin<0, 1, MODE>;
/// Pin A2.
pub type PA2<MODE = Input<Floating>> = Pin<0, 2, MODE>;

impl GpioExt for GPIOA {
    type Parts = Parts;

    fn split(self, rcc: &mut Rcc) -> Parts {
        // Power on the port and reset it before handing out its pins.
        GPIOA::enable(&mut rcc.apb2);
        GPIOA::reset(&mut rcc.apb2);
        Parts {
            pa1: Pin { cfg: 0b0100, out: false, inp: false, _mode: PhantomData },
            pa2: Pin { cfg: 0b0100, out: false, inp: false, _mode: PhantomData },
        }
    }
}

} // verus!
