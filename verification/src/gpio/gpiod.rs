//! GPIO port D: the port split into independent pins.

use vstd::prelude::*;

use core::marker::PhantomData;

use crate::gpio::{Alternate, Floating, GpioExt, Input, Pin, PushPull};
use crate::rcc::enable::GPIOD;
use crate::rcc::{Enable, Rcc, Reset};

verus! {

/// GPIO parts
pub struct Parts {
    /// Pin
    pub pd0: PD0,
    /// Pin
    pub pd1: PD1,
    /// Pin
    pub pd2: PD2,
    /// Pin
    pub pd3: PD3,
    /// Pin
    pub pd4: PD4,
    /// Pin
    pub pd5: PD5,
    /// Pin
    pub pd6: PD6,
    /// Pin
    pub pd7: PD7,
}

/// Pin D0.
pub type PD0<MODE = Input<Floating>> = Pin<3, 0, MODE>;
/// Pin D1.
pub type PD1<MODE = Alternate<PushPull>> = Pin<3, 1, MODE>;
/// Pin D2.
pub type PD2<MODE = Input<Floating>> = Pin<3, 2, MODE>;
/// Pin D3.
pub type PD3<MODE = Input<Floating>> = Pin<3, 3, MODE>;
/// Pin D4.
pub type PD4<MODE = Input<Floating>> = Pin<3, 4, MODE>;
/// Pin D5.
pub type PD5<MODE = Input<Floating>> = Pin<3, 5, MODE>;
/// Pin D6.
pub type PD6<MODE = Input<Floating>> = Pin<3, 6, MODE>;
/// Pin D7.
pub type PD7<MODE = Input<Floating>> = Pin<3, 7, MODE>;

impl GpioExt for GPIOD {
    type Parts = Parts;

    fn split(self, rcc: &mut Rcc) -> Parts {
        // Power on the port and reset it before handing out its pins.
        GPIOD::enable(&mut rcc.apb2);
        GPIOD::reset(&mut rcc.apb2);
        Parts {
            pd0: Pin { cfg: 0b0100, out: false, inp: false, _mode: PhantomData },
            pd1: Pin { cfg: 0b1011, out: false, inp: false, _mode: PhantomData },
            pd2: Pin { cfg: 0b0100, out: false, inp: false, _mode: PhantomData },
            pd3: Pin { cfg: 0b0100, out: false, inp: false, _mode: PhantomData },
            pd4: Pin { cfg: 0b0100, out: false, inp: false, _mode: PhantomData },
            pd5: Pin { cfg: 0b0100, out: false, inp: false, _mode: PhantomData },
            pd6: Pin { cfg: 0b0100, out: false, inp: false, _mode: PhantomData },
            pd7: Pin { cfg: 0b0100, out: false, inp: false, _mode: PhantomData },
        }
    }
}

} // verus!
