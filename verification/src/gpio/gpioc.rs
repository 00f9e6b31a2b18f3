//! GPIO port C: the port split into independent pins.

use vstd::prelude::*;

use core::marker::PhantomData;

use crate::gpio::{Alternate, Floating, GpioExt, Input, Pin, PushPull};
use crate::rcc::enable::GPIOC;
use crate::rcc::{Enable, Rcc, Reset};

verus! {

/// GPIO parts
pub struct Parts {
    /// Pin
    pub pc0: PC0,
    /// Pin
    pub pc1: PC1,
    /// Pin
    pub pc2: PC2,
    /// Pin
    pub pc3: PC3,
    /// Pin
    pub pc4: PC4,
    /// Pin
    pub pc5: PC5,
    /// Pin
    pub pc6: PC6,
    /// Pin
    pub pc7: PC7,
}

/// Pin C0.
pub type PC0<MODE = Input<Floating>> = Pin<2, 0, MODE>;
/// Pin C1.
pub type PC1<MODE = Input<Floating>> = Pin<2, 1, MODE>;
/// Pin C2.
pub type PC2<MODE = Input<Floating>> = Pin<2, 2, MODE>;
/// Pin C3.
pub type PC3<MODE = Input<Floating>> = Pin<2, 3, MODE>;
/// Pin C4.
pub type PC4<MODE = Input<Floating>> = Pin<2, 4, MODE>;
/// Pin C5.
pub type PC5<MODE = Input<Floating>> = Pin<2, 5, MODE>;
/// Pin C6.
pub type PC6<MODE = Input<Floating>> = Pin<2, 6, MODE>;
/// Pin C7.
pub type PC7<MODE = Input<Floating>> = Pin<2, 7, MODE>;

impl GpioExt for GPIOC {
    type Parts = Parts;

    fn split(self, rcc: &mut Rcc) -> Parts {
        // Power on the port and reset it before handing out its pins.
        GPIOC::enable(&mut rcc.apb2);
        GPIOC::reset(&mut rcc.apb2);
        Parts {
            pc0: Pin { cfg: 0b0100, out: false, inp: false, _mode: PhantomData },
            pc1: Pin { cfg: 0b0100, out: false, inp: false, _mode: PhantomData },
            pc2: Pin { cfg: 0b0100, out: false, inp: false, _mode: PhantomData },
            pc3: Pin { cfg: 0b0100, out: false, inp: false, _mode: PhantomData },
            pc4: Pin { cfg: 0b0100, out: false, inp: false, _mode: PhantomData },
            pc5: Pin { cfg: 0b0100, out: false, inp: false, _mode: PhantomData },
            pc6: Pin { cfg: 0b0100, out: false, inp: false, _mode: PhantomData },
            pc7: Pin { cfg: 0b0100, out: false, inp: false, _mode: PhantomData },
        }
    }
}

} // verus!
