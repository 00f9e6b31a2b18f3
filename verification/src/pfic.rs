//! Programmable Fast Interrupt Controller (PFIC)

use vstd::prelude::*;

verus! {

/// Extension trait to take ownership of the interrupt controller.
pub trait PficExt {
    fn constrain(self) -> Pfic;
}

/// The constrained interrupt controller.
pub struct Pfic {
    _0: (),
}

impl Pfic {
    /// Wrap the interrupt controller.
    pub fn new() -> Pfic {
        Pfic { _0: () }
    }
}

} // verus!
