//! Simple busy-loop delay provider.
//!
//! The cycle count for a wait is computed here; the embedding performs
//! the actual spin.

use vstd::prelude::*;

use crate::rcc::Clocks;
use crate::time::Hertz;

verus! {

/// A delay provider counting core cycles.
pub struct CycleDelay {
    /// The core-bus frequency the cycle counts are computed for.
    pub rate: Hertz,
}

impl CycleDelay {
    /// Take the core-bus frequency for delay computation.
    pub fn new(clocks: &Clocks) -> (r: CycleDelay)
        ensures
            r.rate == clocks.hclk,
    {
        CycleDelay { rate: clocks.hclk() }
    }

    /// The number of cycle-counter steps that spans `ns` nanoseconds: the
    /// core executes one counted instruction every two cycles.
    pub fn cycles_for_ns(&self, ns: u32) -> (r: u64)
        ensures
            r == ns as int * self.rate.raw as int / 2_000_000_000,
    {
        proof {
            assert(ns as int * self.rate.raw as int <= 0xFFFF_FFFF * 0xFFFF_FFFF)
                by (nonlinear_arith)
                requires
                    ns <= 0xFFFF_FFFF,
                    self.rate.raw <= 0xFFFF_FFFF,
            ;
        }
        (ns as u64) * (self.rate.raw as u64) / 2_000_000_000
    }
}

} // verus!
