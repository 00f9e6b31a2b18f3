//! Delays

use vstd::prelude::*;

use crate::rcc::Clocks;
use crate::timer::SYSTICK;

verus! {

/// A delay using the systick timer.
///
/// Timing mostly doesn't vary from interrupts.
pub struct SysDelay {
    /// The counting hardware, running from the core clock.
    pub systick: SYSTICK,
    /// Counter ticks per microsecond.
    pub scale: u32,
    /// The longest single wait, chosen so the tick count stays well below
    /// the counter range even with interrupt jitter.
    pub max_us: u32,
}

impl SysDelay {
    /// Take the systick counter for delays.  The core clock must be at
    /// least 1 MHz for the microsecond scale to be meaningful.
    pub fn new(systick: SYSTICK, clocks: &Clocks) -> (r: SysDelay)
        requires
            clocks.hclk.raw >= 1_000_000,
        ensures
            r.scale == clocks.hclk.raw / 1_000_000,
            r.max_us == 80_000_000u32 / r.scale - 1,
            r.systick.enabled,
            r.systick.hclk_source,
    {
        let mut systick = systick;
        systick.hclk_source = true;
        systick.enabled = true;
        let scale = clocks.hclk().raw / 1_000_000;
        proof {
            assert(clocks.hclk.raw / 1_000_000 >= 1) by (nonlinear_arith)
                requires
                    clocks.hclk.raw >= 1_000_000,
            ;
            assert(80_000_000u32 / scale >= 1) by (nonlinear_arith)
                requires
                    1 <= scale <= 80_000_000,
            ;
        }
        SysDelay { systick, scale, max_us: (80_000_000 / scale) - 1 }
    }
}

} // verus!
