//! Watchdog peripherals
//!
//! The independent watchdog counts down from a reload value at the
//! low-speed internal oscillator frequency divided by a power-of-two
//! prescaler.  Choosing the prescaler and reload value for a requested
//! timeout is pure arithmetic, verified here; the register writes and the
//! key-protected access sequence are performed by the embedding.

use vstd::prelude::*;

use crate::time::MilliSeconds;

verus! {

/// The low-speed oscillator frequency in kilohertz.
pub const LSI_KHZ: u32 = 128;

/// Largest prescaler field value (exclusive).
pub const MAX_PR: u8 = 8;

/// Largest reload value.
pub const MAX_RL: u16 = 0xFFF;

/// Field-level model of the independent watchdog register block.
#[derive(Clone, Copy, Debug, PartialEq, Eq, Structural)]
pub struct IwdgRegs {
    /// `PR`: prescaler field; the counter is divided by `4 << PR`.
    pub pr: u8,
    /// `RL`: reload value.
    pub rl: u16,
    /// The watchdog has been started (a start can never be undone).
    pub started: bool,
}

/// Wraps the Independent Watchdog (IWDG) peripheral
pub struct IndependentWatchdog {
    /// Model of the watchdog register block.
    pub iwdg: IwdgRegs,
}

/// The counter divider selected by a prescaler field value: 4 to 256 in
/// powers of two, and 0 for field values the hardware does not define.
pub open spec fn spec_divider(pr: u8) -> u32 {
    if pr == 0 {
        4
    } else if pr == 1 {
        8
    } else if pr == 2 {
        16
    } else if pr == 3 {
        32
    } else if pr == 4 {
        64
    } else if pr == 5 {
        128
    } else if pr == 6 {
        256
    } else if pr == 7 {
        256
    } else {
        0
    }
}

/// The watchdog period in milliseconds for a prescaler field and a reload
/// value.
pub open spec fn spec_timeout_period(pr: u8, rl: u16) -> int {
    (rl + 1) * spec_divider(pr) / (LSI_KHZ as int)
}

impl IndependentWatchdog {
    /// Wrap the watchdog peripheral.
    pub fn new(iwdg: IwdgRegs) -> (r: Self)
        ensures
            r.iwdg == iwdg,
    {
        IndependentWatchdog { iwdg }
    }

    /// pr: Prescaler divider bits, rl: reload value
    ///
    /// Returns ms
    pub fn timeout_period(pr: u8, rl: u16) -> (r: u32)
        ensures
            r == spec_timeout_period(pr, rl),
    {
        let divider: u32 = match pr {
            0b000 => 4,
            0b001 => 8,
            0b010 => 16,
            0b011 => 32,
            0b100 => 64,
            0b101 => 128,
            0b110 => 256,
            0b111 => 256,
            _ => {
                proof {
                    assert((rl + 1) * 0 == 0) by (nonlinear_arith);
                    assert(0int / (128int) == 0) by (nonlinear_arith);
                }
                return 0;
            },
        };
        proof {
            assert((rl + 1) * divider <= 65536 * 256) by (nonlinear_arith)
                requires
                    rl <= 0xFFFF,
                    divider <= 256,
            ;
        }
        ((rl as u32 + 1) * divider) / LSI_KHZ
    }

    /// Choose the smallest prescaler whose maximum period covers
    /// `timeout_ms`, then scale the reload value to the requested timeout.
    /// Timeouts beyond the longest supported period (8192 ms) cannot be
    /// represented.
    fn setup(&mut self, timeout_ms: u32)
        requires
            timeout_ms <= 8192,
        ensures
            final(self).iwdg.started == old(self).iwdg.started,
            final(self).iwdg.pr < MAX_PR,
            spec_timeout_period(final(self).iwdg.pr, MAX_RL) >= timeout_ms,
            forall|j: u8|
                j < final(self).iwdg.pr ==> spec_timeout_period(j, MAX_RL) < timeout_ms,
            ({
                let max_period = spec_timeout_period(final(self).iwdg.pr, MAX_RL);
                let scaled = timeout_ms * (MAX_RL as int) / max_period;
                final(self).iwdg.rl == (if scaled <= MAX_RL as int {
                    scaled
                } else {
                    MAX_RL as int
                })
            }),
    {
        let mut pr: u8 = 0;
        while pr < MAX_PR && Self::timeout_period(pr, MAX_RL) < timeout_ms
            invariant
                timeout_ms <= 8192,
                pr <= MAX_PR,
                forall|j: u8| j < pr ==> spec_timeout_period(j, MAX_RL) < timeout_ms,
            decreases MAX_PR - pr,
        {
            pr = pr + 1;
        }
        proof {
            assert(spec_timeout_period(7, MAX_RL) == 8192) by (nonlinear_arith);
            if pr == MAX_PR {
                assert(spec_timeout_period(7, MAX_RL) < timeout_ms);
                assert(false);
            }
        }

        let max_period: u32 = Self::timeout_period(pr, MAX_RL);
        proof {
            assert(spec_timeout_period(pr, MAX_RL) >= 128) by (nonlinear_arith)
                requires
                    pr < 8,
            ;
        }
        let max_rl: u32 = MAX_RL as u32;
        let scaled: u32 = timeout_ms * max_rl / max_period;
        let rl: u16 = if scaled <= max_rl {
            scaled as u16
        } else {
            MAX_RL
        };

        self.iwdg.pr = pr;
        self.iwdg.rl = rl;
    }

    /// Whether a prescaler update is still being transferred to the
    /// watchdog clock domain.  Writes to the model take effect at once, so
    /// the answer is always no; on the hardware the embedding polls the
    /// status register instead.
    pub fn is_pr_updating(&self) -> (r: bool)
        ensures
            !r,
    {
        false
    }

    /// Returns the currently programmed interval in ms
    pub fn interval(&self) -> (r: MilliSeconds)
        ensures
            r.ticks == spec_timeout_period(self.iwdg.pr, self.iwdg.rl),
    {
        let ms = Self::timeout_period(self.iwdg.pr, self.iwdg.rl);
        MilliSeconds { ticks: ms }
    }

    /// Program the prescaler and reload value for `period` and start the
    /// watchdog.  Once started it can never be stopped.
    pub fn start(&mut self, period: MilliSeconds)
        requires
            period.ticks <= 8192,
        ensures
            final(self).iwdg.started,
            final(self).iwdg.pr < MAX_PR,
            spec_timeout_period(final(self).iwdg.pr, MAX_RL) >= period.ticks,
            forall|j: u8|
                j < final(self).iwdg.pr ==> spec_timeout_period(j, MAX_RL) < period.ticks,
            ({
                let max_period = spec_timeout_period(final(self).iwdg.pr, MAX_RL);
                let scaled = period.ticks * (MAX_RL as int) / max_period;
                final(self).iwdg.rl == (if scaled <= MAX_RL as int {
                    scaled
                } else {
                    MAX_RL as int
                })
            }),
    {
        self.setup(period.ticks());
        self.iwdg.started = true;
    }

    /// Reload the countdown.  The model state is unchanged: feeding only
    /// rewinds the hardware counter.
    pub fn feed(&mut self)
        ensures
            *final(self) == *old(self),
    {
    }
}

} // verus!
