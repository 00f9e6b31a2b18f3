//! Timers.
//!
//! The timer register blocks are modelled field by field.  The prescaler
//! arithmetic — dividing a bus clock down to a counting frequency — is
//! exact by construction: a frequency that does not divide the timer
//! clock is rejected before anything is configured.

use vstd::prelude::*;

pub mod delay;
pub mod pins;

use crate::rcc;
use crate::rcc::enable::{TIM1, TIM2};
use crate::rcc::{Clocks, GateBus};
use crate::time::Hertz;

verus! {

/// A timer channel.
#[derive(Clone, Copy, PartialEq, Eq, Structural, Debug)]
pub enum Channel {
    C1,
    C2,
    C3,
    C4,
}

impl Channel {
    /// The channel's index.
    pub open spec fn spec_index(self) -> u8 {
        match self {
            Channel::C1 => 0,
            Channel::C2 => 1,
            Channel::C3 => 2,
            Channel::C4 => 3,
        }
    }

    /// The channel's index.
    #[verifier::when_used_as_spec(spec_index)]
    pub fn index(self) -> (r: u8)
        ensures
            r == self.spec_index(),
    {
        match self {
            Channel::C1 => 0,
            Channel::C2 => 1,
            Channel::C3 => 2,
            Channel::C4 => 3,
        }
    }
}

/// Interrupt events
#[derive(Clone, Copy, PartialEq, Eq, Structural, Debug)]
pub enum SysEvent {
    /// [Timer] timed out / count down ended
    Update,
}

/// A set of timer interrupt events, one bit per event.
#[derive(Clone, Copy, PartialEq, Eq, Structural, Debug)]
pub struct Event {
    pub bits: u32,
}

impl Event {
    /// The empty event set.
    pub fn empty() -> (r: Event)
        ensures
            r.bits == 0,
    {
        Event { bits: 0 }
    }

    /// Counter update (overflow / reload).
    pub fn update() -> (r: Event)
        ensures
            r.bits == 0x1,
    {
        Event { bits: 0x1 }
    }

    /// Capture/compare on the first channel.
    pub fn c1() -> (r: Event)
        ensures
            r.bits == 0x2,
    {
        Event { bits: 0x2 }
    }

    /// Capture/compare on the second channel.
    pub fn c2() -> (r: Event)
        ensures
            r.bits == 0x4,
    {
        Event { bits: 0x4 }
    }

    /// Capture/compare on the third channel.
    pub fn c3() -> (r: Event)
        ensures
            r.bits == 0x8,
    {
        Event { bits: 0x8 }
    }

    /// Capture/compare on the fourth channel.
    pub fn c4() -> (r: Event)
        ensures
            r.bits == 0x10,
    {
        Event { bits: 0x10 }
    }

    /// The union of two event sets.
    pub fn union(self, other: Event) -> (r: Event)
        ensures
            r.bits == self.bits | other.bits,
    {
        Event { bits: self.bits | other.bits }
    }

    /// Whether every event of `other` is in this set.
    pub fn contains(self, other: Event) -> (r: bool)
        ensures
            r == (self.bits & other.bits == other.bits),
    {
        self.bits & other.bits == other.bits
    }
}

/// Timer errors.
#[derive(Debug, Eq, PartialEq, Structural, Copy, Clone)]
pub enum Error {
    /// Timer is disabled
    Disabled,
    /// The auto-reload value was zero or above the counter width
    WrongAutoReload,
}

/// SysTick clock source
#[derive(Clone, Copy, Debug, PartialEq, Eq, Structural)]
pub enum SystickClkSource {
    /// Count at the core-bus frequency.
    HClk,
    /// Count at one eighth of the core-bus frequency.
    HClkDiv8,
}

/// Output-compare modes.
#[derive(Clone, Copy, Debug, PartialEq, Eq, Structural)]
pub enum Ocm {
    Frozen,
    ActiveOnMatch,
    InactiveOnMatch,
    Toggle,
    ForceInactive,
    ForceActive,
    PwmMode1,
    PwmMode2,
}

/// Field-level model of a general-purpose timer register block.
#[derive(Clone, Copy, PartialEq, Eq, Structural, Debug)]
pub struct TimRegs {
    /// `CEN`: the counter is running.
    pub cen: bool,
    /// `ARPE`: auto-reload preload enabled.
    pub arpe: bool,
    /// `ATRLR`: auto-reload value.
    pub auto_reload: u32,
    /// `PSC`: prescaler value.
    pub prescaler: u16,
    /// `CNT`: current count.
    pub count: u32,
    /// `DMAINTENR`: enabled interrupt events.
    pub intens: u32,
    /// `INTFR`: pending interrupt flags.
    pub flags: u32,
    /// `MMS`: master mode selection.
    pub mms: u8,
    /// `CH1CVR`: first capture/compare value.
    pub cc1: u32,
    /// `CH2CVR`: second capture/compare value.
    pub cc2: u32,
    /// `CH3CVR`: third capture/compare value.
    pub cc3: u32,
    /// `CH4CVR`: fourth capture/compare value.
    pub cc4: u32,
}

impl TimRegs {
    /// The reset state of the register block.
    pub fn new() -> (r: TimRegs)
        ensures
            r == (TimRegs {
                cen: false,
                arpe: false,
                auto_reload: 0,
                prescaler: 0,
                count: 0,
                intens: 0,
                flags: 0,
                mms: 0,
                cc1: 0,
                cc2: 0,
                cc3: 0,
                cc4: 0,
            }),
    {
        TimRegs {
            cen: false,
            arpe: false,
            auto_reload: 0,
            prescaler: 0,
            count: 0,
            intens: 0,
            flags: 0,
            mms: 0,
            cc1: 0,
            cc2: 0,
            cc3: 0,
            cc4: 0,
        }
    }
}

/// The register-level operations every general-purpose timer offers.
pub trait General {
    /// The modelled register block.
    spec fn spec_regs(&self) -> TimRegs;

    /// The largest value the counter can hold.
    spec fn spec_max_auto_reload() -> u32;

    /// The largest value the counter can hold.
    fn max_auto_reload() -> (r: u32)
        ensures
            r == Self::spec_max_auto_reload(),
    ;

    /// Set the auto-reload value; zero and values above the counter width
    /// are rejected (a zero reload would spin the update event forever).
    fn set_auto_reload(&mut self, arr: u32) -> (r: Result<(), Error>)
        ensures
            match r {
                Ok(()) => {
                    &&& 0 < arr <= Self::spec_max_auto_reload()
                    &&& final(self).spec_regs() == (TimRegs {
                        auto_reload: arr,
                        ..old(self).spec_regs()
                    })
                },
                Err(e) => {
                    &&& e == Error::WrongAutoReload
                    &&& !(0 < arr <= Self::spec_max_auto_reload())
                    &&& final(self).spec_regs() == old(self).spec_regs()
                },
            },
    ;

    /// Read the auto-reload value back.
    fn read_auto_reload(&self) -> (r: u32)
        ensures
            r == self.spec_regs().auto_reload,
    ;

    /// Enable or disable auto-reload preload.
    fn enable_preload(&mut self, b: bool)
        ensures
            final(self).spec_regs() == (TimRegs { arpe: b, ..old(self).spec_regs() }),
    ;

    /// Start the counter.
    fn enable_counter(&mut self)
        ensures
            final(self).spec_regs() == (TimRegs { cen: true, ..old(self).spec_regs() }),
    ;

    /// Stop the counter.
    fn disable_counter(&mut self)
        ensures
            final(self).spec_regs() == (TimRegs { cen: false, ..old(self).spec_regs() }),
    ;

    /// Whether the counter is running.
    fn is_counter_enabled(&self) -> (r: bool)
        ensures
            r == self.spec_regs().cen,
    ;

    /// Reset the count to zero.
    fn reset_counter(&mut self)
        ensures
            final(self).spec_regs() == (TimRegs { count: 0, ..old(self).spec_regs() }),
    ;

    /// Set the prescaler value.
    fn set_prescaler(&mut self, psc: u16)
        ensures
            final(self).spec_regs() == (TimRegs { prescaler: psc, ..old(self).spec_regs() }),
    ;

    /// Read the prescaler value back.
    fn read_prescaler(&self) -> (r: u16)
        ensures
            r == self.spec_regs().prescaler,
    ;

    /// Clear the pending flags of the given events.
    fn clear_interrupt_flag(&mut self, event: Event)
        ensures
            final(self).spec_regs() == (TimRegs {
                flags: old(self).spec_regs().flags & !event.bits,
                ..old(self).spec_regs()
            }),
    ;

    /// Start or stop listening for the given events.
    fn listen_interrupt(&mut self, event: Event, b: bool)
        ensures
            final(self).spec_regs() == (TimRegs {
                intens: if b {
                    old(self).spec_regs().intens | event.bits
                } else {
                    old(self).spec_regs().intens & !event.bits
                },
                ..old(self).spec_regs()
            }),
    ;

    /// The pending interrupt flags.
    fn get_interrupt_flag(&self) -> (r: Event)
        ensures
            r.bits == self.spec_regs().flags,
    ;

    /// The current count.
    fn read_count(&self) -> (r: u32)
        ensures
            r == self.spec_regs().count,
    ;
}

/// A timer whose master mode can drive other timers.
pub trait MasterTimer: General {
    /// Select the master mode.
    fn master_mode(&mut self, mode: u8)
        ensures
            final(self).spec_regs() == (TimRegs { mms: mode, ..old(self).spec_regs() }),
    ;
}


/// A timer with capture/compare channels driving pulse-width output.
pub trait WithPwm: General {
    /// The number of channels the timer offers.
    spec fn spec_ch_number() -> u8;

    /// The number of channels the timer offers.
    fn ch_number() -> (r: u8)
        ensures
            r == Self::spec_ch_number(),
    ;

    /// The capture/compare value of a channel (0 for channels the timer
    /// does not have).
    fn read_cc_value(&self, channel: u8) -> (r: u32)
        ensures
            r == (match channel {
                0 => self.spec_regs().cc1,
                1 => self.spec_regs().cc2,
                2 => self.spec_regs().cc3,
                3 => self.spec_regs().cc4,
                _ => 0u32,
            }),
    ;

    /// Set the capture/compare value of a channel; channels the timer
    /// does not have are left untouched.
    fn set_cc_value(&mut self, channel: u8, value: u32)
        ensures
            final(self).spec_regs() == (match channel {
                0 => TimRegs { cc1: value, ..old(self).spec_regs() },
                1 => TimRegs { cc2: value, ..old(self).spec_regs() },
                2 => TimRegs { cc3: value, ..old(self).spec_regs() },
                3 => TimRegs { cc4: value, ..old(self).spec_regs() },
                _ => old(self).spec_regs(),
            }),
    ;

    /// Start the counter for pulse-width output.
    fn start_pwm(&mut self)
        ensures
            final(self).spec_regs() == (TimRegs { cen: true, ..old(self).spec_regs() }),
    ;
}

/// A general-purpose timer instance with a clock gate and a bus.
pub trait Instance: crate::Sealed + rcc::Enable + rcc::BusClock + rcc::BusTimerClock
    + General {
}

impl General for TIM1 {
    open spec fn spec_regs(&self) -> TimRegs {
        self.regs
    }

    open spec fn spec_max_auto_reload() -> u32 {
        0xFFFF
    }

    fn max_auto_reload() -> (r: u32) {
        0xFFFF
    }

    fn set_auto_reload(&mut self, arr: u32) -> (r: Result<(), Error>) {
        if arr > 0 && arr <= 0xFFFF {
            self.regs.auto_reload = arr;
            Ok(())
        } else {
            Err(Error::WrongAutoReload)
        }
    }

    fn read_auto_reload(&self) -> (r: u32) {
        self.regs.auto_reload
    }

    fn enable_preload(&mut self, b: bool) {
        self.regs.arpe = b;
    }

    fn enable_counter(&mut self) {
        self.regs.cen = true;
    }

    fn disable_counter(&mut self) {
        self.regs.cen = false;
    }

    fn is_counter_enabled(&self) -> (r: bool) {
        self.regs.cen
    }

    fn reset_counter(&mut self) {
        self.regs.count = 0;
    }

    fn set_prescaler(&mut self, psc: u16) {
        self.regs.prescaler = psc;
    }

    fn read_prescaler(&self) -> (r: u16) {
        self.regs.prescaler
    }

    fn clear_interrupt_flag(&mut self, event: Event) {
        self.regs.flags = self.regs.flags & !event.bits;
    }

    fn listen_interrupt(&mut self, event: Event, b: bool) {
        if b {
            self.regs.intens = self.regs.intens | event.bits;
        } else {
            self.regs.intens = self.regs.intens & !event.bits;
        }
    }

    fn get_interrupt_flag(&self) -> (r: Event) {
        Event { bits: self.regs.flags }
    }

    fn read_count(&self) -> (r: u32) {
        self.regs.count
    }
}

impl MasterTimer for TIM1 {
    fn master_mode(&mut self, mode: u8) {
        self.regs.mms = mode;
    }
}

impl WithPwm for TIM1 {
    open spec fn spec_ch_number() -> u8 {
        4
    }

    fn ch_number() -> (r: u8) {
        4
    }

    fn read_cc_value(&self, channel: u8) -> (r: u32) {
        match channel {
            0 => self.regs.cc1,
            1 => self.regs.cc2,
            2 => self.regs.cc3,
            3 => self.regs.cc4,
            _ => 0,
        }
    }

    fn set_cc_value(&mut self, channel: u8, value: u32) {
        match channel {
            0 => self.regs.cc1 = value,
            1 => self.regs.cc2 = value,
            2 => self.regs.cc3 = value,
            3 => self.regs.cc4 = value,
            _ => (),
        }
    }

    fn start_pwm(&mut self) {
        self.regs.cen = true;
    }
}


impl Instance for TIM1 {

}

impl General for TIM2 {
    open spec fn spec_regs(&self) -> TimRegs {
        self.regs
    }

    open spec fn spec_max_auto_reload() -> u32 {
        0xFFFF
    }

    fn max_auto_reload() -> (r: u32) {
        0xFFFF
    }

    fn set_auto_reload(&mut self, arr: u32) -> (r: Result<(), Error>) {
        if arr > 0 && arr <= 0xFFFF {
            self.regs.auto_reload = arr;
            Ok(())
        } else {
            Err(Error::WrongAutoReload)
        }
    }

    fn read_auto_reload(&self) -> (r: u32) {
        self.regs.auto_reload
    }

    fn enable_preload(&mut self, b: bool) {
        self.regs.arpe = b;
    }

    fn enable_counter(&mut self) {
        self.regs.cen = true;
    }

    fn disable_counter(&mut self) {
        self.regs.cen = false;
    }

    fn is_counter_enabled(&self) -> (r: bool) {
        self.regs.cen
    }

    fn reset_counter(&mut self) {
        self.regs.count = 0;
    }

    fn set_prescaler(&mut self, psc: u16) {
        self.regs.prescaler = psc;
    }

    fn read_prescaler(&self) -> (r: u16) {
        self.regs.prescaler
    }

    fn clear_interrupt_flag(&mut self, event: Event) {
        self.regs.flags = self.regs.flags & !event.bits;
    }

    fn listen_interrupt(&mut self, event: Event, b: bool) {
        if b {
            self.regs.intens = self.regs.intens | event.bits;
        } else {
            self.regs.intens = self.regs.intens & !event.bits;
        }
    }

    fn get_interrupt_flag(&self) -> (r: Event) {
        Event { bits: self.regs.flags }
    }

    fn read_count(&self) -> (r: u32) {
        self.regs.count
    }
}

impl MasterTimer for TIM2 {
    fn master_mode(&mut self, mode: u8) {
        self.regs.mms = mode;
    }
}

impl WithPwm for TIM2 {
    open spec fn spec_ch_number() -> u8 {
        4
    }

    fn ch_number() -> (r: u8) {
        4
    }

    fn read_cc_value(&self, channel: u8) -> (r: u32) {
        match channel {
            0 => self.regs.cc1,
            1 => self.regs.cc2,
            2 => self.regs.cc3,
            3 => self.regs.cc4,
            _ => 0,
        }
    }

    fn set_cc_value(&mut self, channel: u8, value: u32) {
        match channel {
            0 => self.regs.cc1 = value,
            1 => self.regs.cc2 = value,
            2 => self.regs.cc3 = value,
            3 => self.regs.cc4 = value,
            _ => (),
        }
    }

    fn start_pwm(&mut self) {
        self.regs.cen = true;
    }
}


impl Instance for TIM2 {

}


/// Field-level model of the system tick counter.
#[derive(Clone, Copy, PartialEq, Eq, Structural, Debug)]
pub struct SYSTICK {
    /// `STE`: the counter is running.
    pub enabled: bool,
    /// `STIE`: the interrupt is enabled.
    pub interrupt_enabled: bool,
    /// `STCLK`: count at the core-bus frequency (else one eighth of it).
    pub hclk_source: bool,
    /// `CNT`: current count.
    pub count: u64,
    /// `CMP`: comparison (reload) value.
    pub reload: u64,
    /// `CNTIF`: the comparison was reached.
    pub wrapped: bool,
}

impl SYSTICK {
    /// The reset state of the counter.
    pub fn new() -> (r: SYSTICK)
        ensures
            r == (SYSTICK {
                enabled: false,
                interrupt_enabled: false,
                hclk_source: false,
                count: 0,
                reload: 0,
                wrapped: false,
            }),
    {
        SYSTICK {
            enabled: false,
            interrupt_enabled: false,
            hclk_source: false,
            count: 0,
            reload: 0,
            wrapped: false,
        }
    }

    /// Restart the count from zero.
    pub fn clear_current(&mut self)
        ensures
            *final(self) == (SYSTICK { count: 0, ..*old(self) }),
    {
        self.count = 0;
    }

    /// Stop the counter.
    pub fn disable_counter(&mut self)
        ensures
            *final(self) == (SYSTICK { enabled: false, ..*old(self) }),
    {
        self.enabled = false;
    }

    /// Disable the tick interrupt.
    pub fn disable_interrupt(&mut self)
        ensures
            *final(self) == (SYSTICK { interrupt_enabled: false, ..*old(self) }),
    {
        self.interrupt_enabled = false;
    }

    /// Start the counter.
    pub fn enable_counter(&mut self)
        ensures
            *final(self) == (SYSTICK { enabled: true, ..*old(self) }),
    {
        self.enabled = true;
    }

    /// Enable the tick interrupt.
    pub fn enable_interrupt(&mut self)
        ensures
            *final(self) == (SYSTICK { interrupt_enabled: true, ..*old(self) }),
    {
        self.interrupt_enabled = true;
    }

    /// The current count.
    pub fn get_current(&self) -> (r: u64)
        ensures
            r == self.count,
    {
        self.count
    }

    /// The comparison (reload) value.
    pub fn get_reload(&self) -> (r: u64)
        ensures
            r == self.reload,
    {
        self.reload
    }

    /// Whether the comparison was reached since the flag was last read.
    pub fn has_wrapped(&self) -> (r: bool)
        ensures
            r == self.wrapped,
    {
        self.wrapped
    }

    /// Whether the counter is running.
    pub fn is_counter_enabled(&self) -> (r: bool)
        ensures
            r == self.enabled,
    {
        self.enabled
    }

    /// Whether the tick interrupt is enabled.
    pub fn is_interrupt_enabled(&self) -> (r: bool)
        ensures
            r == self.interrupt_enabled,
    {
        self.interrupt_enabled
    }

    /// Select the counting frequency.
    pub fn set_clock_source(&mut self, clk_source: SystickClkSource)
        ensures
            *final(self) == (SYSTICK {
                hclk_source: clk_source == SystickClkSource::HClk,
                ..*old(self)
            }),
    {
        self.hclk_source = matches!(clk_source, SystickClkSource::HClk);
    }

    /// The selected counting frequency.
    pub fn get_clock_source(&self) -> (r: SystickClkSource)
        ensures
            r == (if self.hclk_source {
                SystickClkSource::HClk
            } else {
                SystickClkSource::HClkDiv8
            }),
    {
        if self.hclk_source {
            SystickClkSource::HClk
        } else {
            SystickClkSource::HClkDiv8
        }
    }

    /// Set the comparison (reload) value.
    pub fn set_reload(&mut self, value: u64)
        ensures
            *final(self) == (SYSTICK { reload: value, ..*old(self) }),
    {
        self.reload = value;
    }
}

/// Timer wrapper: a timer peripheral together with its counting frequency.
pub struct Timer<TIM> {
    pub tim: TIM,
    pub clk: Hertz,
}

impl Timer<SYSTICK> {
    /// Initialize SysTick timer
    pub fn syst(tim: SYSTICK, clocks: &Clocks) -> (r: Self)
        ensures
            r.tim == tim,
            r.clk == clocks.hclk,
    {
        Self { tim, clk: clocks.hclk() }
    }

    /// Initialize SysTick timer counting at the core frequency.
    pub fn systick(tim: SYSTICK, clocks: &Clocks) -> (r: Self)
        ensures
            r.tim == (SYSTICK { hclk_source: true, ..tim }),
            r.clk == clocks.hclk,
    {
        let mut tim = tim;
        tim.set_clock_source(SystickClkSource::HClk);
        Self { tim, clk: clocks.hclk() }
    }

    /// Initialize SysTick timer counting at one eighth of the core
    /// frequency.
    pub fn systick_external(tim: SYSTICK, clocks: &Clocks) -> (r: Self)
        ensures
            r.tim == (SYSTICK { hclk_source: false, ..tim }),
            r.clk.raw == clocks.hclk.raw / 8,
    {
        let mut tim = tim;
        tim.set_clock_source(SystickClkSource::HClkDiv8);
        Self { tim, clk: Hertz { raw: clocks.hclk().raw / 8 } }
    }

    /// Count at the core frequency from now on.
    pub fn configure(&mut self, clocks: &Clocks)
        ensures
            final(self).tim == (SYSTICK { hclk_source: true, ..old(self).tim }),
            final(self).clk == clocks.hclk,
    {
        self.tim.set_clock_source(SystickClkSource::HClk);
        self.clk = clocks.hclk();
    }

    /// Count at one eighth of the core frequency from now on.
    pub fn configure_div8(&mut self, clocks: &Clocks)
        ensures
            final(self).tim == (SYSTICK { hclk_source: false, ..old(self).tim }),
            final(self).clk.raw == clocks.hclk.raw / 8,
    {
        self.tim.set_clock_source(SystickClkSource::HClkDiv8);
        self.clk = Hertz { raw: clocks.hclk().raw / 8 };
    }

    /// Count at one eighth of the core frequency from now on.
    pub fn configure_external(&mut self, clocks: &Clocks)
        ensures
            final(self).tim == (SYSTICK { hclk_source: false, ..old(self).tim }),
            final(self).clk.raw == clocks.hclk.raw / 8,
    {
        self.tim.set_clock_source(SystickClkSource::HClkDiv8);
        self.clk = Hertz { raw: clocks.hclk().raw / 8 };
    }

    /// Releases the counter.
    pub fn release(self) -> (r: SYSTICK)
        ensures
            r == self.tim,
    {
        self.tim
    }

    /// Starts listening for an `event`
    pub fn listen(&mut self, event: SysEvent)
        ensures
            final(self).tim == (SYSTICK { interrupt_enabled: true, ..old(self).tim }),
            final(self).clk == old(self).clk,
    {
        match event {
            SysEvent::Update => self.tim.enable_interrupt(),
        }
    }

    /// Stops listening for an `event`
    pub fn unlisten(&mut self, event: SysEvent)
        ensures
            final(self).tim == (SYSTICK { interrupt_enabled: false, ..old(self).tim }),
            final(self).clk == old(self).clk,
    {
        match event {
            SysEvent::Update => self.tim.disable_interrupt(),
        }
    }

    /// Resets the counter
    pub fn reset(&mut self)
        ensures
            final(self).tim == (SYSTICK { count: 0, ..old(self).tim }),
            final(self).clk == old(self).clk,
    {
        self.tim.clear_current();
    }
}

impl<TIM: Instance> Timer<TIM> {
    /// Initialize timer: open the timer's clock gate and record its
    /// counting frequency.
    pub fn new(tim: TIM, rcc_bus: &mut TIM::Bus, clocks: &Clocks) -> (r: Self)
        requires
            clocks.wf(),
        ensures
            r.tim == tim,
            r.clk == <TIM as rcc::BusTimerClock>::spec_timer_clock(*clocks),
            final(rcc_bus).spec_enr() == old(rcc_bus).spec_enr()
                | <TIM as rcc::Enable>::spec_mask(),
            final(rcc_bus).spec_rstr() == old(rcc_bus).spec_rstr(),
    {
        TIM::enable(rcc_bus);
        Self { clk: <TIM as rcc::BusTimerClock>::timer_clock(clocks), tim }
    }

    /// Recompute the counting frequency from a snapshot.
    pub fn configure(&mut self, clocks: &Clocks)
        requires
            clocks.wf(),
        ensures
            final(self).clk == <TIM as rcc::BusTimerClock>::spec_timer_clock(*clocks),
            final(self).tim == old(self).tim,
    {
        self.clk = <TIM as rcc::BusTimerClock>::timer_clock(clocks);
    }

    /// Releases the TIM peripheral.
    pub fn release(self) -> (r: TIM)
        ensures
            r == self.tim,
    {
        self.tim
    }

    /// Starts listening for an `event`.
    pub fn listen(&mut self, event: Event)
        ensures
            final(self).tim.spec_regs() == (TimRegs {
                intens: old(self).tim.spec_regs().intens | event.bits,
                ..old(self).tim.spec_regs()
            }),
            final(self).clk == old(self).clk,
    {
        self.tim.listen_interrupt(event, true);
    }

    /// Clears interrupt associated with `event`.
    ///
    /// If the interrupt is not cleared, it will immediately retrigger after
    /// the ISR has finished.
    pub fn clear_interrupt(&mut self, event: Event)
        ensures
            final(self).tim.spec_regs() == (TimRegs {
                flags: old(self).tim.spec_regs().flags & !event.bits,
                ..old(self).tim.spec_regs()
            }),
            final(self).clk == old(self).clk,
    {
        self.tim.clear_interrupt_flag(event);
    }

    /// The pending interrupt flags.
    pub fn get_interrupt(&mut self) -> (r: Event)
        ensures
            r.bits == old(self).tim.spec_regs().flags,
            *final(self) == *old(self),
    {
        self.tim.get_interrupt_flag()
    }

    /// Stops listening for an `event`.
    pub fn unlisten(&mut self, event: Event)
        ensures
            final(self).tim.spec_regs() == (TimRegs {
                intens: old(self).tim.spec_regs().intens & !event.bits,
                ..old(self).tim.spec_regs()
            }),
            final(self).clk == old(self).clk,
    {
        self.tim.listen_interrupt(event, false);
    }
}

impl<TIM: Instance + MasterTimer> Timer<TIM> {
    /// Select the master mode.
    pub fn set_master_mode(&mut self, mode: u8)
        ensures
            final(self).tim.spec_regs() == (TimRegs {
                mms: mode,
                ..old(self).tim.spec_regs()
            }),
            final(self).clk == old(self).clk,
    {
        self.tim.master_mode(mode)
    }
}

/// Timer wrapper for fixed precision timers counting at `FREQ` hertz.
pub struct FTimer<TIM, const FREQ: u32> {
    pub tim: TIM,
}

/// `FTimer` with precision of 1 μs (1 MHz sampling)
pub type FTimerUs<TIM> = FTimer<TIM, 1_000_000>;

/// `FTimer` with precision of 1 ms (1 kHz sampling)
pub type FTimerMs<TIM> = FTimer<TIM, 1_000>;

/// A non-blocking counter with fixed precision.
pub struct Counter<TIM, const FREQ: u32>(pub FTimer<TIM, FREQ>);

/// A blocking delay with fixed precision.
pub struct Delay<TIM, const FREQ: u32>(pub FTimer<TIM, FREQ>);

/// Whether the timer clock divides exactly to `freq` with a prescaler the
/// 16-bit field can hold.
pub open spec fn spec_prescalable(clk: Hertz, freq: u32) -> bool {
    &&& freq >= 1
    &&& clk.raw % freq == 0
    &&& 1 <= clk.raw / freq <= 0x1_0000
}

impl<TIM: Instance, const FREQ: u32> FTimer<TIM, FREQ> {
    /// Initialize timer: open the timer's clock gate and program the
    /// prescaler for exactly `FREQ` hertz.
    pub fn new(tim: TIM, rcc_bus: &mut TIM::Bus, clocks: &Clocks) -> (r: Self)
        requires
            clocks.wf(),
            spec_prescalable(<TIM as rcc::BusTimerClock>::spec_timer_clock(*clocks), FREQ),
        ensures
            r.tim.spec_regs() == (TimRegs {
                prescaler: (<TIM as rcc::BusTimerClock>::spec_timer_clock(*clocks).raw as int
                    / FREQ as int - 1) as u16,
                ..tim.spec_regs()
            }),
            final(rcc_bus).spec_enr() == old(rcc_bus).spec_enr()
                | <TIM as rcc::Enable>::spec_mask(),
            final(rcc_bus).spec_rstr() == old(rcc_bus).spec_rstr(),
    {
        TIM::enable(rcc_bus);
        let mut t = Self { tim };
        t.configure(clocks);
        t
    }

    /// Set the prescaler so the counter ticks at exactly `FREQ` hertz.
    /// The timer clock must divide exactly: the tick frequency is never
    /// approximated.
    pub fn configure(&mut self, clocks: &Clocks)
        requires
            clocks.wf(),
            spec_prescalable(<TIM as rcc::BusTimerClock>::spec_timer_clock(*clocks), FREQ),
        ensures
            final(self).tim.spec_regs() == (TimRegs {
                prescaler: (<TIM as rcc::BusTimerClock>::spec_timer_clock(*clocks).raw as int
                    / FREQ as int - 1) as u16,
                ..old(self).tim.spec_regs()
            }),
    {
        let clk = <TIM as rcc::BusTimerClock>::timer_clock(clocks);
        let psc: u32 = clk.raw / FREQ;
        self.tim.set_prescaler((psc - 1) as u16);
    }

    /// Creates a `Counter`.
    pub fn counter(self) -> (r: Counter<TIM, FREQ>)
        ensures
            r.0.tim == self.tim,
    {
        Counter(self)
    }

    /// Creates a `Delay`.
    pub fn delay(self) -> (r: Delay<TIM, FREQ>)
        ensures
            r.0.tim == self.tim,
    {
        Delay(self)
    }

    /// Releases the TIM peripheral.
    pub fn release(self) -> (r: TIM)
        ensures
            r == self.tim,
    {
        self.tim
    }

    /// Starts listening for an `event`.
    pub fn listen(&mut self, event: Event)
        ensures
            final(self).tim.spec_regs() == (TimRegs {
                intens: old(self).tim.spec_regs().intens | event.bits,
                ..old(self).tim.spec_regs()
            }),
    {
        self.tim.listen_interrupt(event, true);
    }

    /// Clears interrupt associated with `event`.
    ///
    /// If the interrupt is not cleared, it will immediately retrigger after
    /// the ISR has finished.
    pub fn clear_interrupt(&mut self, event: Event)
        ensures
            final(self).tim.spec_regs() == (TimRegs {
                flags: old(self).tim.spec_regs().flags & !event.bits,
                ..old(self).tim.spec_regs()
            }),
    {
        self.tim.clear_interrupt_flag(event);
    }

    /// The pending interrupt flags.
    pub fn get_interrupt(&mut self) -> (r: Event)
        ensures
            r.bits == old(self).tim.spec_regs().flags,
            *final(self) == *old(self),
    {
        self.tim.get_interrupt_flag()
    }

    /// Stops listening for an `event`.
    pub fn unlisten(&mut self, event: Event)
        ensures
            final(self).tim.spec_regs() == (TimRegs {
                intens: old(self).tim.spec_regs().intens & !event.bits,
                ..old(self).tim.spec_regs()
            }),
    {
        self.tim.listen_interrupt(event, false);
    }
}

impl<TIM: Instance + MasterTimer, const FREQ: u32> FTimer<TIM, FREQ> {
    /// Select the master mode.
    pub fn set_master_mode(&mut self, mode: u8)
        ensures
            final(self).tim.spec_regs() == (TimRegs {
                mms: mode,
                ..old(self).tim.spec_regs()
            }),
    {
        self.tim.master_mode(mode)
    }
}

/// Split a tick count into a 16-bit prescaler and an auto-reload value:
/// the counter is driven at `clock / (psc + 1)` and reloads after
/// `arr + 1` ticks.
pub fn compute_arr_presc(freq: u32, clock: u32) -> (r: (u16, u32))
    requires
        1 <= freq,
        freq <= clock,
    ensures
        r.0 == (clock as int / freq as int - 1) / 0x1_0000,
        r.1 == (clock as int / freq as int) / (r.0 + 1) - 1,
{
    let ticks: u32 = clock / freq;
    proof {
        assert(ticks >= 1) by (nonlinear_arith)
            requires
                ticks == clock / freq,
                1 <= freq <= clock,
        ;
    }
    let psc: u32 = (ticks - 1) / 0x1_0000;
    proof {
        assert(psc <= 0xFFFF) by (nonlinear_arith)
            requires
                psc == (ticks - 1) / 0x1_0000,
                1 <= ticks <= 0xFFFF_FFFF,
        ;
        assert(ticks as int / (psc + 1) >= 1) by (nonlinear_arith)
            requires
                psc == (ticks - 1) / 0x1_0000,
                1 <= ticks,
        ;
    }
    let arr: u32 = ticks / (psc + 1) - 1;
    (psc as u16, arr)
}

} // verus!
