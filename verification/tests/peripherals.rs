//! Peripheral models: bus gating, pins, serial, timers, watchdog, I2C,
//! ADC, power control and the time units.

use ch32v00x_hal::adc::{Adc, AdcRegs, Align, SampleTime};
use ch32v00x_hal::afio::AfioExt;
use ch32v00x_hal::delay::CycleDelay;
use ch32v00x_hal::extend::opa::{ExtendCtr, OpAmp};
use ch32v00x_hal::gpio::{GpioExt, PinExt, PinState, Speed};
use ch32v00x_hal::i2c::{DutyCycle, I2c, I2cConfig};
use ch32v00x_hal::rcc::enable::{AFIO, GPIOA, GPIOC, GPIOD, I2C1, TIM2, USART1};
use ch32v00x_hal::rcc::{APBPrescaler, BusTimerClock, Config, Enable, Rcc, Reset, Variant, APB1};
use ch32v00x_hal::rt::Interrupt;
use ch32v00x_hal::serial::{self, read_status, Usart, UsartExt};
use ch32v00x_hal::time::{kHz, ms, Bps, Hertz, MHz, U32Ext};
use ch32v00x_hal::timer::delay::SysDelay;
use ch32v00x_hal::timer::{
    compute_arr_presc, Event, FTimer, SysEvent, Timer, TimRegs, SYSTICK,
};
use ch32v00x_hal::watchdog::{IndependentWatchdog, IwdgRegs};
use ch32v00x_hal::i2c::transaction_error;

fn frozen_72() -> ch32v00x_hal::rcc::Clocks {
    Config::default()
        .sysclk_72m_via_hsi()
        .freeze(Variant::Standard)
        .unwrap()
        .0
}

#[test]
fn bus_gates_set_and_clear_their_bits() {
    let mut rcc = Rcc::new();
    GPIOC::enable(&mut rcc.apb2);
    assert_eq!(rcc.apb2.enr, 0x10);
    assert!(GPIOC::is_enabled(&rcc.apb2));
    USART1::enable(&mut rcc.apb2);
    assert_eq!(rcc.apb2.enr, 0x10 | 0x4000);
    GPIOC::disable(&mut rcc.apb2);
    assert_eq!(rcc.apb2.enr, 0x4000);
    assert!(GPIOC::is_disabled(&rcc.apb2));
    // A reset pulse leaves the reset register bit low again.
    USART1::reset(&mut rcc.apb2);
    assert_eq!(rcc.apb2.rstr, 0);
    I2C1::enable(&mut rcc.apb1);
    assert_eq!(rcc.apb1.enr, 0x20_0000);
}

#[test]
fn pins_carry_their_configuration_nibble() {
    let mut rcc = Rcc::new();
    let parts = GPIOC.split(&mut rcc);
    // Splitting powers and resets the port.
    assert_eq!(rcc.apb2.enr & 0x10, 0x10);

    let mut led = parts.pc0.into_push_pull_output();
    assert_eq!(led.cfg, 0b0011);
    assert!(led.is_set_low());
    led.set_high();
    assert!(led.is_set_high());
    led.toggle();
    assert!(led.is_set_low());
    led.set_state(PinState::High);
    assert_eq!(led.get_state(), PinState::High);
    assert_eq!(led.pin_id(), 0);
    assert_eq!(led.port_id(), 2);
    let led = led.set_speed(Speed::Mhz2);
    assert_eq!(led.cfg, 0b0010);

    let pulled = parts.pc1.into_pull_up_input();
    assert_eq!(pulled.cfg, 0b1000);
    assert!(pulled.out);
    let mut input = parts.pc2.into_floating_input();
    assert_eq!(input.cfg, 0b0100);
    input.sync_input(true);
    assert!(input.is_high());
    input.sync_input(false);
    assert!(input.is_low());

    let od = parts.pc3.into_alternate_open_drain();
    assert_eq!(od.cfg, 0b1111);
    let analog = parts.pc4.into_analog();
    assert_eq!(analog.cfg, 0b0000);
    let od_out = parts.pc5.into_open_drain_output_in_state(PinState::High);
    assert_eq!(od_out.cfg, 0b0111);
    assert!(od_out.out);
}

#[test]
fn serial_configuration_computes_the_fractional_divider() {
    // 8 MHz bus clock at 115200 baud: divider 434 hundredths, mantissa 4,
    // fraction 34.
    let (clocks, _) = Config::default().freeze(Variant::Standard).unwrap();
    let mut rcc = Rcc::new();
    let mut afio = AFIO.configure(&mut rcc);
    let parts = GPIOD.split(&mut rcc);
    let tx = parts.pd5.into_alternate();
    let rx = parts.pd6;
    let port: Usart<_, _, _, _, _> =
        USART1.usart::<0, _, _>(tx, rx, serial::Config::default(), &mut afio, &mut rcc, &clocks);
    assert_eq!(port.usart.brr_mantissa, 4);
    assert_eq!(port.usart.brr_fraction, 34);
    assert!(port.usart.enabled);
    assert!(port.usart.tx_enabled);
    assert!(port.usart.rx_enabled);
    assert!(!port.usart.clk_enabled);
    assert!(!port.usart.nine_bits);
    assert!(!port.usart.parity_control);
    assert_eq!(port.usart.stop, 0);
    assert!(!afio.usart1_rm);
    assert!(!afio.usart1_remap1);
    let (_ck, tx, rx, _cts, _rts, regs) = port.free();
    assert!(regs.enabled);
    // The pins come back exactly as they were stored.
    assert_eq!(tx.cfg, 0b1011);
    assert_eq!(rx.cfg, 0b0100);
}

#[test]
fn serial_read_status_prioritises_errors() {
    assert_eq!(read_status(true, true, true, true, true), Err(serial::Error::Parity));
    assert_eq!(read_status(false, true, false, false, true), Err(serial::Error::Framing));
    assert_eq!(read_status(false, false, true, false, false), Err(serial::Error::Noise));
    assert_eq!(read_status(false, false, false, true, false), Err(serial::Error::Overrun));
    assert_eq!(read_status(false, false, false, false, true), Ok(true));
    assert_eq!(read_status(false, false, false, false, false), Ok(false));
}

#[test]
fn timer_prescaler_is_exact() {
    let clocks = frozen_72();
    let mut rcc = Rcc::new();
    let tim = TIM2 { regs: TimRegs::new() };
    // 72 MHz timer clock at 1 MHz sampling: prescaler 71.
    let mut timer: FTimer<TIM2, 1_000_000> = FTimer::new(tim, &mut rcc.apb1, &clocks);
    // Creating the timer opened its clock gate.
    assert_eq!(rcc.apb1.enr, 0x1);
    assert_eq!(timer.tim.regs.prescaler, 71);
    timer.listen(Event::update());
    assert_eq!(timer.tim.regs.intens, 0x1);
    timer.unlisten(Event::update());
    assert_eq!(timer.tim.regs.intens, 0);
    let tim = timer.release();
    assert_eq!(tim.regs.prescaler, 71);
}

#[test]
fn timer_wrapper_tracks_the_doubled_bus_clock() {
    // With the first peripheral bus divided, its timers run at twice the
    // bus frequency.
    let (clocks, _) = Config {
        apb1_pre: APBPrescaler::Div2,
        ..Config::default().sysclk_72m_via_hsi()
    }
    .freeze(Variant::Standard)
    .unwrap();
    assert_eq!(clocks.pclk1().raw(), 36_000_000);
    assert_eq!(<APB1 as BusTimerClock>::timer_clock(&clocks).raw(), 72_000_000);

    let mut rcc = Rcc::new();
    let tim = TIM2 { regs: TimRegs::new() };
    let timer = Timer::new(tim, &mut rcc.apb1, &clocks);
    assert_eq!(rcc.apb1.enr, 0x1);
    assert_eq!(timer.clk.raw(), 72_000_000);
}

#[test]
fn arr_and_prescaler_split_a_tick_count() {
    // 72 MHz counted down to 1 kHz: 72000 ticks split as (psc 1, arr 35999).
    assert_eq!(compute_arr_presc(1_000, 72_000_000), (1, 35_999));
    // A small count fits without prescaling.
    assert_eq!(compute_arr_presc(1_000_000, 48_000_000), (0, 47));
}

#[test]
fn systick_timer_follows_the_core_clock() {
    let clocks = frozen_72();
    let mut timer = Timer::syst(SYSTICK::new(), &clocks);
    assert_eq!(timer.clk.raw(), 72_000_000);
    timer.configure_div8(&clocks);
    assert_eq!(timer.clk.raw(), 9_000_000);
    assert!(!timer.tim.hclk_source);
    timer.listen(SysEvent::Update);
    assert!(timer.tim.interrupt_enabled);
    timer.unlisten(SysEvent::Update);
    assert!(!timer.tim.interrupt_enabled);
    timer.reset();
    assert_eq!(timer.tim.count, 0);

    let delay = SysDelay::new(timer.release(), &clocks);
    assert_eq!(delay.scale, 72);
    assert_eq!(delay.max_us, 80_000_000 / 72 - 1);
}

#[test]
fn watchdog_scales_the_timeout() {
    let mut dog = IndependentWatchdog::new(IwdgRegs { pr: 0, rl: 0, started: false });
    assert!(!dog.is_pr_updating());
    // 100 ms fits the smallest divider: reload 3199 gives exactly 100 ms.
    dog.start(ms(100));
    assert!(dog.iwdg.started);
    assert_eq!(dog.iwdg.pr, 0);
    assert_eq!(dog.iwdg.rl, 3199);
    assert_eq!(dog.interval().ticks(), 100);
    // 5 s needs the divide-by-256 prescaler.
    dog.start(ms(5000));
    assert_eq!(dog.iwdg.pr, 6);
    assert_eq!(dog.iwdg.rl as u32, 5000u32 * 4095 / 8192);
    assert_eq!(dog.interval().ticks(), 5000);
    // The longest representable period.
    dog.start(ms(8192));
    assert_eq!(dog.iwdg.pr, 6);
    assert_eq!(dog.iwdg.rl, 4095);
    assert_eq!(dog.interval().ticks(), 8192);
    dog.feed();
    assert_eq!(dog.interval().ticks(), 8192);
    assert_eq!(IndependentWatchdog::timeout_period(0, 0xFFF), 128);
}

#[test]
fn i2c_divider_follows_speed_and_duty() {
    let (clocks, _) = Config::default()
        .sysclk_48m_via_hsi()
        .freeze(Variant::Standard)
        .unwrap();
    let mut rcc = Rcc::new();
    let mut afio = AFIO.configure(&mut rcc);
    let parts = GPIOC.split(&mut rcc);
    let scl = parts.pc2.into_alternate_open_drain();
    let sda = parts.pc1.into_alternate_open_drain();
    let i2c = I2c::i2c1(I2C1, scl, sda, I2cConfig::fast_mode(), &mut afio, &mut rcc, &clocks);
    // 48 MHz bus: frequency field clamps to 36 MHz, fast mode at 33 % duty
    // divides by three times the speed.
    assert_eq!(i2c.i2c.freq_mhz, 36);
    assert_eq!(i2c.i2c.ccr, 48_000_000 / (400_000 * 3));
    assert!(i2c.i2c.fast_mode);
    assert!(!i2c.i2c.duty_36);
    assert!(i2c.i2c.enabled);
    assert!(!afio.i2c1_remap1);
    assert!(!afio.i2c1_rm);
    let (regs, scl, sda) = i2c.release();
    assert!(!regs.enabled);
    assert_eq!(scl.cfg, 0b1111);
    assert_eq!(sda.cfg, 0b1111);

    assert_eq!(I2cConfig::slow_mode().speed.raw(), 100_000);
    assert_eq!(I2cConfig::fast_mode_plus().speed.raw(), 1_000_000);
    assert_eq!(I2cConfig::default().duty, DutyCycle::Perc33);
    assert_eq!(
        transaction_error(false, true, false, false),
        Some(ch32v00x_hal::i2c::Error::AcknowledgeFailure)
    );
    assert_eq!(transaction_error(false, false, false, false), None);
}

#[test]
fn adc_packs_the_conversion_sequence() {
    let clocks = frozen_72();
    let mut adc = Adc::new(AdcRegs::new(), &clocks);
    assert_eq!(adc.sample_time, SampleTime::T_28);
    assert_eq!(adc.align, Align::Right);
    assert!(adc.rb.powered);
    assert_eq!(adc.max_sample(), 1023);
    adc.set_align(Align::Left);
    assert_eq!(adc.max_sample(), 0xFFFF);

    adc.set_regular_sequence(&[1, 2, 3]);
    assert_eq!(adc.rb.rsqr3, 1 | (2 << 5) | (3 << 10));
    assert_eq!(adc.rb.seq_len, 2);
    adc.set_regular_sequence(&[0, 1, 2, 3, 4, 5, 6, 7]);
    assert_eq!(
        adc.rb.rsqr3,
        (1 << 5) | (2 << 10) | (3 << 15) | (4 << 20) | (5 << 25)
    );
    assert_eq!(adc.rb.rsqr2, 6 | (7 << 5));
    assert_eq!(adc.rb.seq_len, 7);

    adc.set_channel_sample_time(3, SampleTime::T_239);
    assert_eq!(adc.rb.smp3, 7);
    let saved = adc.save_cfg();
    adc.set_sample_time(SampleTime::T_1);
    adc.restore_cfg(saved);
    assert_eq!(adc.sample_time, SampleTime::T_28);
    let regs = adc.release();
    assert!(!regs.powered);
}

#[test]
fn amplifier_selection_bits_follow_the_pins() {
    let mut rcc = Rcc::new();
    let a = GPIOA.split(&mut rcc);
    let d = GPIOD.split(&mut rcc);
    let mut ctr = ExtendCtr::new();
    let amp = OpAmp::enable(a.pa2.into_analog(), a.pa1.into_analog(), d.pd4, &mut ctr);
    assert!(ctr.opa_en);
    assert!(!ctr.opa_psel);
    assert!(!ctr.opa_nsel);
    let (_p, _n, _out) = amp.disable(&mut ctr);
    assert!(!ctr.opa_en);
}

#[test]
fn time_units_and_misc() {
    assert_eq!(MHz(2), kHz(2_000));
    assert_eq!(Hertz::MHz(2).raw(), 2_000_000);
    assert_eq!(Hertz { raw: 72_000_000 }.to_MHz(), 72);
    assert_eq!(9600u32.bps(), Bps(9600));
    assert_eq!(ms(250).ticks(), 250);

    let clocks = frozen_72();
    let delay = CycleDelay::new(&clocks);
    assert_eq!(delay.rate.raw(), 72_000_000);
    // One microsecond of waiting is 36 counted steps at 72 MHz.
    assert_eq!(delay.cycles_for_ns(1_000), 36);

    assert_eq!(Interrupt::USART1.number(), 32);
    assert_eq!(Interrupt::SysTick.number(), 12);

    let mut pwr_rcc = Rcc::new();
    let mut power = ch32v00x_hal::pwr::Pwr::pwr(
        ch32v00x_hal::pwr::PwrRegs::new(),
        &mut pwr_rcc,
        clocks,
    );
    assert_eq!(pwr_rcc.apb1.enr, 0x1000_0000);
    power.pvd_threshold_voltage(ch32v00x_hal::pwr::PVDVoltageThreshold::Rising3_3Falling3_15);
    assert_eq!(power.pwr.pls, 0b010);
    power.enable_pvd();
    assert!(power.pwr.pvd_enabled);
    power.sync_pvd_output(false);
    assert!(power.pvd_output());
}
