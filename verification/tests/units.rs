//! Smaller units: presets, defaults, events, timer register operations
//! and the remaining enumerations.

use ch32v00x_hal::adc::{Align, SampleTime};
use ch32v00x_hal::rcc::enable::TIM1;
use ch32v00x_hal::rcc::{
    apb_prescaler_for, ClockError, ClockSrc, Clocks, Config, HSEConfig, HSESrc, LSEClock,
    LSEClockMode, PLLMul, PLLSrc, Variant,
};
use ch32v00x_hal::serial::{Config as SerialConfig, DataBits, Parity, StopBits};
use ch32v00x_hal::time::Hertz;
use ch32v00x_hal::timer::{Channel, Error as TimerError, Event, General, TimRegs, WithPwm};
use ch32v00x_hal::watchdog::IndependentWatchdog;

#[test]
fn presets_hit_their_frequencies() {
    let presets: [(fn(Config) -> Config, u32); 4] = [
        (Config::sysclk_144m_via_hsi, 144_000_000),
        (Config::sysclk_96m_via_hsi, 96_000_000),
        (Config::sysclk_72m_via_hsi, 72_000_000),
        (Config::sysclk_48m_via_hsi, 48_000_000),
    ];
    for (preset, hz) in presets {
        let cfg = preset(Config::default());
        assert_eq!(cfg.mux, ClockSrc::PLL);
        assert_eq!(cfg.pll.src, PLLSrc::HSI);
        let (clocks, _) = cfg.freeze(Variant::Standard).unwrap();
        assert_eq!(clocks.sysclk().raw(), hz);
    }
}

#[test]
fn reset_defaults() {
    let cfg = Config::default();
    assert_eq!(cfg.mux, ClockSrc::HSI);
    assert!(cfg.hse.is_none());
    assert!(!cfg.enable_lsi);

    let clocks = Clocks::default();
    assert_eq!(clocks.sysclk().raw(), 8_000_000);
    assert_eq!(clocks.hclk().raw(), 8_000_000);
    assert!(clocks.lsi().is_none());

    let hse = HSEConfig::default();
    assert_eq!(hse.frequency.raw(), 32_000_000);
    assert_eq!(hse.source, HSESrc::Crystal);
    assert_eq!(HSESrc::default(), HSESrc::Crystal);

    let serial = SerialConfig::default();
    assert_eq!(serial.baudrate, 115200);
    assert_eq!(serial.data_bits, DataBits::DataBits8);
    assert_eq!(serial.parity, Parity::ParityNone);
    assert_eq!(serial.stop_bits, StopBits::STOP1);

    assert_eq!(SampleTime::default(), SampleTime::T_28);
    assert_eq!(Align::default(), Align::Right);
}

#[test]
fn variant_descriptions() {
    assert_eq!(Variant::Standard.hsi().raw(), 8_000_000);
    assert_eq!(Variant::Compact.hsi().raw(), 24_000_000);
    assert_eq!(Variant::Standard.max_sysclk().raw(), 144_000_000);
    assert_eq!(Variant::Compact.max_sysclk().raw(), 48_000_000);
}

#[test]
fn low_speed_external_clock_is_32768_hz() {
    let lse = LSEClock::new(LSEClockMode::Bypass);
    assert_eq!(lse.freq().raw(), 32_768);
    assert_eq!(lse.mode(), LSEClockMode::Bypass);
}

#[test]
fn target_frequency_without_a_multiplier_is_rejected() {
    // 100 MHz is not 8 MHz times any supported factor.
    assert_eq!(
        Config::sysclk_via_hsi_pll(Variant::Standard, Hertz { raw: 100_000_000 }),
        Err(ClockError::UnsupportedPllMultiplier)
    );
    // 136 MHz would need x17, which no variant offers.
    assert_eq!(
        Config::sysclk_via_hsi_pll(Variant::Standard, Hertz { raw: 136_000_000 }),
        Err(ClockError::UnsupportedPllMultiplier)
    );
    // The compact variant reaches exactly twice its oscillator.
    let cfg = Config::sysclk_via_hsi_pll(Variant::Compact, Hertz { raw: 48_000_000 }).unwrap();
    assert_eq!(cfg.pll.mul, PLLMul::Mul2);
}

#[test]
fn requesting_more_than_the_source_has_no_divisor() {
    // A bus cannot run faster than its upstream clock.
    assert_eq!(
        apb_prescaler_for(Variant::Standard, Hertz { raw: 72_000_000 }, Hertz {
            raw: 144_000_000,
        }),
        Err(ClockError::NoExactPrescaler)
    );
}

#[test]
fn event_sets_combine() {
    let both = Event::update().union(Event::c1());
    assert_eq!(both.bits, 0b11);
    assert!(both.contains(Event::update()));
    assert!(both.contains(Event::c1()));
    assert!(!both.contains(Event::c2()));
    assert_eq!(Event::empty().bits, 0);
    assert_eq!(Event::c4().bits, 0x10);
}

#[test]
fn timer_register_operations() {
    let mut tim = TIM1 { regs: TimRegs::new() };
    assert_eq!(TIM1::max_auto_reload(), 0xFFFF);
    assert_eq!(tim.set_auto_reload(0), Err(TimerError::WrongAutoReload));
    assert_eq!(tim.set_auto_reload(0x1_0000), Err(TimerError::WrongAutoReload));
    assert_eq!(tim.set_auto_reload(1234), Ok(()));
    assert_eq!(tim.read_auto_reload(), 1234);
    tim.set_prescaler(71);
    assert_eq!(tim.read_prescaler(), 71);
    tim.enable_counter();
    assert!(tim.is_counter_enabled());
    tim.disable_counter();
    assert!(!tim.is_counter_enabled());

    assert_eq!(TIM1::ch_number(), 4);
    tim.set_cc_value(Channel::C2.index(), 500);
    assert_eq!(tim.read_cc_value(1), 500);
    assert_eq!(tim.read_cc_value(7), 0);
    tim.start_pwm();
    assert!(tim.regs.cen);
}

#[test]
fn stop_bits_encode() {
    assert_eq!(StopBits::STOP1.to_raw(), 0);
    assert_eq!(StopBits::STOP0P5.to_raw(), 1);
    assert_eq!(StopBits::STOP2.to_raw(), 2);
    assert_eq!(StopBits::STOP1P5.to_raw(), 3);
}

#[test]
fn sample_times_encode() {
    assert_eq!(SampleTime::T_1.bits(), 0);
    assert_eq!(SampleTime::T_239.bits(), 7);
    assert!(!Align::Right.bit());
    assert!(Align::Left.bit());
}

#[test]
fn watchdog_period_table() {
    // One step per prescaler value, at the largest reload.
    let expected = [128, 256, 512, 1024, 2048, 4096, 8192, 8192];
    for (pr, ms) in expected.into_iter().enumerate() {
        assert_eq!(IndependentWatchdog::timeout_period(pr as u8, 0xFFF), ms);
    }
    // Undefined prescaler fields map to no time at all.
    assert_eq!(IndependentWatchdog::timeout_period(8, 0xFFF), 0);
}
