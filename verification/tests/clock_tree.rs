//! The clock-tree engine: configuration validation, frequency derivation
//! and the register plan.

use ch32v00x_hal::rcc::{
    ahb_prescaler_for, apb_prescaler_for, solve_prescalers, AHBPrescaler, APBPrescaler, ClockError, ClockSrc,
    Config, HSEConfig, HSEPrescaler, HSESrc, PLLConfig, PLLMul, PLLSrc, Variant, MCO,
};
use ch32v00x_hal::time::Hertz;

fn base_config() -> Config {
    Config::default()
}

fn hse(freq: u32, source: HSESrc) -> Option<HSEConfig> {
    Some(HSEConfig {
        frequency: Hertz { raw: freq },
        source,
    })
}

#[test]
fn scenario_hsi_pll_x9_yields_72_mhz() {
    // Internal oscillator at 8 MHz, PLL x9, no bus division.
    let cfg = base_config().sysclk_72m_via_hsi();
    let (clocks, plan) = cfg.freeze(Variant::Standard).unwrap();
    assert_eq!(clocks.sysclk().raw(), 72_000_000);
    assert_eq!(clocks.hclk().raw(), 72_000_000);
    assert_eq!(clocks.pclk1().raw(), 72_000_000);
    assert_eq!(clocks.pclk2().raw(), 72_000_000);
    assert_eq!(clocks.pllclk, Some(Hertz { raw: 72_000_000 }));
    assert_eq!(clocks.hse(), None);
    // 72 MHz is still within full-speed flash access.
    assert!(plan.flash_full_speed);
    let pll = plan.pll.unwrap();
    assert!(!pll.src_hse);
    assert!(pll.hsi_full_speed);
    assert_eq!(pll.mul_bits, 0b0111);
    assert_eq!(plan.sw_bits, 0b10);
}

#[test]
fn scenario_hsi_pll_x18_yields_144_mhz() {
    // Internal oscillator at 8 MHz, PLL x18, no bus division.
    let cfg = base_config().sysclk_144m_via_hsi();
    let (clocks, plan) = cfg.freeze(Variant::Standard).unwrap();
    assert_eq!(clocks.sysclk().raw(), 144_000_000);
    assert_eq!(clocks.hclk().raw(), 144_000_000);
    assert_eq!(clocks.pclk1().raw(), 144_000_000);
    assert_eq!(clocks.pclk2().raw(), 144_000_000);
    // Above 72 MHz the flash access timing must be halved.
    assert!(!plan.flash_full_speed);
    assert_eq!(plan.pll.unwrap().mul_bits, 0b1111);
}

#[test]
fn scenario_crystal_selected_directly() {
    // External oscillator at 8 MHz in crystal mode, no PLL.
    let cfg = Config {
        hse: hse(8_000_000, HSESrc::Crystal),
        mux: ClockSrc::HSE,
        ..base_config()
    };
    let (clocks, plan) = cfg.freeze(Variant::Standard).unwrap();
    assert_eq!(clocks.sysclk().raw(), 8_000_000);
    assert_eq!(clocks.hclk().raw(), 8_000_000);
    assert_eq!(clocks.pclk1().raw(), 8_000_000);
    assert_eq!(clocks.pclk2().raw(), 8_000_000);
    assert_eq!(clocks.hse(), Some(Hertz { raw: 8_000_000 }));
    assert_eq!(clocks.pllclk, None);
    let hse_plan = plan.hse.unwrap();
    assert!(!hse_plan.bypass);
    assert_eq!(plan.sw_bits, 0b01);
    assert!(plan.pll.is_none());
}

#[test]
fn scenario_peripheral_bus_divided_to_36_mhz() {
    // 72 MHz system clock with the first peripheral bus at 36 MHz.
    let cfg = Config {
        apb1_pre: APBPrescaler::Div2,
        ..base_config().sysclk_72m_via_hsi()
    };
    let (clocks, plan) = cfg.freeze(Variant::Standard).unwrap();
    assert_eq!(clocks.sysclk().raw(), 72_000_000);
    assert_eq!(clocks.pclk1().raw(), 36_000_000);
    assert_eq!(clocks.pclk2().raw(), 72_000_000);
    assert_eq!(plan.ppre1_bits, 0b100);
}

#[test]
fn solver_resolves_36_mhz_to_div2_and_rejects_50_mhz() {
    let hclk = Hertz { raw: 72_000_000 };
    assert_eq!(
        apb_prescaler_for(Variant::Standard, hclk, Hertz { raw: 36_000_000 }),
        Ok(APBPrescaler::Div2)
    );
    // 72 MHz / 50 MHz is not a whole number: rejected, never approximated.
    assert_eq!(
        apb_prescaler_for(Variant::Standard, hclk, Hertz { raw: 50_000_000 }),
        Err(ClockError::NoExactPrescaler)
    );
}

#[test]
fn solver_core_bus_divisors_depend_on_variant() {
    let sys = Hertz { raw: 144_000_000 };
    assert_eq!(
        ahb_prescaler_for(Variant::Standard, sys, Hertz { raw: 18_000_000 }),
        Ok(AHBPrescaler::Div8)
    );
    // A divide-by-three exists only on the compact variant.
    let sys24 = Hertz { raw: 24_000_000 };
    assert_eq!(
        ahb_prescaler_for(Variant::Compact, sys24, Hertz { raw: 8_000_000 }),
        Ok(AHBPrescaler::Div3)
    );
    assert_eq!(
        ahb_prescaler_for(Variant::Standard, sys24, Hertz { raw: 8_000_000 }),
        Err(ClockError::NoExactPrescaler)
    );
}

#[test]
fn maximum_system_frequency_is_a_hard_boundary() {
    // The documented maximum succeeds ...
    let cfg = Config::sysclk_via_hsi_pll(Variant::Standard, Hertz { raw: 144_000_000 }).unwrap();
    let (clocks, _) = cfg.freeze(Variant::Standard).unwrap();
    assert_eq!(clocks.sysclk().raw(), 144_000_000);
    // ... and one unit beyond it is rejected before any register value is
    // produced.
    assert_eq!(
        Config::sysclk_via_hsi_pll(Variant::Standard, Hertz { raw: 144_000_001 }),
        Err(ClockError::SysclkOverMaximum)
    );
}

#[test]
fn multiplier_outside_variant_enumeration_is_rejected() {
    // x18 exists on the standard variant but the half-step variant caps
    // at x16: rejected at validation time.
    let make = || Config {
        pll: PLLConfig {
            src: PLLSrc::HSI,
            mul: PLLMul::Mul18,
        },
        mux: ClockSrc::PLL,
        ..base_config()
    };
    assert!(make().freeze(Variant::Standard).is_ok());
    assert_eq!(
        make().freeze(Variant::HalfStep).unwrap_err(),
        ClockError::UnsupportedPllMultiplier
    );
}

#[test]
fn half_step_multiplier_is_exact() {
    // x6.5 is multiply-by-13-after-halving: 8 MHz -> 52 MHz.
    let cfg = Config {
        pll: PLLConfig {
            src: PLLSrc::HSI,
            mul: PLLMul::Mul6_5,
        },
        mux: ClockSrc::PLL,
        ..base_config()
    };
    let (clocks, _) = cfg.freeze(Variant::HalfStep).unwrap();
    assert_eq!(clocks.sysclk().raw(), 52_000_000);
    // The target-frequency solver finds the half-step factor too.
    let solved = Config::sysclk_via_hsi_pll(Variant::HalfStep, Hertz { raw: 52_000_000 }).unwrap();
    assert_eq!(solved.pll.mul, PLLMul::Mul6_5);
}

#[test]
fn compact_variant_runs_at_24_and_48_mhz() {
    let cfg = Config {
        mux: ClockSrc::HSI,
        ..base_config()
    };
    let (clocks, _) = cfg.freeze(Variant::Compact).unwrap();
    assert_eq!(clocks.sysclk().raw(), 24_000_000);

    let cfg = Config {
        pll: PLLConfig {
            src: PLLSrc::HSI,
            mul: PLLMul::Mul2,
        },
        mux: ClockSrc::PLL,
        ..base_config()
    };
    let (clocks, _) = cfg.freeze(Variant::Compact).unwrap();
    assert_eq!(clocks.sysclk().raw(), 48_000_000);
}

#[test]
fn missing_external_oscillator_is_rejected() {
    let cfg = Config {
        mux: ClockSrc::HSE,
        ..base_config()
    };
    assert_eq!(cfg.freeze(Variant::Standard).unwrap_err(), ClockError::HseMissing);

    let cfg = Config {
        pll: PLLConfig {
            src: PLLSrc::HSE(HSEPrescaler::NotDivided),
            mul: PLLMul::Mul9,
        },
        mux: ClockSrc::PLL,
        ..base_config()
    };
    assert_eq!(cfg.freeze(Variant::Standard).unwrap_err(), ClockError::HseMissing);
}

#[test]
fn external_oscillator_range_depends_on_mode_and_variant() {
    // 1 MHz is below the crystal minimum of 3 MHz ...
    let cfg = Config {
        hse: hse(1_000_000, HSESrc::Crystal),
        mux: ClockSrc::HSE,
        ..base_config()
    };
    assert_eq!(
        cfg.freeze(Variant::Standard).unwrap_err(),
        ClockError::HseFrequencyOutOfRange
    );
    // ... but acceptable for a bypassed external clock.
    let cfg = Config {
        hse: hse(1_000_000, HSESrc::Bypass),
        mux: ClockSrc::HSE,
        ..base_config()
    };
    assert!(cfg.freeze(Variant::Standard).is_ok());
    // 32 MHz needs the half-step variant's wider range.
    let cfg = Config {
        hse: hse(32_000_000, HSESrc::Crystal),
        ..base_config()
    };
    assert_eq!(
        cfg.freeze(Variant::Standard).unwrap_err(),
        ClockError::HseFrequencyOutOfRange
    );
    let cfg = Config {
        hse: hse(32_000_000, HSESrc::Crystal),
        ..base_config()
    };
    assert!(cfg.freeze(Variant::HalfStep).is_ok());
}

#[test]
fn inexact_divisions_are_rejected_not_approximated() {
    // A pre-divided PLL input that leaves a remainder.
    let cfg = Config {
        hse: hse(1_000_001, HSESrc::Bypass),
        pll: PLLConfig {
            src: PLLSrc::HSE(HSEPrescaler::Div2),
            mul: PLLMul::Mul16,
        },
        mux: ClockSrc::PLL,
        ..base_config()
    };
    assert_eq!(cfg.freeze(Variant::Standard).unwrap_err(), ClockError::InexactPllInput);

    // A core-bus division that leaves a remainder.
    let cfg = Config {
        hse: hse(5_000_001, HSESrc::Bypass),
        mux: ClockSrc::HSE,
        ahb_pre: AHBPrescaler::Div2,
        ..base_config()
    };
    assert_eq!(cfg.freeze(Variant::Standard).unwrap_err(), ClockError::InexactAhbDivision);

    // A peripheral-bus division that leaves a remainder.
    let cfg = Config {
        hse: hse(1_000_001, HSESrc::Bypass),
        mux: ClockSrc::HSE,
        apb1_pre: APBPrescaler::Div2,
        ..base_config()
    };
    assert_eq!(cfg.freeze(Variant::Standard).unwrap_err(), ClockError::InexactApbDivision);
}

#[test]
fn unsupported_prescalers_are_rejected() {
    // Divide-by-three on the core bus exists only on the compact variant.
    let cfg = Config {
        ahb_pre: AHBPrescaler::Div3,
        ..base_config()
    };
    assert_eq!(
        cfg.freeze(Variant::Standard).unwrap_err(),
        ClockError::UnsupportedAhbPrescaler
    );
    // The compact variant has no peripheral-bus prescaler.
    let cfg = Config {
        apb1_pre: APBPrescaler::Div2,
        ..base_config()
    };
    assert_eq!(
        cfg.freeze(Variant::Compact).unwrap_err(),
        ClockError::UnsupportedApbPrescaler
    );
    // The four- and eight-fold external pre-dividers have no register
    // encoding on these parts.
    let cfg = Config {
        hse: hse(8_000_000, HSESrc::Crystal),
        pll: PLLConfig {
            src: PLLSrc::HSE(HSEPrescaler::Div4),
            mul: PLLMul::Mul9,
        },
        mux: ClockSrc::PLL,
        ..base_config()
    };
    assert_eq!(
        cfg.freeze(Variant::Standard).unwrap_err(),
        ClockError::UnsupportedHsePrescaler
    );
}

#[test]
fn clock_output_selection_is_variant_checked() {
    let cfg = Config {
        mco: MCO::Pll,
        ..base_config()
    };
    assert_eq!(
        cfg.freeze(Variant::Standard).unwrap_err(),
        ClockError::UnsupportedClockOutput
    );
    let cfg = Config {
        mco: MCO::PllDiv2,
        ..base_config()
    };
    assert_eq!(cfg.freeze(Variant::Standard).unwrap().1.mco_bits, 0b111);
}

#[test]
fn bus_ordering_holds_on_every_accepted_configuration() {
    // The snapshot invariant, checked on a spread of valid configs.
    let configs = [
        (Variant::Standard, base_config()),
        (Variant::Standard, base_config().sysclk_144m_via_hsi()),
        (Variant::Standard, base_config().sysclk_96m_via_hsi()),
        (
            Variant::Standard,
            Config {
                ahb_pre: AHBPrescaler::Div4,
                apb1_pre: APBPrescaler::Div2,
                apb2_pre: APBPrescaler::Div4,
                ..base_config().sysclk_144m_via_hsi()
            },
        ),
        (
            Variant::Compact,
            Config {
                ahb_pre: AHBPrescaler::Div6,
                pll: PLLConfig {
                    src: PLLSrc::HSI,
                    mul: PLLMul::Mul2,
                },
                mux: ClockSrc::PLL,
                ..base_config()
            },
        ),
    ];
    for (variant, cfg) in configs {
        let (clocks, _) = cfg.freeze(variant).unwrap();
        let sys = clocks.sysclk().raw();
        let h = clocks.hclk().raw();
        let p1 = clocks.pclk1().raw();
        let p2 = clocks.pclk2().raw();
        assert!(h <= sys);
        assert!(p1 <= h);
        assert!(p2 <= h);
        // Every ratio is an exact whole number.
        assert_eq!(sys % h, 0);
        assert_eq!(h % p1, 0);
        assert_eq!(h % p2, 0);
    }
}

#[test]
fn lsi_is_reported_when_enabled() {
    let cfg = Config {
        enable_lsi: true,
        ..base_config()
    };
    let (clocks, plan) = cfg.freeze(Variant::Standard).unwrap();
    assert_eq!(clocks.lsi(), Some(Hertz { raw: 128_000 }));
    assert!(plan.enable_lsi);
    assert_eq!(clocks.lse(), None);
}

#[test]
fn solver_fills_the_whole_divisor_chain() {
    // Defaults mean no division anywhere.
    let sys = Hertz { raw: 72_000_000 };
    assert_eq!(
        solve_prescalers(Variant::Standard, sys, None, None, None),
        Ok((
            AHBPrescaler::NotDivided,
            APBPrescaler::NotDivided,
            APBPrescaler::NotDivided
        ))
    );
    // A divided chain: 144 -> 36 -> 18 / 36 MHz.
    assert_eq!(
        solve_prescalers(
            Variant::Standard,
            Hertz { raw: 144_000_000 },
            Some(Hertz { raw: 36_000_000 }),
            Some(Hertz { raw: 18_000_000 }),
            None,
        ),
        Ok((AHBPrescaler::Div4, APBPrescaler::Div2, APBPrescaler::NotDivided))
    );
    // An unreachable request anywhere in the chain rejects the whole
    // solution.
    assert_eq!(
        solve_prescalers(
            Variant::Standard,
            Hertz { raw: 144_000_000 },
            Some(Hertz { raw: 36_000_000 }),
            Some(Hertz { raw: 10_000_000 }),
            None,
        ),
        Err(ClockError::NoExactPrescaler)
    );
}
