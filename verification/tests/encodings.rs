//! Register-field encodings: every logical value maps to a bit pattern
//! and back.

use ch32v00x_hal::rcc::{AHBPrescaler, APBPrescaler, HSEPrescaler, PLLMul, Variant, MCO};

#[test]
fn ahb_prescaler_round_trips() {
    let members = [
        AHBPrescaler::NotDivided,
        AHBPrescaler::Div2,
        AHBPrescaler::Div3,
        AHBPrescaler::Div4,
        AHBPrescaler::Div5,
        AHBPrescaler::Div6,
        AHBPrescaler::Div7,
        AHBPrescaler::Div8,
        AHBPrescaler::Div16,
        AHBPrescaler::Div32,
        AHBPrescaler::Div64,
        AHBPrescaler::Div128,
        AHBPrescaler::Div256,
        AHBPrescaler::Div512,
    ];
    for v in [Variant::Standard, Variant::HalfStep, Variant::Compact] {
        for p in members {
            if let Some(bits) = p.bits(v) {
                assert_eq!(AHBPrescaler::from_bits(v, bits), Some(p));
            }
        }
    }
    // Fixed patterns from the reference manuals.
    assert_eq!(AHBPrescaler::Div2.bits(Variant::Standard), Some(0b1000));
    assert_eq!(AHBPrescaler::Div2.bits(Variant::Compact), Some(0b0001));
    assert_eq!(AHBPrescaler::Div3.bits(Variant::Standard), None);
    assert_eq!(AHBPrescaler::Div512.bits(Variant::Compact), None);
    assert_eq!(AHBPrescaler::Div512.divisor(), 512);
}

#[test]
fn apb_prescaler_round_trips() {
    let members = [
        APBPrescaler::NotDivided,
        APBPrescaler::Div2,
        APBPrescaler::Div4,
        APBPrescaler::Div8,
        APBPrescaler::Div16,
    ];
    for v in [Variant::Standard, Variant::HalfStep, Variant::Compact] {
        for p in members {
            if let Some(bits) = p.bits(v) {
                assert_eq!(APBPrescaler::from_bits(v, bits), Some(p));
            }
        }
    }
    assert_eq!(APBPrescaler::Div16.bits(Variant::Standard), Some(0b111));
    assert_eq!(APBPrescaler::Div2.bits(Variant::Compact), None);
}

#[test]
fn pll_multiplier_round_trips() {
    let members = [
        PLLMul::Mul2,
        PLLMul::Mul3,
        PLLMul::Mul4,
        PLLMul::Mul5,
        PLLMul::Mul6,
        PLLMul::Mul6_5,
        PLLMul::Mul7,
        PLLMul::Mul8,
        PLLMul::Mul9,
        PLLMul::Mul10,
        PLLMul::Mul11,
        PLLMul::Mul12,
        PLLMul::Mul13,
        PLLMul::Mul14,
        PLLMul::Mul15,
        PLLMul::Mul16,
        PLLMul::Mul18,
    ];
    for v in [Variant::Standard, Variant::HalfStep, Variant::Compact] {
        for m in members {
            if let Some(bits) = m.bits(v) {
                assert_eq!(PLLMul::from_bits(v, bits), Some(m));
            }
        }
    }
    // The bit patterns shift between variants: the same logical factor has
    // a different encoding, and the same encoding a different factor.
    assert_eq!(PLLMul::Mul15.bits(Variant::Standard), Some(0b1101));
    assert_eq!(PLLMul::Mul6_5.bits(Variant::HalfStep), Some(0b1101));
    assert_eq!(PLLMul::Mul6_5.bits(Variant::Standard), None);
    assert_eq!(PLLMul::Mul18.bits(Variant::HalfStep), None);
    assert_eq!(PLLMul::Mul2.bits(Variant::Compact), Some(0));
    assert_eq!(PLLMul::Mul9.bits(Variant::Compact), None);
}

#[test]
fn hse_prescaler_round_trips() {
    let members = [
        HSEPrescaler::NotDivided,
        HSEPrescaler::Div2,
        HSEPrescaler::Div4,
        HSEPrescaler::Div8,
    ];
    for v in [Variant::Standard, Variant::HalfStep, Variant::Compact] {
        for p in members {
            if let Some(bits) = p.bits(v) {
                assert_eq!(HSEPrescaler::from_bits(v, bits), Some(p));
            }
        }
    }
    assert_eq!(HSEPrescaler::Div2.bits(Variant::Standard), Some(1));
    assert_eq!(HSEPrescaler::Div2.bits(Variant::Compact), None);
}

#[test]
fn clock_output_round_trips() {
    let members = [MCO::NoMco, MCO::Sysclk, MCO::Hsi, MCO::Hse, MCO::PllDiv2, MCO::Pll];
    for v in [Variant::Standard, Variant::HalfStep, Variant::Compact] {
        for m in members {
            if let Some(bits) = m.bits(v) {
                assert_eq!(MCO::from_bits(v, bits), Some(m));
            }
        }
    }
    assert_eq!(MCO::NoMco.bits(Variant::Standard), Some(0b000));
    assert_eq!(MCO::Pll.bits(Variant::Standard), None);
    assert_eq!(MCO::PllDiv2.bits(Variant::Compact), None);
}

#[test]
fn undefined_bit_patterns_decode_to_nothing() {
    assert_eq!(AHBPrescaler::from_bits(Variant::Standard, 0b0001), None);
    assert_eq!(APBPrescaler::from_bits(Variant::Standard, 0b001), None);
    assert_eq!(APBPrescaler::from_bits(Variant::Compact, 0b100), None);
    assert_eq!(HSEPrescaler::from_bits(Variant::Standard, 2), None);
    assert_eq!(MCO::from_bits(Variant::Standard, 0b001), None);
}
