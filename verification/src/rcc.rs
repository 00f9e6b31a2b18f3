//! Reset and clock control.
//!
//! The clock tree is configured declaratively: a [`Config`] describes the
//! wanted oscillators, PLL multiplication and bus prescalers, and
//! [`Config::freeze`] validates it against a chip [`Variant`] description.
//! On success it returns the immutable [`Clocks`] snapshot together with a
//! [`ClockPlan`]: the exact register field values that the hardware bring-up
//! sequence writes.  All checks happen before any register write; an invalid
//! configuration is reported as a [`ClockError`] and the hardware is never
//! touched.

use vstd::prelude::*;

pub mod enable;

use crate::time::Hertz;

verus! {

/// Description of a chip variant: which oscillator ranges, PLL multipliers
/// and bus divisors the part supports, and how each logical value is encoded
/// in its register fields.
#[derive(Clone, Copy, Debug, PartialEq, Eq, Structural)]
pub enum Variant {
    /// 8 MHz internal oscillator, PLL multipliers x2..x16 and x18,
    /// system clock up to 144 MHz.
    Standard,
    /// 8 MHz internal oscillator, PLL multipliers x3..x16 including the
    /// half-step x6.5, system clock up to 144 MHz, external oscillator
    /// accepted up to 32 MHz.
    HalfStep,
    /// 24 MHz internal oscillator, fixed x2 PLL, richer core-bus divisor
    /// set (including 3, 5, 6 and 7), no peripheral-bus division, system
    /// clock up to 48 MHz.
    Compact,
}

/// Typical output frequency of the HSI oscillator, per variant.
pub open spec fn spec_hsi_hz(v: Variant) -> u32 {
    match v {
        Variant::Standard => 8_000_000,
        Variant::HalfStep => 8_000_000,
        Variant::Compact => 24_000_000,
    }
}

/// Documented maximum system clock frequency, per variant.
pub open spec fn spec_max_sysclk_hz(v: Variant) -> u32 {
    match v {
        Variant::Standard => 144_000_000,
        Variant::HalfStep => 144_000_000,
        Variant::Compact => 48_000_000,
    }
}

/// Frequency of the low-speed internal oscillator.
pub open spec fn spec_lsi_hz() -> u32 {
    128_000
}

impl Variant {
    /// Typical output frequency of the HSI oscillator.
    pub fn hsi(self) -> (r: Hertz)
        ensures
            r.raw == spec_hsi_hz(self),
    {
        match self {
            Variant::Standard => Hertz { raw: 8_000_000 },
            Variant::HalfStep => Hertz { raw: 8_000_000 },
            Variant::Compact => Hertz { raw: 24_000_000 },
        }
    }

    /// Documented maximum system clock frequency.
    pub fn max_sysclk(self) -> (r: Hertz)
        ensures
            r.raw == spec_max_sysclk_hz(self),
    {
        match self {
            Variant::Standard => Hertz { raw: 144_000_000 },
            Variant::HalfStep => Hertz { raw: 144_000_000 },
            Variant::Compact => Hertz { raw: 48_000_000 },
        }
    }
}

/// HSE clock source
#[derive(Clone, Copy, Debug, PartialEq, Eq, Structural)]
pub enum HSESrc {
    /// Crystal/ceramic resonator
    Crystal,
    /// External clock source, HSE bypassed
    Bypass,
}

impl Default for HSESrc {
    fn default() -> (r: Self)
        ensures
            r == HSESrc::Crystal,
    {
        Self::Crystal
    }
}

/// External oscillator descriptor: input frequency and drive mode.
#[derive(Clone, Copy, Debug, PartialEq, Eq, Structural)]
pub struct HSEConfig {
    pub frequency: Hertz,
    pub source: HSESrc,
}

impl Default for HSEConfig {
    fn default() -> (r: Self)
        ensures
            r.frequency.raw == 32_000_000,
            r.source == HSESrc::Crystal,
    {
        Self { frequency: Hertz { raw: 32_000_000 }, source: HSESrc::Crystal }
    }
}

/// Accepted HSE input range: 3..=25 MHz for a crystal and 1..=25 MHz for a
/// bypassed external clock, with the maximum raised to 32 MHz on the
/// half-step variant.
pub open spec fn spec_hse_in_range(v: Variant, h: HSEConfig) -> bool {
    let max: u32 = if v == Variant::HalfStep {
        32_000_000
    } else {
        25_000_000
    };
    match h.source {
        HSESrc::Crystal => 3_000_000 <= h.frequency.raw <= max,
        HSESrc::Bypass => 1_000_000 <= h.frequency.raw <= max,
    }
}

/// Source of the system clock signal.
#[derive(Clone, Copy, Debug, PartialEq, Eq, Structural)]
pub enum ClockSrc {
    /// High speed external oscillator
    HSE,
    /// High speed internal RC oscillator
    HSI,
    /// Phase locked loop
    PLL,
}

impl ClockSrc {
    /// Register encoding of the clock-source mux (`SW`/`SWS` fields).
    pub open spec fn spec_sw_bits(self) -> u8 {
        match self {
            ClockSrc::HSI => 0b00,
            ClockSrc::HSE => 0b01,
            ClockSrc::PLL => 0b10,
        }
    }

    /// Register encoding of the clock-source mux (`SW`/`SWS` fields).
    pub fn sw_bits(self) -> (r: u8)
        ensures
            r == self.spec_sw_bits(),
    {
        match self {
            ClockSrc::HSI => 0b00,
            ClockSrc::HSE => 0b01,
            ClockSrc::PLL => 0b10,
        }
    }
}

/// AHB (core bus) prescaler
#[derive(Clone, Copy, Debug, PartialEq, Eq, Structural)]
pub enum AHBPrescaler {
    NotDivided,
    Div2,
    Div3,
    Div4,
    Div5,
    Div6,
    Div7,
    Div8,
    Div16,
    Div32,
    Div64,
    Div128,
    Div256,
    Div512,
}

impl AHBPrescaler {
    /// The division factor this prescaler applies.
    pub open spec fn spec_divisor(self) -> u32 {
        match self {
            AHBPrescaler::NotDivided => 1,
            AHBPrescaler::Div2 => 2,
            AHBPrescaler::Div3 => 3,
            AHBPrescaler::Div4 => 4,
            AHBPrescaler::Div5 => 5,
            AHBPrescaler::Div6 => 6,
            AHBPrescaler::Div7 => 7,
            AHBPrescaler::Div8 => 8,
            AHBPrescaler::Div16 => 16,
            AHBPrescaler::Div32 => 32,
            AHBPrescaler::Div64 => 64,
            AHBPrescaler::Div128 => 128,
            AHBPrescaler::Div256 => 256,
            AHBPrescaler::Div512 => 512,
        }
    }

    /// The division factor this prescaler applies.
    #[verifier::when_used_as_spec(spec_divisor)]
    pub fn divisor(self) -> (r: u32)
        ensures
            r == self.spec_divisor(),
    {
        match self {
            AHBPrescaler::NotDivided => 1,
            AHBPrescaler::Div2 => 2,
            AHBPrescaler::Div3 => 3,
            AHBPrescaler::Div4 => 4,
            AHBPrescaler::Div5 => 5,
            AHBPrescaler::Div6 => 6,
            AHBPrescaler::Div7 => 7,
            AHBPrescaler::Div8 => 8,
            AHBPrescaler::Div16 => 16,
            AHBPrescaler::Div32 => 32,
            AHBPrescaler::Div64 => 64,
            AHBPrescaler::Div128 => 128,
            AHBPrescaler::Div256 => 256,
            AHBPrescaler::Div512 => 512,
        }
    }

    /// Register encoding of the `HPRE` field, or `None` where the variant
    /// does not support the divisor.
    pub open spec fn spec_bits(self, v: Variant) -> Option<u8> {
        match v {
            Variant::Standard | Variant::HalfStep => match self {
                AHBPrescaler::NotDivided => Some(0b0000),
                AHBPrescaler::Div2 => Some(0b1000),
                AHBPrescaler::Div4 => Some(0b1001),
                AHBPrescaler::Div8 => Some(0b1010),
                AHBPrescaler::Div16 => Some(0b1011),
                AHBPrescaler::Div64 => Some(0b1100),
                AHBPrescaler::Div128 => Some(0b1101),
                AHBPrescaler::Div256 => Some(0b1110),
                AHBPrescaler::Div512 => Some(0b1111),
                _ => None,
            },
            Variant::Compact => match self {
                AHBPrescaler::NotDivided => Some(0b0000),
                AHBPrescaler::Div2 => Some(0b0001),
                AHBPrescaler::Div3 => Some(0b0010),
                AHBPrescaler::Div4 => Some(0b0011),
                AHBPrescaler::Div5 => Some(0b0100),
                AHBPrescaler::Div6 => Some(0b0101),
                AHBPrescaler::Div7 => Some(0b0110),
                AHBPrescaler::Div8 => Some(0b0111),
                AHBPrescaler::Div16 => Some(0b1011),
                AHBPrescaler::Div32 => Some(0b1100),
                AHBPrescaler::Div64 => Some(0b1101),
                AHBPrescaler::Div128 => Some(0b1110),
                AHBPrescaler::Div256 => Some(0b1111),
                AHBPrescaler::Div512 => None,
            },
        }
    }

    /// Register encoding of the `HPRE` field, or `None` where the variant
    /// does not support the divisor.
    #[verifier::when_used_as_spec(spec_bits)]
    pub fn bits(self, v: Variant) -> (r: Option<u8>)
        ensures
            r == self.spec_bits(v),
    {
        match v {
            Variant::Standard | Variant::HalfStep => match self {
                AHBPrescaler::NotDivided => Some(0b0000),
                AHBPrescaler::Div2 => Some(0b1000),
                AHBPrescaler::Div4 => Some(0b1001),
                AHBPrescaler::Div8 => Some(0b1010),
                AHBPrescaler::Div16 => Some(0b1011),
                AHBPrescaler::Div64 => Some(0b1100),
                AHBPrescaler::Div128 => Some(0b1101),
                AHBPrescaler::Div256 => Some(0b1110),
                AHBPrescaler::Div512 => Some(0b1111),
                _ => None,
            },
            Variant::Compact => match self {
                AHBPrescaler::NotDivided => Some(0b0000),
                AHBPrescaler::Div2 => Some(0b0001),
                AHBPrescaler::Div3 => Some(0b0010),
                AHBPrescaler::Div4 => Some(0b0011),
                AHBPrescaler::Div5 => Some(0b0100),
                AHBPrescaler::Div6 => Some(0b0101),
                AHBPrescaler::Div7 => Some(0b0110),
                AHBPrescaler::Div8 => Some(0b0111),
                AHBPrescaler::Div16 => Some(0b1011),
                AHBPrescaler::Div32 => Some(0b1100),
                AHBPrescaler::Div64 => Some(0b1101),
                AHBPrescaler::Div128 => Some(0b1110),
                AHBPrescaler::Div256 => Some(0b1111),
                AHBPrescaler::Div512 => None,
            },
        }
    }

    /// Decode a `HPRE` register field back to the logical prescaler.
    pub fn from_bits(v: Variant, bits: u8) -> (r: Option<AHBPrescaler>)
        ensures
            match r {
                Some(p) => p.spec_bits(v) == Some(bits),
                None => forall|p: AHBPrescaler| p.spec_bits(v) != Some(bits),
            },
    {
        match v {
            Variant::Standard | Variant::HalfStep => match bits {
                0b0000 => Some(AHBPrescaler::NotDivided),
                0b1000 => Some(AHBPrescaler::Div2),
                0b1001 => Some(AHBPrescaler::Div4),
                0b1010 => Some(AHBPrescaler::Div8),
                0b1011 => Some(AHBPrescaler::Div16),
                0b1100 => Some(AHBPrescaler::Div64),
                0b1101 => Some(AHBPrescaler::Div128),
                0b1110 => Some(AHBPrescaler::Div256),
                0b1111 => Some(AHBPrescaler::Div512),
                _ => None,
            },
            Variant::Compact => match bits {
                0b0000 => Some(AHBPrescaler::NotDivided),
                0b0001 => Some(AHBPrescaler::Div2),
                0b0010 => Some(AHBPrescaler::Div3),
                0b0011 => Some(AHBPrescaler::Div4),
                0b0100 => Some(AHBPrescaler::Div5),
                0b0101 => Some(AHBPrescaler::Div6),
                0b0110 => Some(AHBPrescaler::Div7),
                0b0111 => Some(AHBPrescaler::Div8),
                0b1011 => Some(AHBPrescaler::Div16),
                0b1100 => Some(AHBPrescaler::Div32),
                0b1101 => Some(AHBPrescaler::Div64),
                0b1110 => Some(AHBPrescaler::Div128),
                0b1111 => Some(AHBPrescaler::Div256),
                _ => None,
            },
        }
    }

    /// The prescaler whose division factor is exactly `ratio` and which the
    /// variant supports, if any.
    pub fn from_divisor(v: Variant, ratio: u32) -> (r: Option<AHBPrescaler>)
        ensures
            match r {
                Some(p) => p.spec_bits(v) is Some && p.spec_divisor() == ratio,
                None => forall|p: AHBPrescaler|
                    p.spec_bits(v) is Some ==> p.spec_divisor() != ratio,
            },
    {
        let p = match ratio {
            1 => Some(AHBPrescaler::NotDivided),
            2 => Some(AHBPrescaler::Div2),
            3 => Some(AHBPrescaler::Div3),
            4 => Some(AHBPrescaler::Div4),
            5 => Some(AHBPrescaler::Div5),
            6 => Some(AHBPrescaler::Div6),
            7 => Some(AHBPrescaler::Div7),
            8 => Some(AHBPrescaler::Div8),
            16 => Some(AHBPrescaler::Div16),
            32 => Some(AHBPrescaler::Div32),
            64 => Some(AHBPrescaler::Div64),
            128 => Some(AHBPrescaler::Div128),
            256 => Some(AHBPrescaler::Div256),
            512 => Some(AHBPrescaler::Div512),
            _ => None,
        };
        match p {
            Some(p) => {
                if p.bits(v).is_some() {
                    Some(p)
                } else {
                    None
                }
            },
            None => None,
        }
    }
}

/// APB (peripheral bus) prescaler
#[derive(Clone, Copy, Debug, PartialEq, Eq, Structural)]
pub enum APBPrescaler {
    NotDivided,
    Div2,
    Div4,
    Div8,
    Div16,
}

impl APBPrescaler {
    /// The division factor this prescaler applies.
    pub open spec fn spec_divisor(self) -> u32 {
        match self {
            APBPrescaler::NotDivided => 1,
            APBPrescaler::Div2 => 2,
            APBPrescaler::Div4 => 4,
            APBPrescaler::Div8 => 8,
            APBPrescaler::Div16 => 16,
        }
    }

    /// The division factor this prescaler applies.
    #[verifier::when_used_as_spec(spec_divisor)]
    pub fn divisor(self) -> (r: u32)
        ensures
            r == self.spec_divisor(),
    {
        match self {
            APBPrescaler::NotDivided => 1,
            APBPrescaler::Div2 => 2,
            APBPrescaler::Div4 => 4,
            APBPrescaler::Div8 => 8,
            APBPrescaler::Div16 => 16,
        }
    }

    /// Register encoding of a `PPRE` field, or `None` where the variant has
    /// no peripheral-bus prescaler (only undivided operation).
    pub open spec fn spec_bits(self, v: Variant) -> Option<u8> {
        match v {
            Variant::Standard | Variant::HalfStep => match self {
                APBPrescaler::NotDivided => Some(0b000),
                APBPrescaler::Div2 => Some(0b100),
                APBPrescaler::Div4 => Some(0b101),
                APBPrescaler::Div8 => Some(0b110),
                APBPrescaler::Div16 => Some(0b111),
            },
            Variant::Compact => match self {
                APBPrescaler::NotDivided => Some(0b000),
                _ => None,
            },
        }
    }

    /// Register encoding of a `PPRE` field, or `None` where the variant has
    /// no peripheral-bus prescaler (only undivided operation).
    #[verifier::when_used_as_spec(spec_bits)]
    pub fn bits(self, v: Variant) -> (r: Option<u8>)
        ensures
            r == self.spec_bits(v),
    {
        match v {
            Variant::Standard | Variant::HalfStep => match self {
                APBPrescaler::NotDivided => Some(0b000),
                APBPrescaler::Div2 => Some(0b100),
                APBPrescaler::Div4 => Some(0b101),
                APBPrescaler::Div8 => Some(0b110),
                APBPrescaler::Div16 => Some(0b111),
            },
            Variant::Compact => match self {
                APBPrescaler::NotDivided => Some(0b000),
                _ => None,
            },
        }
    }

    /// Decode a `PPRE` register field back to the logical prescaler.
    pub fn from_bits(v: Variant, bits: u8) -> (r: Option<APBPrescaler>)
        ensures
            match r {
                Some(p) => p.spec_bits(v) == Some(bits),
                None => forall|p: APBPrescaler| p.spec_bits(v) != Some(bits),
            },
    {
        match v {
            Variant::Standard | Variant::HalfStep => match bits {
                0b000 => Some(APBPrescaler::NotDivided),
                0b100 => Some(APBPrescaler::Div2),
                0b101 => Some(APBPrescaler::Div4),
                0b110 => Some(APBPrescaler::Div8),
                0b111 => Some(APBPrescaler::Div16),
                _ => None,
            },
            Variant::Compact => match bits {
                0b000 => Some(APBPrescaler::NotDivided),
                _ => None,
            },
        }
    }

    /// The prescaler whose division factor is exactly `ratio` and which the
    /// variant supports, if any.
    pub fn from_divisor(v: Variant, ratio: u32) -> (r: Option<APBPrescaler>)
        ensures
            match r {
                Some(p) => p.spec_bits(v) is Some && p.spec_divisor() == ratio,
                None => forall|p: APBPrescaler|
                    p.spec_bits(v) is Some ==> p.spec_divisor() != ratio,
            },
    {
        let p = match ratio {
            1 => Some(APBPrescaler::NotDivided),
            2 => Some(APBPrescaler::Div2),
            4 => Some(APBPrescaler::Div4),
            8 => Some(APBPrescaler::Div8),
            16 => Some(APBPrescaler::Div16),
            _ => None,
        };
        match p {
            Some(p) => {
                if p.bits(v).is_some() {
                    Some(p)
                } else {
                    None
                }
            },
            None => None,
        }
    }
}

/// Pre-divider applied to the external oscillator before it feeds the PLL.
#[derive(Clone, Copy, Debug, PartialEq, Eq, Structural)]
pub enum HSEPrescaler {
    NotDivided,
    Div2,
    Div4,
    Div8,
}

impl HSEPrescaler {
    /// The division factor this pre-divider applies.
    pub open spec fn spec_divisor(self) -> u32 {
        match self {
            HSEPrescaler::NotDivided => 1,
            HSEPrescaler::Div2 => 2,
            HSEPrescaler::Div4 => 4,
            HSEPrescaler::Div8 => 8,
        }
    }

    /// The division factor this pre-divider applies.
    #[verifier::when_used_as_spec(spec_divisor)]
    pub fn divisor(self) -> (r: u32)
        ensures
            r == self.spec_divisor(),
    {
        match self {
            HSEPrescaler::NotDivided => 1,
            HSEPrescaler::Div2 => 2,
            HSEPrescaler::Div4 => 4,
            HSEPrescaler::Div8 => 8,
        }
    }

    /// Register encoding of the `PLLXTPRE` field, or `None` where the
    /// variant's field cannot express the divisor.  The parts modelled here
    /// carry a single pre-divider bit, so only 1 and 2 are representable,
    /// and the compact variant feeds the PLL undivided.
    pub open spec fn spec_bits(self, v: Variant) -> Option<u8> {
        match v {
            Variant::Standard | Variant::HalfStep => match self {
                HSEPrescaler::NotDivided => Some(0),
                HSEPrescaler::Div2 => Some(1),
                _ => None,
            },
            Variant::Compact => match self {
                HSEPrescaler::NotDivided => Some(0),
                _ => None,
            },
        }
    }

    /// Register encoding of the `PLLXTPRE` field, or `None` where the
    /// variant's field cannot express the divisor.
    #[verifier::when_used_as_spec(spec_bits)]
    pub fn bits(self, v: Variant) -> (r: Option<u8>)
        ensures
            r == self.spec_bits(v),
    {
        match v {
            Variant::Standard | Variant::HalfStep => match self {
                HSEPrescaler::NotDivided => Some(0),
                HSEPrescaler::Div2 => Some(1),
                _ => None,
            },
            Variant::Compact => match self {
                HSEPrescaler::NotDivided => Some(0),
                _ => None,
            },
        }
    }

    /// Decode a `PLLXTPRE` register field back to the logical pre-divider.
    pub fn from_bits(v: Variant, bits: u8) -> (r: Option<HSEPrescaler>)
        ensures
            match r {
                Some(p) => p.spec_bits(v) == Some(bits),
                None => forall|p: HSEPrescaler| p.spec_bits(v) != Some(bits),
            },
    {
        match v {
            Variant::Standard | Variant::HalfStep => match bits {
                0 => Some(HSEPrescaler::NotDivided),
                1 => Some(HSEPrescaler::Div2),
                _ => None,
            },
            Variant::Compact => match bits {
                0 => Some(HSEPrescaler::NotDivided),
                _ => None,
            },
        }
    }
}

/// PLL multiplication factors.
///
/// `Mul6_5` is the half-step factor: it multiplies by 13 after halving the
/// input, so the PLL input must be even for the result to be exact.
#[derive(Clone, Copy, Debug, PartialEq, Eq, Structural)]
pub enum PLLMul {
    Mul2,
    Mul3,
    Mul4,
    Mul5,
    Mul6,
    Mul6_5,
    Mul7,
    Mul8,
    Mul9,
    Mul10,
    Mul11,
    Mul12,
    Mul13,
    Mul14,
    Mul15,
    Mul16,
    Mul18,
}

impl PLLMul {
    /// Numerator of the multiplication factor.
    pub open spec fn spec_num(self) -> u32 {
        match self {
            PLLMul::Mul2 => 2,
            PLLMul::Mul3 => 3,
            PLLMul::Mul4 => 4,
            PLLMul::Mul5 => 5,
            PLLMul::Mul6 => 6,
            PLLMul::Mul6_5 => 13,
            PLLMul::Mul7 => 7,
            PLLMul::Mul8 => 8,
            PLLMul::Mul9 => 9,
            PLLMul::Mul10 => 10,
            PLLMul::Mul11 => 11,
            PLLMul::Mul12 => 12,
            PLLMul::Mul13 => 13,
            PLLMul::Mul14 => 14,
            PLLMul::Mul15 => 15,
            PLLMul::Mul16 => 16,
            PLLMul::Mul18 => 18,
        }
    }

    /// Numerator of the multiplication factor.
    #[verifier::when_used_as_spec(spec_num)]
    pub fn num(self) -> (r: u32)
        ensures
            r == self.spec_num(),
    {
        match self {
            PLLMul::Mul2 => 2,
            PLLMul::Mul3 => 3,
            PLLMul::Mul4 => 4,
            PLLMul::Mul5 => 5,
            PLLMul::Mul6 => 6,
            PLLMul::Mul6_5 => 13,
            PLLMul::Mul7 => 7,
            PLLMul::Mul8 => 8,
            PLLMul::Mul9 => 9,
            PLLMul::Mul10 => 10,
            PLLMul::Mul11 => 11,
            PLLMul::Mul12 => 12,
            PLLMul::Mul13 => 13,
            PLLMul::Mul14 => 14,
            PLLMul::Mul15 => 15,
            PLLMul::Mul16 => 16,
            PLLMul::Mul18 => 18,
        }
    }

    /// Pre-division applied before the numerator (2 for the half-step
    /// factor, 1 otherwise).
    pub open spec fn spec_den(self) -> u32 {
        if self == PLLMul::Mul6_5 {
            2
        } else {
            1
        }
    }

    /// Pre-division applied before the numerator.
    #[verifier::when_used_as_spec(spec_den)]
    pub fn den(self) -> (r: u32)
        ensures
            r == self.spec_den(),
    {
        if self == PLLMul::Mul6_5 {
            2
        } else {
            1
        }
    }

    /// Register encoding of the `PLLMUL` field, or `None` where the variant
    /// does not offer the factor.
    pub open spec fn spec_bits(self, v: Variant) -> Option<u8> {
        match v {
            Variant::Standard => match self {
                PLLMul::Mul2 => Some(0b0000),
                PLLMul::Mul3 => Some(0b0001),
                PLLMul::Mul4 => Some(0b0010),
                PLLMul::Mul5 => Some(0b0011),
                PLLMul::Mul6 => Some(0b0100),
                PLLMul::Mul7 => Some(0b0101),
                PLLMul::Mul8 => Some(0b0110),
                PLLMul::Mul9 => Some(0b0111),
                PLLMul::Mul10 => Some(0b1000),
                PLLMul::Mul11 => Some(0b1001),
                PLLMul::Mul12 => Some(0b1010),
                PLLMul::Mul13 => Some(0b1011),
                PLLMul::Mul14 => Some(0b1100),
                PLLMul::Mul15 => Some(0b1101),
                PLLMul::Mul16 => Some(0b1110),
                PLLMul::Mul18 => Some(0b1111),
                PLLMul::Mul6_5 => None,
            },
            Variant::HalfStep => match self {
                PLLMul::Mul3 => Some(0b0001),
                PLLMul::Mul4 => Some(0b0010),
                PLLMul::Mul5 => Some(0b0011),
                PLLMul::Mul6 => Some(0b0100),
                PLLMul::Mul7 => Some(0b0101),
                PLLMul::Mul8 => Some(0b0110),
                PLLMul::Mul9 => Some(0b0111),
                PLLMul::Mul10 => Some(0b1000),
                PLLMul::Mul11 => Some(0b1001),
                PLLMul::Mul12 => Some(0b1010),
                PLLMul::Mul13 => Some(0b1011),
                PLLMul::Mul14 => Some(0b1100),
                PLLMul::Mul6_5 => Some(0b1101),
                PLLMul::Mul15 => Some(0b1110),
                PLLMul::Mul16 => Some(0b1111),
                _ => None,
            },
            Variant::Compact => match self {
                PLLMul::Mul2 => Some(0),
                _ => None,
            },
        }
    }

    /// Register encoding of the `PLLMUL` field, or `None` where the variant
    /// does not offer the factor.
    #[verifier::when_used_as_spec(spec_bits)]
    pub fn bits(self, v: Variant) -> (r: Option<u8>)
        ensures
            r == self.spec_bits(v),
    {
        match v {
            Variant::Standard => match self {
                PLLMul::Mul2 => Some(0b0000),
                PLLMul::Mul3 => Some(0b0001),
                PLLMul::Mul4 => Some(0b0010),
                PLLMul::Mul5 => Some(0b0011),
                PLLMul::Mul6 => Some(0b0100),
                PLLMul::Mul7 => Some(0b0101),
                PLLMul::Mul8 => Some(0b0110),
                PLLMul::Mul9 => Some(0b0111),
                PLLMul::Mul10 => Some(0b1000),
                PLLMul::Mul11 => Some(0b1001),
                PLLMul::Mul12 => Some(0b1010),
                PLLMul::Mul13 => Some(0b1011),
                PLLMul::Mul14 => Some(0b1100),
                PLLMul::Mul15 => Some(0b1101),
                PLLMul::Mul16 => Some(0b1110),
                PLLMul::Mul18 => Some(0b1111),
                PLLMul::Mul6_5 => None,
            },
            Variant::HalfStep => match self {
                PLLMul::Mul3 => Some(0b0001),
                PLLMul::Mul4 => Some(0b0010),
                PLLMul::Mul5 => Some(0b0011),
                PLLMul::Mul6 => Some(0b0100),
                PLLMul::Mul7 => Some(0b0101),
                PLLMul::Mul8 => Some(0b0110),
                PLLMul::Mul9 => Some(0b0111),
                PLLMul::Mul10 => Some(0b1000),
                PLLMul::Mul11 => Some(0b1001),
                PLLMul::Mul12 => Some(0b1010),
                PLLMul::Mul13 => Some(0b1011),
                PLLMul::Mul14 => Some(0b1100),
                PLLMul::Mul6_5 => Some(0b1101),
                PLLMul::Mul15 => Some(0b1110),
                PLLMul::Mul16 => Some(0b1111),
                _ => None,
            },
            Variant::Compact => match self {
                PLLMul::Mul2 => Some(0),
                _ => None,
            },
        }
    }

    /// Decode a `PLLMUL` register field back to the logical factor.
    pub fn from_bits(v: Variant, bits: u8) -> (r: Option<PLLMul>)
        ensures
            match r {
                Some(m) => m.spec_bits(v) == Some(bits),
                None => forall|m: PLLMul| m.spec_bits(v) != Some(bits),
            },
    {
        match v {
            Variant::Standard => match bits {
                0b0000 => Some(PLLMul::Mul2),
                0b0001 => Some(PLLMul::Mul3),
                0b0010 => Some(PLLMul::Mul4),
                0b0011 => Some(PLLMul::Mul5),
                0b0100 => Some(PLLMul::Mul6),
                0b0101 => Some(PLLMul::Mul7),
                0b0110 => Some(PLLMul::Mul8),
                0b0111 => Some(PLLMul::Mul9),
                0b1000 => Some(PLLMul::Mul10),
                0b1001 => Some(PLLMul::Mul11),
                0b1010 => Some(PLLMul::Mul12),
                0b1011 => Some(PLLMul::Mul13),
                0b1100 => Some(PLLMul::Mul14),
                0b1101 => Some(PLLMul::Mul15),
                0b1110 => Some(PLLMul::Mul16),
                0b1111 => Some(PLLMul::Mul18),
                _ => None,
            },
            Variant::HalfStep => match bits {
                0b0001 => Some(PLLMul::Mul3),
                0b0010 => Some(PLLMul::Mul4),
                0b0011 => Some(PLLMul::Mul5),
                0b0100 => Some(PLLMul::Mul6),
                0b0101 => Some(PLLMul::Mul7),
                0b0110 => Some(PLLMul::Mul8),
                0b0111 => Some(PLLMul::Mul9),
                0b1000 => Some(PLLMul::Mul10),
                0b1001 => Some(PLLMul::Mul11),
                0b1010 => Some(PLLMul::Mul12),
                0b1011 => Some(PLLMul::Mul13),
                0b1100 => Some(PLLMul::Mul14),
                0b1101 => Some(PLLMul::Mul6_5),
                0b1110 => Some(PLLMul::Mul15),
                0b1111 => Some(PLLMul::Mul16),
                _ => None,
            },
            Variant::Compact => match bits {
                0 => Some(PLLMul::Mul2),
                _ => None,
            },
        }
    }

    /// The factor that multiplies exactly by the integer `m`, if any.
    pub fn from_integer_factor(m: u32) -> (r: Option<PLLMul>)
        ensures
            match r {
                Some(p) => p.spec_den() == 1 && p.spec_num() == m,
                None => forall|p: PLLMul| p.spec_den() == 1 ==> p.spec_num() != m,
            },
    {
        match m {
            2 => Some(PLLMul::Mul2),
            3 => Some(PLLMul::Mul3),
            4 => Some(PLLMul::Mul4),
            5 => Some(PLLMul::Mul5),
            6 => Some(PLLMul::Mul6),
            7 => Some(PLLMul::Mul7),
            8 => Some(PLLMul::Mul8),
            9 => Some(PLLMul::Mul9),
            10 => Some(PLLMul::Mul10),
            11 => Some(PLLMul::Mul11),
            12 => Some(PLLMul::Mul12),
            13 => Some(PLLMul::Mul13),
            14 => Some(PLLMul::Mul14),
            15 => Some(PLLMul::Mul15),
            16 => Some(PLLMul::Mul16),
            18 => Some(PLLMul::Mul18),
            _ => None,
        }
    }
}

/// Microcontroller clock output selection.
#[derive(Clone, Copy, Debug, PartialEq, Eq, Structural)]
pub enum MCO {
    /// No clock
    NoMco,
    /// System clock selected
    Sysclk,
    /// HSI clock selected
    Hsi,
    /// HSE oscillator clock selected
    Hse,
    /// PLL/2 clock selected (variants with a multiplier table)
    PllDiv2,
    /// PLL clock selected (compact variant)
    Pll,
}

impl MCO {
    /// Register encoding of the `MCO` field, or `None` where the variant
    /// has no such output option.
    pub open spec fn spec_bits(self, v: Variant) -> Option<u8> {
        match self {
            MCO::NoMco => Some(0b000),
            MCO::Sysclk => Some(0b100),
            MCO::Hsi => Some(0b101),
            MCO::Hse => Some(0b110),
            MCO::PllDiv2 => if v == Variant::Compact {
                None
            } else {
                Some(0b111)
            },
            MCO::Pll => if v == Variant::Compact {
                Some(0b111)
            } else {
                None
            },
        }
    }

    /// Register encoding of the `MCO` field, or `None` where the variant
    /// has no such output option.
    #[verifier::when_used_as_spec(spec_bits)]
    pub fn bits(self, v: Variant) -> (r: Option<u8>)
        ensures
            r == self.spec_bits(v),
    {
        match self {
            MCO::NoMco => Some(0b000),
            MCO::Sysclk => Some(0b100),
            MCO::Hsi => Some(0b101),
            MCO::Hse => Some(0b110),
            MCO::PllDiv2 => if v == Variant::Compact {
                None
            } else {
                Some(0b111)
            },
            MCO::Pll => if v == Variant::Compact {
                Some(0b111)
            } else {
                None
            },
        }
    }

    /// Decode an `MCO` register field back to the logical selection.
    pub fn from_bits(v: Variant, bits: u8) -> (r: Option<MCO>)
        ensures
            match r {
                Some(m) => m.spec_bits(v) == Some(bits),
                None => forall|m: MCO| m.spec_bits(v) != Some(bits),
            },
    {
        match bits {
            0b000 => Some(MCO::NoMco),
            0b100 => Some(MCO::Sysclk),
            0b101 => Some(MCO::Hsi),
            0b110 => Some(MCO::Hse),
            0b111 => if v == Variant::Compact {
                Some(MCO::Pll)
            } else {
                Some(MCO::PllDiv2)
            },
            _ => None,
        }
    }
}

/// Source feeding the PLL.
#[derive(Clone, Copy, Debug, PartialEq, Eq, Structural)]
pub enum PLLSrc {
    /// External oscillator, optionally pre-divided.
    HSE(HSEPrescaler),
    /// Internal oscillator.
    HSI,
}

/// PLL configuration: input source and multiplication factor.
#[derive(Clone, Copy, Debug, PartialEq, Eq, Structural)]
pub struct PLLConfig {
    pub src: PLLSrc,
    pub mul: PLLMul,
}

/// Clock configuration.
///
/// Pure data: building a `Config` has no hardware effect.  It is consumed
/// by value by [`Config::freeze`], so a configuration cannot be reused or
/// mutated once sequencing has begun.
#[derive(Debug, PartialEq, Eq, Structural)]
pub struct Config {
    pub hse: Option<HSEConfig>,
    /// PLLCLK
    pub pll: PLLConfig,
    pub enable_lsi: bool,
    pub mux: ClockSrc,
    pub ahb_pre: AHBPrescaler,
    pub apb1_pre: APBPrescaler,
    pub apb2_pre: APBPrescaler,
    /// Clock-output mux selection
    pub mco: MCO,
}

/// Why a configuration was rejected.  Every error is reported before any
/// register write.
#[derive(Clone, Copy, Debug, PartialEq, Eq, Structural)]
pub enum ClockError {
    /// The mux or the PLL selects the external oscillator, but `hse` is
    /// `None`.
    HseMissing,
    /// The external oscillator frequency is outside the documented range
    /// for its mode.
    HseFrequencyOutOfRange,
    /// The requested PLL multiplier is not in this variant's enumeration.
    UnsupportedPllMultiplier,
    /// The requested HSE pre-divider is not in this variant's enumeration.
    UnsupportedHsePrescaler,
    /// Pre-dividing the PLL input does not yield a whole number of hertz.
    InexactPllInput,
    /// The requested clock-output selection does not exist on this variant.
    UnsupportedClockOutput,
    /// The resulting system frequency exceeds the documented maximum.
    SysclkOverMaximum,
    /// The requested core-bus divisor is not in this variant's enumeration.
    UnsupportedAhbPrescaler,
    /// Dividing the system clock by the core-bus prescaler does not yield a
    /// whole number of hertz.
    InexactAhbDivision,
    /// The requested peripheral-bus divisor is not in this variant's
    /// enumeration.
    UnsupportedApbPrescaler,
    /// Dividing the core-bus clock by a peripheral-bus prescaler does not
    /// yield a whole number of hertz.
    InexactApbDivision,
    /// No member of the divisor enumeration reproduces the requested bus
    /// ratio exactly.
    NoExactPrescaler,
}

/// The external oscillator frequency named by the configuration (0 when no
/// external oscillator is configured).
pub open spec fn spec_hse_hz(cfg: Config) -> u32 {
    match cfg.hse {
        Some(h) => h.frequency.raw,
        None => 0,
    }
}

/// Whether the configuration routes the external oscillator into the PLL.
pub open spec fn spec_pll_uses_hse(cfg: Config) -> bool {
    cfg.pll.src is HSE
}

/// The frequency fed into the PLL: the internal oscillator, or the external
/// oscillator after its pre-divider.
pub open spec fn spec_pll_in_hz(v: Variant, cfg: Config) -> int {
    match cfg.pll.src {
        PLLSrc::HSI => spec_hsi_hz(v) as int,
        PLLSrc::HSE(p) => spec_hse_hz(cfg) as int / p.spec_divisor() as int,
    }
}

/// The PLL output frequency: the input is pre-divided (only the half-step
/// factor divides, by two) and then multiplied.
pub open spec fn spec_pll_out_hz(v: Variant, cfg: Config) -> int {
    (spec_pll_in_hz(v, cfg) / cfg.pll.mul.spec_den() as int) * cfg.pll.mul.spec_num() as int
}

/// The system frequency selected by the mux.
pub open spec fn spec_sysclk_hz(v: Variant, cfg: Config) -> int {
    match cfg.mux {
        ClockSrc::HSI => spec_hsi_hz(v) as int,
        ClockSrc::HSE => spec_hse_hz(cfg) as int,
        ClockSrc::PLL => spec_pll_out_hz(v, cfg),
    }
}

/// The core-bus frequency: the system frequency divided by the core-bus
/// prescaler.
pub open spec fn spec_hclk_hz(v: Variant, cfg: Config) -> int {
    spec_sysclk_hz(v, cfg) / cfg.ahb_pre.spec_divisor() as int
}

/// The first peripheral bus frequency.
pub open spec fn spec_pclk1_hz(v: Variant, cfg: Config) -> int {
    spec_hclk_hz(v, cfg) / cfg.apb1_pre.spec_divisor() as int
}

/// The second peripheral bus frequency.
pub open spec fn spec_pclk2_hz(v: Variant, cfg: Config) -> int {
    spec_hclk_hz(v, cfg) / cfg.apb2_pre.spec_divisor() as int
}

/// Eager validation of a configuration against a variant, in the order the
/// checks are performed: the first failing check names the error.  `None`
/// means the configuration is accepted.
pub open spec fn spec_validate(v: Variant, cfg: Config) -> Option<ClockError> {
    let needs_hse = cfg.mux == ClockSrc::HSE || (cfg.mux == ClockSrc::PLL
        && spec_pll_uses_hse(cfg));
    if needs_hse && cfg.hse is None {
        Some(ClockError::HseMissing)
    } else if cfg.hse matches Some(h) && !spec_hse_in_range(v, h) {
        Some(ClockError::HseFrequencyOutOfRange)
    } else if cfg.mux == ClockSrc::PLL && cfg.pll.mul.spec_bits(v) is None {
        Some(ClockError::UnsupportedPllMultiplier)
    } else if cfg.mux == ClockSrc::PLL && (cfg.pll.src matches PLLSrc::HSE(p)
        && p.spec_bits(v) is None) {
        Some(ClockError::UnsupportedHsePrescaler)
    } else if cfg.mux == ClockSrc::PLL && (cfg.pll.src matches PLLSrc::HSE(p)
        && spec_hse_hz(cfg) as int % p.spec_divisor() as int != 0) {
        Some(ClockError::InexactPllInput)
    } else if cfg.mux == ClockSrc::PLL
        && spec_pll_in_hz(v, cfg) % cfg.pll.mul.spec_den() as int != 0 {
        Some(ClockError::InexactPllInput)
    } else if cfg.mco.spec_bits(v) is None {
        Some(ClockError::UnsupportedClockOutput)
    } else if spec_sysclk_hz(v, cfg) > spec_max_sysclk_hz(v) {
        Some(ClockError::SysclkOverMaximum)
    } else if cfg.ahb_pre.spec_bits(v) is None {
        Some(ClockError::UnsupportedAhbPrescaler)
    } else if spec_sysclk_hz(v, cfg) % cfg.ahb_pre.spec_divisor() as int != 0 {
        Some(ClockError::InexactAhbDivision)
    } else if cfg.apb1_pre.spec_bits(v) is None {
        Some(ClockError::UnsupportedApbPrescaler)
    } else if spec_hclk_hz(v, cfg) % cfg.apb1_pre.spec_divisor() as int != 0 {
        Some(ClockError::InexactApbDivision)
    } else if cfg.apb2_pre.spec_bits(v) is None {
        Some(ClockError::UnsupportedApbPrescaler)
    } else if spec_hclk_hz(v, cfg) % cfg.apb2_pre.spec_divisor() as int != 0 {
        Some(ClockError::InexactApbDivision)
    } else {
        None
    }
}

/// External-oscillator step of the bring-up sequence.
#[derive(Clone, Copy, Debug, PartialEq, Eq, Structural)]
pub struct HsePlan {
    /// Value of the `HSEBYP` bit: true for a bypassed external clock,
    /// false for a crystal.
    pub bypass: bool,
}

/// PLL step of the bring-up sequence.  All fields are written while the PLL
/// is disabled.
#[derive(Clone, Copy, Debug, PartialEq, Eq, Structural)]
pub struct PllPlan {
    /// Value of the `PLLSRC` bit: true selects the external oscillator.
    pub src_hse: bool,
    /// Value of the `PLLMUL` field.
    pub mul_bits: u8,
    /// Value of the `PLLXTPRE` field.
    pub xtpre_bits: u8,
    /// Value of the extension bit that feeds the internal oscillator to the
    /// PLL at full speed instead of pre-divided by two.
    pub hsi_full_speed: bool,
}

/// The validated register field values that the hardware bring-up sequence
/// writes, derived from a [`Config`] by [`Config::freeze`].
#[derive(Clone, Copy, Debug, PartialEq, Eq, Structural)]
pub struct ClockPlan {
    /// Enable the external oscillator in this mode before switching.
    pub hse: Option<HsePlan>,
    /// Value of the `HPRE` field (core-bus prescaler).
    pub hpre_bits: u8,
    /// Value of the `PPRE1` field (first peripheral-bus prescaler).
    pub ppre1_bits: u8,
    /// Value of the `PPRE2` field (second peripheral-bus prescaler).
    pub ppre2_bits: u8,
    /// Configure and enable the PLL with these fields before switching.
    pub pll: Option<PllPlan>,
    /// Value of the `SW` field: the final clock-source mux selection.
    pub sw_bits: u8,
    /// Value of the flash access-timing bit: true keeps full-speed access,
    /// false halves it (required above 72 MHz).
    pub flash_full_speed: bool,
    /// Enable the low-speed internal oscillator.
    pub enable_lsi: bool,
    /// Value of the `MCO` field (clock-output mux).
    pub mco_bits: u8,
}

/// The register plan a valid configuration compiles to.
pub open spec fn spec_plan(v: Variant, cfg: Config) -> ClockPlan {
    ClockPlan {
        hse: match cfg.hse {
            Some(h) => Some(HsePlan { bypass: h.source == HSESrc::Bypass }),
            None => None,
        },
        hpre_bits: cfg.ahb_pre.spec_bits(v).unwrap(),
        ppre1_bits: cfg.apb1_pre.spec_bits(v).unwrap(),
        ppre2_bits: cfg.apb2_pre.spec_bits(v).unwrap(),
        pll: if cfg.mux == ClockSrc::PLL {
            Some(PllPlan {
                src_hse: spec_pll_uses_hse(cfg),
                mul_bits: cfg.pll.mul.spec_bits(v).unwrap(),
                xtpre_bits: match cfg.pll.src {
                    PLLSrc::HSE(p) => p.spec_bits(v).unwrap(),
                    PLLSrc::HSI => 0,
                },
                hsi_full_speed: cfg.pll.src == PLLSrc::HSI && v != Variant::Compact,
            })
        } else {
            None
        },
        sw_bits: cfg.mux.spec_sw_bits(),
        flash_full_speed: spec_sysclk_hz(v, cfg) <= 72_000_000,
        enable_lsi: cfg.enable_lsi,
        mco_bits: cfg.mco.spec_bits(v).unwrap(),
    }
}

/// Frozen clock frequencies.
///
/// The existence of this value indicates that the clock configuration can
/// no longer be changed: it is created exactly once by [`Config::freeze`]
/// and read-only thereafter.
#[derive(Clone, Copy, Debug)]
pub struct Clocks {
    pub sysclk: Hertz,
    pub hclk: Hertz,
    pub pclk1: Hertz,
    pub pclk2: Hertz,
    pub pllclk: Option<Hertz>,
    pub hse: Option<Hertz>,
    pub lse: Option<Hertz>,
    pub lsi: Option<Hertz>,
}

impl Clocks {
    /// The snapshot invariant: the system clock is within the hardware
    /// bound, and every bus frequency divides its upstream frequency by a
    /// value drawn from that bus's divisor enumeration — never an
    /// approximation.
    pub open spec fn wf(self) -> bool {
        &&& 1 <= self.sysclk.raw <= 144_000_000
        &&& exists|a: AHBPrescaler|
            #[trigger] a.spec_divisor() * self.hclk.raw == self.sysclk.raw
        &&& exists|p: APBPrescaler|
            #[trigger] p.spec_divisor() * self.pclk1.raw == self.hclk.raw
        &&& exists|p: APBPrescaler|
            #[trigger] p.spec_divisor() * self.pclk2.raw == self.hclk.raw
    }

    /// Returns the frequency of the core bus (AHB).
    pub fn hclk(&self) -> (r: Hertz)
        ensures
            r == self.hclk,
    {
        self.hclk
    }

    /// Returns the frequency of the first peripheral bus (APB1).
    pub fn pclk1(&self) -> (r: Hertz)
        ensures
            r == self.pclk1,
    {
        self.pclk1
    }

    /// Returns the frequency of the second peripheral bus (APB2).
    pub fn pclk2(&self) -> (r: Hertz)
        ensures
            r == self.pclk2,
    {
        self.pclk2
    }

    /// Returns the system (core) frequency.
    pub fn sysclk(&self) -> (r: Hertz)
        ensures
            r == self.sysclk,
    {
        self.sysclk
    }

    /// Returns the frequency of the `HSE` if `Some`, else `None`.
    pub fn hse(&self) -> (r: Option<Hertz>)
        ensures
            r == self.hse,
    {
        self.hse
    }

    /// Returns the frequency of the `LSE` if `Some`, else `None`.
    pub fn lse(&self) -> (r: Option<Hertz>)
        ensures
            r == self.lse,
    {
        self.lse
    }

    /// Returns the frequency of the `LSI` if `Some`, else `None`.
    pub fn lsi(&self) -> (r: Option<Hertz>)
        ensures
            r == self.lsi,
    {
        self.lsi
    }
}

impl Default for Clocks {
    /// The reset state: everything runs from the 8 MHz internal oscillator.
    fn default() -> (r: Self)
        ensures
            r.sysclk.raw == 8_000_000,
            r.hclk.raw == 8_000_000,
            r.pclk1.raw == 8_000_000,
            r.pclk2.raw == 8_000_000,
            r.pllclk is None,
            r.hse is None,
            r.lse is None,
            r.lsi is None,
    {
        Clocks {
            sysclk: Hertz { raw: 8_000_000 },
            hclk: Hertz { raw: 8_000_000 },
            pclk1: Hertz { raw: 8_000_000 },
            pclk2: Hertz { raw: 8_000_000 },
            pllclk: None,
            hse: None,
            lse: None,
            lsi: None,
        }
    }
}

impl Config {
    /// Validate this configuration against `v` and compile it.
    ///
    /// Consumes the configuration: a `Config` cannot be reused after
    /// sequencing begins.  On success the returned [`Clocks`] snapshot
    /// holds the intended frequencies and the [`ClockPlan`] holds every
    /// register field value the bring-up sequence writes, in the order
    /// enable-oscillator, program prescalers, configure PLL while disabled,
    /// enable PLL, switch mux, adjust flash timing.  On failure nothing may
    /// be written to the hardware.
    #[verifier::rlimit(100)]
    pub fn freeze(self, v: Variant) -> (r: Result<(Clocks, ClockPlan), ClockError>)
        ensures
            match r {
                Ok(out) => {
                    &&& spec_validate(v, self) is None
                    &&& out.0.sysclk.raw == spec_sysclk_hz(v, self)
                    &&& out.0.hclk.raw == spec_hclk_hz(v, self)
                    &&& out.0.pclk1.raw == spec_pclk1_hz(v, self)
                    &&& out.0.pclk2.raw == spec_pclk2_hz(v, self)
                    &&& out.0.pllclk == (if self.mux == ClockSrc::PLL {
                        Some(out.0.sysclk)
                    } else {
                        None::<Hertz>
                    })
                    &&& out.0.hse == (match self.hse {
                        Some(h) => Some(h.frequency),
                        None => None::<Hertz>,
                    })
                    &&& out.0.lse is None
                    &&& out.0.lsi == (if self.enable_lsi {
                        Some(Hertz { raw: spec_lsi_hz() })
                    } else {
                        None::<Hertz>
                    })
                    &&& out.0.wf()
                    &&& out.1 == spec_plan(v, self)
                },
                Err(e) => spec_validate(v, self) == Some(e),
            },
    {
        let hsi_hz: u32 = v.hsi().raw;
        let max_hz: u32 = v.max_sysclk().raw;

        // An external oscillator must be described before it can be chosen.
        let needs_hse = match self.mux {
            ClockSrc::HSE => true,
            ClockSrc::PLL => matches!(self.pll.src, PLLSrc::HSE(_)),
            ClockSrc::HSI => false,
        };
        let hse_hz: u32 = match self.hse {
            Some(h) => h.frequency.raw,
            None => {
                if needs_hse {
                    return Err(ClockError::HseMissing);
                }
                0
            },
        };

        // A described external oscillator is started by the sequence even
        // when it is not the final source, so its range is always checked.
        if let Some(h) = self.hse {
            let max: u32 = if matches!(v, Variant::HalfStep) {
                32_000_000
            } else {
                25_000_000
            };
            let ok = match h.source {
                HSESrc::Crystal => 3_000_000 <= h.frequency.raw && h.frequency.raw <= max,
                HSESrc::Bypass => 1_000_000 <= h.frequency.raw && h.frequency.raw <= max,
            };
            if !ok {
                return Err(ClockError::HseFrequencyOutOfRange);
            }
        }

        // Resolve the PLL, checking the multiplier against the variant's
        // enumeration and keeping every division exact.
        let mut pll_plan: Option<PllPlan> = None;
        let sysclk_hz: u32 = match self.mux {
            ClockSrc::HSI => hsi_hz,
            ClockSrc::HSE => hse_hz,
            ClockSrc::PLL => {
                let mul_bits = match self.pll.mul.bits(v) {
                    Some(b) => b,
                    None => {
                        return Err(ClockError::UnsupportedPllMultiplier);
                    },
                };
                let (in_hz, src_hse, xtpre_bits): (u32, bool, u8) = match self.pll.src {
                    PLLSrc::HSI => (hsi_hz, false, 0),
                    PLLSrc::HSE(p) => {
                        let xtpre = match p.bits(v) {
                            Some(b) => b,
                            None => {
                                return Err(ClockError::UnsupportedHsePrescaler);
                            },
                        };
                        if hse_hz % p.divisor() != 0 {
                            return Err(ClockError::InexactPllInput);
                        }
                        (hse_hz / p.divisor(), true, xtpre)
                    },
                };
                proof {
                    match self.pll.src {
                        PLLSrc::HSI => {
                            assert(in_hz >= 500_000);
                        },
                        PLLSrc::HSE(p) => {
                            assert(p.spec_divisor() == 1 || p.spec_divisor() == 2);
                            assert(in_hz >= 500_000) by (nonlinear_arith)
                                requires
                                    hse_hz >= 1_000_000,
                                    in_hz == hse_hz / p.spec_divisor(),
                                    p.spec_divisor() == 1 || p.spec_divisor() == 2,
                            ;
                        },
                    }
                }
                let den = self.pll.mul.den();
                if in_hz % den != 0 {
                    return Err(ClockError::InexactPllInput);
                }
                pll_plan = Some(PllPlan {
                    src_hse,
                    mul_bits,
                    xtpre_bits,
                    hsi_full_speed: matches!(self.pll.src, PLLSrc::HSI)
                        && !matches!(v, Variant::Compact),
                });
                assert(den == 1 || den == 2);
                assert(1 <= in_hz / den * self.pll.mul.spec_num() <= 32_000_000 * 18)
                    by (nonlinear_arith)
                    requires
                        500_000 <= in_hz <= 32_000_000,
                        den == 1 || den == 2,
                        2 <= self.pll.mul.spec_num() <= 18,
                ;
                (in_hz / den) * self.pll.mul.num()
            },
        };

        let mco_bits = match self.mco.bits(v) {
            Some(b) => b,
            None => {
                return Err(ClockError::UnsupportedClockOutput);
            },
        };

        // The system frequency itself is bounded by the hardware maximum.
        if sysclk_hz > max_hz {
            return Err(ClockError::SysclkOverMaximum);
        }

        // Bus prescalers: each divisor must exist on this variant and must
        // divide its upstream frequency exactly.
        let hpre_bits = match self.ahb_pre.bits(v) {
            Some(b) => b,
            None => {
                return Err(ClockError::UnsupportedAhbPrescaler);
            },
        };
        if sysclk_hz % self.ahb_pre.divisor() != 0 {
            return Err(ClockError::InexactAhbDivision);
        }
        let hclk_hz = sysclk_hz / self.ahb_pre.divisor();

        let ppre1_bits = match self.apb1_pre.bits(v) {
            Some(b) => b,
            None => {
                return Err(ClockError::UnsupportedApbPrescaler);
            },
        };
        if hclk_hz % self.apb1_pre.divisor() != 0 {
            return Err(ClockError::InexactApbDivision);
        }
        let pclk1_hz = hclk_hz / self.apb1_pre.divisor();

        let ppre2_bits = match self.apb2_pre.bits(v) {
            Some(b) => b,
            None => {
                return Err(ClockError::UnsupportedApbPrescaler);
            },
        };
        if hclk_hz % self.apb2_pre.divisor() != 0 {
            return Err(ClockError::InexactApbDivision);
        }
        let pclk2_hz = hclk_hz / self.apb2_pre.divisor();

        let clocks = Clocks {
            sysclk: Hertz { raw: sysclk_hz },
            hclk: Hertz { raw: hclk_hz },
            pclk1: Hertz { raw: pclk1_hz },
            pclk2: Hertz { raw: pclk2_hz },
            pllclk: if matches!(self.mux, ClockSrc::PLL) {
                Some(Hertz { raw: sysclk_hz })
            } else {
                None
            },
            hse: match self.hse {
                Some(h) => Some(h.frequency),
                None => None,
            },
            lse: None,
            lsi: if self.enable_lsi {
                Some(Hertz { raw: 128_000 })
            } else {
                None
            },
        };
        let plan = ClockPlan {
            hse: match self.hse {
                Some(h) => Some(HsePlan { bypass: matches!(h.source, HSESrc::Bypass) }),
                None => None,
            },
            hpre_bits,
            ppre1_bits,
            ppre2_bits,
            pll: pll_plan,
            sw_bits: self.mux.sw_bits(),
            flash_full_speed: sysclk_hz <= 72_000_000,
            enable_lsi: self.enable_lsi,
            mco_bits,
        };

        proof {
            let ad = self.ahb_pre.spec_divisor();
            let p1d = self.apb1_pre.spec_divisor();
            let p2d = self.apb2_pre.spec_divisor();
            assert(ad * hclk_hz == sysclk_hz) by (nonlinear_arith)
                requires
                    sysclk_hz % ad == 0,
                    hclk_hz == sysclk_hz / ad,
                    ad >= 1,
            ;
            assert(p1d * pclk1_hz == hclk_hz) by (nonlinear_arith)
                requires
                    hclk_hz % p1d == 0,
                    pclk1_hz == hclk_hz / p1d,
                    p1d >= 1,
            ;
            assert(p2d * pclk2_hz == hclk_hz) by (nonlinear_arith)
                requires
                    hclk_hz % p2d == 0,
                    pclk2_hz == hclk_hz / p2d,
                    p2d >= 1,
            ;
        }

        Ok((clocks, plan))
    }
}


impl AHBPrescaler {
    /// Decoding table for the `HPRE` field, per variant.
    pub open spec fn spec_from_bits(v: Variant, bits: u8) -> Option<AHBPrescaler> {
        match v {
            Variant::Standard | Variant::HalfStep => match bits {
                0b0000 => Some(AHBPrescaler::NotDivided),
                0b1000 => Some(AHBPrescaler::Div2),
                0b1001 => Some(AHBPrescaler::Div4),
                0b1010 => Some(AHBPrescaler::Div8),
                0b1011 => Some(AHBPrescaler::Div16),
                0b1100 => Some(AHBPrescaler::Div64),
                0b1101 => Some(AHBPrescaler::Div128),
                0b1110 => Some(AHBPrescaler::Div256),
                0b1111 => Some(AHBPrescaler::Div512),
                _ => None,
            },
            Variant::Compact => match bits {
                0b0000 => Some(AHBPrescaler::NotDivided),
                0b0001 => Some(AHBPrescaler::Div2),
                0b0010 => Some(AHBPrescaler::Div3),
                0b0011 => Some(AHBPrescaler::Div4),
                0b0100 => Some(AHBPrescaler::Div5),
                0b0101 => Some(AHBPrescaler::Div6),
                0b0110 => Some(AHBPrescaler::Div7),
                0b0111 => Some(AHBPrescaler::Div8),
                0b1011 => Some(AHBPrescaler::Div16),
                0b1100 => Some(AHBPrescaler::Div32),
                0b1101 => Some(AHBPrescaler::Div64),
                0b1110 => Some(AHBPrescaler::Div128),
                0b1111 => Some(AHBPrescaler::Div256),
                _ => None,
            },
        }
    }
}

impl APBPrescaler {
    /// Decoding table for a `PPRE` field, per variant.
    pub open spec fn spec_from_bits(v: Variant, bits: u8) -> Option<APBPrescaler> {
        match v {
            Variant::Standard | Variant::HalfStep => match bits {
                0b000 => Some(APBPrescaler::NotDivided),
                0b100 => Some(APBPrescaler::Div2),
                0b101 => Some(APBPrescaler::Div4),
                0b110 => Some(APBPrescaler::Div8),
                0b111 => Some(APBPrescaler::Div16),
                _ => None,
            },
            Variant::Compact => match bits {
                0b000 => Some(APBPrescaler::NotDivided),
                _ => None,
            },
        }
    }
}

impl HSEPrescaler {
    /// Decoding table for the `PLLXTPRE` field, per variant.
    pub open spec fn spec_from_bits(v: Variant, bits: u8) -> Option<HSEPrescaler> {
        match v {
            Variant::Standard | Variant::HalfStep => match bits {
                0 => Some(HSEPrescaler::NotDivided),
                1 => Some(HSEPrescaler::Div2),
                _ => None,
            },
            Variant::Compact => match bits {
                0 => Some(HSEPrescaler::NotDivided),
                _ => None,
            },
        }
    }
}

impl PLLMul {
    /// Decoding table for the `PLLMUL` field, per variant.
    pub open spec fn spec_from_bits(v: Variant, bits: u8) -> Option<PLLMul> {
        match v {
            Variant::Standard => match bits {
                0b0000 => Some(PLLMul::Mul2),
                0b0001 => Some(PLLMul::Mul3),
                0b0010 => Some(PLLMul::Mul4),
                0b0011 => Some(PLLMul::Mul5),
                0b0100 => Some(PLLMul::Mul6),
                0b0101 => Some(PLLMul::Mul7),
                0b0110 => Some(PLLMul::Mul8),
                0b0111 => Some(PLLMul::Mul9),
                0b1000 => Some(PLLMul::Mul10),
                0b1001 => Some(PLLMul::Mul11),
                0b1010 => Some(PLLMul::Mul12),
                0b1011 => Some(PLLMul::Mul13),
                0b1100 => Some(PLLMul::Mul14),
                0b1101 => Some(PLLMul::Mul15),
                0b1110 => Some(PLLMul::Mul16),
                0b1111 => Some(PLLMul::Mul18),
                _ => None,
            },
            Variant::HalfStep => match bits {
                0b0001 => Some(PLLMul::Mul3),
                0b0010 => Some(PLLMul::Mul4),
                0b0011 => Some(PLLMul::Mul5),
                0b0100 => Some(PLLMul::Mul6),
                0b0101 => Some(PLLMul::Mul7),
                0b0110 => Some(PLLMul::Mul8),
                0b0111 => Some(PLLMul::Mul9),
                0b1000 => Some(PLLMul::Mul10),
                0b1001 => Some(PLLMul::Mul11),
                0b1010 => Some(PLLMul::Mul12),
                0b1011 => Some(PLLMul::Mul13),
                0b1100 => Some(PLLMul::Mul14),
                0b1101 => Some(PLLMul::Mul6_5),
                0b1110 => Some(PLLMul::Mul15),
                0b1111 => Some(PLLMul::Mul16),
                _ => None,
            },
            Variant::Compact => match bits {
                0 => Some(PLLMul::Mul2),
                _ => None,
            },
        }
    }
}

impl MCO {
    /// Decoding table for the `MCO` field, per variant.
    pub open spec fn spec_from_bits(v: Variant, bits: u8) -> Option<MCO> {
        match bits {
            0b000 => Some(MCO::NoMco),
            0b100 => Some(MCO::Sysclk),
            0b101 => Some(MCO::Hsi),
            0b110 => Some(MCO::Hse),
            0b111 => if v == Variant::Compact {
                Some(MCO::Pll)
            } else {
                Some(MCO::PllDiv2)
            },
            _ => None,
        }
    }
}

/// Law: encoding a core-bus divisor to its register bit pattern and
/// decoding it back yields the original value, for every member of the
/// enumeration and every variant — and decoding inverts encoding.
pub proof fn lemma_ahb_prescaler_round_trip(v: Variant, p: AHBPrescaler, b: u8)
    ensures
        p.spec_bits(v) == Some(b) ==> AHBPrescaler::spec_from_bits(v, b) == Some(p),
        AHBPrescaler::spec_from_bits(v, b) == Some(p) ==> p.spec_bits(v) == Some(b),
{
}

/// Law: encoding a peripheral-bus divisor to its register bit pattern and
/// decoding it back yields the original value, for every member of the
/// enumeration and every variant — and decoding inverts encoding.
pub proof fn lemma_apb_prescaler_round_trip(v: Variant, p: APBPrescaler, b: u8)
    ensures
        p.spec_bits(v) == Some(b) ==> APBPrescaler::spec_from_bits(v, b) == Some(p),
        APBPrescaler::spec_from_bits(v, b) == Some(p) ==> p.spec_bits(v) == Some(b),
{
}

/// Law: encoding an HSE pre-divider to its register bit pattern and
/// decoding it back yields the original value, for every member of the
/// enumeration and every variant — and decoding inverts encoding.
pub proof fn lemma_hse_prescaler_round_trip(v: Variant, p: HSEPrescaler, b: u8)
    ensures
        p.spec_bits(v) == Some(b) ==> HSEPrescaler::spec_from_bits(v, b) == Some(p),
        HSEPrescaler::spec_from_bits(v, b) == Some(p) ==> p.spec_bits(v) == Some(b),
{
}

/// Law: encoding a PLL multiplier to its register bit pattern and decoding
/// it back yields the original value, for every member of the enumeration
/// and every variant — and decoding inverts encoding.
pub proof fn lemma_pll_mul_round_trip(v: Variant, m: PLLMul, b: u8)
    ensures
        m.spec_bits(v) == Some(b) ==> PLLMul::spec_from_bits(v, b) == Some(m),
        PLLMul::spec_from_bits(v, b) == Some(m) ==> m.spec_bits(v) == Some(b),
{
}

/// Law: encoding a clock-output selection to its register bit pattern and
/// decoding it back yields the original value, for every member of the
/// enumeration and every variant — and decoding inverts encoding.
pub proof fn lemma_mco_round_trip(v: Variant, m: MCO, b: u8)
    ensures
        m.spec_bits(v) == Some(b) ==> MCO::spec_from_bits(v, b) == Some(m),
        MCO::spec_from_bits(v, b) == Some(m) ==> m.spec_bits(v) == Some(b),
{
}

/// Law: a well-formed snapshot never violates the bus ordering — the
/// core-bus frequency is at most the system frequency, and each
/// peripheral-bus frequency is at most the core-bus frequency.
pub proof fn lemma_clocks_bus_ordering(c: Clocks)
    requires
        c.wf(),
    ensures
        c.hclk.raw <= c.sysclk.raw,
        c.pclk1.raw <= c.hclk.raw,
        c.pclk2.raw <= c.hclk.raw,
{
    let a = choose|a: AHBPrescaler| #[trigger] a.spec_divisor() * c.hclk.raw == c.sysclk.raw;
    assert(c.hclk.raw <= c.sysclk.raw) by (nonlinear_arith)
        requires
            a.spec_divisor() * c.hclk.raw == c.sysclk.raw,
            a.spec_divisor() >= 1,
    ;
    let p1 = choose|p: APBPrescaler| #[trigger] p.spec_divisor() * c.pclk1.raw == c.hclk.raw;
    assert(c.pclk1.raw <= c.hclk.raw) by (nonlinear_arith)
        requires
            p1.spec_divisor() * c.pclk1.raw == c.hclk.raw,
            p1.spec_divisor() >= 1,
    ;
    let p2 = choose|p: APBPrescaler| #[trigger] p.spec_divisor() * c.pclk2.raw == c.hclk.raw;
    assert(c.pclk2.raw <= c.hclk.raw) by (nonlinear_arith)
        requires
            p2.spec_divisor() * c.pclk2.raw == c.hclk.raw,
            p2.spec_divisor() >= 1,
    ;
}

/// Law: in a well-formed snapshot every bus-frequency ratio is an exact
/// integer equal to some member of that bus's divisor enumeration; no
/// ratio is ever approximated.
pub proof fn lemma_clocks_exact_ratios(c: Clocks)
    requires
        c.wf(),
    ensures
        exists|a: AHBPrescaler| #[trigger] a.spec_divisor() * c.hclk.raw == c.sysclk.raw,
        exists|p: APBPrescaler| #[trigger] p.spec_divisor() * c.pclk1.raw == c.hclk.raw,
        exists|p: APBPrescaler| #[trigger] p.spec_divisor() * c.pclk2.raw == c.hclk.raw,
{
}


/// Choose the core-bus divisor that reproduces `hclk` from `sysclk`
/// exactly.  The ratio must be a whole number and a member of the
/// variant's divisor enumeration; otherwise the request is rejected —
/// never approximated.
pub fn ahb_prescaler_for(v: Variant, sysclk: Hertz, hclk: Hertz) -> (r: Result<
    AHBPrescaler,
    ClockError,
>)
    ensures
        match r {
            Ok(p) => p.spec_bits(v) is Some && p.spec_divisor() * hclk.raw == sysclk.raw,
            Err(e) => {
                &&& e == ClockError::NoExactPrescaler
                &&& forall|p: AHBPrescaler|
                    p.spec_bits(v) is Some ==> #[trigger] p.spec_divisor() * hclk.raw
                        != sysclk.raw
            },
        },
{
    if hclk.raw == 0 {
        if sysclk.raw == 0 {
            Ok(AHBPrescaler::NotDivided)
        } else {
            Err(ClockError::NoExactPrescaler)
        }
    } else if sysclk.raw % hclk.raw != 0 {
        proof {
            assert forall|p: AHBPrescaler| p.spec_bits(v) is Some implies #[trigger] p
                .spec_divisor() * hclk.raw != sysclk.raw by {
                assert(p.spec_divisor() * hclk.raw != sysclk.raw) by (nonlinear_arith)
                    requires
                        sysclk.raw % hclk.raw != 0,
                        hclk.raw >= 1,
                ;
            }
        }
        Err(ClockError::NoExactPrescaler)
    } else {
        let ratio = sysclk.raw / hclk.raw;
        proof {
            assert(ratio * hclk.raw == sysclk.raw) by (nonlinear_arith)
                requires
                    sysclk.raw % hclk.raw == 0,
                    ratio == sysclk.raw / hclk.raw,
                    hclk.raw >= 1,
            ;
        }
        match AHBPrescaler::from_divisor(v, ratio) {
            Some(p) => Ok(p),
            None => {
                proof {
                    assert forall|p: AHBPrescaler| p.spec_bits(v) is Some implies #[trigger] p
                        .spec_divisor() * hclk.raw != sysclk.raw by {
                        assert(p.spec_divisor() != ratio);
                        assert(p.spec_divisor() * hclk.raw != ratio * hclk.raw)
                            by (nonlinear_arith)
                            requires
                                p.spec_divisor() != ratio,
                                hclk.raw >= 1,
                        ;
                    }
                }
                Err(ClockError::NoExactPrescaler)
            },
        }
    }
}

/// Choose the peripheral-bus divisor that reproduces `pclk` from `hclk`
/// exactly.  The ratio must be a whole number and a member of the
/// variant's divisor enumeration; otherwise the request is rejected —
/// never approximated.
pub fn apb_prescaler_for(v: Variant, hclk: Hertz, pclk: Hertz) -> (r: Result<
    APBPrescaler,
    ClockError,
>)
    ensures
        match r {
            Ok(p) => p.spec_bits(v) is Some && p.spec_divisor() * pclk.raw == hclk.raw,
            Err(e) => {
                &&& e == ClockError::NoExactPrescaler
                &&& forall|p: APBPrescaler|
                    p.spec_bits(v) is Some ==> #[trigger] p.spec_divisor() * pclk.raw != hclk.raw
            },
        },
{
    if pclk.raw == 0 {
        if hclk.raw == 0 {
            Ok(APBPrescaler::NotDivided)
        } else {
            Err(ClockError::NoExactPrescaler)
        }
    } else if hclk.raw % pclk.raw != 0 {
        proof {
            assert forall|p: APBPrescaler| p.spec_bits(v) is Some implies #[trigger] p
                .spec_divisor() * pclk.raw != hclk.raw by {
                assert(p.spec_divisor() * pclk.raw != hclk.raw) by (nonlinear_arith)
                    requires
                        hclk.raw % pclk.raw != 0,
                        pclk.raw >= 1,
                ;
            }
        }
        Err(ClockError::NoExactPrescaler)
    } else {
        let ratio = hclk.raw / pclk.raw;
        proof {
            assert(ratio * pclk.raw == hclk.raw) by (nonlinear_arith)
                requires
                    hclk.raw % pclk.raw == 0,
                    ratio == hclk.raw / pclk.raw,
                    pclk.raw >= 1,
            ;
        }
        match APBPrescaler::from_divisor(v, ratio) {
            Some(p) => Ok(p),
            None => {
                proof {
                    assert forall|p: APBPrescaler| p.spec_bits(v) is Some implies #[trigger] p
                        .spec_divisor() * pclk.raw != hclk.raw by {
                        assert(p.spec_divisor() != ratio);
                        assert(p.spec_divisor() * pclk.raw != ratio * pclk.raw)
                            by (nonlinear_arith)
                            requires
                                p.spec_divisor() != ratio,
                                pclk.raw >= 1,
                        ;
                    }
                }
                Err(ClockError::NoExactPrescaler)
            },
        }
    }
}


/// Solve the whole divisor chain for a target system frequency and the
/// requested bus frequencies.  A request of `None` means "no division
/// needed": the bus follows its upstream clock.  Every ratio must be a
/// whole number drawn from the variant's divisor enumerations; otherwise
/// the request is rejected — never approximated.
pub fn solve_prescalers(
    v: Variant,
    sysclk: Hertz,
    hclk: Option<Hertz>,
    pclk1: Option<Hertz>,
    pclk2: Option<Hertz>,
) -> (r: Result<(AHBPrescaler, APBPrescaler, APBPrescaler), ClockError>)
    ensures
        ({
            let h: u32 = match hclk {
                Some(x) => x.raw,
                None => sysclk.raw,
            };
            let p1: u32 = match pclk1 {
                Some(x) => x.raw,
                None => h,
            };
            let p2: u32 = match pclk2 {
                Some(x) => x.raw,
                None => h,
            };
            match r {
                Ok(out) => {
                    &&& out.0.spec_bits(v) is Some && out.0.spec_divisor() * h == sysclk.raw
                    &&& out.1.spec_bits(v) is Some && out.1.spec_divisor() * p1 == h
                    &&& out.2.spec_bits(v) is Some && out.2.spec_divisor() * p2 == h
                },
                Err(e) => {
                    &&& e == ClockError::NoExactPrescaler
                    &&& !({
                        &&& exists|a: AHBPrescaler|
                            a.spec_bits(v) is Some && #[trigger] a.spec_divisor() * h
                                == sysclk.raw
                        &&& exists|p: APBPrescaler|
                            p.spec_bits(v) is Some && #[trigger] p.spec_divisor() * p1 == h
                        &&& exists|p: APBPrescaler|
                            p.spec_bits(v) is Some && #[trigger] p.spec_divisor() * p2 == h
                    })
                },
            }
        }),
{
    let h: Hertz = match hclk {
        Some(x) => x,
        None => sysclk,
    };
    let p1: Hertz = match pclk1 {
        Some(x) => x,
        None => h,
    };
    let p2: Hertz = match pclk2 {
        Some(x) => x,
        None => h,
    };
    let ahb = match ahb_prescaler_for(v, sysclk, h) {
        Ok(a) => a,
        Err(e) => {
            return Err(e);
        },
    };
    let apb1 = match apb_prescaler_for(v, h, p1) {
        Ok(p) => p,
        Err(e) => {
            return Err(e);
        },
    };
    let apb2 = match apb_prescaler_for(v, h, p2) {
        Ok(p) => p,
        Err(e) => {
            return Err(e);
        },
    };
    Ok((ahb, apb1, apb2))
}

/// The PLL output obtained by feeding the internal oscillator through the
/// factor `m`.
pub open spec fn spec_hsi_pll_out_hz(v: Variant, m: PLLMul) -> int {
    (spec_hsi_hz(v) as int / m.spec_den() as int) * m.spec_num() as int
}

impl Config {
    /// Build the configuration that runs the system clock at exactly
    /// `target`, from the internal oscillator through the PLL, with no bus
    /// division.
    ///
    /// The target is rejected when it exceeds the variant's documented
    /// maximum, and when no multiplier in the variant's enumeration
    /// reproduces it exactly.
    pub fn sysclk_via_hsi_pll(v: Variant, target: Hertz) -> (r: Result<Config, ClockError>)
        ensures
            match r {
                Ok(cfg) => {
                    &&& spec_validate(v, cfg) is None
                    &&& spec_sysclk_hz(v, cfg) == target.raw
                    &&& cfg.hse is None
                    &&& cfg.mux == ClockSrc::PLL
                    &&& cfg.pll.src == PLLSrc::HSI
                    &&& cfg.ahb_pre == AHBPrescaler::NotDivided
                    &&& cfg.apb1_pre == APBPrescaler::NotDivided
                    &&& cfg.apb2_pre == APBPrescaler::NotDivided
                },
                Err(e) => {
                    &&& (e == ClockError::SysclkOverMaximum <==> target.raw
                        > spec_max_sysclk_hz(v))
                    &&& target.raw <= spec_max_sysclk_hz(v)
                        ==> e == ClockError::UnsupportedPllMultiplier
                    &&& e == ClockError::UnsupportedPllMultiplier ==> forall|m: PLLMul|
                        m.spec_bits(v) is Some ==> spec_hsi_pll_out_hz(v, m) != target.raw
                },
            },
    {
        if target.raw > v.max_sysclk().raw {
            return Err(ClockError::SysclkOverMaximum);
        }
        let hsi = v.hsi().raw;

        // Try the whole-number factors first, then the half-step factor.
        let mut pick: Option<PLLMul> = None;
        let ratio_exact = target.raw % hsi == 0;
        let ratio: u32 = target.raw / hsi;
        let int_m: Option<PLLMul> = if ratio_exact {
            PLLMul::from_integer_factor(ratio)
        } else {
            None
        };
        if let Some(m0) = int_m {
            if m0.bits(v).is_some() {
                pick = Some(m0);
            }
        }
        let half_out: u32 = (hsi / 2) * 13;
        if pick.is_none() && hsi % 2 == 0 && half_out == target.raw {
            if PLLMul::Mul6_5.bits(v).is_some() {
                pick = Some(PLLMul::Mul6_5);
            }
        }

        match pick {
            Some(m) => {
                let cfg = Config {
                    hse: None,
                    pll: PLLConfig { src: PLLSrc::HSI, mul: m },
                    enable_lsi: false,
                    mux: ClockSrc::PLL,
                    ahb_pre: AHBPrescaler::NotDivided,
                    apb1_pre: APBPrescaler::NotDivided,
                    apb2_pre: APBPrescaler::NotDivided,
                    mco: MCO::NoMco,
                };
                proof {
                    if m.spec_den() == 1 {
                        assert(hsi as int * m.spec_num() as int == target.raw as int)
                            by (nonlinear_arith)
                            requires
                                target.raw % hsi == 0,
                                ratio == target.raw / hsi,
                                m.spec_num() == ratio,
                                hsi >= 1,
                        ;
                    }
                }
                Ok(cfg)
            },
            None => {
                proof {
                    assert forall|m: PLLMul| m.spec_bits(v) is Some implies spec_hsi_pll_out_hz(
                        v,
                        m,
                    ) != target.raw by {
                        if m.spec_den() == 2 {
                            assert(m == PLLMul::Mul6_5);
                            assert(hsi % 2 == 0);
                            assert(half_out != target.raw);
                            assert(spec_hsi_pll_out_hz(v, m) == half_out);
                        } else {
                            assert(m.spec_den() == 1);
                            if ratio_exact {
                                match int_m {
                                    Some(m0) => {
                                        if m.spec_num() == ratio {
                                            lemma_pll_mul_num_unique(m, m0);
                                        }
                                    },
                                    None => {},
                                }
                                assert(m.spec_num() != ratio);
                                assert(hsi as int * m.spec_num() as int != target.raw as int)
                                    by (nonlinear_arith)
                                    requires
                                        target.raw % hsi == 0,
                                        ratio == target.raw / hsi,
                                        m.spec_num() != ratio,
                                        hsi >= 1,
                                ;
                            } else {
                                assert(hsi as int * m.spec_num() as int != target.raw as int)
                                    by (nonlinear_arith)
                                    requires
                                        target.raw % hsi != 0,
                                        hsi >= 1,
                                ;
                            }
                            assert(spec_hsi_pll_out_hz(v, m) == hsi as int * m.spec_num() as int);
                        }
                    }
                }
                Err(ClockError::UnsupportedPllMultiplier)
            },
        }
    }
}

/// Two whole-number multiplication factors with the same numerator are the
/// same factor.
proof fn lemma_pll_mul_num_unique(a: PLLMul, b: PLLMul)
    requires
        a.spec_den() == 1,
        b.spec_den() == 1,
        a.spec_num() == b.spec_num(),
    ensures
        a == b,
{
}



/// Dividing by one changes nothing and leaves no remainder.
proof fn lemma_div_mod_one(x: int)
    by (nonlinear_arith)
    ensures
        x / 1 == x,
        x % 1 == 0,
{
}

impl Config {
    /// Preset: 144 MHz system clock from the internal oscillator through
    /// the PLL at x18, with no bus division.
    pub fn sysclk_144m_via_hsi(self) -> (r: Self)
        ensures
            r.hse is None,
            r.pll.src == PLLSrc::HSI,
            r.pll.mul == PLLMul::Mul18,
            !r.enable_lsi,
            r.mux == ClockSrc::PLL,
            r.ahb_pre == AHBPrescaler::NotDivided,
            r.apb1_pre == APBPrescaler::NotDivided,
            r.apb2_pre == APBPrescaler::NotDivided,
            r.mco == MCO::NoMco,
            spec_validate(Variant::Standard, r) is None,
            spec_sysclk_hz(Variant::Standard, r) == 144_000_000,
    {
        let r = Self {
            hse: None,
            pll: PLLConfig { src: PLLSrc::HSI, mul: PLLMul::Mul18 },
            enable_lsi: false,
            mux: ClockSrc::PLL,
            ahb_pre: AHBPrescaler::NotDivided,
            apb1_pre: APBPrescaler::NotDivided,
            apb2_pre: APBPrescaler::NotDivided,
            mco: MCO::NoMco,
        };
        proof {
            lemma_div_mod_one(8_000_000);
            lemma_div_mod_one(144_000_000);
        }
        r
    }

    /// Preset: 96 MHz system clock from the internal oscillator through
    /// the PLL at x12, with no bus division.
    pub fn sysclk_96m_via_hsi(self) -> (r: Self)
        ensures
            r.hse is None,
            r.pll.src == PLLSrc::HSI,
            r.pll.mul == PLLMul::Mul12,
            !r.enable_lsi,
            r.mux == ClockSrc::PLL,
            r.ahb_pre == AHBPrescaler::NotDivided,
            r.apb1_pre == APBPrescaler::NotDivided,
            r.apb2_pre == APBPrescaler::NotDivided,
            r.mco == MCO::NoMco,
            spec_validate(Variant::Standard, r) is None,
            spec_sysclk_hz(Variant::Standard, r) == 96_000_000,
    {
        let r = Self {
            hse: None,
            pll: PLLConfig { src: PLLSrc::HSI, mul: PLLMul::Mul12 },
            enable_lsi: false,
            mux: ClockSrc::PLL,
            ahb_pre: AHBPrescaler::NotDivided,
            apb1_pre: APBPrescaler::NotDivided,
            apb2_pre: APBPrescaler::NotDivided,
            mco: MCO::NoMco,
        };
        proof {
            lemma_div_mod_one(8_000_000);
            lemma_div_mod_one(96_000_000);
        }
        r
    }

    /// Preset: 72 MHz system clock from the internal oscillator through
    /// the PLL at x9, with no bus division.
    pub fn sysclk_72m_via_hsi(self) -> (r: Self)
        ensures
            r.hse is None,
            r.pll.src == PLLSrc::HSI,
            r.pll.mul == PLLMul::Mul9,
            !r.enable_lsi,
            r.mux == ClockSrc::PLL,
            r.ahb_pre == AHBPrescaler::NotDivided,
            r.apb1_pre == APBPrescaler::NotDivided,
            r.apb2_pre == APBPrescaler::NotDivided,
            r.mco == MCO::NoMco,
            spec_validate(Variant::Standard, r) is None,
            spec_sysclk_hz(Variant::Standard, r) == 72_000_000,
    {
        let r = Self {
            hse: None,
            pll: PLLConfig { src: PLLSrc::HSI, mul: PLLMul::Mul9 },
            enable_lsi: false,
            mux: ClockSrc::PLL,
            ahb_pre: AHBPrescaler::NotDivided,
            apb1_pre: APBPrescaler::NotDivided,
            apb2_pre: APBPrescaler::NotDivided,
            mco: MCO::NoMco,
        };
        proof {
            lemma_div_mod_one(8_000_000);
            lemma_div_mod_one(72_000_000);
        }
        r
    }

    /// Preset: 48 MHz system clock from the internal oscillator through
    /// the PLL at x6, with no bus division.
    pub fn sysclk_48m_via_hsi(self) -> (r: Self)
        ensures
            r.hse is None,
            r.pll.src == PLLSrc::HSI,
            r.pll.mul == PLLMul::Mul6,
            !r.enable_lsi,
            r.mux == ClockSrc::PLL,
            r.ahb_pre == AHBPrescaler::NotDivided,
            r.apb1_pre == APBPrescaler::NotDivided,
            r.apb2_pre == APBPrescaler::NotDivided,
            r.mco == MCO::NoMco,
            spec_validate(Variant::Standard, r) is None,
            spec_sysclk_hz(Variant::Standard, r) == 48_000_000,
    {
        let r = Self {
            hse: None,
            pll: PLLConfig { src: PLLSrc::HSI, mul: PLLMul::Mul6 },
            enable_lsi: false,
            mux: ClockSrc::PLL,
            ahb_pre: AHBPrescaler::NotDivided,
            apb1_pre: APBPrescaler::NotDivided,
            apb2_pre: APBPrescaler::NotDivided,
            mco: MCO::NoMco,
        };
        proof {
            lemma_div_mod_one(8_000_000);
            lemma_div_mod_one(48_000_000);
        }
        r
    }
}

impl Default for Config {
    /// The reset configuration: run directly from the internal oscillator,
    /// no bus division, low-speed oscillator off.
    fn default() -> (r: Self)
        ensures
            r.hse is None,
            r.pll.src == PLLSrc::HSI,
            r.pll.mul == PLLMul::Mul9,
            !r.enable_lsi,
            r.mux == ClockSrc::HSI,
            r.ahb_pre == AHBPrescaler::NotDivided,
            r.apb1_pre == APBPrescaler::NotDivided,
            r.apb2_pre == APBPrescaler::NotDivided,
            r.mco == MCO::NoMco,
            forall|v: Variant| spec_validate(v, r) is None,
    {
        let r = Self {
            hse: None,
            pll: PLLConfig { src: PLLSrc::HSI, mul: PLLMul::Mul9 },
            enable_lsi: false,
            mux: ClockSrc::HSI,
            ahb_pre: AHBPrescaler::NotDivided,
            apb1_pre: APBPrescaler::NotDivided,
            apb2_pre: APBPrescaler::NotDivided,
            mco: MCO::NoMco,
        };
        proof {
            assert forall|v: Variant| spec_validate(v, r) is None by {
                lemma_div_mod_one(spec_hsi_hz(v) as int);
            }
        }
        r
    }
}

/// LSE clock mode.
#[derive(Clone, Copy, Debug, PartialEq, Eq, Structural)]
pub enum LSEClockMode {
    /// Enable LSE oscillator to use external crystal or ceramic resonator.
    Crystal,
    /// Bypass LSE oscillator to use external clock source.
    Bypass,
}

/// LSE Clock.
#[derive(Clone, Copy, Debug, PartialEq, Eq, Structural)]
pub struct LSEClock {
    pub freq: Hertz,
    pub mode: LSEClockMode,
}

impl LSEClock {
    /// Describe a low-speed external clock; the source is fixed at
    /// 32.768 kHz.
    pub fn new(mode: LSEClockMode) -> (r: Self)
        ensures
            r.freq.raw == 32_768,
            r.mode == mode,
    {
        LSEClock { freq: Hertz { raw: 32_768 }, mode }
    }

    /// The LSE input frequency.
    pub fn freq(&self) -> (r: Hertz)
        ensures
            r == self.freq,
    {
        self.freq
    }

    /// The LSE drive mode.
    pub fn mode(&self) -> (r: LSEClockMode)
        ensures
            r == self.mode,
    {
        self.mode
    }
}


/// A bus token's modelled clock-gating registers.  Holding the token is
/// the only way to reach them: there is no runtime lock.
pub trait GateBus {
    /// The bus's peripheral clock-enable register.
    spec fn spec_enr(&self) -> u32;

    /// The bus's peripheral reset register.
    spec fn spec_rstr(&self) -> u32;
}

/// Advanced High-performance Bus (AHB) registers
pub struct AHB {
    /// Peripheral clock-enable register.
    pub enr: u32,
    /// Peripheral reset register.
    pub rstr: u32,
}

/// Advanced Peripheral Bus 1 (APB1) registers
pub struct APB1 {
    /// Peripheral clock-enable register.
    pub enr: u32,
    /// Peripheral reset register.
    pub rstr: u32,
}

/// Advanced Peripheral Bus 2 (APB2) registers
pub struct APB2 {
    /// Peripheral clock-enable register.
    pub enr: u32,
    /// Peripheral reset register.
    pub rstr: u32,
}

impl GateBus for AHB {
    open spec fn spec_enr(&self) -> u32 {
        self.enr
    }

    open spec fn spec_rstr(&self) -> u32 {
        self.rstr
    }
}

impl GateBus for APB1 {
    open spec fn spec_enr(&self) -> u32 {
        self.enr
    }

    open spec fn spec_rstr(&self) -> u32 {
        self.rstr
    }
}

impl GateBus for APB2 {
    open spec fn spec_enr(&self) -> u32 {
        self.enr
    }

    open spec fn spec_rstr(&self) -> u32 {
        self.rstr
    }
}

impl AHB {
    pub(crate) fn new() -> (r: Self)
        ensures
            r.enr == 0,
            r.rstr == 0,
    {
        Self { enr: 0, rstr: 0 }
    }
}

impl APB1 {
    pub(crate) fn new() -> (r: Self)
        ensures
            r.enr == 0,
            r.rstr == 0,
    {
        Self { enr: 0, rstr: 0 }
    }
}

impl APB2 {
    pub(crate) fn new() -> (r: Self)
        ensures
            r.enr == 0,
            r.rstr == 0,
    {
        Self { enr: 0, rstr: 0 }
    }
}

/// Backup Domain Control register (RCC_BDCR)
pub struct BDCR {
    _0: (),
}

impl BDCR {
    pub(crate) fn new() -> Self {
        Self { _0: () }
    }
}

/// Constrained RCC peripheral: the bus tokens and the clock configuration.
pub struct Rcc {
    /// Advanced High-Performance Bus (AHB) registers
    pub ahb: AHB,
    /// Advanced Peripheral Bus 1 (APB1) registers
    pub apb1: APB1,
    /// Advanced Peripheral Bus 2 (APB2) registers
    pub apb2: APB2,
    /// RCC Backup Domain
    pub bdcr: BDCR,
    pub config: Config,
}

impl Rcc {
    /// The constrained reset state: all clock gates closed, the reset
    /// clock configuration.
    pub fn new() -> (r: Rcc)
        ensures
            r.ahb.enr == 0,
            r.ahb.rstr == 0,
            r.apb1.enr == 0,
            r.apb1.rstr == 0,
            r.apb2.enr == 0,
            r.apb2.rstr == 0,
            r.config.hse is None,
            r.config.mux == ClockSrc::HSI,
    {
        Rcc {
            ahb: AHB::new(),
            apb1: APB1::new(),
            apb2: APB2::new(),
            bdcr: BDCR::new(),
            config: Config::default(),
        }
    }
}

/// Extension trait that constrains the `RCC` peripheral
pub trait RccExt {
    /// Constrains the `RCC` peripheral so it plays nicely with the other abstractions
    fn constrain(self) -> Rcc;
}

/// Bus associated to peripheral
pub trait RccBus: crate::Sealed {
    /// Bus type;
    type Bus: GateBus;
}

/// Enable/disable a peripheral's clock gate on its statically-assigned bus.
pub trait Enable: RccBus {
    /// The peripheral's bit in its bus's clock-enable register.
    spec fn spec_mask() -> u32;

    /// Enables the peripheral's clock.
    fn enable(bus: &mut Self::Bus)
        ensures
            final(bus).spec_enr() == old(bus).spec_enr() | Self::spec_mask(),
            final(bus).spec_rstr() == old(bus).spec_rstr(),
    ;

    /// Disables the peripheral's clock.
    fn disable(bus: &mut Self::Bus)
        ensures
            final(bus).spec_enr() == old(bus).spec_enr() & !Self::spec_mask(),
            final(bus).spec_rstr() == old(bus).spec_rstr(),
    ;

    /// Check if the peripheral's clock is enabled.
    fn is_enabled(bus: &Self::Bus) -> (r: bool)
        ensures
            r == (bus.spec_enr() & Self::spec_mask() != 0),
    ;

    /// Check if the peripheral's clock is disabled.
    fn is_disabled(bus: &Self::Bus) -> (r: bool)
        ensures
            r == (bus.spec_enr() & Self::spec_mask() == 0),
    ;
}

/// Reset a peripheral by pulsing its reset bit high then low.
pub trait Reset: RccBus {
    /// The peripheral's bit in its bus's reset register.
    spec fn spec_reset_mask() -> u32;

    /// Resets the peripheral.
    fn reset(bus: &mut Self::Bus)
        ensures
            final(bus).spec_enr() == old(bus).spec_enr(),
            final(bus).spec_rstr() == old(bus).spec_rstr() & !Self::spec_reset_mask(),
    ;
}

/// Frequency on the bus a peripheral is connected to.
pub trait BusClock {
    /// The bus frequency drawn from a snapshot.
    spec fn spec_clock(c: Clocks) -> Hertz;

    /// Calculates frequency depending on `Clock` state
    fn clock(clocks: &Clocks) -> (r: Hertz)
        ensures
            r == Self::spec_clock(*clocks),
    ;
}

/// Base frequency of the timers on a bus: doubled wherever the bus
/// prescaler actually divides.
pub trait BusTimerClock {
    /// The timer base frequency drawn from a snapshot.
    spec fn spec_timer_clock(c: Clocks) -> Hertz;

    /// Calculates base frequency of timer depending on `Clock` state
    fn timer_clock(clocks: &Clocks) -> (r: Hertz)
        requires
            clocks.wf(),
        ensures
            r == Self::spec_timer_clock(*clocks),
    ;
}

impl BusClock for AHB {
    open spec fn spec_clock(c: Clocks) -> Hertz {
        c.hclk
    }

    fn clock(clocks: &Clocks) -> (r: Hertz) {
        clocks.hclk
    }
}

impl BusClock for APB1 {
    open spec fn spec_clock(c: Clocks) -> Hertz {
        c.pclk1
    }

    fn clock(clocks: &Clocks) -> (r: Hertz) {
        clocks.pclk1
    }
}

impl BusClock for APB2 {
    open spec fn spec_clock(c: Clocks) -> Hertz {
        c.pclk2
    }

    fn clock(clocks: &Clocks) -> (r: Hertz) {
        clocks.pclk2
    }
}

impl BusTimerClock for APB1 {
    open spec fn spec_timer_clock(c: Clocks) -> Hertz {
        if c.hclk == c.pclk1 {
            c.pclk1
        } else {
            Hertz { raw: (c.pclk1.raw * 2) as u32 }
        }
    }

    fn timer_clock(clocks: &Clocks) -> (r: Hertz) {
        if clocks.hclk.raw == clocks.pclk1.raw {
            clocks.pclk1
        } else {
            proof {
                lemma_clocks_bus_ordering(*clocks);
            }
            Hertz { raw: clocks.pclk1.raw * 2 }
        }
    }
}

impl BusTimerClock for APB2 {
    open spec fn spec_timer_clock(c: Clocks) -> Hertz {
        if c.hclk == c.pclk2 {
            c.pclk2
        } else {
            Hertz { raw: (c.pclk2.raw * 2) as u32 }
        }
    }

    fn timer_clock(clocks: &Clocks) -> (r: Hertz) {
        if clocks.hclk.raw == clocks.pclk2.raw {
            clocks.pclk2
        } else {
            proof {
                lemma_clocks_bus_ordering(*clocks);
            }
            Hertz { raw: clocks.pclk2.raw * 2 }
        }
    }
}

impl<T> BusClock for T where T: RccBus, T::Bus: BusClock {
    open spec fn spec_clock(c: Clocks) -> Hertz {
        <T::Bus as BusClock>::spec_clock(c)
    }

    fn clock(clocks: &Clocks) -> (r: Hertz) {
        <T::Bus as BusClock>::clock(clocks)
    }
}

impl<T> BusTimerClock for T where T: RccBus, T::Bus: BusTimerClock {
    open spec fn spec_timer_clock(c: Clocks) -> Hertz {
        <T::Bus as BusTimerClock>::spec_timer_clock(c)
    }

    fn timer_clock(clocks: &Clocks) -> (r: Hertz) {
        <T::Bus as BusTimerClock>::timer_clock(clocks)
    }
}


/// Setting a bit and then clearing it leaves the bit cleared and the rest
/// of the register as it was.
pub(crate) proof fn lemma_pulse_clears(x: u32, m: u32)
    by (bit_vector)
    ensures
        (x | m) & !m == x & !m,
{
}

} // verus!
