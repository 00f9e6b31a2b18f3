//! Inter-integrated-circuit interface.
//!
//! The bus-speed divider is computed from the peripheral-bus frequency and
//! the requested speed and duty cycle; the register block is modelled
//! field by field and the embedding performs the bus transactions.

use vstd::prelude::*;

use crate::afio::Afio;
use crate::rcc::enable::I2C1;
use crate::rcc::{Clocks, Enable, Rcc, Reset};
use crate::time::Hertz;

verus! {

/// Field-level model of the I2C register block.
#[derive(Clone, Copy, Debug, PartialEq, Eq, Structural)]
pub struct I2cRegs {
    /// `PE`: the peripheral is running.
    pub enabled: bool,
    /// `ACK`: acknowledge generation enabled.
    pub ack: bool,
    /// `FREQ`: the peripheral-bus frequency in megahertz, clamped to the
    /// valid range 2..=36.
    pub freq_mhz: u32,
    /// `CCR`: clock-control divider.
    pub ccr: u32,
    /// `F_S`: fast mode.
    pub fast_mode: bool,
    /// `DUTY`: 36 % duty cycle in fast mode.
    pub duty_36: bool,
}

impl I2cRegs {
    /// The reset state of the register block.
    pub fn new() -> (r: I2cRegs)
        ensures
            r == (I2cRegs {
                enabled: false,
                ack: false,
                freq_mhz: 0,
                ccr: 0,
                fast_mode: false,
                duty_36: false,
            }),
    {
        I2cRegs { enabled: false, ack: false, freq_mhz: 0, ccr: 0, fast_mode: false, duty_36: false }
    }
}

/// I2C low/high duty cycle when using Fast Mode (> 100kHz)
#[derive(Debug, Clone, Copy, PartialEq, Eq, Structural)]
pub enum DutyCycle {
    /// 33%
    Perc33,
    /// 36%
    Perc36,
}

/// I2C peripheral configuration
#[derive(Debug, Clone, Copy, PartialEq, Eq, Structural)]
pub struct I2cConfig {
    pub speed: Hertz,
    pub duty: DutyCycle,
}

impl I2cConfig {
    /// 100 kbit/s 33% duty cycle
    pub fn slow_mode() -> (r: I2cConfig)
        ensures
            r.speed.raw == 100_000,
            r.duty == DutyCycle::Perc33,
    {
        Self { speed: Hertz { raw: 100_000 }, duty: DutyCycle::Perc33 }
    }

    /// 400 kbit/s 33% duty cycle
    pub fn fast_mode() -> (r: I2cConfig)
        ensures
            r.speed.raw == 400_000,
            r.duty == DutyCycle::Perc33,
    {
        Self { speed: Hertz { raw: 400_000 }, duty: DutyCycle::Perc33 }
    }

    /// 1 mbit/s 33% duty cycle
    pub fn fast_mode_plus() -> (r: I2cConfig)
        ensures
            r.speed.raw == 1_000_000,
            r.duty == DutyCycle::Perc33,
    {
        Self { speed: Hertz { raw: 1_000_000 }, duty: DutyCycle::Perc33 }
    }
}

/// 400kHz/33%
impl Default for I2cConfig {
    fn default() -> (r: Self)
        ensures
            r.speed.raw == 400_000,
            r.duty == DutyCycle::Perc33,
    {
        Self::fast_mode()
    }
}

/// Bus errors reported after a transaction, in the priority the status
/// register is inspected.
#[derive(Debug, Clone, Copy, PartialEq, Eq, Structural)]
pub enum Error {
    BusError,
    AcknowledgeFailure,
    ArbitrationLost,
    Overrun,
}

/// The error a finished transaction reports, from the status flags, in
/// the order the hardware prioritises them.
pub fn transaction_error(berr: bool, af: bool, arlo: bool, ovr: bool) -> (r: Option<Error>)
    ensures
        r == (if berr {
            Some(Error::BusError)
        } else if af {
            Some(Error::AcknowledgeFailure)
        } else if arlo {
            Some(Error::ArbitrationLost)
        } else if ovr {
            Some(Error::Overrun)
        } else {
            None::<Error>
        }),
{
    if berr {
        Some(Error::BusError)
    } else if af {
        Some(Error::AcknowledgeFailure)
    } else if arlo {
        Some(Error::ArbitrationLost)
    } else if ovr {
        Some(Error::Overrun)
    } else {
        None
    }
}

/// Marker trait for valid combinations of SCL and SDA for multiplexed I2C
/// pins.
pub trait I2C1Pair {
    /// High bit of the remap selection (`I2C1REMAP1`).
    spec fn spec_remap_high() -> bool;

    /// Low bit of the remap selection (`I2C1_RM`).
    spec fn spec_remap_low() -> bool;

    /// High and Low bits of remap register (I2C1REMAP1 and I2C1_RM)
    fn remap_bits() -> (r: (bool, bool))
        ensures
            r.0 == Self::spec_remap_high(),
            r.1 == Self::spec_remap_low(),
    ;
}

/// Default pin remapping option (0b00)
/// # T and U
/// While Open Drain is recommended, pins can be used in Push-pull configuration as well
impl<T, U> I2C1Pair for (
    crate::gpio::PC2<crate::gpio::Alternate<T>>,
    crate::gpio::PC1<crate::gpio::Alternate<U>>,
) {
    open spec fn spec_remap_high() -> bool {
        false
    }

    open spec fn spec_remap_low() -> bool {
        false
    }

    fn remap_bits() -> (r: (bool, bool)) {
        (false, false)
    }
}

/// Pin remapping option 2 (0b01)
/// # T and U
/// While Open Drain is recommended, pins can be used in Push-pull configuration as well
impl<T, U> I2C1Pair for (
    crate::gpio::PD1<crate::gpio::Alternate<T>>,
    crate::gpio::PD0<crate::gpio::Alternate<U>>,
) {
    open spec fn spec_remap_high() -> bool {
        false
    }

    open spec fn spec_remap_low() -> bool {
        true
    }

    fn remap_bits() -> (r: (bool, bool)) {
        (false, true)
    }
}

/// Pin remapping option 3 (0b1X)
/// # T and U
/// While Open Drain is recommended, pins can be used in Push-pull configuration as well
impl<T, U> I2C1Pair for (
    crate::gpio::PC5<crate::gpio::Alternate<T>>,
    crate::gpio::PC6<crate::gpio::Alternate<U>>,
) {
    open spec fn spec_remap_high() -> bool {
        true
    }

    open spec fn spec_remap_low() -> bool {
        false
    }

    fn remap_bits() -> (r: (bool, bool)) {
        (true, false)
    }
}

/// Ready to use I2C peripheral
pub struct I2c<Scl, Sda> {
    /// Model of the I2C register block.
    pub i2c: I2cRegs,
    pub scl: Scl,
    pub sda: Sda,
}

/// The peripheral-bus frequency in megahertz, clamped to the valid 2..=36
/// range.
pub open spec fn spec_clamped_freq_mhz(pclk1: Hertz) -> int {
    let f = pclk1.raw / 1_000_000;
    if f < 2 {
        2
    } else if f > 36 {
        36
    } else {
        f as int
    }
}

/// The clock-control divider for a requested speed and duty cycle.
pub open spec fn spec_ccr(pclk1: Hertz, cfg: I2cConfig) -> int {
    if cfg.speed.raw <= 100_000 {
        pclk1.raw as int / (cfg.speed.raw * 2)
    } else if cfg.duty == DutyCycle::Perc33 {
        pclk1.raw as int / (cfg.speed.raw * 3)
    } else {
        pclk1.raw as int / (cfg.speed.raw * 25)
    }
}

impl<Scl, Sda> I2c<Scl, Sda> where (Scl, Sda): I2C1Pair {
    /// Initialise the I2C1 peripheral with valid SCL and SDA pins.
    ///
    /// The requested speed is bounded by the hardware's fast-mode-plus
    /// maximum of 1 Mbit/s.
    pub fn i2c1(
        _i2c: I2C1,
        scl: Scl,
        sda: Sda,
        config: I2cConfig,
        afio: &mut Afio,
        rcc: &mut Rcc,
        clocks: &Clocks,
    ) -> (r: I2c<Scl, Sda>)
        requires
            clocks.wf(),
            1 <= config.speed.raw <= 1_000_000,
        ensures
            r.i2c.enabled,
            r.i2c.ack,
            r.i2c.freq_mhz == spec_clamped_freq_mhz(clocks.pclk1),
            r.i2c.ccr == spec_ccr(clocks.pclk1, config),
            r.i2c.fast_mode == (config.speed.raw > 100_000),
            r.i2c.duty_36 == (config.duty == DutyCycle::Perc36),
            final(afio).i2c1_remap1 == <(Scl, Sda) as I2C1Pair>::spec_remap_high(),
            final(afio).i2c1_rm == <(Scl, Sda) as I2C1Pair>::spec_remap_low(),
    {
        // Ensure i2c is enabled and reset to known state
        I2C1::enable(&mut rcc.apb1);
        I2C1::reset(&mut rcc.apb1);

        let mut i2c = I2cRegs::new();

        // Configure the remap bits in AFIO to match our pin selection
        let (high, low) = <(Scl, Sda)>::remap_bits();
        afio.set_i2c1_remap(high, low);

        // Configure peripheral clock (valid range 2-36mhz)
        let f: u32 = clocks.pclk1().raw / 1_000_000;
        i2c.freq_mhz = if f < 2 {
            2
        } else if f > 36 {
            36
        } else {
            f
        };

        let fast_mode = config.speed.raw > 100_000;
        let speed: u32 = config.speed.raw;

        // The divider counts bus-clock cycles per half (or third, or
        // twenty-fifth) of an SCL period.
        let ccr: u32 = if !fast_mode {
            clocks.pclk1().raw / (speed * 2)
        } else if matches!(config.duty, DutyCycle::Perc33) {
            clocks.pclk1().raw / (speed * 3)
        } else {
            clocks.pclk1().raw / (speed * 25)
        };
        i2c.ccr = ccr;
        i2c.fast_mode = fast_mode;
        i2c.duty_36 = matches!(config.duty, DutyCycle::Perc36);

        // Start peripheral and enable acknowledgements
        i2c.enabled = true;
        i2c.ack = true;

        I2c { i2c, scl, sda }
    }

    /// Deconstruct the I2C peripheral and return its pins and the register
    /// model, with the peripheral disabled.
    pub fn release(self) -> (r: (I2cRegs, Scl, Sda))
        ensures
            r.1 == self.scl,
            r.2 == self.sda,
            !r.0.enabled,
            r.0.ack == self.i2c.ack,
            r.0.freq_mhz == self.i2c.freq_mhz,
            r.0.ccr == self.i2c.ccr,
            r.0.fast_mode == self.i2c.fast_mode,
            r.0.duty_36 == self.i2c.duty_36,
    {
        let mut regs = self.i2c;
        regs.enabled = false;
        (regs, self.scl, self.sda)
    }
}

} // verus!
