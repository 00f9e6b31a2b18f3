//! Alternate-function I/O remap control.
//!
//! The remap register is modelled field by field; peripheral constructors
//! record their pin remapping here and the embedding writes it to the
//! hardware.

use vstd::prelude::*;

use crate::rcc::enable::AFIO;
use crate::rcc::{Enable, Rcc, Reset};

verus! {

/// Extension trait to take ownership of the remap unit.
pub trait AfioExt {
    /// Enable the Alternate Function IO peripheral
    fn configure(self, rcc: &mut Rcc) -> Afio;
}

/// Alternate function IO controller
///
/// This is generally used to configure pin remappings for other
/// peripherals.  Field-level model of the remap register.
#[derive(Clone, Copy, Debug, PartialEq, Eq, Structural)]
pub struct Afio {
    /// High bit of the I2C1 remap selection (`I2C1REMAP1`).
    pub i2c1_remap1: bool,
    /// Low bit of the I2C1 remap selection (`I2C1_RM`).
    pub i2c1_rm: bool,
    /// Low bit of the USART1 remap selection (`USART1_RM`).
    pub usart1_rm: bool,
    /// High bit of the USART1 remap selection (`USART1REMAP1`).
    pub usart1_remap1: bool,
}

impl AfioExt for AFIO {
    fn configure(self, rcc: &mut Rcc) -> Afio {
        // Power on and reset the AFIO peripheral
        AFIO::enable(&mut rcc.apb2);
        AFIO::reset(&mut rcc.apb2);
        Afio { i2c1_remap1: false, i2c1_rm: false, usart1_rm: false, usart1_remap1: false }
    }
}

impl Afio {
    /// Configure the I2C1REMAP1 and I2C1_RM bits
    pub(crate) fn set_i2c1_remap(&mut self, high: bool, low: bool)
        ensures
            final(self).i2c1_remap1 == high,
            final(self).i2c1_rm == low,
            final(self).usart1_rm == old(self).usart1_rm,
            final(self).usart1_remap1 == old(self).usart1_remap1,
    {
        self.i2c1_remap1 = high;
        self.i2c1_rm = low;
    }

    /// Configure the USART1_RM and USART1REMAP1 bits
    pub(crate) fn set_usart1_remap(&mut self, low: bool, high: bool)
        ensures
            final(self).usart1_rm == low,
            final(self).usart1_remap1 == high,
            final(self).i2c1_remap1 == old(self).i2c1_remap1,
            final(self).i2c1_rm == old(self).i2c1_rm,
    {
        self.usart1_rm = low;
        self.usart1_remap1 = high;
    }
}

} // verus!
