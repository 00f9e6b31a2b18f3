//! Power Control (PWR)

use vstd::prelude::*;

use crate::rcc::enable::PWR;
use crate::rcc::{Clocks, Enable, Rcc};

verus! {

/// Programmable voltage detector thresholds: the rising and falling
/// supply voltages, in volts, at which the detector output changes.
#[derive(Clone, Copy, Debug, PartialEq, Eq, Structural)]
pub enum PVDVoltageThreshold {
    Rising2_85Falling2_7,
    Rising3_05Falling2_9,
    Rising3_3Falling3_15,
    Rising3_5Falling3_3,
    Rising3_7Falling3_5,
    Rising3_9Falling3_7,
    Rising4_1Falling3_9,
    Rising4_4Falling4_2,
}

impl PVDVoltageThreshold {
    /// Register encoding of the `PLS` field.
    pub open spec fn spec_bits(self) -> u8 {
        match self {
            PVDVoltageThreshold::Rising2_85Falling2_7 => 0b000,
            PVDVoltageThreshold::Rising3_05Falling2_9 => 0b001,
            PVDVoltageThreshold::Rising3_3Falling3_15 => 0b010,
            PVDVoltageThreshold::Rising3_5Falling3_3 => 0b011,
            PVDVoltageThreshold::Rising3_7Falling3_5 => 0b100,
            PVDVoltageThreshold::Rising3_9Falling3_7 => 0b101,
            PVDVoltageThreshold::Rising4_1Falling3_9 => 0b110,
            PVDVoltageThreshold::Rising4_4Falling4_2 => 0b111,
        }
    }

    /// Register encoding of the `PLS` field.
    #[verifier::when_used_as_spec(spec_bits)]
    pub fn bits(self) -> (r: u8)
        ensures
            r == self.spec_bits(),
    {
        match self {
            PVDVoltageThreshold::Rising2_85Falling2_7 => 0b000,
            PVDVoltageThreshold::Rising3_05Falling2_9 => 0b001,
            PVDVoltageThreshold::Rising3_3Falling3_15 => 0b010,
            PVDVoltageThreshold::Rising3_5Falling3_3 => 0b011,
            PVDVoltageThreshold::Rising3_7Falling3_5 => 0b100,
            PVDVoltageThreshold::Rising3_9Falling3_7 => 0b101,
            PVDVoltageThreshold::Rising4_1Falling3_9 => 0b110,
            PVDVoltageThreshold::Rising4_4Falling4_2 => 0b111,
        }
    }
}

/// Field-level model of the power-control registers.
#[derive(Clone, Copy, Debug, PartialEq, Eq, Structural)]
pub struct PwrRegs {
    /// `PVDE`: the voltage detector is enabled.
    pub pvd_enabled: bool,
    /// `PLS`: encoded detector threshold.
    pub pls: u8,
    /// `PVDO`: last observed detector output (set when the supply is
    /// below the threshold).
    pub pvdo: bool,
}

impl PwrRegs {
    /// The reset state of the registers.
    pub fn new() -> (r: PwrRegs)
        ensures
            r == (PwrRegs { pvd_enabled: false, pls: 0, pvdo: false }),
    {
        PwrRegs { pvd_enabled: false, pls: 0, pvdo: false }
    }
}

/// The power-control unit, powered on and holding the frozen clocks it
/// was configured with.
pub struct Pwr {
    /// Model of the power-control registers.
    pub pwr: PwrRegs,
    pub clocks: Clocks,
}

impl Pwr {
    /// Enable the power-control clock gate and take the unit.
    pub fn pwr(pwr: PwrRegs, rcc: &mut Rcc, clocks: Clocks) -> (r: Pwr)
        ensures
            r.pwr == pwr,
            final(rcc).apb1.enr == old(rcc).apb1.enr | 0x1000_0000,
            final(rcc).apb1.rstr == old(rcc).apb1.rstr,
    {
        PWR::enable(&mut rcc.apb1);
        Self { pwr, clocks }
    }

    /// set threshold voltage for pvd
    pub fn pvd_threshold_voltage(&mut self, threshold: PVDVoltageThreshold)
        ensures
            final(self).pwr.pls == threshold.spec_bits(),
            final(self).pwr.pvd_enabled == old(self).pwr.pvd_enabled,
            final(self).pwr.pvdo == old(self).pwr.pvdo,
    {
        self.pwr.pls = threshold.bits();
    }

    /// enable pvd
    pub fn enable_pvd(&mut self)
        ensures
            final(self).pwr.pvd_enabled,
            final(self).pwr.pls == old(self).pwr.pls,
            final(self).pwr.pvdo == old(self).pwr.pvdo,
    {
        self.pwr.pvd_enabled = true;
    }

    /// disable pvd
    pub fn disable_pvd(&mut self)
        ensures
            !final(self).pwr.pvd_enabled,
            final(self).pwr.pls == old(self).pwr.pls,
            final(self).pwr.pvdo == old(self).pwr.pvdo,
    {
        self.pwr.pvd_enabled = false;
    }

    /// Record the detector output sampled from the status register.  The
    /// embedding calls this after each read of the hardware register.
    pub fn sync_pvd_output(&mut self, below_threshold: bool)
        ensures
            final(self).pwr.pvdo == below_threshold,
            final(self).pwr.pvd_enabled == old(self).pwr.pvd_enabled,
            final(self).pwr.pls == old(self).pwr.pls,
    {
        self.pwr.pvdo = below_threshold;
    }

    /// pvd output: returns true if vdd is above the threshold voltage
    pub fn pvd_output(&mut self) -> (r: bool)
        ensures
            r == !old(self).pwr.pvdo,
            *final(self) == *old(self),
    {
        !self.pwr.pvdo
    }
}

} // verus!
