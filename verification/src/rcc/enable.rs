//! The static, closed table assigning each peripheral to its bus and its
//! clock-gate and reset bits.

use vstd::prelude::*;

use super::{Enable, GateBus, RccBus, Reset, AHB, APB1, APB2};

verus! {

/// Direct memory access controller (clock gate handle).
pub struct DMA1;

/// Alternate-function I/O unit (clock gate handle).
pub struct AFIO;

/// General-purpose I/O port A (clock gate handle).
pub struct GPIOA;

/// General-purpose I/O port C (clock gate handle).
pub struct GPIOC;

/// General-purpose I/O port D (clock gate handle).
pub struct GPIOD;

/// Analog-to-digital converter (clock gate handle).
pub struct ADC1;

/// Advanced-control timer: its clock gate and register model.
pub struct TIM1 {
    /// Model of the timer register block.
    pub regs: crate::timer::TimRegs,
}

/// General-purpose timer: its clock gate and register model.
pub struct TIM2 {
    /// Model of the timer register block.
    pub regs: crate::timer::TimRegs,
}

/// Serial peripheral interface (clock gate handle).
pub struct SPI1;

/// Universal synchronous/asynchronous receiver-transmitter (clock gate
/// handle).
pub struct USART1;

/// Window watchdog (clock gate handle).
pub struct WWDG;

/// Inter-integrated-circuit interface (clock gate handle).
pub struct I2C1;

/// Power control unit (clock gate handle).
pub struct PWR;

impl crate::Sealed for DMA1 {}

impl RccBus for DMA1 {
    type Bus = AHB;
}

impl Enable for DMA1 {
    open spec fn spec_mask() -> u32 {
        0x1
    }

    fn enable(bus: &mut AHB) {
        bus.enr = bus.enr | 0x1;
    }

    fn disable(bus: &mut AHB) {
        bus.enr = bus.enr & !0x1;
    }

    fn is_enabled(bus: &AHB) -> (r: bool) {
        bus.enr & 0x1 != 0
    }

    fn is_disabled(bus: &AHB) -> (r: bool) {
        bus.enr & 0x1 == 0
    }
}

impl crate::Sealed for AFIO {}

impl RccBus for AFIO {
    type Bus = APB2;
}

impl Enable for AFIO {
    open spec fn spec_mask() -> u32 {
        0x1
    }

    fn enable(bus: &mut APB2) {
        bus.enr = bus.enr | 0x1;
    }

    fn disable(bus: &mut APB2) {
        bus.enr = bus.enr & !0x1;
    }

    fn is_enabled(bus: &APB2) -> (r: bool) {
        bus.enr & 0x1 != 0
    }

    fn is_disabled(bus: &APB2) -> (r: bool) {
        bus.enr & 0x1 == 0
    }
}

impl Reset for AFIO {
    open spec fn spec_reset_mask() -> u32 {
        0x1
    }

    fn reset(bus: &mut APB2) {
        proof {
            super::lemma_pulse_clears(bus.rstr, 0x1);
        }
        bus.rstr = bus.rstr | 0x1;
        bus.rstr = bus.rstr & !0x1;
    }
}

impl crate::Sealed for GPIOA {}

impl RccBus for GPIOA {
    type Bus = APB2;
}

impl Enable for GPIOA {
    open spec fn spec_mask() -> u32 {
        0x4
    }

    fn enable(bus: &mut APB2) {
        bus.enr = bus.enr | 0x4;
    }

    fn disable(bus: &mut APB2) {
        bus.enr = bus.enr & !0x4;
    }

    fn is_enabled(bus: &APB2) -> (r: bool) {
        bus.enr & 0x4 != 0
    }

    fn is_disabled(bus: &APB2) -> (r: bool) {
        bus.enr & 0x4 == 0
    }
}

impl Reset for GPIOA {
    open spec fn spec_reset_mask() -> u32 {
        0x4
    }

    fn reset(bus: &mut APB2) {
        proof {
            super::lemma_pulse_clears(bus.rstr, 0x4);
        }
        bus.rstr = bus.rstr | 0x4;
        bus.rstr = bus.rstr & !0x4;
    }
}

impl crate::Sealed for GPIOC {}

impl RccBus for GPIOC {
    type Bus = APB2;
}

impl Enable for GPIOC {
    open spec fn spec_mask() -> u32 {
        0x10
    }

    fn enable(bus: &mut APB2) {
        bus.enr = bus.enr | 0x10;
    }

    fn disable(bus: &mut APB2) {
        bus.enr = bus.enr & !0x10;
    }

    fn is_enabled(bus: &APB2) -> (r: bool) {
        bus.enr & 0x10 != 0
    }

    fn is_disabled(bus: &APB2) -> (r: bool) {
        bus.enr & 0x10 == 0
    }
}

impl Reset for GPIOC {
    open spec fn spec_reset_mask() -> u32 {
        0x10
    }

    fn reset(bus: &mut APB2) {
        proof {
            super::lemma_pulse_clears(bus.rstr, 0x10);
        }
        bus.rstr = bus.rstr | 0x10;
        bus.rstr = bus.rstr & !0x10;
    }
}

impl crate::Sealed for GPIOD {}

impl RccBus for GPIOD {
    type Bus = APB2;
}

impl Enable for GPIOD {
    open spec fn spec_mask() -> u32 {
        0x20
    }

    fn enable(bus: &mut APB2) {
        bus.enr = bus.enr | 0x20;
    }

    fn disable(bus: &mut APB2) {
        bus.enr = bus.enr & !0x20;
    }

    fn is_enabled(bus: &APB2) -> (r: bool) {
        bus.enr & 0x20 != 0
    }

    fn is_disabled(bus: &APB2) -> (r: bool) {
        bus.enr & 0x20 == 0
    }
}

impl Reset for GPIOD {
    open spec fn spec_reset_mask() -> u32 {
        0x20
    }

    fn reset(bus: &mut APB2) {
        proof {
            super::lemma_pulse_clears(bus.rstr, 0x20);
        }
        bus.rstr = bus.rstr | 0x20;
        bus.rstr = bus.rstr & !0x20;
    }
}

impl crate::Sealed for ADC1 {}

impl RccBus for ADC1 {
    type Bus = APB2;
}

impl Enable for ADC1 {
    open spec fn spec_mask() -> u32 {
        0x200
    }

    fn enable(bus: &mut APB2) {
        bus.enr = bus.enr | 0x200;
    }

    fn disable(bus: &mut APB2) {
        bus.enr = bus.enr & !0x200;
    }

    fn is_enabled(bus: &APB2) -> (r: bool) {
        bus.enr & 0x200 != 0
    }

    fn is_disabled(bus: &APB2) -> (r: bool) {
        bus.enr & 0x200 == 0
    }
}

impl Reset for ADC1 {
    open spec fn spec_reset_mask() -> u32 {
        0x200
    }

    fn reset(bus: &mut APB2) {
        proof {
            super::lemma_pulse_clears(bus.rstr, 0x200);
        }
        bus.rstr = bus.rstr | 0x200;
        bus.rstr = bus.rstr & !0x200;
    }
}

impl crate::Sealed for TIM1 {}

impl RccBus for TIM1 {
    type Bus = APB2;
}

impl Enable for TIM1 {
    open spec fn spec_mask() -> u32 {
        0x800
    }

    fn enable(bus: &mut APB2) {
        bus.enr = bus.enr | 0x800;
    }

    fn disable(bus: &mut APB2) {
        bus.enr = bus.enr & !0x800;
    }

    fn is_enabled(bus: &APB2) -> (r: bool) {
        bus.enr & 0x800 != 0
    }

    fn is_disabled(bus: &APB2) -> (r: bool) {
        bus.enr & 0x800 == 0
    }
}

impl Reset for TIM1 {
    open spec fn spec_reset_mask() -> u32 {
        0x800
    }

    fn reset(bus: &mut APB2) {
        proof {
            super::lemma_pulse_clears(bus.rstr, 0x800);
        }
        bus.rstr = bus.rstr | 0x800;
        bus.rstr = bus.rstr & !0x800;
    }
}

impl crate::Sealed for SPI1 {}

impl RccBus for SPI1 {
    type Bus = APB2;
}

impl Enable for SPI1 {
    open spec fn spec_mask() -> u32 {
        0x1000
    }

    fn enable(bus: &mut APB2) {
        bus.enr = bus.enr | 0x1000;
    }

    fn disable(bus: &mut APB2) {
        bus.enr = bus.enr & !0x1000;
    }

    fn is_enabled(bus: &APB2) -> (r: bool) {
        bus.enr & 0x1000 != 0
    }

    fn is_disabled(bus: &APB2) -> (r: bool) {
        bus.enr & 0x1000 == 0
    }
}

impl Reset for SPI1 {
    open spec fn spec_reset_mask() -> u32 {
        0x1000
    }

    fn reset(bus: &mut APB2) {
        proof {
            super::lemma_pulse_clears(bus.rstr, 0x1000);
        }
        bus.rstr = bus.rstr | 0x1000;
        bus.rstr = bus.rstr & !0x1000;
    }
}

impl crate::Sealed for USART1 {}

impl RccBus for USART1 {
    type Bus = APB2;
}

impl Enable for USART1 {
    open spec fn spec_mask() -> u32 {
        0x4000
    }

    fn enable(bus: &mut APB2) {
        bus.enr = bus.enr | 0x4000;
    }

    fn disable(bus: &mut APB2) {
        bus.enr = bus.enr & !0x4000;
    }

    fn is_enabled(bus: &APB2) -> (r: bool) {
        bus.enr & 0x4000 != 0
    }

    fn is_disabled(bus: &APB2) -> (r: bool) {
        bus.enr & 0x4000 == 0
    }
}

impl Reset for USART1 {
    open spec fn spec_reset_mask() -> u32 {
        0x4000
    }

    fn reset(bus: &mut APB2) {
        proof {
            super::lemma_pulse_clears(bus.rstr, 0x4000);
        }
        bus.rstr = bus.rstr | 0x4000;
        bus.rstr = bus.rstr & !0x4000;
    }
}

impl crate::Sealed for TIM2 {}

impl RccBus for TIM2 {
    type Bus = APB1;
}

impl Enable for TIM2 {
    open spec fn spec_mask() -> u32 {
        0x1
    }

    fn enable(bus: &mut APB1) {
        bus.enr = bus.enr | 0x1;
    }

    fn disable(bus: &mut APB1) {
        bus.enr = bus.enr & !0x1;
    }

    fn is_enabled(bus: &APB1) -> (r: bool) {
        bus.enr & 0x1 != 0
    }

    fn is_disabled(bus: &APB1) -> (r: bool) {
        bus.enr & 0x1 == 0
    }
}

impl crate::Sealed for WWDG {}

impl RccBus for WWDG {
    type Bus = APB1;
}

impl Enable for WWDG {
    open spec fn spec_mask() -> u32 {
        0x800
    }

    fn enable(bus: &mut APB1) {
        bus.enr = bus.enr | 0x800;
    }

    fn disable(bus: &mut APB1) {
        bus.enr = bus.enr & !0x800;
    }

    fn is_enabled(bus: &APB1) -> (r: bool) {
        bus.enr & 0x800 != 0
    }

    fn is_disabled(bus: &APB1) -> (r: bool) {
        bus.enr & 0x800 == 0
    }
}

impl Reset for WWDG {
    open spec fn spec_reset_mask() -> u32 {
        0x800
    }

    fn reset(bus: &mut APB1) {
        proof {
            super::lemma_pulse_clears(bus.rstr, 0x800);
        }
        bus.rstr = bus.rstr | 0x800;
        bus.rstr = bus.rstr & !0x800;
    }
}

impl crate::Sealed for I2C1 {}

impl RccBus for I2C1 {
    type Bus = APB1;
}

impl Enable for I2C1 {
    open spec fn spec_mask() -> u32 {
        0x20_0000
    }

    fn enable(bus: &mut APB1) {
        bus.enr = bus.enr | 0x20_0000;
    }

    fn disable(bus: &mut APB1) {
        bus.enr = bus.enr & !0x20_0000;
    }

    fn is_enabled(bus: &APB1) -> (r: bool) {
        bus.enr & 0x20_0000 != 0
    }

    fn is_disabled(bus: &APB1) -> (r: bool) {
        bus.enr & 0x20_0000 == 0
    }
}

impl Reset for I2C1 {
    open spec fn spec_reset_mask() -> u32 {
        0x20_0000
    }

    fn reset(bus: &mut APB1) {
        proof {
            super::lemma_pulse_clears(bus.rstr, 0x20_0000);
        }
        bus.rstr = bus.rstr | 0x20_0000;
        bus.rstr = bus.rstr & !0x20_0000;
    }
}

impl crate::Sealed for PWR {}

impl RccBus for PWR {
    type Bus = APB1;
}

impl Enable for PWR {
    open spec fn spec_mask() -> u32 {
        0x1000_0000
    }

    fn enable(bus: &mut APB1) {
        bus.enr = bus.enr | 0x1000_0000;
    }

    fn disable(bus: &mut APB1) {
        bus.enr = bus.enr & !0x1000_0000;
    }

    fn is_enabled(bus: &APB1) -> (r: bool) {
        bus.enr & 0x1000_0000 != 0
    }

    fn is_disabled(bus: &APB1) -> (r: bool) {
        bus.enr & 0x1000_0000 == 0
    }
}

impl Reset for PWR {
    open spec fn spec_reset_mask() -> u32 {
        0x1000_0000
    }

    fn reset(bus: &mut APB1) {
        proof {
            super::lemma_pulse_clears(bus.rstr, 0x1000_0000);
        }
        bus.rstr = bus.rstr | 0x1000_0000;
        bus.rstr = bus.rstr & !0x1000_0000;
    }
}

} // verus!
