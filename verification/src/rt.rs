//! Interrupt numbering and the default handler.

use vstd::prelude::*;

verus! {

/// The device's interrupt sources.
#[derive(Copy, Clone, Debug, PartialEq, Eq, Structural)]
pub enum Interrupt {
    ///NonMaskableInt (vector 2)
    NonMaskableInt,
    ///HardFault (vector 3)
    HardFault,
    ///SysTick (vector 12)
    SysTick,
    ///Software (vector 14)
    Software,
    ///WWDG (vector 16)
    WWDG,
    ///PVD (vector 17)
    PVD,
    ///FLASH (vector 18)
    FLASH,
    ///RCC (vector 19)
    RCC,
    ///EXTI7_0 (vector 20)
    EXTI7_0,
    ///AWU (vector 21)
    AWU,
    ///DMA1_CHANNEL1 (vector 22)
    DMA1_CHANNEL1,
    ///DMA1_CHANNEL2 (vector 23)
    DMA1_CHANNEL2,
    ///DMA1_CHANNEL3 (vector 24)
    DMA1_CHANNEL3,
    ///DMA1_CHANNEL4 (vector 25)
    DMA1_CHANNEL4,
    ///DMA1_CHANNEL5 (vector 26)
    DMA1_CHANNEL5,
    ///DMA1_CHANNEL6 (vector 27)
    DMA1_CHANNEL6,
    ///DMA1_CHANNEL7 (vector 28)
    DMA1_CHANNEL7,
    ///ADC (vector 29)
    ADC,
    ///I2C1_EV (vector 30)
    I2C1_EV,
    ///I2C1_ER (vector 31)
    I2C1_ER,
    ///USART1 (vector 32)
    USART1,
    ///SPI1 (vector 33)
    SPI1,
    ///TIM1_BRK (vector 34)
    TIM1_BRK,
    ///TIM1_UP (vector 35)
    TIM1_UP,
    ///TIM1_TRG_COM (vector 36)
    TIM1_TRG_COM,
    ///TIM1_CC (vector 37)
    TIM1_CC,
    ///TIM2 (vector 38)
    TIM2,
}

impl Interrupt {
    /// The interrupt's position in the vector table.
    pub open spec fn spec_number(self) -> u16 {
        match self {
            Interrupt::NonMaskableInt => 2,
            Interrupt::HardFault => 3,
            Interrupt::SysTick => 12,
            Interrupt::Software => 14,
            Interrupt::WWDG => 16,
            Interrupt::PVD => 17,
            Interrupt::FLASH => 18,
            Interrupt::RCC => 19,
            Interrupt::EXTI7_0 => 20,
            Interrupt::AWU => 21,
            Interrupt::DMA1_CHANNEL1 => 22,
            Interrupt::DMA1_CHANNEL2 => 23,
            Interrupt::DMA1_CHANNEL3 => 24,
            Interrupt::DMA1_CHANNEL4 => 25,
            Interrupt::DMA1_CHANNEL5 => 26,
            Interrupt::DMA1_CHANNEL6 => 27,
            Interrupt::DMA1_CHANNEL7 => 28,
            Interrupt::ADC => 29,
            Interrupt::I2C1_EV => 30,
            Interrupt::I2C1_ER => 31,
            Interrupt::USART1 => 32,
            Interrupt::SPI1 => 33,
            Interrupt::TIM1_BRK => 34,
            Interrupt::TIM1_UP => 35,
            Interrupt::TIM1_TRG_COM => 36,
            Interrupt::TIM1_CC => 37,
            Interrupt::TIM2 => 38,
        }
    }

    /// The interrupt's position in the vector table.
    #[verifier::when_used_as_spec(spec_number)]
    pub fn number(self) -> (r: u16)
        ensures
            r == self.spec_number(),
    {
        match self {
            Interrupt::NonMaskableInt => 2,
            Interrupt::HardFault => 3,
            Interrupt::SysTick => 12,
            Interrupt::Software => 14,
            Interrupt::WWDG => 16,
            Interrupt::PVD => 17,
            Interrupt::FLASH => 18,
            Interrupt::RCC => 19,
            Interrupt::EXTI7_0 => 20,
            Interrupt::AWU => 21,
            Interrupt::DMA1_CHANNEL1 => 22,
            Interrupt::DMA1_CHANNEL2 => 23,
            Interrupt::DMA1_CHANNEL3 => 24,
            Interrupt::DMA1_CHANNEL4 => 25,
            Interrupt::DMA1_CHANNEL5 => 26,
            Interrupt::DMA1_CHANNEL6 => 27,
            Interrupt::DMA1_CHANNEL7 => 28,
            Interrupt::ADC => 29,
            Interrupt::I2C1_EV => 30,
            Interrupt::I2C1_ER => 31,
            Interrupt::USART1 => 32,
            Interrupt::SPI1 => 33,
            Interrupt::TIM1_BRK => 34,
            Interrupt::TIM1_UP => 35,
            Interrupt::TIM1_TRG_COM => 36,
            Interrupt::TIM1_CC => 37,
            Interrupt::TIM2 => 38,
        }
    }
}

} // verus!
