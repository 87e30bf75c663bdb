use vstd::prelude::*;

verus! {

/// The GPIO banks of the chip.
#[allow(non_camel_case_types)]
#[derive(Clone, Copy, Debug, PartialEq, Eq, Structural, Hash)]
pub enum GPIOPORT {
    GPIOA,
    GPIOB,
    GPIOC,
    GPIOD,
    GPIOE,
    GPIOF,
    GPIOG,
    GPIOH,
    GPIOI,
}

impl GPIOPORT {
    /// Position of the bank in the chip, which is also the position of its
    /// enable bit in the AHB2 clock-enable register.
    pub open spec fn spec_index(self) -> u32 {
        match self {
            GPIOPORT::GPIOA => 0,
            GPIOPORT::GPIOB => 1,
            GPIOPORT::GPIOC => 2,
            GPIOPORT::GPIOD => 3,
            GPIOPORT::GPIOE => 4,
            GPIOPORT::GPIOF => 5,
            GPIOPORT::GPIOG => 6,
            GPIOPORT::GPIOH => 7,
            GPIOPORT::GPIOI => 8,
        }
    }

    #[verifier::when_used_as_spec(spec_index)]
    pub fn index(self) -> (i: u32)
        ensures
            i == self.spec_index(),
            i < 9,
    {
        match self {
            GPIOPORT::GPIOA => 0,
            GPIOPORT::GPIOB => 1,
            GPIOPORT::GPIOC => 2,
            GPIOPORT::GPIOD => 3,
            GPIOPORT::GPIOE => 4,
            GPIOPORT::GPIOF => 5,
            GPIOPORT::GPIOG => 6,
            GPIOPORT::GPIOH => 7,
            GPIOPORT::GPIOI => 8,
        }
    }
}

} // verus!
