use crate::drivers::gpio::config::{GpioConfig, MODER, OSPEEDR, OTYPER, PUPDR};
use crate::drivers::gpio::{Gpio, GPIOPORT};
use vstd::prelude::*;

verus! {

/// Enable bit of the first USART in the APB2 clock-enable register.
pub const RCC_APB2ENR_USART1EN: u32 = 0x00004000;

/// Both lines of the first USART are push-pull pins on alternate function 7.
pub open spec fn spec_type_serial_usart1() -> GpioConfig {
    GpioConfig {
        moder: MODER::Alternate,
        otyper: OTYPER::PushPull,
        ospeedr: OSPEEDR::VeryHighSpeed,
        pupdr: PUPDR::NoPull,
        alt_func_select: Some(7),
    }
}

/// Transmit line: pin 9 of bank A.
pub open spec fn spec_usart1_tx() -> Gpio {
    Gpio { port: GPIOPORT::GPIOA, pin: 9 }
}

/// Receive line: pin 10 of bank A.
pub open spec fn spec_usart1_rx() -> Gpio {
    Gpio { port: GPIOPORT::GPIOA, pin: 10 }
}

#[verifier::when_used_as_spec(spec_type_serial_usart1)]
pub fn type_serial_usart1() -> (config: GpioConfig)
    ensures
        config == spec_type_serial_usart1(),
{
    GpioConfig {
        moder: MODER::Alternate,
        otyper: OTYPER::PushPull,
        ospeedr: OSPEEDR::VeryHighSpeed,
        pupdr: PUPDR::NoPull,
        alt_func_select: Some(7),
    }
}

#[verifier::when_used_as_spec(spec_usart1_tx)]
pub fn usart1_tx() -> (pin: Gpio)
    ensures
        pin == spec_usart1_tx(),
{
    Gpio::new(GPIOPORT::GPIOA, 9)
}

#[verifier::when_used_as_spec(spec_usart1_rx)]
pub fn usart1_rx() -> (pin: Gpio)
    ensures
        pin == spec_usart1_rx(),
{
    Gpio::new(GPIOPORT::GPIOA, 10)
}

} // verus!
