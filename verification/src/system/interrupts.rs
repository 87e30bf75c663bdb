use vstd::prelude::*;

verus! {

/// The interrupt lines that the drivers serve.
#[allow(non_camel_case_types)]
#[derive(Clone, Copy, Debug, PartialEq, Eq, Structural)]
pub enum InterruptLine {
    USART1,
    SPI3,
    I2C1_EV,
}

/// The priority of the serial port's interrupt.
pub const USART1_PRIORITY: u8 = 1;

/// The line to let through at boot, and the priority to give it.
pub fn enable_interrupts() -> (request: (InterruptLine, u8))
    ensures
        request == (InterruptLine::USART1, USART1_PRIORITY),
{
    (InterruptLine::USART1, USART1_PRIORITY)
}

} // verus!
