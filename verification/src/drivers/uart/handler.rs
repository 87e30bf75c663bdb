use crate::bus::{Op, Register};
use crate::drivers::uart::errors::SerialError;
use crate::drivers::uart::{read_result, Serial, USART_CR1_RXNEIE};
use vstd::prelude::*;

verus! {

/// The two callbacks of the serial port. An empty slot stands for the
/// default, which does nothing. A callback is replaced only while the
/// receive interrupt is held back, so that no interrupt sees a slot halfway.
pub struct Handlers<R, E> {
    pub receive: Option<R>,
    pub error: Option<E>,
    /// Whether the receive interrupt is held back for a replacement.
    pub held: bool,
}

/// Which callback an interrupt of the port is for, and with what.
#[derive(Clone, Copy, Debug, PartialEq, Eq, Structural)]
pub enum Dispatch {
    /// Hand the byte to the receive callback.
    Receive(u8),
    /// Hand the error to the error callback.
    Error(SerialError),
}

impl<R, E> Handlers<R, E> {
    /// The registry with both defaults in place.
    pub fn new() -> (handlers: Self)
        ensures
            handlers.receive is None,
            handlers.error is None,
            !handlers.held,
    {
        Handlers { receive: None, error: None, held: false }
    }

    /// Opens a replacement: the step that holds the receive interrupt back,
    /// which the host performs before it replaces a callback.
    pub fn hold(&mut self) -> (op: Op)
        ensures
            op == Op::spec_clear_bits(Register::UsartCr1, USART_CR1_RXNEIE),
            final(self).held,
            final(self).receive == old(self).receive,
            final(self).error == old(self).error,
    {
        self.held = true;
        Serial::disable_interrupts()
    }

    /// Closes a replacement: the step that lets the receive interrupt
    /// through again, which the host performs after the callbacks are in place.
    pub fn release(&mut self) -> (op: Op)
        ensures
            op == Op::spec_set_bits(Register::UsartCr1, USART_CR1_RXNEIE),
            !final(self).held,
            final(self).receive == old(self).receive,
            final(self).error == old(self).error,
    {
        self.held = false;
        Serial::enable_interrupts()
    }
}

impl Serial {
    /// Replaces the receive callback, between `hold` and `release`; the
    /// error callback stays.
    pub fn on_receive<R, E>(handlers: &mut Handlers<R, E>, receive_handler: R)
        requires
            old(handlers).held,
        ensures
            final(handlers).receive == Some(receive_handler),
            final(handlers).error == old(handlers).error,
            final(handlers).held,
    {
        handlers.receive = Some(receive_handler);
    }

    /// Replaces the error callback, between `hold` and `release`; the
    /// receive callback stays.
    pub fn on_error<R, E>(handlers: &mut Handlers<R, E>, error_handler: E)
        requires
            old(handlers).held,
        ensures
            final(handlers).error == Some(error_handler),
            final(handlers).receive == old(handlers).receive,
            final(handlers).held,
    {
        handlers.error = Some(error_handler);
    }

    /// The interrupt path: what `read_byte` gives for `status` and `data`
    /// goes to the receive callback if it is a byte, to the error callback if
    /// it is an error.
    pub fn on_interrupt(status: u32, data: u32) -> (dispatch: Dispatch)
        ensures
            dispatch == match read_result(status, data) {
                Ok(byte) => Dispatch::Receive(byte),
                Err(error) => Dispatch::Error(error),
            },
    {
        match Self::read_byte(status, data) {
            Ok(byte) => Dispatch::Receive(byte),
            Err(error) => Dispatch::Error(error),
        }
    }
}

} // verus!
