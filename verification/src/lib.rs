//! Register-level control of a microcontroller's clocks, pins and bus
//! peripherals, stated as programs of register steps.
//!
//! A driver function touches no hardware. It returns the steps that the host
//! is to perform (`bus::Op`), or it takes the words that the host has read
//! and says what they mean. Every function carries a contract that says
//! exactly which steps come out, and `bus::run` gives the steps their meaning
//! on a register file, over which the laws of the drivers are proved.

pub mod bits;
pub mod bus;
pub mod coreutils;
pub mod drivers;
pub mod system;
