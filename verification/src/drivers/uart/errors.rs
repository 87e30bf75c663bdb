use vstd::prelude::*;

verus! {

/// Why a read of the serial line gave no byte.
#[derive(Clone, Copy, Debug, PartialEq, Eq, Structural)]
pub enum SerialError {
    /// Nothing has arrived.
    NoDataFound,
    /// A byte arrived before the one before it was read. The flag stays up
    /// until it is cleared.
    OverRun,
}

} // verus!
