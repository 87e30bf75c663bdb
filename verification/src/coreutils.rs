use vstd::prelude::*;

verus! {

/// Types that have a fixed numeric encoding inside a 32-bit register word.
pub trait Conversions {
    /// The encoding, as a mathematical function of the value.
    spec fn encoding(&self) -> u32;

    /// Returns the encoding of `self`.
    fn as_u32(&self) -> (bits: u32)
        ensures
            bits == self.encoding(),
    ;
}

impl Conversions for bool {
    open spec fn encoding(&self) -> u32 {
        if *self {
            1
        } else {
            0
        }
    }

    fn as_u32(&self) -> (bits: u32) {
        match self {
            true => 1,
            false => 0,
        }
    }
}

} // verus!
