use crate::coreutils::Conversions;
use vstd::prelude::*;

verus! {

/// What a pin is used for.
#[derive(Clone, Copy, Debug, PartialEq, Eq, Structural)]
pub enum MODER {
    Input,
    GeneralPurposeOutput,
    Alternate,
    Analog,
}

impl Conversions for MODER {
    open spec fn encoding(&self) -> u32 {
        match self {
            MODER::Input => 0,
            MODER::GeneralPurposeOutput => 1,
            MODER::Alternate => 2,
            MODER::Analog => 3,
        }
    }

    fn as_u32(&self) -> (bits: u32) {
        match self {
            MODER::Input => 0,
            MODER::GeneralPurposeOutput => 1,
            MODER::Alternate => 2,
            MODER::Analog => 3,
        }
    }
}

/// How an output pin drives its line.
#[derive(Clone, Copy, Debug, PartialEq, Eq, Structural)]
pub enum OTYPER {
    PushPull,
    OpenDrain,
}

impl Conversions for OTYPER {
    open spec fn encoding(&self) -> u32 {
        match self {
            OTYPER::PushPull => 0,
            OTYPER::OpenDrain => 1,
        }
    }

    fn as_u32(&self) -> (bits: u32) {
        match self {
            OTYPER::PushPull => 0,
            OTYPER::OpenDrain => 1,
        }
    }
}

/// Slew rate of an output pin.
#[derive(Clone, Copy, Debug, PartialEq, Eq, Structural)]
pub enum OSPEEDR {
    LowSpeed,
    MediumSpeed,
    HighSpeed,
    VeryHighSpeed,
}

impl Conversions for OSPEEDR {
    open spec fn encoding(&self) -> u32 {
        match self {
            OSPEEDR::LowSpeed => 0,
            OSPEEDR::MediumSpeed => 1,
            OSPEEDR::HighSpeed => 2,
            OSPEEDR::VeryHighSpeed => 3,
        }
    }

    fn as_u32(&self) -> (bits: u32) {
        match self {
            OSPEEDR::LowSpeed => 0,
            OSPEEDR::MediumSpeed => 1,
            OSPEEDR::HighSpeed => 2,
            OSPEEDR::VeryHighSpeed => 3,
        }
    }
}

/// Internal pull resistor of a pin.
#[derive(Clone, Copy, Debug, PartialEq, Eq, Structural)]
pub enum PUPDR {
    NoPull,
    PullUp,
    PullDown,
}

impl Conversions for PUPDR {
    open spec fn encoding(&self) -> u32 {
        match self {
            PUPDR::NoPull => 0,
            PUPDR::PullUp => 1,
            PUPDR::PullDown => 2,
        }
    }

    fn as_u32(&self) -> (bits: u32) {
        match self {
            PUPDR::NoPull => 0,
            PUPDR::PullUp => 1,
            PUPDR::PullDown => 2,
        }
    }
}

/// The electrical configuration of one pin.
#[derive(Clone, Copy, Debug, PartialEq, Eq, Structural)]
pub struct GpioConfig {
    pub moder: MODER,
    pub otyper: OTYPER,
    pub ospeedr: OSPEEDR,
    pub pupdr: PUPDR,
    pub alt_func_select: Option<u8>,
}

impl GpioConfig {
    /// An alternate-function selector, where there is one, is between 0 and 15.
    pub open spec fn spec_is_valid(&self) -> bool {
        match self.alt_func_select {
            Some(selector) => selector <= 15,
            None => true,
        }
    }

    #[verifier::when_used_as_spec(spec_is_valid)]
    pub fn is_valid(&self) -> (valid: bool)
        ensures
            valid == self.spec_is_valid(),
    {
        match self.alt_func_select {
            Some(selector) => selector <= 15,
            None => true,
        }
    }
}

} // verus!
