use crate::bus::{Op, Register};
use vstd::prelude::*;

verus! {

/// Access control register: the latency field.
pub const FLASH_ACR_LATENCY: u32 = 0xF;

/// The wait states that the target frequency needs.
pub const FLASH_WAIT_STATES: u32 = 0x3;

/// The latency field cleared, then set to the wait states needed.
pub open spec fn configure_plan() -> Seq<Op> {
    seq![
        Op::spec_clear_bits(Register::FlashAcr, FLASH_ACR_LATENCY),
        Op::spec_set_bits(Register::FlashAcr, FLASH_WAIT_STATES),
    ]
}

/// The steps that set the flash latency.
pub fn configure() -> (plan: Vec<Op>)
    ensures
        plan@ == configure_plan(),
{
    let mut plan: Vec<Op> = Vec::new();
    plan.push(Op::clear_bits(Register::FlashAcr, FLASH_ACR_LATENCY));
    plan.push(Op::set_bits(Register::FlashAcr, FLASH_WAIT_STATES));
    plan
}

} // verus!
