use crate::bus::{Op, Register};
use vstd::prelude::*;

verus! {

/// Clock control register: external oscillator on.
pub const RCC_CR_HSEON: u32 = 0x00010000;

/// Clock control register: external oscillator ready.
pub const RCC_CR_HSERDY: u32 = 0x00020000;

/// Switching the external oscillator on and waiting until it is ready.
pub open spec fn enable_hse_plan() -> Seq<Op> {
    seq![
        Op::spec_set_bits(Register::RccCr, RCC_CR_HSEON),
        Op::WaitSet { reg: Register::RccCr, mask: RCC_CR_HSERDY },
    ]
}

/// The steps that switch the external oscillator on and wait for it.
pub fn enable_hse() -> (plan: Vec<Op>)
    ensures
        plan@ == enable_hse_plan(),
{
    let mut plan: Vec<Op> = Vec::new();
    plan.push(Op::set_bits(Register::RccCr, RCC_CR_HSEON));
    plan.push(Op::WaitSet { reg: Register::RccCr, mask: RCC_CR_HSERDY });
    plan
}

} // verus!
