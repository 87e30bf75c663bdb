use crate::bits::{field, modified};
use crate::bus::{Op, Register};
use vstd::prelude::*;

verus! {

/// Clock control register: PLL on.
pub const RCC_CR_PLL1ON: u32 = 0x01000000;

/// Clock control register: PLL locked.
pub const RCC_CR_PLL1RDY: u32 = 0x02000000;

/// PLL configuration register: the P output.
pub const RCC_PLL1CFGR_PLL1PEN: u32 = 0x00010000;

/// PLL configuration register: the Q output.
pub const RCC_PLL1CFGR_PLL1QEN: u32 = 0x00020000;

/// Clock configuration register: the system clock switch, and its value for
/// the PLL.
pub const RCC_CFGR1_SW: u32 = 0x3;

/// Clock configuration register: the system clock switch status, a field of
/// two bits at bit 3.
pub const RCC_CFGR1_SWS: u32 = 0x00000018;

/// The switch status that says that the PLL drives the system clock: 3 in
/// its field.
pub const RCC_CFGR1_SWS_PLL1: u32 = 0x00000018;

/// The PLL's configuration, from a cleared register: source is the external
/// oscillator, fractional latch on, input range 8 to 16 MHz, input divider 1;
/// then multiplier and P divider, each field cleared and set.
pub open spec fn configure_plan() -> Seq<Op> {
    seq![
        Op::Write { reg: Register::RccPll1Cfgr, value: 0 },
        Op::spec_set_bits(Register::RccPll1Cfgr, 0x3u32 << 0u32),
        Op::spec_set_bits(Register::RccPll1Cfgr, 1u32 << 4u32),
        Op::spec_set_bits(Register::RccPll1Cfgr, 0x3u32 << 2u32),
        Op::spec_set_bits(Register::RccPll1Cfgr, 1u32 << 8u32),
        Op::spec_clear_bits(Register::RccPll1Divr, 0x1FFu32 << 0u32),
        Op::spec_set_bits(Register::RccPll1Divr, 0xFu32 << 0u32),
        Op::spec_clear_bits(Register::RccPll1Divr, 0x7Fu32 << 9u32),
        Op::spec_set_bits(Register::RccPll1Divr, 1u32 << 9u32),
    ]
}

/// The step that switches the P output on.
pub open spec fn enable_p_op() -> Op {
    Op::spec_set_bits(Register::RccPll1Cfgr, RCC_PLL1CFGR_PLL1PEN)
}

/// Switching the PLL on and waiting until it has locked.
pub open spec fn enable_main_plan() -> Seq<Op> {
    seq![
        Op::spec_set_bits(Register::RccCr, RCC_CR_PLL1ON),
        Op::WaitSet { reg: Register::RccCr, mask: RCC_CR_PLL1RDY },
    ]
}

/// Selecting the PLL as system clock and waiting until the switch status
/// says that the PLL is the source.
pub open spec fn switch_plan() -> Seq<Op> {
    seq![
        Op::Modify { reg: Register::RccCfgr1, clear: RCC_CFGR1_SW, set: RCC_CFGR1_SW },
        Op::WaitEqual { reg: Register::RccCfgr1, mask: RCC_CFGR1_SWS, value: RCC_CFGR1_SWS_PLL1 },
    ]
}

/// The switch selects source 3, the PLL, whatever was selected before, and
/// the wait after it is over exactly on a status word whose switch status is
/// 3: a status of 0, the internal oscillator, of 1 or of 2 does not end it.
pub proof fn lemma_switch_waits_for_pll(word: u32, observed: u32)
    ensures
        field(switch_plan()[0].spec_output(word), 0, 2) == 3,
        switch_plan()[0].spec_output(word) & !3u32 == word & !3u32,
        switch_plan()[1].spec_is_met(observed) <==> field(observed, 3, 2) == 3,
{
    lemma_switch_words(word, observed);
}

proof fn lemma_switch_words(word: u32, observed: u32)
    by (bit_vector)
    ensures
        field(modified(word, RCC_CFGR1_SW, RCC_CFGR1_SW), 0, 2) == 3,
        modified(word, RCC_CFGR1_SW, RCC_CFGR1_SW) & !3u32 == word & !3u32,
        observed & RCC_CFGR1_SWS == RCC_CFGR1_SWS_PLL1 <==> field(observed, 3, 2) == 3,
{
}

/// The steps that configure the PLL. They belong before the PLL is switched on.
pub fn configure() -> (plan: Vec<Op>)
    ensures
        plan@ == configure_plan(),
{
    let mut plan: Vec<Op> = Vec::new();
    plan.push(Op::Write { reg: Register::RccPll1Cfgr, value: 0 });
    plan.push(Op::set_bits(Register::RccPll1Cfgr, 0x3u32 << 0u32));
    plan.push(Op::set_bits(Register::RccPll1Cfgr, 1u32 << 4u32));
    plan.push(Op::set_bits(Register::RccPll1Cfgr, 0x3u32 << 2u32));
    plan.push(Op::set_bits(Register::RccPll1Cfgr, 1u32 << 8u32));
    plan.push(Op::clear_bits(Register::RccPll1Divr, 0x1FFu32 << 0u32));
    plan.push(Op::set_bits(Register::RccPll1Divr, 0xFu32 << 0u32));
    plan.push(Op::clear_bits(Register::RccPll1Divr, 0x7Fu32 << 9u32));
    plan.push(Op::set_bits(Register::RccPll1Divr, 1u32 << 9u32));
    assert(plan@ =~= configure_plan());
    plan
}

/// The steps that switch the PLL on and wait until it has locked.
pub fn enable_main() -> (plan: Vec<Op>)
    ensures
        plan@ == enable_main_plan(),
{
    let mut plan: Vec<Op> = Vec::new();
    plan.push(Op::set_bits(Register::RccCr, RCC_CR_PLL1ON));
    plan.push(Op::WaitSet { reg: Register::RccCr, mask: RCC_CR_PLL1RDY });
    plan
}

/// The step that switches the P output on. It belongs before the PLL is
/// switched on.
pub fn enable_p() -> (op: Op)
    ensures
        op == enable_p_op(),
{
    Op::set_bits(Register::RccPll1Cfgr, RCC_PLL1CFGR_PLL1PEN)
}

/// The step that switches the Q output on. Like the P output, it belongs
/// before the PLL is switched on.
pub fn enable_q() -> (op: Op)
    ensures
        op == Op::spec_set_bits(Register::RccPll1Cfgr, RCC_PLL1CFGR_PLL1QEN),
{
    Op::set_bits(Register::RccPll1Cfgr, RCC_PLL1CFGR_PLL1QEN)
}

/// The steps that make the PLL the system clock and wait for the switch.
pub fn switch_sys_clock_to() -> (plan: Vec<Op>)
    ensures
        plan@ == switch_plan(),
{
    let mut plan: Vec<Op> = Vec::new();
    plan.push(Op::Modify { reg: Register::RccCfgr1, clear: RCC_CFGR1_SW, set: RCC_CFGR1_SW });
    plan.push(
        Op::WaitEqual { reg: Register::RccCfgr1, mask: RCC_CFGR1_SWS, value: RCC_CFGR1_SWS_PLL1 },
    );
    plan
}

} // verus!
