use crate::bits::{lemma_modified_idempotent, lemma_set_bits, modified};
use crate::drivers::gpio::ports::GPIOPORT;
use vstd::prelude::*;

verus! {

/// Every memory-mapped register that the drivers touch.
#[derive(Clone, Copy, Debug, PartialEq, Eq, Structural, Hash)]
pub enum Register {
    RccCr,
    RccCfgr1,
    RccPll1Cfgr,
    RccPll1Divr,
    RccAhb2Enr,
    RccApb1LEnr,
    RccApb2Enr,
    RccCcipr5,
    FlashAcr,
    GpioModer(GPIOPORT),
    GpioOtyper(GPIOPORT),
    GpioOspeedr(GPIOPORT),
    GpioPupdr(GPIOPORT),
    GpioIdr(GPIOPORT),
    GpioBsrr(GPIOPORT),
    GpioAfrl(GPIOPORT),
    GpioAfrh(GPIOPORT),
    I2cCr1,
    I2cCr2,
    I2cOar1,
    I2cOar2,
    I2cTimingr,
    I2cIsr,
    I2cIcr,
    I2cRxdr,
    I2cTxdr,
    SpiCr1,
    SpiCr2,
    SpiSr,
    SpiDr,
    UsartCr1,
    UsartBrr,
    UsartIsr,
    UsartIcr,
    UsartRdr,
    UsartTdr,
    AdcCr,
    AdcIsr,
    AdcSqr1,
    AdcSmpr1,
    AdcDr,
}

/// One step of a register program. The drivers compute programs; the host
/// that owns the hardware performs them, in order.
#[derive(Clone, Copy, Debug, PartialEq, Eq, Structural, Hash)]
pub enum Op {
    /// Store `value` into `reg`, without reading it first.
    Write { reg: Register, value: u32 },
    /// Read `reg`, clear the bits of `clear`, set the bits of `set`, store the result.
    Modify { reg: Register, clear: u32, set: u32 },
    /// Read `reg` again and again until one of the bits of `mask` is set.
    WaitSet { reg: Register, mask: u32 },
    /// Read `reg` again and again until all bits of `mask` are clear.
    WaitClear { reg: Register, mask: u32 },
    /// Read `reg` again and again until its bits under `mask` are those of `value`.
    WaitEqual { reg: Register, mask: u32, value: u32 },
    /// Let at least `cycles` idle cycles pass.
    Delay { cycles: u32 },
}

/// The content of every register, as far as registers behave like memory.
pub type RegisterFile = spec_fn(Register) -> u32;

/// The register file `regs` with `value` stored into `reg`.
pub open spec fn store(regs: RegisterFile, reg: Register, value: u32) -> RegisterFile {
    |r: Register|
        if r == reg {
            value
        } else {
            regs(r)
        }
}

impl Op {
    /// The step that sets the bits of `bits` in `reg` and keeps the others.
    pub open spec fn spec_set_bits(reg: Register, bits: u32) -> Op {
        Op::Modify { reg, clear: 0, set: bits }
    }

    /// The step that clears the bits of `bits` in `reg` and keeps the others.
    pub open spec fn spec_clear_bits(reg: Register, bits: u32) -> Op {
        Op::Modify { reg, clear: bits, set: 0 }
    }

    /// The step that sets the bits of `bits` in `reg` and keeps the others.
    #[verifier::when_used_as_spec(spec_set_bits)]
    pub fn set_bits(reg: Register, bits: u32) -> (op: Op)
        ensures
            op == Op::spec_set_bits(reg, bits),
    {
        Op::Modify { reg, clear: 0, set: bits }
    }

    /// The step that clears the bits of `bits` in `reg` and keeps the others.
    #[verifier::when_used_as_spec(spec_clear_bits)]
    pub fn clear_bits(reg: Register, bits: u32) -> (op: Op)
        ensures
            op == Op::spec_clear_bits(reg, bits),
    {
        Op::Modify { reg, clear: bits, set: 0 }
    }

    /// The register that the step stores into, if it stores at all.
    pub open spec fn spec_target(self) -> Option<Register> {
        match self {
            Op::Write { reg, .. } => Some(reg),
            Op::Modify { reg, .. } => Some(reg),
            _ => None,
        }
    }

    /// The register that the step reads, if it reads at all.
    pub open spec fn spec_source(self) -> Option<Register> {
        match self {
            Op::Modify { reg, .. } => Some(reg),
            Op::WaitSet { reg, .. } => Some(reg),
            Op::WaitClear { reg, .. } => Some(reg),
            Op::WaitEqual { reg, .. } => Some(reg),
            _ => None,
        }
    }

    /// The word that the step stores when the register held `current`.
    pub open spec fn spec_output(self, current: u32) -> u32 {
        match self {
            Op::Write { value, .. } => value,
            Op::Modify { clear, set, .. } => modified(current, clear, set),
            _ => current,
        }
    }

    /// Whether a wait is over once `observed` has been read. Steps that do not
    /// wait are over at once.
    pub open spec fn spec_is_met(self, observed: u32) -> bool {
        match self {
            Op::WaitSet { mask, .. } => observed & mask != 0,
            Op::WaitClear { mask, .. } => observed & mask == 0,
            Op::WaitEqual { mask, value, .. } => observed & mask == value,
            _ => true,
        }
    }

    #[verifier::when_used_as_spec(spec_target)]
    pub fn target(self) -> (reg: Option<Register>)
        ensures
            reg == self.spec_target(),
    {
        match self {
            Op::Write { reg, .. } => Some(reg),
            Op::Modify { reg, .. } => Some(reg),
            _ => None,
        }
    }

    #[verifier::when_used_as_spec(spec_source)]
    pub fn source(self) -> (reg: Option<Register>)
        ensures
            reg == self.spec_source(),
    {
        match self {
            Op::Modify { reg, .. } => Some(reg),
            Op::WaitSet { reg, .. } => Some(reg),
            Op::WaitClear { reg, .. } => Some(reg),
            Op::WaitEqual { reg, .. } => Some(reg),
            _ => None,
        }
    }

    #[verifier::when_used_as_spec(spec_output)]
    pub fn output(self, current: u32) -> (word: u32)
        ensures
            word == self.spec_output(current),
    {
        match self {
            Op::Write { value, .. } => value,
            Op::Modify { clear, set, .. } => (current & !clear) | set,
            _ => current,
        }
    }

    #[verifier::when_used_as_spec(spec_is_met)]
    pub fn is_met(self, observed: u32) -> (met: bool)
        ensures
            met == self.spec_is_met(observed),
    {
        match self {
            Op::WaitSet { mask, .. } => observed & mask != 0,
            Op::WaitClear { mask, .. } => observed & mask == 0,
            Op::WaitEqual { mask, value, .. } => observed & mask == value,
            _ => true,
        }
    }

    /// The register file after the step, where registers keep what was stored
    /// into them. Waits and delays store nothing.
    pub open spec fn effect(self, regs: RegisterFile) -> RegisterFile {
        match self.spec_target() {
            Some(reg) => store(regs, reg, self.spec_output(regs(reg))),
            None => regs,
        }
    }
}

/// The register file after all steps of `plan`, first to last.
pub open spec fn run(plan: Seq<Op>, regs: RegisterFile) -> RegisterFile
    decreases plan.len(),
{
    if plan.len() == 0 {
        regs
    } else {
        plan.last().effect(run(plan.drop_last(), regs))
    }
}

/// Running a program that ends in `op` is running the program before it, then `op`.
pub proof fn lemma_run_push(plan: Seq<Op>, op: Op, regs: RegisterFile)
    ensures
        run(plan.push(op), regs) == op.effect(run(plan, regs)),
{
    assert(plan.push(op).drop_last() =~= plan);
}

/// Running two programs one after the other is running their concatenation.
pub proof fn lemma_run_concat(first: Seq<Op>, second: Seq<Op>, regs: RegisterFile)
    ensures
        run(first + second, regs) == run(second, run(first, regs)),
    decreases second.len(),
{
    if second.len() == 0 {
        assert(first + second =~= first);
    } else {
        lemma_run_concat(first, second.drop_last(), regs);
        assert((first + second).drop_last() =~= first + second.drop_last());
    }
}

/// A storing step done twice in a row leaves every register as doing it once
/// leaves it.
pub proof fn lemma_effect_idempotent(op: Op, regs: RegisterFile)
    ensures
        forall|reg: Register| #[trigger] op.effect(op.effect(regs))(reg) == op.effect(regs)(reg),
{
    match op {
        Op::Modify { reg, clear, set } => {
            lemma_modified_idempotent(regs(reg), clear, set);
        },
        _ => {},
    }
}

/// Switching bits on twice is switching them on once: after either, the bits
/// of `bits` are set in `reg`, the other bits of `reg` and all other
/// registers are as before. Where the bits were set already, nothing changes
/// at all.
pub proof fn lemma_enable_twice(reg: Register, bits: u32, regs: RegisterFile)
    ensures
        ({
            let enable = Op::spec_set_bits(reg, bits);
            let once = run(seq![enable], regs);
            let twice = run(seq![enable, enable], regs);
            &&& forall|r: Register| #[trigger] twice(r) == once(r)
            &&& once(reg) & bits == bits
            &&& once(reg) & !bits == regs(reg) & !bits
            &&& regs(reg) & bits == bits ==> once(reg) == regs(reg)
            &&& forall|r: Register| r != reg ==> #[trigger] once(r) == regs(r)
        }),
{
    let enable = Op::spec_set_bits(reg, bits);
    let none = Seq::<Op>::empty();
    assert(seq![enable] =~= none.push(enable));
    assert(seq![enable, enable] =~= none.push(enable).push(enable));
    lemma_run_push(none, enable, regs);
    lemma_run_push(none.push(enable), enable, regs);
    lemma_effect_idempotent(enable, regs);
    lemma_set_bits(regs(reg), bits);
}

/// What the host does after a read that a wait asked for.
#[derive(Clone, Copy, Debug, PartialEq, Eq, Structural)]
pub enum PollStep {
    /// The wait is over.
    Ready,
    /// Read again.
    Retry,
    /// The wait has used up its reads: give up.
    TimedOut,
}

/// The budget of a wait: how many reads it may still make.
#[derive(Clone, Copy, Debug, PartialEq, Eq, Structural)]
pub struct Poll {
    pub remaining: u32,
}

impl Poll {
    /// A budget of `limit` reads.
    pub fn new(limit: u32) -> (poll: Poll)
        ensures
            poll.remaining == limit,
    {
        Poll { remaining: limit }
    }

    /// Accounts for one read of the register that `wait` names, which gave
    /// `observed`. The wait is over when `observed` meets it; otherwise the
    /// read is charged to the budget, and the wait times out when that read
    /// was the last one allowed.
    pub fn observe(&mut self, wait: Op, observed: u32) -> (step: PollStep)
        ensures
            wait.is_met(observed) ==> step == PollStep::Ready && *final(self) == *old(self),
            !wait.is_met(observed) && old(self).remaining <= 1 ==> step == PollStep::TimedOut
                && final(self).remaining == 0,
            !wait.is_met(observed) && old(self).remaining > 1 ==> step == PollStep::Retry
                && final(self).remaining == old(self).remaining - 1,
    {
        if wait.is_met(observed) {
            PollStep::Ready
        } else if self.remaining <= 1 {
            self.remaining = 0;
            PollStep::TimedOut
        } else {
            self.remaining = self.remaining - 1;
            PollStep::Retry
        }
    }
}

/// Appends the steps of `tail` to `plan`.
pub fn extend(plan: &mut Vec<Op>, tail: &Vec<Op>)
    ensures
        final(plan)@ == old(plan)@ + tail@,
{
    let mut i: usize = 0;
    while i < tail.len()
        invariant
            i <= tail.len(),
            plan@ == old(plan)@ + tail@.subrange(0, i as int),
        decreases tail.len() - i,
    {
        plan.push(tail[i]);
        assert(tail@.subrange(0, i + 1) =~= tail@.subrange(0, i as int).push(tail@[i as int]));
        i += 1;
    }
    assert(tail@.subrange(0, tail@.len() as int) =~= tail@);
}

} // verus!
