pub mod actions;
pub mod portdef;
pub mod registers_init;

use crate::bits::{field, lemma_set_bits, modified};
use crate::bus::{extend, lemma_run_concat, lemma_run_push, run, Op, Register, RegisterFile};
use crate::drivers::i2c::portdef::{lemma_pins_spare_block, pins_plan};
use crate::drivers::i2c::registers_init::{
    flag_is, lemma_registers_follow_config, registers_plan, I2C_CR1_ADDRIE, I2C_CR1_ANFOFF,
    I2C_CR1_FMP, I2C_CR1_NOSTRETCH, I2C_CR1_PROGRAMMED, I2C_CR1_RXIE, I2C_CR1_SBC, I2C_OAR_EN,
    I2C_TIMING,
};
use vstd::prelude::*;

verus! {

/// Enable bit of the block in the low APB1 clock-enable register.
pub const RCC_APB1LENR_I2C1EN: u32 = 0x00200000;

/// Control register 1: peripheral enable.
pub const I2C_CR1_PE: u32 = 0x00000001;

/// The first I2C block of the chip, as bus master.
pub struct I2C;

/// What `configure` programs besides clock, pins and timing.
#[derive(Clone, Copy, Debug, PartialEq, Eq, Structural)]
pub struct I2CConfig {
    /// Own address 1, for a block that is to answer as a target.
    pub primary_address: Option<u16>,
    /// Own address 2.
    pub secondary_address: Option<u8>,
    pub fast_mode_plus_en: bool,
    pub enable_nostretch: bool,
    pub enable_slave_byte_control: bool,
    pub disable_analog_noise_filter: bool,
}

/// The errors that the bus can flag.
#[derive(Clone, Copy, Debug, PartialEq, Eq, Structural)]
pub enum I2cError {
    BusBusy,
    TimeOut,
    PECError,
    OverrunUnderrun,
    ArbitrationLost,
    BusError,
    NotAcknowledged,
}

/// Bring-up without own addresses: bus clock, pins, timing, peripheral on.
pub open spec fn begin_plan() -> Seq<Op> {
    seq![Op::spec_set_bits(Register::RccApb1LEnr, RCC_APB1LENR_I2C1EN)] + pins_plan() + seq![
        Op::Write { reg: Register::I2cTimingr, value: I2C_TIMING },
        Op::spec_set_bits(Register::I2cCr1, I2C_CR1_PE),
    ]
}

/// Bring-up: bus clock, pins, own addresses and control flags, timing,
/// peripheral on.
pub open spec fn configure_plan_for(config: I2CConfig) -> Seq<Op> {
    seq![Op::spec_set_bits(Register::RccApb1LEnr, RCC_APB1LENR_I2C1EN)] + pins_plan()
        + registers_plan(config) + seq![
        Op::Write { reg: Register::I2cTimingr, value: I2C_TIMING },
        Op::spec_set_bits(Register::I2cCr1, I2C_CR1_PE),
    ]
}

/// The last two steps of bring-up: timing, then peripheral on.
pub open spec fn enable_plan() -> Seq<Op> {
    seq![
        Op::Write { reg: Register::I2cTimingr, value: I2C_TIMING },
        Op::spec_set_bits(Register::I2cCr1, I2C_CR1_PE),
    ]
}

/// Switching the peripheral on keeps the flags and interrupts of control
/// register 1.
proof fn lemma_enable_keeps_flags(before: u32, word: u32)
    by (bit_vector)
    requires
        word & !I2C_CR1_PROGRAMMED == before & !I2C_CR1_PROGRAMMED,
    ensures
        ({
            let after = modified(word, 0, I2C_CR1_PE);
            &&& after & I2C_CR1_PE == I2C_CR1_PE
            &&& after & I2C_CR1_FMP == word & I2C_CR1_FMP
            &&& after & I2C_CR1_NOSTRETCH == word & I2C_CR1_NOSTRETCH
            &&& after & I2C_CR1_SBC == word & I2C_CR1_SBC
            &&& after & I2C_CR1_ANFOFF == word & I2C_CR1_ANFOFF
            &&& after & I2C_CR1_ADDRIE == word & I2C_CR1_ADDRIE
            &&& after & I2C_CR1_RXIE == word & I2C_CR1_RXIE
            &&& after & !0x0103100Du32 == before & !0x0103100Du32
        }),
{
}

/// What the last two steps leave: the timing word in its register, the
/// peripheral on, everything else as it was.
proof fn lemma_enable_plan_runs(regs: RegisterFile)
    ensures
        run(enable_plan(), regs)(Register::I2cTimingr) == I2C_TIMING,
        run(enable_plan(), regs)(Register::I2cCr1) == modified(
            regs(Register::I2cCr1),
            0,
            I2C_CR1_PE,
        ),
        forall|reg: Register|
            reg != Register::I2cTimingr && reg != Register::I2cCr1 ==> #[trigger] run(
                enable_plan(),
                regs,
            )(reg) == regs(reg),
{
    let plan = enable_plan();
    let none = Seq::<Op>::empty();
    assert(plan =~= none.push(plan[0]).push(plan[1]));
    lemma_run_push(none, plan[0], regs);
    lemma_run_push(none.push(plan[0]), plan[1], regs);
}

/// What the first step leaves: the block's bus clock on.
proof fn lemma_clock_runs(regs: RegisterFile)
    ensures
        ({
            let clock = seq![Op::spec_set_bits(Register::RccApb1LEnr, RCC_APB1LENR_I2C1EN)];
            &&& run(clock, regs)(Register::RccApb1LEnr) & RCC_APB1LENR_I2C1EN
                == RCC_APB1LENR_I2C1EN
            &&& forall|reg: Register|
                reg != Register::RccApb1LEnr ==> #[trigger] run(clock, regs)(reg) == regs(reg)
        }),
{
    let clock = seq![Op::spec_set_bits(Register::RccApb1LEnr, RCC_APB1LENR_I2C1EN)];
    assert(clock =~= Seq::<Op>::empty().push(clock[0]));
    lemma_run_push(Seq::<Op>::empty(), clock[0], regs);
    lemma_set_bits(regs(Register::RccApb1LEnr), RCC_APB1LENR_I2C1EN);
}

/// After bring-up as a plain master the block's bus clock is on, the timing
/// register holds the timing word and the peripheral is on; the other bits
/// of control register 1 are as before. The bus clock is switched on first
/// and the peripheral last.
pub proof fn lemma_begin_brings_block_up(regs: RegisterFile)
    ensures
        ({
            let after = run(begin_plan(), regs);
            &&& begin_plan()[0] == Op::spec_set_bits(Register::RccApb1LEnr, RCC_APB1LENR_I2C1EN)
            &&& begin_plan().last() == Op::spec_set_bits(Register::I2cCr1, I2C_CR1_PE)
            &&& after(Register::RccApb1LEnr) & RCC_APB1LENR_I2C1EN == RCC_APB1LENR_I2C1EN
            &&& after(Register::I2cTimingr) == I2C_TIMING
            &&& after(Register::I2cCr1) & I2C_CR1_PE == I2C_CR1_PE
            &&& after(Register::I2cCr1) & !I2C_CR1_PE == regs(Register::I2cCr1) & !I2C_CR1_PE
        }),
{
    let clock = seq![Op::spec_set_bits(Register::RccApb1LEnr, RCC_APB1LENR_I2C1EN)];
    assert(begin_plan() =~= clock + pins_plan() + enable_plan());
    let r0 = run(clock, regs);
    let r1 = run(pins_plan(), r0);
    lemma_clock_runs(regs);
    lemma_run_concat(clock, pins_plan(), regs);
    lemma_pins_spare_block(r0);
    lemma_run_concat(clock + pins_plan(), enable_plan(), regs);
    lemma_enable_plan_runs(r1);
    lemma_set_bits(regs(Register::I2cCr1), I2C_CR1_PE);
}

/// After bring-up the block's bus clock is on, the timing register holds the
/// timing word, and in control register 1 the peripheral and both interrupts
/// are on and the four flags are as `config` says, whatever they were; its
/// other bits are as before. An own address that `config` gives stands,
/// shifted left by one, in the address field of its register and is
/// enabled; a register whose address `config` does not give is untouched.
/// The bus clock is switched on first and the peripheral last.
pub proof fn lemma_configure_brings_block_up(config: I2CConfig, regs: RegisterFile)
    ensures
        ({
            let plan = configure_plan_for(config);
            let after = run(plan, regs);
            let cr1 = after(Register::I2cCr1);
            let oar1 = after(Register::I2cOar1);
            let oar2 = after(Register::I2cOar2);
            &&& plan[0] == Op::spec_set_bits(Register::RccApb1LEnr, RCC_APB1LENR_I2C1EN)
            &&& plan.last() == Op::spec_set_bits(Register::I2cCr1, I2C_CR1_PE)
            &&& after(Register::RccApb1LEnr) & RCC_APB1LENR_I2C1EN == RCC_APB1LENR_I2C1EN
            &&& after(Register::I2cTimingr) == I2C_TIMING
            &&& flag_is(cr1, I2C_CR1_PE, true)
            &&& flag_is(cr1, I2C_CR1_FMP, config.fast_mode_plus_en)
            &&& flag_is(cr1, I2C_CR1_NOSTRETCH, config.enable_nostretch)
            &&& flag_is(cr1, I2C_CR1_SBC, config.enable_slave_byte_control)
            &&& flag_is(cr1, I2C_CR1_ANFOFF, config.disable_analog_noise_filter)
            &&& flag_is(cr1, I2C_CR1_ADDRIE, true)
            &&& flag_is(cr1, I2C_CR1_RXIE, true)
            &&& cr1 & !0x0103100Du32 == regs(Register::I2cCr1) & !0x0103100Du32
            &&& match config.primary_address {
                Some(a) => {
                    &&& field(oar1, 0, 10) == ((a as u32) << 1u32) & 0x3FF
                    &&& oar1 & I2C_OAR_EN == I2C_OAR_EN
                    &&& oar1 & !0x83FFu32 == regs(Register::I2cOar1) & !0x83FFu32
                },
                None => oar1 == regs(Register::I2cOar1),
            }
            &&& match config.secondary_address {
                Some(a) => {
                    &&& field(oar2, 1, 7) == ((a as u32) << 1u32) & 0x7F
                    &&& oar2 & I2C_OAR_EN == I2C_OAR_EN
                    &&& oar2 & !0x80FEu32 == regs(Register::I2cOar2) & !0x80FEu32
                },
                None => oar2 == regs(Register::I2cOar2),
            }
        }),
{
    let clock = seq![Op::spec_set_bits(Register::RccApb1LEnr, RCC_APB1LENR_I2C1EN)];
    let plan = configure_plan_for(config);
    assert(plan =~= clock + pins_plan() + registers_plan(config) + enable_plan());
    let r0 = run(clock, regs);
    let r1 = run(pins_plan(), r0);
    let r2 = run(registers_plan(config), r1);
    lemma_clock_runs(regs);
    lemma_run_concat(clock, pins_plan(), regs);
    lemma_pins_spare_block(r0);
    lemma_run_concat(clock + pins_plan(), registers_plan(config), regs);
    lemma_registers_follow_config(config, r1);
    lemma_run_concat(clock + pins_plan() + registers_plan(config), enable_plan(), regs);
    lemma_enable_plan_runs(r2);
    lemma_enable_keeps_flags(regs(Register::I2cCr1), r2(Register::I2cCr1));
}

impl I2C {
    /// The steps that bring the block up as `config` says.
    pub fn configure(config: &I2CConfig) -> (plan: Vec<Op>)
        ensures
            plan@ == configure_plan_for(*config),
    {
        let mut plan: Vec<Op> = Vec::new();
        plan.push(Self::enable_rcc_clock());
        let pins: Vec<Op> = Self::configure_pins();
        extend(&mut plan, &pins);
        let registers: Vec<Op> = Self::configure_registers(config);
        extend(&mut plan, &registers);
        plan.push(Self::set_timingr());
        plan.push(Self::enable_peripheral());
        assert(plan@ =~= configure_plan_for(*config));
        plan
    }

    /// The steps that bring the block up as a plain master.
    pub fn begin() -> (plan: Vec<Op>)
        ensures
            plan@ == begin_plan(),
    {
        let mut plan: Vec<Op> = Vec::new();
        plan.push(Self::enable_rcc_clock());
        let pins: Vec<Op> = Self::configure_pins();
        extend(&mut plan, &pins);
        plan.push(Self::set_timingr());
        plan.push(Self::enable_peripheral());
        assert(plan@ =~= begin_plan());
        plan
    }

    /// The step that switches the peripheral on.
    pub fn enable_peripheral() -> (op: Op)
        ensures
            op == Op::spec_set_bits(Register::I2cCr1, I2C_CR1_PE),
    {
        Op::set_bits(Register::I2cCr1, I2C_CR1_PE)
    }

    /// The step that switches the peripheral off.
    pub fn disable_peripheral() -> (op: Op)
        ensures
            op == Op::spec_clear_bits(Register::I2cCr1, I2C_CR1_PE),
    {
        Op::clear_bits(Register::I2cCr1, I2C_CR1_PE)
    }

    /// The step that switches on the block's bus clock.
    pub fn enable_rcc_clock() -> (op: Op)
        ensures
            op == Op::spec_set_bits(Register::RccApb1LEnr, RCC_APB1LENR_I2C1EN),
    {
        Op::set_bits(Register::RccApb1LEnr, RCC_APB1LENR_I2C1EN)
    }
}

} // verus!
