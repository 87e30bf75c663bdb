use crate::bits::{field, modified};
use crate::bus::{lemma_run_concat, lemma_run_push, run, Op, Register, RegisterFile};
use crate::drivers::i2c::{I2CConfig, I2C};
use vstd::prelude::*;

verus! {

/// The timing word for the bus clock and the line frequency in use.
pub const I2C_TIMING: u32 = 0x10707DBC;

/// Control register 1: interrupt on received data.
pub const I2C_CR1_RXIE: u32 = 0x00000004;

/// Control register 1: interrupt on address match.
pub const I2C_CR1_ADDRIE: u32 = 0x00000008;

/// Control register 1: analog noise filter off.
pub const I2C_CR1_ANFOFF: u32 = 0x00001000;

/// Control register 1: byte control as target.
pub const I2C_CR1_SBC: u32 = 0x00010000;

/// Control register 1: no clock stretching.
pub const I2C_CR1_NOSTRETCH: u32 = 0x00020000;

/// Control register 1: fast mode plus drive.
pub const I2C_CR1_FMP: u32 = 0x01000000;

/// Own address registers: address enable.
pub const I2C_OAR_EN: u32 = 0x00008000;

/// Own address register 1: the address field, ten bits at bit 0.
pub const I2C_OAR1_OA1: u32 = 0x000003FF;

/// Own address register 2: the address field, seven bits at bit 1.
pub const I2C_OAR2_OA2: u32 = 0x000000FE;

/// Control register 1: the four flags of the configuration and the two
/// interrupts that bring-up programs.
pub const I2C_CR1_PROGRAMMED: u32 = 0x0103100C;

/// The step that gives the one-bit field `bit` of `reg` the value `on`.
pub open spec fn flag_op(reg: Register, bit: u32, on: bool) -> Op {
    Op::Modify {
        reg,
        clear: bit,
        set: if on {
            bit
        } else {
            0
        },
    }
}

/// Own address 1: the address, shifted left by one, goes into the ten-bit
/// field at bit 0; then the address is enabled.
pub open spec fn primary_plan(address: Option<u16>) -> Seq<Op> {
    match address {
        Some(a) => seq![
            Op::Modify {
                reg: Register::I2cOar1,
                clear: I2C_OAR1_OA1,
                set: ((a as u32) << 1u32) & 0x3FF,
            },
            Op::spec_set_bits(Register::I2cOar1, I2C_OAR_EN),
        ],
        None => Seq::empty(),
    }
}

/// Own address 2: the address, shifted left by one, goes into the seven-bit
/// field at bit 1; then the address is enabled.
pub open spec fn secondary_plan(address: Option<u8>) -> Seq<Op> {
    match address {
        Some(a) => seq![
            Op::Modify {
                reg: Register::I2cOar2,
                clear: I2C_OAR2_OA2,
                set: (((a as u32) << 1u32) & 0x7F) << 1u32,
            },
            Op::spec_set_bits(Register::I2cOar2, I2C_OAR_EN),
        ],
        None => Seq::empty(),
    }
}

/// The four control flags of `config`, then both interrupts.
pub open spec fn flags_plan(config: I2CConfig) -> Seq<Op> {
    seq![
        flag_op(Register::I2cCr1, I2C_CR1_FMP, config.fast_mode_plus_en),
        flag_op(Register::I2cCr1, I2C_CR1_NOSTRETCH, config.enable_nostretch),
        flag_op(Register::I2cCr1, I2C_CR1_SBC, config.enable_slave_byte_control),
        flag_op(Register::I2cCr1, I2C_CR1_ANFOFF, config.disable_analog_noise_filter),
        Op::spec_set_bits(Register::I2cCr1, I2C_CR1_ADDRIE),
        Op::spec_set_bits(Register::I2cCr1, I2C_CR1_RXIE),
    ]
}

/// Own addresses, control flags and interrupts, in this order.
pub open spec fn registers_plan(config: I2CConfig) -> Seq<Op> {
    primary_plan(config.primary_address) + secondary_plan(config.secondary_address) + flags_plan(
        config,
    )
}

/// What a flag, as one-bit field, holds in a control word.
pub open spec fn flag_is(word: u32, bit: u32, on: bool) -> bool {
    word & bit == if on {
        bit
    } else {
        0
    }
}

/// What the six steps on control register 1 leave in it.
proof fn lemma_flags_word(word: u32, fmp: bool, nostretch: bool, sbc: bool, anfoff: bool)
    by (bit_vector)
    ensures
        ({
            let after = modified(
                modified(
                    modified(
                        modified(
                            modified(
                                modified(
                                    word,
                                    I2C_CR1_FMP,
                                    if fmp {
                                        I2C_CR1_FMP
                                    } else {
                                        0
                                    },
                                ),
                                I2C_CR1_NOSTRETCH,
                                if nostretch {
                                    I2C_CR1_NOSTRETCH
                                } else {
                                    0
                                },
                            ),
                            I2C_CR1_SBC,
                            if sbc {
                                I2C_CR1_SBC
                            } else {
                                0
                            },
                        ),
                        I2C_CR1_ANFOFF,
                        if anfoff {
                            I2C_CR1_ANFOFF
                        } else {
                            0
                        },
                    ),
                    0,
                    I2C_CR1_ADDRIE,
                ),
                0,
                I2C_CR1_RXIE,
            );
            &&& flag_is(after, I2C_CR1_FMP, fmp)
            &&& flag_is(after, I2C_CR1_NOSTRETCH, nostretch)
            &&& flag_is(after, I2C_CR1_SBC, sbc)
            &&& flag_is(after, I2C_CR1_ANFOFF, anfoff)
            &&& flag_is(after, I2C_CR1_ADDRIE, true)
            &&& flag_is(after, I2C_CR1_RXIE, true)
            &&& after & !I2C_CR1_PROGRAMMED == word & !I2C_CR1_PROGRAMMED
        }),
{
}

/// What the two steps on an own address register leave in it.
proof fn lemma_own_address_words(word: u32, primary: u16, secondary: u8)
    by (bit_vector)
    ensures
        ({
            let first = modified(
                modified(word, I2C_OAR1_OA1, ((primary as u32) << 1u32) & 0x3FF),
                0,
                I2C_OAR_EN,
            );
            let second = modified(
                modified(word, I2C_OAR2_OA2, (((secondary as u32) << 1u32) & 0x7F) << 1u32),
                0,
                I2C_OAR_EN,
            );
            &&& field(first, 0, 10) == ((primary as u32) << 1u32) & 0x3FF
            &&& first & I2C_OAR_EN == I2C_OAR_EN
            &&& first & !0x83FFu32 == word & !0x83FFu32
            &&& field(second, 1, 7) == ((secondary as u32) << 1u32) & 0x7F
            &&& second & I2C_OAR_EN == I2C_OAR_EN
            &&& second & !0x80FEu32 == word & !0x80FEu32
        }),
{
}

/// After the registers are programmed, the four flags of control register 1
/// are as `config` says, whatever they were, both interrupts are on, and the
/// other bits of the register are as before. An own address that `config`
/// gives stands, shifted left by one, in the address field of its register,
/// and the address is enabled; the other bits of that register are as
/// before. A register whose address `config` does not give is untouched, and
/// so is every register but these three.
pub proof fn lemma_registers_follow_config(config: I2CConfig, regs: RegisterFile)
    ensures
        ({
            let after = run(registers_plan(config), regs);
            let cr1 = after(Register::I2cCr1);
            let oar1 = after(Register::I2cOar1);
            let oar2 = after(Register::I2cOar2);
            &&& flag_is(cr1, I2C_CR1_FMP, config.fast_mode_plus_en)
            &&& flag_is(cr1, I2C_CR1_NOSTRETCH, config.enable_nostretch)
            &&& flag_is(cr1, I2C_CR1_SBC, config.enable_slave_byte_control)
            &&& flag_is(cr1, I2C_CR1_ANFOFF, config.disable_analog_noise_filter)
            &&& flag_is(cr1, I2C_CR1_ADDRIE, true)
            &&& flag_is(cr1, I2C_CR1_RXIE, true)
            &&& cr1 & !I2C_CR1_PROGRAMMED == regs(Register::I2cCr1) & !I2C_CR1_PROGRAMMED
            &&& match config.primary_address {
                Some(a) => {
                    &&& field(oar1, 0, 10) == ((a as u32) << 1u32) & 0x3FF
                    &&& oar1 & I2C_OAR_EN == I2C_OAR_EN
                    &&& oar1 & !0x83FFu32 == regs(Register::I2cOar1) & !0x83FFu32
                },
                None => oar1 == regs(Register::I2cOar1),
            }
            &&& match config.secondary_address {
                Some(a) => {
                    &&& field(oar2, 1, 7) == ((a as u32) << 1u32) & 0x7F
                    &&& oar2 & I2C_OAR_EN == I2C_OAR_EN
                    &&& oar2 & !0x80FEu32 == regs(Register::I2cOar2) & !0x80FEu32
                },
                None => oar2 == regs(Register::I2cOar2),
            }
            &&& forall|reg: Register|
                reg != Register::I2cCr1 && reg != Register::I2cOar1 && reg != Register::I2cOar2
                    ==> #[trigger] after(reg) == regs(reg)
        }),
{
    let first = primary_plan(config.primary_address);
    let second = secondary_plan(config.secondary_address);
    let third = flags_plan(config);
    let none = Seq::<Op>::empty();
    let r1 = run(first, regs);
    let r2 = run(second, r1);
    lemma_run_concat(first, second, regs);
    lemma_run_concat(first + second, third, regs);
    match config.primary_address {
        Some(a) => {
            assert(first =~= none.push(first[0]).push(first[1]));
            lemma_run_push(none, first[0], regs);
            lemma_run_push(none.push(first[0]), first[1], regs);
            lemma_own_address_words(regs(Register::I2cOar1), a, 0);
        },
        None => {},
    }
    match config.secondary_address {
        Some(a) => {
            assert(second =~= none.push(second[0]).push(second[1]));
            lemma_run_push(none, second[0], r1);
            lemma_run_push(none.push(second[0]), second[1], r1);
            lemma_own_address_words(regs(Register::I2cOar2), 0, a);
        },
        None => {},
    }
    let t1 = none.push(third[0]);
    let t2 = t1.push(third[1]);
    let t3 = t2.push(third[2]);
    let t4 = t3.push(third[3]);
    let t5 = t4.push(third[4]);
    assert(t5.push(third[5]) =~= third);
    lemma_run_push(none, third[0], r2);
    lemma_run_push(t1, third[1], r2);
    lemma_run_push(t2, third[2], r2);
    lemma_run_push(t3, third[3], r2);
    lemma_run_push(t4, third[4], r2);
    lemma_run_push(t5, third[5], r2);
    lemma_flags_word(
        regs(Register::I2cCr1),
        config.fast_mode_plus_en,
        config.enable_nostretch,
        config.enable_slave_byte_control,
        config.disable_analog_noise_filter,
    );
}

/// The step that gives the one-bit field `bit` of `reg` the value `on`.
pub fn flag(reg: Register, bit: u32, on: bool) -> (op: Op)
    ensures
        op == flag_op(reg, bit, on),
{
    Op::Modify {
        reg,
        clear: bit,
        set: if on {
            bit
        } else {
            0
        },
    }
}

impl I2C {
    /// The steps that program own addresses, control flags and interrupts.
    pub fn configure_registers(config: &I2CConfig) -> (plan: Vec<Op>)
        ensures
            plan@ == registers_plan(*config),
    {
        let mut plan: Vec<Op> = Vec::new();
        match config.primary_address {
            Some(a) => {
                plan.push(
                    Op::Modify {
                        reg: Register::I2cOar1,
                        clear: I2C_OAR1_OA1,
                        set: ((a as u32) << 1u32) & 0x3FF,
                    },
                );
                plan.push(Op::set_bits(Register::I2cOar1, I2C_OAR_EN));
            },
            None => {},
        }
        assert(plan@ =~= primary_plan(config.primary_address));
        let ghost first = plan@;
        match config.secondary_address {
            Some(a) => {
                plan.push(
                    Op::Modify {
                        reg: Register::I2cOar2,
                        clear: I2C_OAR2_OA2,
                        set: (((a as u32) << 1u32) & 0x7F) << 1u32,
                    },
                );
                plan.push(Op::set_bits(Register::I2cOar2, I2C_OAR_EN));
            },
            None => {},
        }
        assert(plan@ =~= first + secondary_plan(config.secondary_address));
        plan.push(flag(Register::I2cCr1, I2C_CR1_FMP, config.fast_mode_plus_en));
        plan.push(flag(Register::I2cCr1, I2C_CR1_NOSTRETCH, config.enable_nostretch));
        plan.push(flag(Register::I2cCr1, I2C_CR1_SBC, config.enable_slave_byte_control));
        plan.push(flag(Register::I2cCr1, I2C_CR1_ANFOFF, config.disable_analog_noise_filter));
        plan.push(Op::set_bits(Register::I2cCr1, I2C_CR1_ADDRIE));
        plan.push(Op::set_bits(Register::I2cCr1, I2C_CR1_RXIE));
        assert(plan@ =~= registers_plan(*config));
        plan
    }

    /// The step that stores the timing word.
    pub fn set_timingr() -> (op: Op)
        ensures
            op == (Op::Write { reg: Register::I2cTimingr, value: I2C_TIMING }),
    {
        Op::Write { reg: Register::I2cTimingr, value: I2C_TIMING }
    }
}

} // verus!
