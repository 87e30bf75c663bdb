use crate::bits::{
    field, lemma_bit_merged, lemma_field_merged, lemma_field_replaced, lemma_low_masks,
    lemma_merge_keeps_others, lemma_replace_keeps_others, modified,
};
use crate::bus::{lemma_run_push, run, Op, Register, RegisterFile};
use crate::coreutils::Conversions;
use crate::drivers::gpio::config::{GpioConfig, OTYPER};
use crate::drivers::gpio::ports::GPIOPORT;
use vstd::prelude::*;

verus! {

/// The register of `port` and the bit offset in it that hold the
/// alternate-function selector of `pin`: the low register for pins 0 to 7,
/// the high register, counted from pin 8, for the others.
pub open spec fn alternate_function_slot(port: GPIOPORT, pin: u8) -> (Register, u32) {
    if pin <= 7 {
        (Register::GpioAfrl(port), (4 * pin) as u32)
    } else {
        (Register::GpioAfrh(port), (4 * pin - 32) as u32)
    }
}

/// The steps that give pin `pin` of `port` the mode, output type, speed and
/// pull of `config`: each two-bit field is cleared and then set, the output
/// type is or-ed in.
pub open spec fn basic_plan(port: GPIOPORT, pin: u8, config: GpioConfig) -> Seq<Op> {
    let pair: u32 = (2 * pin) as u32;
    seq![
        Op::spec_clear_bits(Register::GpioModer(port), 3u32 << pair),
        Op::spec_set_bits(Register::GpioModer(port), config.moder.encoding() << pair),
        Op::spec_set_bits(Register::GpioOtyper(port), config.otyper.encoding() << (pin as u32)),
        Op::spec_clear_bits(Register::GpioOspeedr(port), 3u32 << pair),
        Op::spec_set_bits(Register::GpioOspeedr(port), config.ospeedr.encoding() << pair),
        Op::spec_clear_bits(Register::GpioPupdr(port), 3u32 << pair),
        Op::spec_set_bits(Register::GpioPupdr(port), config.pupdr.encoding() << pair),
    ]
}

/// The whole configuration of a pin: `basic_plan`, then the
/// alternate-function selector, where `config` has one, or-ed into its slot.
pub open spec fn configure_plan(port: GPIOPORT, pin: u8, config: GpioConfig) -> Seq<Op> {
    match config.alt_func_select {
        Some(selector) => basic_plan(port, pin, config).push(
            Op::spec_set_bits(
                alternate_function_slot(port, pin).0,
                (selector as u32) << alternate_function_slot(port, pin).1,
            ),
        ),
        None => basic_plan(port, pin, config),
    }
}

/// The single store that drives a pin: its set bit for high, its reset bit,
/// sixteen places up, for low.
pub open spec fn set_op(port: GPIOPORT, pin: u8, state: bool) -> Op {
    if state {
        Op::Write { reg: Register::GpioBsrr(port), value: 1u32 << (pin as u32) }
    } else {
        Op::Write { reg: Register::GpioBsrr(port), value: 1u32 << ((pin as u32 + 16) as u32) }
    }
}

/// Whether bit `pin` of the input-data word is set.
pub open spec fn level_of(pin: u8, input_data: u32) -> bool {
    input_data & (1u32 << (pin as u32)) > 0
}

/// The registers of `port` that configuring one of its pins may store into.
pub open spec fn is_configuration_register(port: GPIOPORT, reg: Register) -> bool {
    ||| reg == Register::GpioModer(port)
    ||| reg == Register::GpioOtyper(port)
    ||| reg == Register::GpioOspeedr(port)
    ||| reg == Register::GpioPupdr(port)
    ||| reg == Register::GpioAfrl(port)
    ||| reg == Register::GpioAfrh(port)
}

/// The mode, output-type, speed and pull fields of pin `pin` of `port`, in
/// this order, as the register file `regs` holds them.
pub open spec fn pin_state(regs: RegisterFile, port: GPIOPORT, pin: u8) -> (u32, u32, u32, u32) {
    (
        field(regs(Register::GpioModer(port)), (2 * pin) as u32, 2),
        field(regs(Register::GpioOtyper(port)), pin as u32, 1),
        field(regs(Register::GpioOspeedr(port)), (2 * pin) as u32, 2),
        field(regs(Register::GpioPupdr(port)), (2 * pin) as u32, 2),
    )
}

/// What the mode, type, speed and pull registers of `port` hold after `basic_plan`.
proof fn lemma_basic_plan_runs(port: GPIOPORT, pin: u8, config: GpioConfig, regs: RegisterFile)
    ensures
        ({
            let pair: u32 = (2 * pin) as u32;
            let after = run(basic_plan(port, pin, config), regs);
            &&& after(Register::GpioModer(port)) == modified(
                modified(regs(Register::GpioModer(port)), 3u32 << pair, 0),
                0,
                config.moder.encoding() << pair,
            )
            &&& after(Register::GpioOtyper(port)) == modified(
                regs(Register::GpioOtyper(port)),
                0,
                config.otyper.encoding() << (pin as u32),
            )
            &&& after(Register::GpioOspeedr(port)) == modified(
                modified(regs(Register::GpioOspeedr(port)), 3u32 << pair, 0),
                0,
                config.ospeedr.encoding() << pair,
            )
            &&& after(Register::GpioPupdr(port)) == modified(
                modified(regs(Register::GpioPupdr(port)), 3u32 << pair, 0),
                0,
                config.pupdr.encoding() << pair,
            )
            &&& forall|reg: Register|
                reg != Register::GpioModer(port) && reg != Register::GpioOtyper(port) && reg
                    != Register::GpioOspeedr(port) && reg != Register::GpioPupdr(port)
                    ==> #[trigger] after(reg) == regs(reg)
        }),
{
    let plan = basic_plan(port, pin, config);
    let p0 = Seq::<Op>::empty();
    let p1 = p0.push(plan[0]);
    let p2 = p1.push(plan[1]);
    let p3 = p2.push(plan[2]);
    let p4 = p3.push(plan[3]);
    let p5 = p4.push(plan[4]);
    let p6 = p5.push(plan[5]);
    let p7 = p6.push(plan[6]);
    assert(p7 =~= plan);
    lemma_run_push(p0, plan[0], regs);
    lemma_run_push(p1, plan[1], regs);
    lemma_run_push(p2, plan[2], regs);
    lemma_run_push(p3, plan[3], regs);
    lemma_run_push(p4, plan[4], regs);
    lemma_run_push(p5, plan[5], regs);
    lemma_run_push(p6, plan[6], regs);
}

/// After a pin is configured, its mode, speed and pull fields hold the
/// encodings of `config`, its output-type bit holds the old bit or-ed with the
/// encoding, the fields of every other pin are as before, and so is every
/// register but the configuration registers of the pin's bank. The
/// output-type bit holds the encoding itself exactly where the bit was clear
/// or `config` asks for open drain: push-pull does not take a set bit back.
pub proof fn lemma_configure_programs_pin(
    port: GPIOPORT,
    pin: u8,
    config: GpioConfig,
    regs: RegisterFile,
)
    requires
        pin < 16,
        config.is_valid(),
    ensures
        ({
            let after = run(configure_plan(port, pin, config), regs);
            let pair: u32 = (2 * pin) as u32;
            &&& field(after(Register::GpioModer(port)), pair, 2) == config.moder.encoding()
            &&& field(after(Register::GpioOspeedr(port)), pair, 2) == config.ospeedr.encoding()
            &&& field(after(Register::GpioPupdr(port)), pair, 2) == config.pupdr.encoding()
            &&& field(after(Register::GpioOtyper(port)), pin as u32, 1) == field(
                regs(Register::GpioOtyper(port)),
                pin as u32,
                1,
            ) | config.otyper.encoding()
            &&& field(after(Register::GpioOtyper(port)), pin as u32, 1)
                == config.otyper.encoding() <==> field(
                regs(Register::GpioOtyper(port)),
                pin as u32,
                1,
            ) == 0 || config.otyper == OTYPER::OpenDrain
            &&& forall|other: u8|
                other < 16 && other != pin ==> #[trigger] pin_state(after, port, other)
                    == pin_state(regs, port, other)
            &&& forall|reg: Register|
                !is_configuration_register(port, reg) ==> #[trigger] after(reg) == regs(reg)
        }),
{
    let pair: u32 = (2 * pin) as u32;
    let basic = basic_plan(port, pin, config);
    let middle = run(basic, regs);
    lemma_basic_plan_runs(port, pin, config, regs);
    match config.alt_func_select {
        Some(selector) => {
            lemma_run_push(basic, configure_plan(port, pin, config).last(), regs);
        },
        None => {},
    }
    let after = run(configure_plan(port, pin, config), regs);
    assert(after(Register::GpioModer(port)) == middle(Register::GpioModer(port)));
    assert(after(Register::GpioOtyper(port)) == middle(Register::GpioOtyper(port)));
    assert(after(Register::GpioOspeedr(port)) == middle(Register::GpioOspeedr(port)));
    assert(after(Register::GpioPupdr(port)) == middle(Register::GpioPupdr(port)));
    lemma_low_masks();
    let m0 = regs(Register::GpioModer(port));
    let t0 = regs(Register::GpioOtyper(port));
    let s0 = regs(Register::GpioOspeedr(port));
    let u0 = regs(Register::GpioPupdr(port));
    lemma_field_replaced(m0, pair, 2, config.moder.encoding());
    lemma_field_replaced(s0, pair, 2, config.ospeedr.encoding());
    lemma_field_replaced(u0, pair, 2, config.pupdr.encoding());
    lemma_field_merged(t0, pin as u32, 1, config.otyper.encoding());
    lemma_bit_merged(t0, pin as u32, config.otyper.encoding());
    assert forall|other: u8| other < 16 && other != pin implies #[trigger] pin_state(
        after,
        port,
        other,
    ) == pin_state(regs, port, other) by {
        let there: u32 = (2 * other) as u32;
        lemma_replace_keeps_others(m0, pair, 2, config.moder.encoding(), there, 2);
        lemma_replace_keeps_others(s0, pair, 2, config.ospeedr.encoding(), there, 2);
        lemma_replace_keeps_others(u0, pair, 2, config.pupdr.encoding(), there, 2);
        lemma_merge_keeps_others(t0, pin as u32, 1, config.otyper.encoding(), other as u32, 1);
    }
}

/// After a pin is configured with an alternate-function selector, the pin's
/// four-bit slot holds the old content or-ed with the selector: at offset
/// `4 * pin` of the low register for pins up to 7, at offset `4 * pin - 32`
/// of the high register for the others. The slots of the other pins are as
/// before. Over a slot that was clear, the slot holds the selector itself.
pub proof fn lemma_configure_selects_function(
    port: GPIOPORT,
    pin: u8,
    config: GpioConfig,
    regs: RegisterFile,
)
    requires
        pin < 16,
        config.is_valid(),
        config.alt_func_select is Some,
    ensures
        ({
            let after = run(configure_plan(port, pin, config), regs);
            let selector: u32 = config.alt_func_select->0 as u32;
            let (reg, offset) = alternate_function_slot(port, pin);
            &&& field(after(reg), offset, 4) == field(regs(reg), offset, 4) | selector
            &&& field(regs(reg), offset, 4) == 0 ==> field(after(reg), offset, 4) == selector
            &&& forall|other: u8|
                other < 16 && other != pin ==> field(
                    #[trigger] after(alternate_function_slot(port, other).0),
                    alternate_function_slot(port, other).1,
                    4,
                ) == field(
                    regs(alternate_function_slot(port, other).0),
                    alternate_function_slot(port, other).1,
                    4,
                )
        }),
{
    let selector: u32 = config.alt_func_select->0 as u32;
    let (reg, offset) = alternate_function_slot(port, pin);
    let basic = basic_plan(port, pin, config);
    lemma_basic_plan_runs(port, pin, config, regs);
    lemma_run_push(basic, configure_plan(port, pin, config).last(), regs);
    let after = run(configure_plan(port, pin, config), regs);
    lemma_low_masks();
    assert(after(reg) == modified(regs(reg), 0, selector << offset));
    lemma_field_merged(regs(reg), offset, 4, selector);
    assert(0u32 | selector == selector) by (bit_vector);
    assert forall|other: u8| other < 16 && other != pin implies field(
        #[trigger] after(alternate_function_slot(port, other).0),
        alternate_function_slot(port, other).1,
        4,
    ) == field(
        regs(alternate_function_slot(port, other).0),
        alternate_function_slot(port, other).1,
        4,
    ) by {
        let (other_reg, other_offset) = alternate_function_slot(port, other);
        if other_reg == reg {
            lemma_merge_keeps_others(regs(reg), offset, 4, selector, other_offset, 4);
        }
    }
}

/// Driving a pin reads no register and stores into the set/reset register
/// of the bank alone: bit `pin` for high, bit `pin + 16` for low. Every
/// other register, the input and output data registers among them, is as
/// before.
pub proof fn lemma_set_is_one_store(port: GPIOPORT, pin: u8, state: bool, regs: RegisterFile)
    requires
        pin < 16,
    ensures
        set_op(port, pin, state).spec_source() is None,
        set_op(port, pin, state).spec_target() == Some(Register::GpioBsrr(port)),
        set_op(port, pin, state).effect(regs)(Register::GpioBsrr(port)) == if state {
            1u32 << (pin as u32)
        } else {
            1u32 << ((pin as u32 + 16) as u32)
        },
        forall|reg: Register|
            reg != Register::GpioBsrr(port) ==> #[trigger] set_op(port, pin, state).effect(regs)(
                reg,
            ) == regs(reg),
{
}

/// A GPIO bank, seen as something that pins can be configured, driven and
/// read on.
pub trait ModifiableGpioBus {
    /// The bank whose registers the operations address.
    spec fn bank(&self) -> GPIOPORT;

    /// The steps that configure pin `pin_number` as `gpio_config` says.
    fn configure_into(&self, pin_number: u8, gpio_config: GpioConfig) -> (plan: Vec<Op>)
        requires
            pin_number < 16,
            gpio_config.is_valid(),
        ensures
            plan@ == configure_plan(self.bank(), pin_number, gpio_config),
    ;

    /// The step that drives pin `pin_number` high or low.
    fn set_into(&self, pin_number: u8, state: bool) -> (op: Op)
        requires
            pin_number < 16,
        ensures
            op == set_op(self.bank(), pin_number, state),
    ;

    /// The register to read for the level of a pin of this bank.
    fn input_register(&self) -> (reg: Register)
        ensures
            reg == Register::GpioIdr(self.bank()),
    ;

    /// The level of pin `pin_number`, given the word read from `input_register`.
    fn read_into(&self, pin_number: u8, input_data: u32) -> (level: bool)
        requires
            pin_number < 16,
        ensures
            level == level_of(pin_number, input_data),
    ;
}

impl ModifiableGpioBus for GPIOPORT {
    open spec fn bank(&self) -> GPIOPORT {
        *self
    }

    fn configure_into(&self, pin_number: u8, gpio_config: GpioConfig) -> (plan: Vec<Op>) {
        let port: GPIOPORT = *self;
        let pin: u32 = pin_number as u32;
        let pair: u32 = 2 * pin;
        let mut plan: Vec<Op> = Vec::new();
        plan.push(Op::clear_bits(Register::GpioModer(port), 3u32 << pair));
        plan.push(Op::set_bits(Register::GpioModer(port), gpio_config.moder.as_u32() << pair));
        plan.push(Op::set_bits(Register::GpioOtyper(port), gpio_config.otyper.as_u32() << pin));
        plan.push(Op::clear_bits(Register::GpioOspeedr(port), 3u32 << pair));
        plan.push(Op::set_bits(Register::GpioOspeedr(port), gpio_config.ospeedr.as_u32() << pair));
        plan.push(Op::clear_bits(Register::GpioPupdr(port), 3u32 << pair));
        plan.push(Op::set_bits(Register::GpioPupdr(port), gpio_config.pupdr.as_u32() << pair));
        assert(plan@ =~= basic_plan(port, pin_number, gpio_config));
        match gpio_config.alt_func_select {
            Some(selector) => {
                if pin_number <= 7 {
                    plan.push(Op::set_bits(Register::GpioAfrl(port), (selector as u32) << (pin * 4)));
                } else {
                    plan.push(
                        Op::set_bits(Register::GpioAfrh(port), (selector as u32) << (pin * 4 - 32)),
                    );
                }
            },
            None => {},
        }
        plan
    }

    fn set_into(&self, pin_number: u8, state: bool) -> (op: Op) {
        if state {
            Op::Write { reg: Register::GpioBsrr(*self), value: 1u32 << (pin_number as u32) }
        } else {
            Op::Write { reg: Register::GpioBsrr(*self), value: 1u32 << (pin_number as u32 + 16) }
        }
    }

    fn input_register(&self) -> (reg: Register) {
        Register::GpioIdr(*self)
    }

    fn read_into(&self, pin_number: u8, input_data: u32) -> (level: bool) {
        input_data & (1u32 << (pin_number as u32)) > 0
    }
}

/// The steps that configure pin `pin_number` of `port`.
pub fn configure_into_gpio<P: ModifiableGpioBus>(
    port: &P,
    pin_number: u8,
    gpio_config: GpioConfig,
) -> (plan: Vec<Op>)
    requires
        pin_number < 16,
        gpio_config.is_valid(),
    ensures
        plan@ == configure_plan(port.bank(), pin_number, gpio_config),
{
    port.configure_into(pin_number, gpio_config)
}

/// The step that drives pin `pin_number` of `port`.
pub fn set_into_gpio<P: ModifiableGpioBus>(port: &P, pin_number: u8, state: bool) -> (op: Op)
    requires
        pin_number < 16,
    ensures
        op == set_op(port.bank(), pin_number, state),
{
    port.set_into(pin_number, state)
}

/// The level of pin `pin_number`, given the word read from the input-data
/// register of `port`.
pub fn read_into_gpio<P: ModifiableGpioBus>(port: &P, pin_number: u8, input_data: u32) -> (level:
    bool)
    requires
        pin_number < 16,
    ensures
        level == level_of(pin_number, input_data),
{
    port.read_into(pin_number, input_data)
}

} // verus!
