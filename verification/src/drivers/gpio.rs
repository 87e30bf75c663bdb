pub mod acts;
pub mod config;
pub mod ports;

use crate::bits::{field, lemma_set_bits};
use crate::bus::{extend, lemma_run_concat, lemma_run_push, run, Op, Register, RegisterFile};
use crate::coreutils::Conversions;
use crate::drivers::gpio::config::OTYPER;
use crate::drivers::gpio::acts::{
    configure_into_gpio, configure_plan, is_configuration_register, lemma_configure_programs_pin,
    level_of, pin_state, read_into_gpio, set_into_gpio, set_op,
};
use vstd::prelude::*;

pub use crate::drivers::gpio::config::GpioConfig;
pub use crate::drivers::gpio::ports::GPIOPORT;

verus! {

/// One pin: a bank and a pin number from 0 to 15.
#[derive(Clone, Copy, Debug, PartialEq, Eq, Structural)]
pub struct Gpio {
    pub port: GPIOPORT,
    pub pin: u8,
}

/// The step that switches on the bus clock of `port`.
pub open spec fn clock_enable_op(port: GPIOPORT) -> Op {
    Op::spec_set_bits(Register::RccAhb2Enr, 1u32 << port.spec_index())
}

/// After the whole configuration of a pin, the bus clock of its bank is on,
/// the pin's mode, speed and pull fields hold the encodings of `config`, its
/// output-type bit holds the old bit or-ed with the encoding, and the fields
/// of every other pin of the bank are as before. Where the output-type bit
/// was clear, or `config` asks for open drain, all four fields hold the
/// encodings of `config`. Nothing else changes but the clock bit and the
/// configuration registers of the bank.
pub proof fn lemma_configure_pin(gpio: Gpio, config: GpioConfig, regs: RegisterFile)
    requires
        gpio.wf(),
        config.is_valid(),
    ensures
        ({
            let plan = seq![clock_enable_op(gpio.port)] + configure_plan(
                gpio.port,
                gpio.pin,
                config,
            );
            let after = run(plan, regs);
            let enable: u32 = 1u32 << gpio.port.spec_index();
            &&& after(Register::RccAhb2Enr) & enable == enable
            &&& after(Register::RccAhb2Enr) & !enable == regs(Register::RccAhb2Enr) & !enable
            &&& pin_state(after, gpio.port, gpio.pin) == (
                config.moder.encoding(),
                field(regs(Register::GpioOtyper(gpio.port)), gpio.pin as u32, 1)
                    | config.otyper.encoding(),
                config.ospeedr.encoding(),
                config.pupdr.encoding(),
            )
            &&& field(regs(Register::GpioOtyper(gpio.port)), gpio.pin as u32, 1) == 0
                || config.otyper == OTYPER::OpenDrain ==> pin_state(after, gpio.port, gpio.pin)
                == (
                config.moder.encoding(),
                config.otyper.encoding(),
                config.ospeedr.encoding(),
                config.pupdr.encoding(),
            )
            &&& forall|other: u8|
                other < 16 && other != gpio.pin ==> #[trigger] pin_state(after, gpio.port, other)
                    == pin_state(regs, gpio.port, other)
            &&& forall|reg: Register|
                reg != Register::RccAhb2Enr && !is_configuration_register(gpio.port, reg)
                    ==> #[trigger] after(reg) == regs(reg)
        }),
{
    let enable = clock_enable_op(gpio.port);
    let fields = configure_plan(gpio.port, gpio.pin, config);
    let clocked = run(seq![enable], regs);
    assert(seq![enable] =~= Seq::<Op>::empty().push(enable));
    lemma_run_push(Seq::<Op>::empty(), enable, regs);
    lemma_set_bits(regs(Register::RccAhb2Enr), 1u32 << gpio.port.spec_index());
    lemma_run_concat(seq![enable], fields, regs);
    lemma_configure_programs_pin(gpio.port, gpio.pin, config, clocked);
    let after = run(fields, clocked);
    assert forall|other: u8| other < 16 && other != gpio.pin implies #[trigger] pin_state(
        after,
        gpio.port,
        other,
    ) == pin_state(regs, gpio.port, other) by {
        assert(pin_state(clocked, gpio.port, other) == pin_state(regs, gpio.port, other));
    }
}

impl Gpio {
    /// Pin numbers run from 0 to 15.
    pub open spec fn wf(&self) -> bool {
        self.pin < 16
    }

    /// Whether the pin number is one of 0 to 15.
    pub fn is_wf(&self) -> (ok: bool)
        ensures
            ok == self.wf(),
    {
        self.pin < 16
    }

    /// The pin `pin` of bank `port`.
    pub fn new(port: GPIOPORT, pin: u8) -> (gpio: Gpio)
        ensures
            gpio.port == port,
            gpio.pin == pin,
    {
        Gpio { port, pin }
    }

    /// The steps that bring the pin into the state `config`: the bank's bus
    /// clock is switched on first, then the pin's fields are programmed.
    pub fn configure(&self, config: GpioConfig) -> (plan: Vec<Op>)
        requires
            self.wf(),
            config.is_valid(),
        ensures
            plan@ == seq![clock_enable_op(self.port)] + configure_plan(self.port, self.pin, config),
    {
        let mut plan: Vec<Op> = Vec::new();
        plan.push(self.enable_in_rcc());
        let fields: Vec<Op> = configure_into_gpio(&self.port, self.pin, config);
        extend(&mut plan, &fields);
        plan
    }

    /// The step that drives the pin high.
    pub fn high(&self) -> (op: Op)
        requires
            self.wf(),
        ensures
            op == set_op(self.port, self.pin, true),
    {
        self.set(true)
    }

    /// The step that drives the pin low.
    pub fn low(&self) -> (op: Op)
        requires
            self.wf(),
        ensures
            op == set_op(self.port, self.pin, false),
    {
        self.set(false)
    }

    /// The step that drives the pin to `value`: one store into the bank's
    /// set/reset register, and nothing else.
    pub fn set(&self, value: bool) -> (op: Op)
        requires
            self.wf(),
        ensures
            op == set_op(self.port, self.pin, value),
    {
        set_into_gpio(&self.port, self.pin, value)
    }

    /// The register to read for the pin's level.
    pub fn input_register(&self) -> (reg: Register)
        ensures
            reg == Register::GpioIdr(self.port),
    {
        Register::GpioIdr(self.port)
    }

    /// The pin's level, given the word read from `input_register`.
    pub fn get(&self, input_data: u32) -> (level: bool)
        requires
            self.wf(),
        ensures
            level == level_of(self.pin, input_data),
    {
        read_into_gpio(&self.port, self.pin, input_data)
    }

    /// The step that switches on the bus clock of the pin's bank.
    pub fn enable_in_rcc(&self) -> (op: Op)
        ensures
            op == clock_enable_op(self.port),
    {
        Op::set_bits(Register::RccAhb2Enr, 1u32 << self.port.index())
    }
}

} // verus!
