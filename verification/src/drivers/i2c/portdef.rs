use crate::bus::{extend, lemma_run_concat, run, Op, Register, RegisterFile};
use crate::drivers::gpio::acts::configure_plan;
use crate::drivers::gpio::{clock_enable_op, lemma_configure_pin};
use crate::drivers::gpio::config::{GpioConfig, MODER, OSPEEDR, OTYPER, PUPDR};
use crate::drivers::gpio::{Gpio, GPIOPORT};
use crate::drivers::i2c::I2C;
use vstd::prelude::*;

verus! {

/// Data line: pin 7 of bank B.
pub open spec fn spec_pb7_i2c1_sda() -> Gpio {
    Gpio { port: GPIOPORT::GPIOB, pin: 7 }
}

/// Clock line: pin 8 of bank B.
pub open spec fn spec_pb8_i2c1_scl() -> Gpio {
    Gpio { port: GPIOPORT::GPIOB, pin: 8 }
}

/// Both lines are open-drain pins with pull-up on alternate function 4.
pub open spec fn spec_type_i2c1_port() -> GpioConfig {
    GpioConfig {
        moder: MODER::Alternate,
        otyper: OTYPER::OpenDrain,
        ospeedr: OSPEEDR::VeryHighSpeed,
        pupdr: PUPDR::PullUp,
        alt_func_select: Some(4),
    }
}

#[verifier::when_used_as_spec(spec_pb7_i2c1_sda)]
pub fn pb7_i2c1_sda() -> (pin: Gpio)
    ensures
        pin == spec_pb7_i2c1_sda(),
{
    Gpio::new(GPIOPORT::GPIOB, 7)
}

#[verifier::when_used_as_spec(spec_pb8_i2c1_scl)]
pub fn pb8_i2c1_scl() -> (pin: Gpio)
    ensures
        pin == spec_pb8_i2c1_scl(),
{
    Gpio::new(GPIOPORT::GPIOB, 8)
}

#[verifier::when_used_as_spec(spec_type_i2c1_port)]
pub fn type_i2c1_port() -> (config: GpioConfig)
    ensures
        config == spec_type_i2c1_port(),
{
    GpioConfig {
        moder: MODER::Alternate,
        otyper: OTYPER::OpenDrain,
        ospeedr: OSPEEDR::VeryHighSpeed,
        pupdr: PUPDR::PullUp,
        alt_func_select: Some(4),
    }
}

/// Both lines configured, each with its bank's bus clock first: data line,
/// then clock line.
pub open spec fn pins_plan() -> Seq<Op> {
    seq![clock_enable_op(pb7_i2c1_sda().port)] + configure_plan(
        pb7_i2c1_sda().port,
        pb7_i2c1_sda().pin,
        type_i2c1_port(),
    ) + seq![clock_enable_op(pb8_i2c1_scl().port)] + configure_plan(
        pb8_i2c1_scl().port,
        pb8_i2c1_scl().pin,
        type_i2c1_port(),
    )
}

/// The two pins' configuration stores into no register of the block and not
/// into the block's clock-enable register.
pub proof fn lemma_pins_spare_block(regs: RegisterFile)
    ensures
        run(pins_plan(), regs)(Register::I2cCr1) == regs(Register::I2cCr1),
        run(pins_plan(), regs)(Register::I2cCr2) == regs(Register::I2cCr2),
        run(pins_plan(), regs)(Register::I2cOar1) == regs(Register::I2cOar1),
        run(pins_plan(), regs)(Register::I2cOar2) == regs(Register::I2cOar2),
        run(pins_plan(), regs)(Register::I2cTimingr) == regs(Register::I2cTimingr),
        run(pins_plan(), regs)(Register::RccApb1LEnr) == regs(Register::RccApb1LEnr),
{
    let first = seq![clock_enable_op(pb7_i2c1_sda().port)] + configure_plan(
        pb7_i2c1_sda().port,
        pb7_i2c1_sda().pin,
        type_i2c1_port(),
    );
    let second = seq![clock_enable_op(pb8_i2c1_scl().port)] + configure_plan(
        pb8_i2c1_scl().port,
        pb8_i2c1_scl().pin,
        type_i2c1_port(),
    );
    assert(pins_plan() =~= first + second);
    lemma_configure_pin(pb7_i2c1_sda(), type_i2c1_port(), regs);
    lemma_configure_pin(pb8_i2c1_scl(), type_i2c1_port(), run(first, regs));
    lemma_run_concat(first, second, regs);
}

impl I2C {
    /// The steps that configure the data and the clock line.
    pub fn configure_pins() -> (plan: Vec<Op>)
        ensures
            plan@ == pins_plan(),
    {
        let mut plan: Vec<Op> = pb7_i2c1_sda().configure(type_i2c1_port());
        let clock: Vec<Op> = pb8_i2c1_scl().configure(type_i2c1_port());
        extend(&mut plan, &clock);
        plan
    }
}

} // verus!
