use crate::bus::{extend, Op, Register};
use crate::drivers::gpio::acts::configure_plan;
use crate::drivers::gpio::clock_enable_op;
use crate::drivers::gpio::config::{GpioConfig, MODER, OSPEEDR, OTYPER, PUPDR};
use crate::drivers::gpio::{Gpio, GPIOPORT};
use crate::drivers::uart::{println_plan, Serial};
use vstd::prelude::*;

verus! {

/// Control register: converter enable.
pub const ADC_CR_ADEN: u32 = 0x00000001;

/// Control register: start of a regular conversion.
pub const ADC_CR_ADSTART: u32 = 0x00000004;

/// Control register: voltage regulator enable.
pub const ADC_CR_ADVREGEN: u32 = 0x10000000;

/// Control register: deep power down.
pub const ADC_CR_DEEPPWD: u32 = 0x20000000;

/// Control register: calibration running.
pub const ADC_CR_ADCAL: u32 = 0x80000000;

/// Status register: converter ready.
pub const ADC_ISR_ADRDY: u32 = 0x00000001;

/// Status register: end of conversion.
pub const ADC_ISR_EOC: u32 = 0x00000004;

/// Enable bit of the converters in the AHB2 clock-enable register.
pub const RCC_AHB2ENR_ADCEN: u32 = 0x00000400;

/// Kernel clock selection: the field for converters, and its value for the
/// external oscillator.
pub const RCC_CCIPR5_ADCDACSEL: u32 = 0x00000007;

pub const RCC_CCIPR5_ADCDACSEL_HSE: u32 = 0x00000003;

/// Regular sequence register 1: the field of the first conversion, and
/// channel 5 in it.
pub const ADC_SQR1_SQ1: u32 = 0x000007C0;

pub const ADC_SQR1_SQ1_CHANNEL5: u32 = 0x00000140;

/// Sample time register 1: the field of channel 5, and sample time 4 in it.
pub const ADC_SMPR1_SMP5: u32 = 0x00038000;

pub const ADC_SMPR1_SMP5_TIME4: u32 = 0x00020000;

/// Idle cycles for the voltage regulator to start.
pub const REGULATOR_STARTUP: u32 = 59;

/// The input pin: pin 1 of bank B.
pub open spec fn adc_pin() -> Gpio {
    Gpio { port: GPIOPORT::GPIOB, pin: 1 }
}

/// The input pin is analog.
pub open spec fn adc_pin_config() -> GpioConfig {
    GpioConfig {
        moder: MODER::Analog,
        otyper: OTYPER::PushPull,
        ospeedr: OSPEEDR::MediumSpeed,
        pupdr: PUPDR::NoPull,
        alt_func_select: None,
    }
}

/// The input pin configured, its bank's bus clock first.
pub open spec fn pin_plan() -> Seq<Op> {
    seq![clock_enable_op(adc_pin().port)] + configure_plan(
        adc_pin().port,
        adc_pin().pin,
        adc_pin_config(),
    )
}

/// The converters' kernel clock taken from the external oscillator, then
/// their bus clock on.
pub open spec fn clock_plan() -> Seq<Op> {
    seq![
        Op::Modify {
            reg: Register::RccCcipr5,
            clear: RCC_CCIPR5_ADCDACSEL,
            set: RCC_CCIPR5_ADCDACSEL_HSE,
        },
        Op::spec_set_bits(Register::RccAhb2Enr, RCC_AHB2ENR_ADCEN),
    ]
}

/// Out of deep power down, regulator on, and the regulator's start-up pause.
pub open spec fn power_plan() -> Seq<Op> {
    seq![
        Op::spec_clear_bits(Register::AdcCr, ADC_CR_DEEPPWD),
        Op::spec_set_bits(Register::AdcCr, ADC_CR_ADVREGEN),
        Op::Delay { cycles: REGULATOR_STARTUP },
    ]
}

/// Channel 5 as the first conversion of the sequence, with sample time 4.
pub open spec fn channel_plan() -> Seq<Op> {
    seq![
        Op::Modify { reg: Register::AdcSqr1, clear: ADC_SQR1_SQ1, set: ADC_SQR1_SQ1_CHANNEL5 },
        Op::Modify { reg: Register::AdcSmpr1, clear: ADC_SMPR1_SMP5, set: ADC_SMPR1_SMP5_TIME4 },
    ]
}

/// Calibration started, and the wait for its end.
pub open spec fn calibration_plan() -> Seq<Op> {
    seq![
        Op::spec_set_bits(Register::AdcCr, ADC_CR_ADCAL),
        Op::WaitClear { reg: Register::AdcCr, mask: ADC_CR_ADCAL },
    ]
}

/// Converter on, and the wait until it is ready.
pub open spec fn enable_plan() -> Seq<Op> {
    seq![
        Op::spec_set_bits(Register::AdcCr, ADC_CR_ADEN),
        Op::WaitSet { reg: Register::AdcIsr, mask: ADC_ISR_ADRDY },
    ]
}

/// Bring-up of the first converter for channel 5. After each stage a line
/// goes out over the serial port that says how far bring-up has come: pin;
/// clocks; power; channel; calibration; converter on.
pub open spec fn adc1_configure_plan() -> Seq<Op> {
    pin_plan() + println_plan("adc gpio configured") + clock_plan() + println_plan(
        "adc rcc clock enabled",
    ) + power_plan() + println_plan("adc voltage regulator enabled") + channel_plan()
        + println_plan("adc peripheral configured") + calibration_plan() + println_plan(
        "adc calibrated",
    ) + enable_plan() + println_plan("adc ready!")
}

/// One conversion: start it, wait for its end.
pub open spec fn adc1_conversion_plan() -> Seq<Op> {
    seq![
        Op::spec_set_bits(Register::AdcCr, ADC_CR_ADSTART),
        Op::WaitSet { reg: Register::AdcIsr, mask: ADC_ISR_EOC },
    ]
}

/// The steps that bring the first converter up.
pub fn adc1_test_configure() -> (plan: Vec<Op>)
    ensures
        plan@ == adc1_configure_plan(),
{
    let pin: Gpio = Gpio::new(GPIOPORT::GPIOB, 1);
    let mut plan: Vec<Op> = pin.configure(
        GpioConfig {
            moder: MODER::Analog,
            otyper: OTYPER::PushPull,
            ospeedr: OSPEEDR::MediumSpeed,
            pupdr: PUPDR::NoPull,
            alt_func_select: None,
        },
    );
    say(&mut plan, "adc gpio configured");
    plan.push(
        Op::Modify {
            reg: Register::RccCcipr5,
            clear: RCC_CCIPR5_ADCDACSEL,
            set: RCC_CCIPR5_ADCDACSEL_HSE,
        },
    );
    plan.push(Op::set_bits(Register::RccAhb2Enr, RCC_AHB2ENR_ADCEN));
    assert(plan@ =~= pin_plan() + println_plan("adc gpio configured") + clock_plan());
    say(&mut plan, "adc rcc clock enabled");
    let ghost clocked = plan@;
    plan.push(Op::clear_bits(Register::AdcCr, ADC_CR_DEEPPWD));
    plan.push(Op::set_bits(Register::AdcCr, ADC_CR_ADVREGEN));
    plan.push(Op::Delay { cycles: REGULATOR_STARTUP });
    assert(plan@ =~= clocked + power_plan());
    say(&mut plan, "adc voltage regulator enabled");
    let ghost powered = plan@;
    plan.push(
        Op::Modify { reg: Register::AdcSqr1, clear: ADC_SQR1_SQ1, set: ADC_SQR1_SQ1_CHANNEL5 },
    );
    plan.push(
        Op::Modify { reg: Register::AdcSmpr1, clear: ADC_SMPR1_SMP5, set: ADC_SMPR1_SMP5_TIME4 },
    );
    assert(plan@ =~= powered + channel_plan());
    say(&mut plan, "adc peripheral configured");
    let ghost programmed = plan@;
    plan.push(Op::set_bits(Register::AdcCr, ADC_CR_ADCAL));
    plan.push(Op::WaitClear { reg: Register::AdcCr, mask: ADC_CR_ADCAL });
    assert(plan@ =~= programmed + calibration_plan());
    say(&mut plan, "adc calibrated");
    let ghost calibrated = plan@;
    plan.push(Op::set_bits(Register::AdcCr, ADC_CR_ADEN));
    plan.push(Op::WaitSet { reg: Register::AdcIsr, mask: ADC_ISR_ADRDY });
    assert(plan@ =~= calibrated + enable_plan());
    say(&mut plan, "adc ready!");
    plan
}

/// Appends the steps that send `line` and the end of a line.
fn say(plan: &mut Vec<Op>, line: &str)
    ensures
        final(plan)@ == old(plan)@ + println_plan(line),
{
    let steps: Vec<Op> = Serial::println(line);
    extend(plan, &steps);
}

/// The steps of one conversion, and the register that holds the value once
/// they are done.
pub fn adc1_get_value() -> (conversion: (Vec<Op>, Register))
    ensures
        conversion.0@ == adc1_conversion_plan(),
        conversion.1 == Register::AdcDr,
{
    let mut plan: Vec<Op> = Vec::new();
    plan.push(Op::set_bits(Register::AdcCr, ADC_CR_ADSTART));
    plan.push(Op::WaitSet { reg: Register::AdcIsr, mask: ADC_ISR_EOC });
    (plan, Register::AdcDr)
}

} // verus!
