use mcu_hal::bus::{Op, Register};
use mcu_hal::coreutils::Conversions;
use mcu_hal::drivers::gpio::acts::{
    configure_into_gpio, read_into_gpio, set_into_gpio, ModifiableGpioBus,
};
use mcu_hal::drivers::gpio::config::{GpioConfig, MODER, OSPEEDR, OTYPER, PUPDR};
use mcu_hal::drivers::gpio::{Gpio, GPIOPORT};
use std::collections::HashMap;

fn replay(plan: &[Op], regs: &mut HashMap<Register, u32>) {
    for op in plan {
        if let Some(reg) = op.target() {
            let current = *regs.get(&reg).unwrap_or(&0);
            regs.insert(reg, op.output(current));
        }
    }
}

fn value(regs: &HashMap<Register, u32>, reg: Register) -> u32 {
    *regs.get(&reg).unwrap_or(&0)
}

fn all_configs() -> Vec<GpioConfig> {
    let mut out = Vec::new();
    for moder in [MODER::Input, MODER::GeneralPurposeOutput, MODER::Alternate, MODER::Analog] {
        for otyper in [OTYPER::PushPull, OTYPER::OpenDrain] {
            for ospeedr in [
                OSPEEDR::LowSpeed,
                OSPEEDR::MediumSpeed,
                OSPEEDR::HighSpeed,
                OSPEEDR::VeryHighSpeed,
            ] {
                for pupdr in [PUPDR::NoPull, PUPDR::PullUp, PUPDR::PullDown] {
                    for alt_func_select in [None, Some(0u8), Some(7), Some(15)] {
                        out.push(GpioConfig { moder, otyper, ospeedr, pupdr, alt_func_select });
                    }
                }
            }
        }
    }
    out
}

#[test]
fn encodings_of_pin_fields() {
    assert_eq!(MODER::Input.as_u32(), 0);
    assert_eq!(MODER::GeneralPurposeOutput.as_u32(), 1);
    assert_eq!(MODER::Alternate.as_u32(), 2);
    assert_eq!(MODER::Analog.as_u32(), 3);
    assert_eq!(OTYPER::PushPull.as_u32(), 0);
    assert_eq!(OTYPER::OpenDrain.as_u32(), 1);
    assert_eq!(OSPEEDR::LowSpeed.as_u32(), 0);
    assert_eq!(OSPEEDR::MediumSpeed.as_u32(), 1);
    assert_eq!(OSPEEDR::HighSpeed.as_u32(), 2);
    assert_eq!(OSPEEDR::VeryHighSpeed.as_u32(), 3);
    assert_eq!(PUPDR::NoPull.as_u32(), 0);
    assert_eq!(PUPDR::PullUp.as_u32(), 1);
    assert_eq!(PUPDR::PullDown.as_u32(), 2);
    assert_eq!(true.as_u32(), 1);
    assert_eq!(false.as_u32(), 0);
}

#[test]
fn configure_plan_is_exact_for_output_pin() {
    let led = Gpio::new(GPIOPORT::GPIOB, 2);
    let plan = led.configure(GpioConfig {
        moder: MODER::GeneralPurposeOutput,
        otyper: OTYPER::PushPull,
        ospeedr: OSPEEDR::LowSpeed,
        pupdr: PUPDR::NoPull,
        alt_func_select: None,
    });
    let b = GPIOPORT::GPIOB;
    assert_eq!(
        plan,
        vec![
            Op::Modify { reg: Register::RccAhb2Enr, clear: 0, set: 0x2 },
            Op::Modify { reg: Register::GpioModer(b), clear: 0x30, set: 0 },
            Op::Modify { reg: Register::GpioModer(b), clear: 0, set: 0x10 },
            Op::Modify { reg: Register::GpioOtyper(b), clear: 0, set: 0 },
            Op::Modify { reg: Register::GpioOspeedr(b), clear: 0x30, set: 0 },
            Op::Modify { reg: Register::GpioOspeedr(b), clear: 0, set: 0 },
            Op::Modify { reg: Register::GpioPupdr(b), clear: 0x30, set: 0 },
            Op::Modify { reg: Register::GpioPupdr(b), clear: 0, set: 0 },
        ]
    );
}

#[test]
fn configure_sets_fields_and_keeps_other_pins() {
    let port = GPIOPORT::GPIOC;
    for pin in 0u8..16 {
        for config in all_configs() {
            let mut regs = HashMap::new();
            regs.insert(Register::GpioModer(port), 0xA5A5_5A5A);
            regs.insert(Register::GpioOspeedr(port), 0xFFFF_FFFF);
            regs.insert(Register::GpioPupdr(port), 0x1234_5678);
            regs.insert(Register::GpioOtyper(port), 0x0000_0F0F & !(1 << pin));
            let before = regs.clone();
            replay(&Gpio::new(port, pin).configure(config), &mut regs);
            let pair = 2 * pin as u32;
            assert_eq!((value(&regs, Register::GpioModer(port)) >> pair) & 3, config.moder.as_u32());
            assert_eq!(
                (value(&regs, Register::GpioOspeedr(port)) >> pair) & 3,
                config.ospeedr.as_u32()
            );
            assert_eq!((value(&regs, Register::GpioPupdr(port)) >> pair) & 3, config.pupdr.as_u32());
            assert_eq!(
                (value(&regs, Register::GpioOtyper(port)) >> pin) & 1,
                config.otyper.as_u32()
            );
            for other in (0u8..16).filter(|o| *o != pin) {
                let there = 2 * other as u32;
                for reg in [
                    Register::GpioModer(port),
                    Register::GpioOspeedr(port),
                    Register::GpioPupdr(port),
                ] {
                    assert_eq!((value(&regs, reg) >> there) & 3, (value(&before, reg) >> there) & 3);
                }
                assert_eq!(
                    (value(&regs, Register::GpioOtyper(port)) >> other) & 1,
                    (value(&before, Register::GpioOtyper(port)) >> other) & 1
                );
            }
        }
    }
}

#[test]
fn output_type_is_ored_in_over_a_set_bit() {
    let port = GPIOPORT::GPIOA;
    let mut regs = HashMap::new();
    regs.insert(Register::GpioOtyper(port), 1 << 3);
    let config = GpioConfig {
        moder: MODER::GeneralPurposeOutput,
        otyper: OTYPER::PushPull,
        ospeedr: OSPEEDR::LowSpeed,
        pupdr: PUPDR::NoPull,
        alt_func_select: None,
    };
    replay(&Gpio::new(port, 3).configure(config), &mut regs);
    assert_eq!(value(&regs, Register::GpioOtyper(port)), 1 << 3);
}

#[test]
fn alternate_function_goes_to_low_or_high_register() {
    let port = GPIOPORT::GPIOA;
    for pin in 0u8..16 {
        for selector in 0u8..16 {
            let config = GpioConfig {
                moder: MODER::Alternate,
                otyper: OTYPER::PushPull,
                ospeedr: OSPEEDR::VeryHighSpeed,
                pupdr: PUPDR::NoPull,
                alt_func_select: Some(selector),
            };
            let mut regs = HashMap::new();
            replay(&Gpio::new(port, pin).configure(config), &mut regs);
            let low = value(&regs, Register::GpioAfrl(port));
            let high = value(&regs, Register::GpioAfrh(port));
            if pin <= 7 {
                assert_eq!(low, (selector as u32) << (4 * pin as u32));
                assert_eq!(high, 0);
            } else {
                assert_eq!(high, (selector as u32) << (4 * pin as u32 - 32));
                assert_eq!(low, 0);
            }
        }
    }
}

#[test]
fn alternate_function_seven_on_pin_nine() {
    let plan = configure_into_gpio(
        &GPIOPORT::GPIOA,
        9,
        GpioConfig {
            moder: MODER::Alternate,
            otyper: OTYPER::PushPull,
            ospeedr: OSPEEDR::VeryHighSpeed,
            pupdr: PUPDR::NoPull,
            alt_func_select: Some(7),
        },
    );
    assert_eq!(plan.len(), 8);
    assert_eq!(
        plan[7],
        Op::Modify { reg: Register::GpioAfrh(GPIOPORT::GPIOA), clear: 0, set: 0x70 }
    );
    assert_eq!(
        plan[1],
        Op::Modify { reg: Register::GpioModer(GPIOPORT::GPIOA), clear: 0, set: 2 << 18 }
    );
}

#[test]
fn no_alternate_function_means_no_store_to_its_registers() {
    let plan = GPIOPORT::GPIOD.configure_into(
        4,
        GpioConfig {
            moder: MODER::Input,
            otyper: OTYPER::PushPull,
            ospeedr: OSPEEDR::LowSpeed,
            pupdr: PUPDR::PullDown,
            alt_func_select: None,
        },
    );
    assert_eq!(plan.len(), 7);
    for op in plan {
        assert_ne!(op.target(), Some(Register::GpioAfrl(GPIOPORT::GPIOD)));
        assert_ne!(op.target(), Some(Register::GpioAfrh(GPIOPORT::GPIOD)));
    }
}

#[test]
fn set_true_then_false_are_single_writes() {
    for pin in 0u8..16 {
        let gpio = Gpio::new(GPIOPORT::GPIOE, pin);
        assert_eq!(
            gpio.set(true),
            Op::Write { reg: Register::GpioBsrr(GPIOPORT::GPIOE), value: 1 << pin }
        );
        assert_eq!(
            gpio.set(false),
            Op::Write { reg: Register::GpioBsrr(GPIOPORT::GPIOE), value: 1 << (pin + 16) }
        );
        assert_eq!(gpio.high(), gpio.set(true));
        assert_eq!(gpio.low(), gpio.set(false));
        assert_eq!(gpio.set(true).source(), None);
    }
    assert_eq!(
        set_into_gpio(&GPIOPORT::GPIOB, 2, true),
        Op::Write { reg: Register::GpioBsrr(GPIOPORT::GPIOB), value: 4 }
    );
}

#[test]
fn get_tests_the_pin_bit_of_the_input_word() {
    let gpio = Gpio::new(GPIOPORT::GPIOH, 15);
    assert_eq!(gpio.input_register(), Register::GpioIdr(GPIOPORT::GPIOH));
    assert!(gpio.get(0x8000));
    assert!(!gpio.get(0x7FFF));
    assert!(read_into_gpio(&GPIOPORT::GPIOA, 0, 1));
    assert!(!read_into_gpio(&GPIOPORT::GPIOA, 0, 0xFFFF_FFFE));
    assert_eq!(GPIOPORT::GPIOI.input_register(), Register::GpioIdr(GPIOPORT::GPIOI));
}

#[test]
fn bank_clock_bits() {
    let banks = [
        GPIOPORT::GPIOA,
        GPIOPORT::GPIOB,
        GPIOPORT::GPIOC,
        GPIOPORT::GPIOD,
        GPIOPORT::GPIOE,
        GPIOPORT::GPIOF,
        GPIOPORT::GPIOG,
        GPIOPORT::GPIOH,
        GPIOPORT::GPIOI,
    ];
    for (i, bank) in banks.iter().enumerate() {
        assert_eq!(bank.index(), i as u32);
        assert_eq!(
            Gpio::new(*bank, 0).enable_in_rcc(),
            Op::Modify { reg: Register::RccAhb2Enr, clear: 0, set: 1 << i }
        );
    }
}

#[test]
fn clock_enable_twice_is_clock_enable_once() {
    let enable = Gpio::new(GPIOPORT::GPIOD, 1).enable_in_rcc();
    for start in [0u32, 0x8, 0xFFFF_FFF7, 0x1234_5678] {
        let mut once = HashMap::new();
        once.insert(Register::RccAhb2Enr, start);
        let mut twice = once.clone();
        replay(&[enable], &mut once);
        replay(&[enable, enable], &mut twice);
        assert_eq!(once, twice);
        assert_eq!(value(&once, Register::RccAhb2Enr), start | 0x8);
    }
}

#[test]
fn config_validity() {
    let mut config = GpioConfig {
        moder: MODER::Alternate,
        otyper: OTYPER::PushPull,
        ospeedr: OSPEEDR::LowSpeed,
        pupdr: PUPDR::NoPull,
        alt_func_select: Some(15),
    };
    assert!(config.is_valid());
    config.alt_func_select = Some(16);
    assert!(!config.is_valid());
    config.alt_func_select = None;
    assert!(config.is_valid());
}
