use mcu_hal::bus::{Op, Register};
use mcu_hal::drivers::adc::{adc1_get_value, adc1_test_configure};
use mcu_hal::drivers::gpio::config::{GpioConfig, MODER, OSPEEDR, OTYPER, PUPDR};
use mcu_hal::drivers::gpio::{Gpio, GPIOPORT};
use mcu_hal::drivers::uart::Serial;

fn set(reg: Register, bits: u32) -> Op {
    Op::Modify { reg, clear: 0, set: bits }
}

#[test]
fn converter_bring_up_is_exact() {
    let mut expected = Gpio::new(GPIOPORT::GPIOB, 1).configure(GpioConfig {
        moder: MODER::Analog,
        otyper: OTYPER::PushPull,
        ospeedr: OSPEEDR::MediumSpeed,
        pupdr: PUPDR::NoPull,
        alt_func_select: None,
    });
    expected.extend(Serial::println("adc gpio configured"));
    expected.extend(vec![
        Op::Modify { reg: Register::RccCcipr5, clear: 7, set: 3 },
        set(Register::RccAhb2Enr, 1 << 10),
    ]);
    expected.extend(Serial::println("adc rcc clock enabled"));
    expected.extend(vec![
        Op::Modify { reg: Register::AdcCr, clear: 1 << 29, set: 0 },
        set(Register::AdcCr, 1 << 28),
        Op::Delay { cycles: 59 },
    ]);
    expected.extend(Serial::println("adc voltage regulator enabled"));
    expected.extend(vec![
        Op::Modify { reg: Register::AdcSqr1, clear: 0x1F << 6, set: 5 << 6 },
        Op::Modify { reg: Register::AdcSmpr1, clear: 7 << 15, set: 4 << 15 },
    ]);
    expected.extend(Serial::println("adc peripheral configured"));
    expected.extend(vec![
        set(Register::AdcCr, 1 << 31),
        Op::WaitClear { reg: Register::AdcCr, mask: 1 << 31 },
    ]);
    expected.extend(Serial::println("adc calibrated"));
    expected.extend(vec![set(Register::AdcCr, 1), Op::WaitSet { reg: Register::AdcIsr, mask: 1 }]);
    expected.extend(Serial::println("adc ready!"));
    assert_eq!(adc1_test_configure(), expected);
}

#[test]
fn bring_up_reports_each_stage_over_the_serial_port() {
    let sent: Vec<u8> = adc1_test_configure()
        .iter()
        .filter_map(|op| match op {
            Op::Write { reg: Register::UsartTdr, value } => Some(*value as u8),
            _ => None,
        })
        .collect();
    let text = String::from_utf8(sent).unwrap();
    assert_eq!(
        text,
        "adc gpio configured\n\radc rcc clock enabled\n\radc voltage regulator enabled\n\r\
         adc peripheral configured\n\radc calibrated\n\radc ready!\n\r"
    );
}

#[test]
fn conversion_starts_waits_and_names_the_data_register() {
    let (plan, value_in) = adc1_get_value();
    assert_eq!(
        plan,
        vec![set(Register::AdcCr, 1 << 2), Op::WaitSet { reg: Register::AdcIsr, mask: 1 << 2 }]
    );
    assert_eq!(value_in, Register::AdcDr);
}
