use mcu_hal::bus::{Op, Register};
use mcu_hal::drivers::gpio::{Gpio, GPIOPORT};
use mcu_hal::drivers::lcd_hd44780::{type_gpio_lcd_port, Lcd};

fn pin(n: u8) -> Gpio {
    Gpio::new(GPIOPORT::GPIOA, n)
}

fn narrow() -> Lcd {
    Lcd {
        register_select: pin(0),
        read_write: None,
        enable: pin(1),
        d0: None,
        d1: None,
        d2: None,
        d3: None,
        d4: pin(4),
        d5: pin(5),
        d6: pin(6),
        d7: pin(7),
    }
}

fn wide() -> Lcd {
    Lcd {
        register_select: pin(0),
        read_write: Some(pin(2)),
        enable: pin(1),
        d0: Some(pin(8)),
        d1: Some(pin(9)),
        d2: Some(pin(10)),
        d3: Some(pin(11)),
        d4: pin(4),
        d5: pin(5),
        d6: pin(6),
        d7: pin(7),
    }
}

fn drive(n: u8, high: bool) -> Op {
    let bit = if high { n } else { n + 16 };
    Op::Write { reg: Register::GpioBsrr(GPIOPORT::GPIOA), value: 1 << bit }
}

fn cycle(lcd: &Lcd, character: bool, data: Vec<Op>) -> Vec<Op> {
    let mut plan = Vec::new();
    if lcd.read_write.is_some() {
        plan.push(drive(2, false));
    }
    plan.push(drive(0, character));
    plan.push(Op::Delay { cycles: 2400 });
    plan.push(drive(1, true));
    plan.extend(data);
    plan.push(Op::Delay { cycles: 3200 });
    plan.push(drive(1, false));
    plan.push(Op::Delay { cycles: 1200 });
    plan
}

fn nibble(value: u8) -> Vec<Op> {
    vec![
        drive(4, value & 1 != 0),
        drive(5, value & 2 != 0),
        drive(6, value & 4 != 0),
        drive(7, value & 8 != 0),
    ]
}

fn byte(value: u8) -> Vec<Op> {
    vec![
        drive(8, value & 1 != 0),
        drive(9, value & 2 != 0),
        drive(10, value & 4 != 0),
        drive(11, value & 8 != 0),
        drive(4, value & 16 != 0),
        drive(5, value & 32 != 0),
        drive(6, value & 64 != 0),
        drive(7, value & 128 != 0),
    ]
}

#[test]
fn four_bit_without_all_low_data_lines() {
    assert!(narrow().four_bit());
    assert!(!wide().four_bit());
    let mut partly = wide();
    partly.d2 = None;
    assert!(partly.four_bit());
}

#[test]
fn toggle_pins_drives_each_line_by_its_bit() {
    assert_eq!(narrow().toggle_pins_4_bit(0b1010), nibble(0b1010));
    assert_eq!(narrow().toggle_pins(0xF5), nibble(0x5));
    assert_eq!(wide().toggle_pins_8_bit(0xA5), byte(0xA5));
    assert_eq!(wide().toggle_pins(0x00), byte(0));
    assert_eq!(wide().toggle_pins(0xFF), byte(0xFF));
    assert_eq!(wide().toggle_pins_4_bit(0x3), nibble(3));
    assert_eq!(wide().toggle_pins_char(b'A'), byte(0x41));
}

#[test]
fn one_cycle_on_eight_lines() {
    let lcd = wide();
    assert_eq!(lcd.send_command_8_bit(0x38), cycle(&lcd, false, byte(0x38)));
    assert_eq!(lcd.send_character_8_bit(b'x'), cycle(&lcd, true, byte(b'x')));
    assert_eq!(lcd.send_command(0x38), cycle(&lcd, false, byte(0x38)));
    assert_eq!(lcd.send_character(b'x'), cycle(&lcd, true, byte(b'x')));
    assert_eq!(lcd.cycle(true, 1), lcd.send_character_8_bit(1));
}

#[test]
fn two_cycles_on_four_lines_high_half_first() {
    let lcd = narrow();
    let mut expected = cycle(&lcd, false, nibble(0x2));
    expected.extend(cycle(&lcd, false, nibble(0x8)));
    assert_eq!(lcd.send_command(0x28), expected);
    let mut expected = cycle(&lcd, true, nibble(0x4));
    expected.extend(cycle(&lcd, true, nibble(0x1)));
    assert_eq!(lcd.send_character(b'A'), expected);
}

#[test]
fn clear_is_command_one() {
    assert_eq!(wide().clear(), wide().send_command(1));
    assert_eq!(narrow().clear(), narrow().send_command(1));
}

#[test]
fn cursor_command_formula() {
    let lcd = wide();
    assert_eq!(lcd.set_cursor(1, 1), lcd.send_command(0x80));
    assert_eq!(lcd.set_cursor(5, 1), lcd.send_command(0x84));
    assert_eq!(lcd.set_cursor(1, 2), lcd.send_command(0xC0));
    assert_eq!(lcd.set_cursor(16, 2), lcd.send_command(0xCF));
    assert_eq!(lcd.set_cursor(64, 2), lcd.send_command(0xFF));
    assert_eq!(lcd.set_cursor(128, 1), lcd.send_command(0xFF));
}

#[test]
fn print_sends_each_character() {
    let lcd = narrow();
    let mut expected = lcd.send_character(b'H');
    expected.extend(lcd.send_character(b'i'));
    assert_eq!(lcd.print(b"Hi"), expected);
    assert_eq!(lcd.print(b""), vec![]);
}

#[test]
fn init_commands_by_width() {
    let lcd = narrow();
    let mut expected = lcd.send_command_8_bit(0x2);
    expected.extend(lcd.send_command(0x28));
    expected.extend(lcd.send_command(0xE));
    expected.extend(lcd.send_command(0x6));
    assert_eq!(lcd.send_init_commands(), expected);
    let lcd = wide();
    let mut expected = lcd.send_command(0x38);
    expected.extend(lcd.send_command(0xE));
    expected.extend(lcd.send_command(0x6));
    assert_eq!(lcd.send_init_commands(), expected);
}

#[test]
fn init_pins_configures_every_line_present() {
    let config = type_gpio_lcd_port();
    let lcd = narrow();
    let mut expected = Vec::new();
    for n in [0u8, 1, 4, 5, 6, 7] {
        expected.extend(pin(n).configure(config));
    }
    assert_eq!(lcd.init_pins(), expected);
    assert_eq!(lcd.init_4bit_pins(), expected);
    let lcd = wide();
    let mut expected = Vec::new();
    for n in [8u8, 9, 10, 11, 0, 2, 1, 4, 5, 6, 7] {
        expected.extend(pin(n).configure(config));
    }
    assert_eq!(lcd.init_pins(), expected);
}

#[test]
fn configure_is_pins_pause_commands() {
    let lcd = narrow();
    let mut expected = lcd.init_pins();
    expected.push(Op::Delay { cycles: 2_400_000 });
    expected.extend(lcd.send_init_commands());
    assert_eq!(lcd.configure(), expected);
}
