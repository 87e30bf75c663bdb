use mcu_hal::bus::{Op, Poll, PollStep, Register};
use mcu_hal::drivers::gpio::config::{MODER, OSPEEDR, OTYPER, PUPDR};
use mcu_hal::drivers::gpio::GPIOPORT;
use mcu_hal::drivers::uart::handler::{Dispatch, Handlers};
use mcu_hal::drivers::uart::portdef::{type_serial_usart1, usart1_rx, usart1_tx};
use mcu_hal::drivers::uart::{LineEditor, Serial, SerialError};
use mcu_hal::system::PCLK1_FREQ;

const TC: u32 = 1 << 6;
const RXNE: u32 = 1 << 5;
const ORE: u32 = 1 << 3;

fn write(reg: Register, value: u32) -> Op {
    Op::Write { reg, value }
}

fn wait_tc() -> Op {
    Op::WaitSet { reg: Register::UsartIsr, mask: TC }
}

fn sent_bytes(plan: &[Op]) -> Vec<u8> {
    plan.iter()
        .filter_map(|op| match op {
            Op::Write { reg: Register::UsartTdr, value } => Some(*value as u8),
            _ => None,
        })
        .collect()
}

/// A serial port that behaves like the real one as far as the tests need it:
/// the overrun flag stays until bit 3 is written to the flag-clear register,
/// reading the data register takes the byte, storing a byte to send raises
/// "transmission complete" after a few reads of the status register.
struct Device {
    isr: u32,
    rdr: u32,
    busy_reads: u32,
    busy_left: u32,
    log: Vec<String>,
}

impl Device {
    fn new() -> Device {
        Device { isr: 0, rdr: 0, busy_reads: 2, busy_left: 0, log: Vec::new() }
    }

    fn read(&mut self, reg: Register) -> u32 {
        match reg {
            Register::UsartIsr => {
                if self.busy_left > 0 {
                    self.busy_left -= 1;
                    self.log.push("isr busy".to_string());
                    self.isr & !TC
                } else {
                    self.log.push("isr idle".to_string());
                    self.isr | TC
                }
            }
            Register::UsartRdr => {
                self.isr &= !RXNE;
                self.rdr
            }
            _ => 0,
        }
    }

    fn store(&mut self, reg: Register, value: u32) {
        match reg {
            Register::UsartTdr => {
                self.busy_left = self.busy_reads;
                self.log.push(format!("tdr {:02X}", value));
            }
            Register::UsartIcr => {
                if value & ORE != 0 {
                    self.isr &= !ORE;
                }
            }
            _ => {}
        }
    }

    fn perform(&mut self, plan: &[Op], max_polls: u32) -> bool {
        for op in plan {
            match op.source() {
                Some(reg) if op.target().is_none() => {
                    let mut poll = Poll::new(max_polls);
                    loop {
                        let seen = self.read(reg);
                        match poll.observe(*op, seen) {
                            PollStep::Ready => break,
                            PollStep::Retry => {}
                            PollStep::TimedOut => return false,
                        }
                    }
                }
                Some(reg) => {
                    let seen = self.read(reg);
                    self.store(reg, op.output(seen));
                }
                None => {
                    if let Some(reg) = op.target() {
                        self.store(reg, op.output(0));
                    }
                }
            }
        }
        true
    }

    fn read_byte(&mut self) -> Result<u8, SerialError> {
        let status = self.isr;
        let data = if Serial::data_ready(status) { self.read(Register::UsartRdr) } else { 0 };
        Serial::read_byte(status, data)
    }
}

#[test]
fn baud_divider_for_115200_on_64_mhz() {
    assert_eq!(PCLK1_FREQ, 64_000_000);
    assert_eq!(Serial::set_baudrate(115200), write(Register::UsartBrr, 64_000_000 / 115200));
    assert_eq!(Serial::set_baudrate(115200), write(Register::UsartBrr, 555));
    assert_eq!(Serial::set_baudrate(9600), write(Register::UsartBrr, 6666));
    assert_eq!(Serial::set_baudrate(64_000_001), write(Register::UsartBrr, 0));
    assert_eq!(Serial::set_baudrate(1), write(Register::UsartBrr, 64_000_000));
}

#[test]
fn serial_pins_are_pa9_and_pa10_on_function_seven() {
    assert_eq!(usart1_tx().port, GPIOPORT::GPIOA);
    assert_eq!(usart1_tx().pin, 9);
    assert_eq!(usart1_rx().port, GPIOPORT::GPIOA);
    assert_eq!(usart1_rx().pin, 10);
    let config = type_serial_usart1();
    assert_eq!(config.moder, MODER::Alternate);
    assert_eq!(config.otyper, OTYPER::PushPull);
    assert_eq!(config.ospeedr, OSPEEDR::VeryHighSpeed);
    assert_eq!(config.pupdr, PUPDR::NoPull);
    assert_eq!(config.alt_func_select, Some(7));
}

#[test]
fn configure_runs_in_the_prescribed_order() {
    let plan = Serial::configure();
    let pins = Serial::configure_gpio();
    assert_eq!(pins.len(), 18);
    assert_eq!(plan.len(), 1 + 18 + 5);
    assert_eq!(plan[0], Op::Modify { reg: Register::RccApb2Enr, clear: 0, set: 1 << 14 });
    assert_eq!(&plan[1..19], &pins[..]);
    let mut tx = usart1_tx().configure(type_serial_usart1());
    tx.extend(usart1_rx().configure(type_serial_usart1()));
    assert_eq!(pins, tx);
    assert_eq!(
        &plan[19..],
        &[
            Op::Modify { reg: Register::UsartCr1, clear: 1, set: 0 },
            Op::Modify { reg: Register::UsartCr1, clear: 0, set: 0b1100 },
            write(Register::UsartBrr, 555),
            Op::Modify { reg: Register::UsartCr1, clear: 0, set: 1 << 5 },
            Op::Modify { reg: Register::UsartCr1, clear: 0, set: 1 },
        ]
    );
    assert_eq!(Serial::enable_rcc_clock(), plan[0]);
    assert_eq!(Serial::enabled(false), plan[19]);
    assert_eq!(Serial::configure_basic_registers(), plan[20]);
    assert_eq!(Serial::enable_interrupts(), plan[22]);
    assert_eq!(Serial::enabled(true), plan[23]);
    assert_eq!(
        Serial::disable_interrupts(),
        Op::Modify { reg: Register::UsartCr1, clear: 1 << 5, set: 0 }
    );
}

#[test]
fn sending_ab_writes_and_waits_twice_without_interleaving() {
    let plan = Serial::print("AB");
    assert_eq!(
        plan,
        vec![write(Register::UsartTdr, 0x41), wait_tc(), write(Register::UsartTdr, 0x42), wait_tc()]
    );
    let mut both = Serial::write_byte(b'A');
    both.extend(Serial::write_byte(b'B'));
    assert_eq!(plan, both);

    let mut device = Device::new();
    assert!(device.perform(&Serial::configure(), 10));
    device.log.clear();
    assert!(device.perform(&plan, 10));
    assert_eq!(
        device.log,
        vec!["tdr 41", "isr busy", "isr busy", "isr idle", "tdr 42", "isr busy", "isr busy", "isr idle"]
    );
}

#[test]
fn a_wait_that_is_never_met_times_out() {
    let mut device = Device::new();
    device.busy_reads = 100;
    assert!(!device.perform(&Serial::write_byte(0x55), 5));
    assert_eq!(device.log, vec!["tdr 55", "isr busy", "isr busy", "isr busy", "isr busy", "isr busy"]);
}

#[test]
fn print_of_nothing_is_nothing() {
    assert_eq!(Serial::print(""), vec![]);
    assert_eq!(Serial::print_bytes(&[]), vec![]);
}

#[test]
fn print_sends_utf8_bytes_in_order() {
    assert_eq!(sent_bytes(&Serial::print("uart test")), b"uart test".to_vec());
    assert_eq!(sent_bytes(&Serial::print("é")), vec![0xC3, 0xA9]);
    assert_eq!(Serial::print("hi"), Serial::print_bytes(b"hi"));
    assert_eq!(Serial::print("hi").len(), 4);
}

#[test]
fn println_ends_with_line_feed_then_carriage_return() {
    assert_eq!(sent_bytes(&Serial::println("ok")), vec![b'o', b'k', 0x0A, 0x0D]);
    assert_eq!(sent_bytes(&Serial::println("")), vec![0x0A, 0x0D]);
    assert_eq!(Serial::println("").len(), 4);
}

#[test]
fn read_byte_checks_overrun_before_data() {
    assert_eq!(Serial::read_byte(ORE, 0x41), Err(SerialError::OverRun));
    assert_eq!(Serial::read_byte(ORE | RXNE, 0x41), Err(SerialError::OverRun));
    assert_eq!(Serial::read_byte(0, 0x41), Err(SerialError::NoDataFound));
    assert_eq!(Serial::read_byte(TC, 0x41), Err(SerialError::NoDataFound));
    assert_eq!(Serial::read_byte(RXNE, 0x41), Ok(0x41));
    assert_eq!(Serial::read_byte(RXNE | TC, 0x1FF), Ok(0xFF));
    assert!(Serial::data_ready(RXNE));
    assert!(!Serial::data_ready(RXNE | ORE));
    assert!(!Serial::data_ready(0));
}

#[test]
fn overrun_stays_until_cleared_then_the_next_byte_arrives() {
    let mut device = Device::new();
    device.isr = ORE | RXNE;
    device.rdr = 0x5A;
    assert_eq!(device.read_byte(), Err(SerialError::OverRun));
    assert_eq!(device.isr & ORE, ORE);
    assert_eq!(device.isr & RXNE, RXNE);
    assert_eq!(device.read_byte(), Err(SerialError::OverRun));
    assert_eq!(device.isr & ORE, ORE);

    assert_eq!(Serial::clear_ore_flag(), Op::Modify { reg: Register::UsartIcr, clear: 0, set: 8 });
    assert!(device.perform(&[Serial::clear_ore_flag()], 1));
    assert_eq!(device.isr & ORE, 0);

    device.isr |= RXNE;
    device.rdr = 0x37;
    assert_eq!(device.read_byte(), Ok(0x37));
    assert_eq!(device.read_byte(), Err(SerialError::NoDataFound));
}

#[test]
fn interrupt_goes_to_the_matching_callback() {
    assert_eq!(Serial::on_interrupt(RXNE, 0x61), Dispatch::Receive(0x61));
    assert_eq!(Serial::on_interrupt(ORE | RXNE, 0x61), Dispatch::Error(SerialError::OverRun));
    assert_eq!(Serial::on_interrupt(0, 0x61), Dispatch::Error(SerialError::NoDataFound));
}

fn first(_byte: u8) {}

fn second(_byte: u8) {}

fn on_error(_error: SerialError) {}

#[test]
fn callbacks_start_empty_and_are_replaced_one_by_one() {
    let mut handlers: Handlers<fn(u8), fn(SerialError)> = Handlers::new();
    assert!(handlers.receive.is_none());
    assert!(handlers.error.is_none());
    assert!(!handlers.held);
    assert_eq!(handlers.hold(), Serial::disable_interrupts());
    assert!(handlers.held);
    Serial::on_receive(&mut handlers, first as fn(u8));
    assert!(handlers.receive == Some(first as fn(u8)));
    assert!(handlers.error.is_none());
    Serial::on_error(&mut handlers, on_error as fn(SerialError));
    assert!(handlers.receive == Some(first as fn(u8)));
    assert!(handlers.error == Some(on_error as fn(SerialError)));
    Serial::on_receive(&mut handlers, second as fn(u8));
    assert!(handlers.receive == Some(second as fn(u8)));
    assert!(handlers.error == Some(on_error as fn(SerialError)));
    assert!(handlers.held);
    assert_eq!(handlers.release(), Serial::enable_interrupts());
    assert!(!handlers.held);
    assert!(handlers.receive == Some(second as fn(u8)));
    assert!(handlers.error == Some(on_error as fn(SerialError)));
}

#[test]
fn clear_last_char_sends_backspace_blank_and_cursor_left() {
    assert_eq!(sent_bytes(&Serial::clear_last_char()), vec![0x08, b' ', 0x1B, b'[', b'1', b'D']);
    assert_eq!(Serial::clear_last_char().len(), 12);
}

#[test]
fn line_editor_echoes_and_edits() {
    let mut editor = LineEditor::new();
    assert_eq!(editor.text, Vec::<u8>::new());
    let (done, echo) = editor.feed(b'h');
    assert!(!done);
    assert_eq!(echo, Serial::write_byte(b'h'));
    let (done, echo) = editor.feed(b'x');
    assert!(!done);
    assert_eq!(echo, Serial::write_byte(b'x'));
    assert_eq!(editor.text, b"hx".to_vec());
    let (done, echo) = editor.feed(0x7F);
    assert!(!done);
    assert_eq!(echo, Serial::clear_last_char());
    assert_eq!(editor.text, b"h".to_vec());
    let (done, echo) = editor.feed(b'i');
    assert!(!done);
    assert_eq!(echo, Serial::write_byte(b'i'));
    let (done, closing) = editor.feed(0x0D);
    assert!(done);
    let mut expected = Serial::println("");
    expected.push(Serial::enable_interrupts());
    assert_eq!(closing, expected);
    assert_eq!(editor.text, b"hi".to_vec());
}

#[test]
fn delete_on_an_empty_line_keeps_it_empty() {
    let mut editor = LineEditor::new();
    let (done, echo) = editor.feed(0x7F);
    assert!(!done);
    assert_eq!(echo, Serial::clear_last_char());
    assert_eq!(editor.text, Vec::<u8>::new());
}

#[test]
fn read_input_text_stops_at_the_first_line_end() {
    let (text, plan) = Serial::read_input_text(b"ab\x7Fc\nrest\r").unwrap();
    assert_eq!(text, b"ac".to_vec());
    let mut expected = vec![Serial::disable_interrupts()];
    expected.extend(Serial::write_byte(b'a'));
    expected.extend(Serial::write_byte(b'b'));
    expected.extend(Serial::clear_last_char());
    expected.extend(Serial::write_byte(b'c'));
    expected.extend(Serial::println(""));
    expected.push(Serial::enable_interrupts());
    assert_eq!(plan, expected);
    assert_eq!(
        sent_bytes(&plan),
        vec![b'a', b'b', 0x08, b' ', 0x1B, b'[', b'1', b'D', b'c', 0x0A, 0x0D]
    );
}

#[test]
fn read_input_text_takes_carriage_return_too() {
    let (text, plan) = Serial::read_input_text(b"\r").unwrap();
    assert_eq!(text, Vec::<u8>::new());
    let mut expected = vec![Serial::disable_interrupts()];
    expected.extend(Serial::println(""));
    expected.push(Serial::enable_interrupts());
    assert_eq!(plan, expected);
    let (text, _) = Serial::read_input_text(b"\x7F\x7Fok\x7F\x7F\x7Fyes\n").unwrap();
    assert_eq!(text, b"yes".to_vec());
}

#[test]
fn read_input_text_without_a_line_end_gives_no_line() {
    assert_eq!(Serial::read_input_text(b""), None);
    assert_eq!(Serial::read_input_text(b"abc"), None);
    assert_eq!(Serial::read_input_text(b"abc\x7F"), None);
}
