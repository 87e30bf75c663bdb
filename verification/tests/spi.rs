use mcu_hal::bus::{Op, Register};
use mcu_hal::coreutils::Conversions;
use mcu_hal::drivers::gpio::GPIOPORT;
use mcu_hal::drivers::spi::{
    pb5_spi3_mosi, pc10_spi3_sck, pc11_spi3_miso, type_spi3_gpio_port, SpiClockDivider,
    SpiDataSize, SpiFrameFormat, SpiHandler, SpiMode, SpiSettings, SPI,
};

fn write_field(reg: Register, mask: u32, value: u32) -> Op {
    Op::Modify { reg, clear: mask, set: value }
}

fn set(reg: Register, bits: u32) -> Op {
    Op::Modify { reg, clear: 0, set: bits }
}

fn final_value(plan: &[Op], reg: Register, start: u32) -> u32 {
    let mut word = start;
    for op in plan {
        if op.target() == Some(reg) {
            word = op.output(word);
        }
    }
    word
}

#[test]
fn divide_by_256_is_seven_at_bits_3_to_5() {
    assert_eq!(SpiClockDivider::DivideBy256.as_u32(), 7);
    assert_eq!(
        SPI::set_clock_divider(SpiClockDivider::DivideBy256),
        write_field(Register::SpiCr1, 7 << 3, 7 << 3)
    );
    let plan = SPI::begin();
    let cr1 = final_value(&plan, Register::SpiCr1, 0);
    assert_eq!((cr1 >> 3) & 0b111, 7);
}

#[test]
fn eight_bit_words_are_seven_at_bits_8_to_11_of_cr2() {
    assert_eq!(SpiDataSize::Bit8.as_u32(), 7);
    assert_eq!(
        SPI::set_data_size(SpiDataSize::Bit8),
        write_field(Register::SpiCr2, 0xF << 8, 7 << 8)
    );
    let plan = SPI::begin();
    let cr2 = final_value(&plan, Register::SpiCr2, 0);
    assert_eq!((cr2 >> 8) & 0xF, 7);
    assert_eq!(cr2, 0x700);
}

#[test]
fn data_size_field_is_bit_count_less_one() {
    let sizes = [
        SpiDataSize::Bit4,
        SpiDataSize::Bit5,
        SpiDataSize::Bit6,
        SpiDataSize::Bit7,
        SpiDataSize::Bit8,
        SpiDataSize::Bit9,
        SpiDataSize::Bit10,
        SpiDataSize::Bit11,
        SpiDataSize::Bit12,
        SpiDataSize::Bit13,
        SpiDataSize::Bit14,
        SpiDataSize::Bit15,
        SpiDataSize::Bit16,
    ];
    for (i, size) in sizes.iter().enumerate() {
        assert_eq!(size.as_u32(), i as u32 + 3);
    }
}

#[test]
fn other_encodings() {
    let dividers = [
        SpiClockDivider::DivideBy2,
        SpiClockDivider::DivideBy4,
        SpiClockDivider::DivideBy8,
        SpiClockDivider::DivideBy16,
        SpiClockDivider::DivideBy32,
        SpiClockDivider::DivideBy64,
        SpiClockDivider::DivideBy128,
        SpiClockDivider::DivideBy256,
    ];
    for (i, divider) in dividers.iter().enumerate() {
        assert_eq!(divider.as_u32(), i as u32);
    }
    assert_eq!(SpiMode::Mode0.as_u32(), 0);
    assert_eq!(SpiMode::Mode1.as_u32(), 1);
    assert_eq!(SpiMode::Mode2.as_u32(), 2);
    assert_eq!(SpiMode::Mode3.as_u32(), 3);
    assert_eq!(SpiFrameFormat::MSBFirst.as_u32(), 0);
    assert_eq!(SpiFrameFormat::LSBFirst.as_u32(), 1);
}

#[test]
fn begin_runs_in_the_prescribed_order() {
    let plan = SPI::begin();
    let pins = SPI::configure_pins();
    assert_eq!(pins.len(), 27);
    assert_eq!(plan.len(), 1 + 27 + 2 + 4 + 2);
    assert_eq!(plan[0], set(Register::RccApb1LEnr, 1 << 15));
    assert_eq!(&plan[1..28], &pins[..]);
    assert_eq!(
        &plan[28..],
        &[
            set(Register::SpiCr1, 1 << 9),
            set(Register::SpiCr1, 1 << 8),
            write_field(Register::SpiCr1, 7 << 3, 7 << 3),
            write_field(Register::SpiCr1, 1 << 7, 0),
            write_field(Register::SpiCr1, 3, 0),
            write_field(Register::SpiCr2, 0xF << 8, 7 << 8),
            write_field(Register::SpiCr1, 1 << 2, 1 << 2),
            set(Register::SpiCr1, 1 << 6),
        ]
    );
    assert_eq!(final_value(&plan, Register::SpiCr1, 0), 0x37C);
    assert_eq!(final_value(&plan, Register::SpiCr1, 0xFFFF_FFFF), 0xFFFF_FF7C);
    assert_eq!(final_value(&plan, Register::SpiCr2, 0xFFFF_FFFF), 0xFFFF_F7FF);
    assert_eq!(SPI::enable_rcc_clock(), plan[0]);
    assert_eq!(SPI::configure_specific_registers(), plan[28..30].to_vec());
    assert_eq!(SPI::master_selection(true), plan[34]);
    assert_eq!(SPI::master_selection(false), write_field(Register::SpiCr1, 1 << 2, 0));
    assert_eq!(SPI::master_selection(false).output(0x37C), 0x378);
    assert_eq!(SPI::enable_peripheral(), plan[35]);
}

#[test]
fn pins_are_pb5_pc10_pc11_on_function_six() {
    assert_eq!((pb5_spi3_mosi().port, pb5_spi3_mosi().pin), (GPIOPORT::GPIOB, 5));
    assert_eq!((pc10_spi3_sck().port, pc10_spi3_sck().pin), (GPIOPORT::GPIOC, 10));
    assert_eq!((pc11_spi3_miso().port, pc11_spi3_miso().pin), (GPIOPORT::GPIOC, 11));
    assert_eq!(type_spi3_gpio_port().alt_func_select, Some(6));
    let mut expected = pb5_spi3_mosi().configure(type_spi3_gpio_port());
    expected.extend(pc10_spi3_sck().configure(type_spi3_gpio_port()));
    expected.extend(pc11_spi3_miso().configure(type_spi3_gpio_port()));
    assert_eq!(SPI::configure_pins(), expected);
}

#[test]
fn settings_go_to_their_fields() {
    let plan = SPI::set_settings(SpiSettings {
        spi_mode: SpiMode::Mode3,
        spi_clock_divider: SpiClockDivider::DivideBy16,
        spi_frame_format: SpiFrameFormat::LSBFirst,
        spi_data_size: SpiDataSize::Bit16,
    });
    assert_eq!(
        plan,
        vec![
            write_field(Register::SpiCr1, 7 << 3, 3 << 3),
            write_field(Register::SpiCr1, 1 << 7, 1 << 7),
            write_field(Register::SpiCr1, 3, 3),
            write_field(Register::SpiCr2, 0xF << 8, 15 << 8),
        ]
    );
    assert_eq!(SPI::set_frame_format(SpiFrameFormat::LSBFirst), plan[1]);
    assert_eq!(SPI::set_spi_mode(SpiMode::Mode3), plan[2]);
    assert_eq!(final_value(&plan, Register::SpiCr1, 0), 0b1001_1011);
    assert_eq!(final_value(&plan, Register::SpiCr2, 0), 0xF00);
    assert_eq!(final_value(&plan, Register::SpiCr1, 0xFFFF_FFFF), 0xFFFF_FFDF);
}

#[test]
fn settings_replace_an_earlier_setting() {
    let modes = [SpiMode::Mode0, SpiMode::Mode1, SpiMode::Mode2, SpiMode::Mode3];
    let orders = [SpiFrameFormat::MSBFirst, SpiFrameFormat::LSBFirst];
    let dividers = [SpiClockDivider::DivideBy2, SpiClockDivider::DivideBy32, SpiClockDivider::DivideBy256];
    let sizes = [SpiDataSize::Bit4, SpiDataSize::Bit8, SpiDataSize::Bit16];
    for start in [0u32, 0x0700, 0xFFFF_FFFF, 0x0000_0A5A] {
        for mode in modes {
            for order in orders {
                for divider in dividers {
                    for size in sizes {
                        let plan = SPI::set_settings(SpiSettings {
                            spi_mode: mode,
                            spi_clock_divider: divider,
                            spi_frame_format: order,
                            spi_data_size: size,
                        });
                        let cr1 = final_value(&plan, Register::SpiCr1, start);
                        let cr2 = final_value(&plan, Register::SpiCr2, start);
                        assert_eq!((cr1 >> 3) & 7, divider.as_u32());
                        assert_eq!((cr1 >> 7) & 1, order.as_u32());
                        assert_eq!(cr1 & 3, mode.as_u32());
                        assert_eq!((cr2 >> 8) & 0xF, size.as_u32());
                        assert_eq!(cr1 & !0xBB, start & !0xBB);
                        assert_eq!(cr2 & !0xF00, start & !0xF00);
                    }
                }
            }
        }
    }
}

#[test]
fn four_bit_words_over_the_reset_value() {
    let plan = vec![SPI::set_data_size(SpiDataSize::Bit4)];
    assert_eq!(final_value(&plan, Register::SpiCr2, 0x0700), 0x0300);
    let plan = vec![SPI::set_spi_mode(SpiMode::Mode1)];
    assert_eq!(final_value(&plan, Register::SpiCr1, 2), 1);
}

#[test]
fn transmit_writes_then_waits_for_an_empty_buffer() {
    assert_eq!(
        SPI::transmit(Some(0xBEEF)),
        vec![
            Op::Write { reg: Register::SpiDr, value: 0xBEEF },
            Op::WaitSet { reg: Register::SpiSr, mask: 2 },
        ]
    );
    assert_eq!(SPI::transmit(None), vec![]);
}

#[test]
fn receive_gives_a_word_only_when_the_buffer_holds_one() {
    assert_eq!(SPI::receive(1, 0x1234), Some(0x1234));
    assert_eq!(SPI::receive(3, 0xABCD_1234), Some(0x1234));
    assert_eq!(SPI::receive(2, 0x1234), None);
    assert_eq!(SPI::receive(0, 0x1234), None);
    assert!(SPI::data_ready(1));
    assert!(!SPI::data_ready(2));
    assert_eq!(SPI::on_interrupt(1, 0x42), Some(0x42));
    assert_eq!(SPI::on_interrupt(0, 0x42), None);
}

fn handler(_word: u16) {}

#[test]
fn receive_callback_is_replaced_while_the_interrupt_is_held_back() {
    let mut slot: SpiHandler<fn(u16)> = SpiHandler::new();
    assert!(slot.receive.is_none());
    assert!(!slot.held);
    assert_eq!(slot.hold(), Op::Modify { reg: Register::SpiCr2, clear: 1 << 6, set: 0 });
    assert!(slot.held);
    SPI::on_receive(&mut slot, handler as fn(u16));
    assert!(slot.receive == Some(handler as fn(u16)));
    assert!(slot.held);
    assert_eq!(slot.release(), set(Register::SpiCr2, 1 << 6));
    assert!(!slot.held);
    assert!(slot.receive == Some(handler as fn(u16)));
}
