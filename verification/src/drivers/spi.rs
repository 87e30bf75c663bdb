use crate::bits::{field, lemma_set_bits, modified};
use crate::bus::{extend, lemma_run_concat, lemma_run_push, run, Op, Register, RegisterFile};
use crate::coreutils::Conversions;
use crate::drivers::gpio::acts::configure_plan;
use crate::drivers::gpio::{clock_enable_op, lemma_configure_pin};
use crate::drivers::gpio::config::{GpioConfig, MODER, OSPEEDR, OTYPER, PUPDR};
use crate::drivers::gpio::{Gpio, GPIOPORT};
use vstd::prelude::*;

verus! {

/// Clock polarity and phase.
#[derive(Clone, Copy, Debug, PartialEq, Eq, Structural)]
pub enum SpiMode {
    Mode0,
    Mode1,
    Mode2,
    Mode3,
}

/// Which bit of a word goes first.
#[derive(Clone, Copy, Debug, PartialEq, Eq, Structural)]
pub enum SpiFrameFormat {
    MSBFirst,
    LSBFirst,
}

/// By how much the bus clock is divided for the serial clock.
#[derive(Clone, Copy, Debug, PartialEq, Eq, Structural)]
pub enum SpiClockDivider {
    DivideBy2,
    DivideBy4,
    DivideBy8,
    DivideBy16,
    DivideBy32,
    DivideBy64,
    DivideBy128,
    DivideBy256,
}

/// How many bits a word has.
#[derive(Clone, Copy, Debug, PartialEq, Eq, Structural)]
pub enum SpiDataSize {
    Bit4,
    Bit5,
    Bit6,
    Bit7,
    Bit8,
    Bit9,
    Bit10,
    Bit11,
    Bit12,
    Bit13,
    Bit14,
    Bit15,
    Bit16,
}

impl SpiDataSize {
    /// The number of bits of a word.
    pub open spec fn bit_count(&self) -> u32 {
        match self {
            SpiDataSize::Bit4 => 4,
            SpiDataSize::Bit5 => 5,
            SpiDataSize::Bit6 => 6,
            SpiDataSize::Bit7 => 7,
            SpiDataSize::Bit8 => 8,
            SpiDataSize::Bit9 => 9,
            SpiDataSize::Bit10 => 10,
            SpiDataSize::Bit11 => 11,
            SpiDataSize::Bit12 => 12,
            SpiDataSize::Bit13 => 13,
            SpiDataSize::Bit14 => 14,
            SpiDataSize::Bit15 => 15,
            SpiDataSize::Bit16 => 16,
        }
    }
}

/// All that `begin` and `set_settings` program.
#[derive(Clone, Copy, Debug, PartialEq, Eq, Structural)]
pub struct SpiSettings {
    pub spi_mode: SpiMode,
    pub spi_clock_divider: SpiClockDivider,
    pub spi_frame_format: SpiFrameFormat,
    pub spi_data_size: SpiDataSize,
}

/// The third SPI block of the chip, as bus master.
pub struct SPI();

impl Conversions for SpiFrameFormat {
    open spec fn encoding(&self) -> u32 {
        match self {
            SpiFrameFormat::MSBFirst => 0,
            SpiFrameFormat::LSBFirst => 1,
        }
    }

    fn as_u32(&self) -> (bits: u32) {
        match self {
            SpiFrameFormat::MSBFirst => 0,
            SpiFrameFormat::LSBFirst => 1,
        }
    }
}

impl Conversions for SpiMode {
    open spec fn encoding(&self) -> u32 {
        match self {
            SpiMode::Mode0 => 0,
            SpiMode::Mode1 => 1,
            SpiMode::Mode2 => 2,
            SpiMode::Mode3 => 3,
        }
    }

    fn as_u32(&self) -> (bits: u32) {
        match self {
            SpiMode::Mode0 => 0,
            SpiMode::Mode1 => 1,
            SpiMode::Mode2 => 2,
            SpiMode::Mode3 => 3,
        }
    }
}

impl Conversions for SpiClockDivider {
    open spec fn encoding(&self) -> u32 {
        match self {
            SpiClockDivider::DivideBy2 => 0,
            SpiClockDivider::DivideBy4 => 1,
            SpiClockDivider::DivideBy8 => 2,
            SpiClockDivider::DivideBy16 => 3,
            SpiClockDivider::DivideBy32 => 4,
            SpiClockDivider::DivideBy64 => 5,
            SpiClockDivider::DivideBy128 => 6,
            SpiClockDivider::DivideBy256 => 7,
        }
    }

    fn as_u32(&self) -> (bits: u32) {
        match self {
            SpiClockDivider::DivideBy2 => 0,
            SpiClockDivider::DivideBy4 => 1,
            SpiClockDivider::DivideBy8 => 2,
            SpiClockDivider::DivideBy16 => 3,
            SpiClockDivider::DivideBy32 => 4,
            SpiClockDivider::DivideBy64 => 5,
            SpiClockDivider::DivideBy128 => 6,
            SpiClockDivider::DivideBy256 => 7,
        }
    }
}

impl Conversions for SpiDataSize {
    /// The field holds the number of bits less one.
    open spec fn encoding(&self) -> u32 {
        (self.bit_count() - 1) as u32
    }

    fn as_u32(&self) -> (bits: u32) {
        match self {
            SpiDataSize::Bit4 => 3,
            SpiDataSize::Bit5 => 4,
            SpiDataSize::Bit6 => 5,
            SpiDataSize::Bit7 => 6,
            SpiDataSize::Bit8 => 7,
            SpiDataSize::Bit9 => 8,
            SpiDataSize::Bit10 => 9,
            SpiDataSize::Bit11 => 10,
            SpiDataSize::Bit12 => 11,
            SpiDataSize::Bit13 => 12,
            SpiDataSize::Bit14 => 13,
            SpiDataSize::Bit15 => 14,
            SpiDataSize::Bit16 => 15,
        }
    }
}

/// Enable bit of the block in the low APB1 clock-enable register.
pub const RCC_APB1LENR_SPI3EN: u32 = 0x00008000;

/// Control register 1: the mode field, clock phase and polarity.
pub const SPI_CR1_MODE: u32 = 0x00000003;

/// Control register 1: master role.
pub const SPI_CR1_MSTR: u32 = 0x00000004;

/// Control register 1: the divider field.
pub const SPI_CR1_BR: u32 = 0x00000038;

/// Control register 1: the bit-order field.
pub const SPI_CR1_LSBFIRST: u32 = 0x00000080;

/// Control register 2: interrupt on "receive buffer not empty".
pub const SPI_CR2_RXNEIE: u32 = 0x00000040;

/// Control register 2: the word-size field.
pub const SPI_CR2_DS: u32 = 0x00000F00;

/// Control register 1: peripheral enable.
pub const SPI_CR1_SPE: u32 = 0x00000040;

/// Control register 1: internal slave select.
pub const SPI_CR1_SSI: u32 = 0x00000100;

/// Control register 1: slave select managed by software.
pub const SPI_CR1_SSM: u32 = 0x00000200;

/// Status register: receive buffer not empty.
pub const SPI_SR_RXNE: u32 = 0x00000001;

/// Status register: transmit buffer empty.
pub const SPI_SR_TXE: u32 = 0x00000002;

/// The alternate function of the three lines.
pub const SPI3_ALF_FUNC_SEL: u8 = 6;

/// All three lines are push-pull pins on alternate function 6.
pub open spec fn spec_type_spi3_gpio_port() -> GpioConfig {
    GpioConfig {
        moder: MODER::Alternate,
        otyper: OTYPER::PushPull,
        ospeedr: OSPEEDR::VeryHighSpeed,
        pupdr: PUPDR::NoPull,
        alt_func_select: Some(SPI3_ALF_FUNC_SEL),
    }
}

/// Data out: pin 5 of bank B.
pub open spec fn spec_pb5_spi3_mosi() -> Gpio {
    Gpio { port: GPIOPORT::GPIOB, pin: 5 }
}

/// Clock: pin 10 of bank C.
pub open spec fn spec_pc10_spi3_sck() -> Gpio {
    Gpio { port: GPIOPORT::GPIOC, pin: 10 }
}

/// Data in: pin 11 of bank C.
pub open spec fn spec_pc11_spi3_miso() -> Gpio {
    Gpio { port: GPIOPORT::GPIOC, pin: 11 }
}

#[verifier::when_used_as_spec(spec_type_spi3_gpio_port)]
pub fn type_spi3_gpio_port() -> (config: GpioConfig)
    ensures
        config == spec_type_spi3_gpio_port(),
{
    GpioConfig {
        moder: MODER::Alternate,
        otyper: OTYPER::PushPull,
        ospeedr: OSPEEDR::VeryHighSpeed,
        pupdr: PUPDR::NoPull,
        alt_func_select: Some(SPI3_ALF_FUNC_SEL),
    }
}

#[verifier::when_used_as_spec(spec_pb5_spi3_mosi)]
pub fn pb5_spi3_mosi() -> (pin: Gpio)
    ensures
        pin == spec_pb5_spi3_mosi(),
{
    Gpio::new(GPIOPORT::GPIOB, 5)
}

#[verifier::when_used_as_spec(spec_pc10_spi3_sck)]
pub fn pc10_spi3_sck() -> (pin: Gpio)
    ensures
        pin == spec_pc10_spi3_sck(),
{
    Gpio::new(GPIOPORT::GPIOC, 10)
}

#[verifier::when_used_as_spec(spec_pc11_spi3_miso)]
pub fn pc11_spi3_miso() -> (pin: Gpio)
    ensures
        pin == spec_pc11_spi3_miso(),
{
    Gpio::new(GPIOPORT::GPIOC, 11)
}

/// The settings that `begin` applies: mode 0, the slowest clock, most
/// significant bit first, words of eight bits.
pub open spec fn default_settings() -> SpiSettings {
    SpiSettings {
        spi_mode: SpiMode::Mode0,
        spi_clock_divider: SpiClockDivider::DivideBy256,
        spi_frame_format: SpiFrameFormat::MSBFirst,
        spi_data_size: SpiDataSize::Bit8,
    }
}

/// One pin's whole configuration, bus clock first.
pub open spec fn pin_plan(pin: Gpio, config: GpioConfig) -> Seq<Op> {
    seq![clock_enable_op(pin.port)] + configure_plan(pin.port, pin.pin, config)
}

/// The three lines configured: data out, clock, data in.
pub open spec fn pins_plan() -> Seq<Op> {
    pin_plan(pb5_spi3_mosi(), type_spi3_gpio_port()) + pin_plan(
        pc10_spi3_sck(),
        type_spi3_gpio_port(),
    ) + pin_plan(pc11_spi3_miso(), type_spi3_gpio_port())
}

/// The step that puts the role into its bit: set for master, clear for the
/// other side.
pub open spec fn role_op(master_mode: bool) -> Op {
    Op::Modify {
        reg: Register::SpiCr1,
        clear: SPI_CR1_MSTR,
        set: if master_mode {
            SPI_CR1_MSTR
        } else {
            0
        },
    }
}

/// The settings written into their fields, each field cleared and set in one
/// step: divider at bit 3, bit order at bit 7 and mode at bit 0 of control
/// register 1, word size at bit 8 of control register 2.
pub open spec fn settings_plan(settings: SpiSettings) -> Seq<Op> {
    seq![
        Op::Modify {
            reg: Register::SpiCr1,
            clear: SPI_CR1_BR,
            set: settings.spi_clock_divider.encoding() << 3u32,
        },
        Op::Modify {
            reg: Register::SpiCr1,
            clear: SPI_CR1_LSBFIRST,
            set: settings.spi_frame_format.encoding() << 7u32,
        },
        Op::Modify { reg: Register::SpiCr1, clear: SPI_CR1_MODE, set: settings.spi_mode.encoding() },
        Op::Modify {
            reg: Register::SpiCr2,
            clear: SPI_CR2_DS,
            set: settings.spi_data_size.encoding() << 8u32,
        },
    ]
}

/// What follows the pins in bring-up: software slave select, the default
/// settings, master role, peripheral on.
pub open spec fn control_plan() -> Seq<Op> {
    seq![
        Op::spec_set_bits(Register::SpiCr1, SPI_CR1_SSM),
        Op::spec_set_bits(Register::SpiCr1, SPI_CR1_SSI),
    ] + settings_plan(default_settings()) + seq![
        role_op(true),
        Op::spec_set_bits(Register::SpiCr1, SPI_CR1_SPE),
    ]
}

/// Bring-up: bus clock, pins, software slave select, default settings,
/// master role, peripheral on.
pub open spec fn begin_plan() -> Seq<Op> {
    seq![Op::spec_set_bits(Register::RccApb1LEnr, RCC_APB1LENR_SPI3EN)] + pins_plan()
        + control_plan()
}

/// Sending a word: store it into the data register, then wait for "transmit
/// buffer empty". Without a word nothing is done.
pub open spec fn transmit_plan(data: Option<u16>) -> Seq<Op> {
    match data {
        Some(word) => seq![
            Op::Write { reg: Register::SpiDr, value: word as u32 },
            Op::WaitSet { reg: Register::SpiSr, mask: SPI_SR_TXE },
        ],
        None => Seq::empty(),
    }
}

/// The word that came in, if the status word shows one: the low half of the
/// data word.
pub open spec fn received_word(status: u32, data: u32) -> Option<u16> {
    if status & SPI_SR_RXNE != 0 {
        Some((data & 0xFFFF) as u16)
    } else {
        None
    }
}

/// What three field writes in a row leave in control register 1, and one in
/// control register 2.
proof fn lemma_settings_words(cr1: u32, cr2: u32, divider: u32, order: u32, mode: u32, size: u32)
    by (bit_vector)
    requires
        divider <= 7,
        order <= 1,
        mode <= 3,
        size <= 15,
    ensures
        ({
            let after1 = modified(
                modified(modified(cr1, SPI_CR1_BR, divider << 3u32), SPI_CR1_LSBFIRST, order << 7u32),
                SPI_CR1_MODE,
                mode,
            );
            let after2 = modified(cr2, SPI_CR2_DS, size << 8u32);
            &&& field(after1, 3, 3) == divider
            &&& field(after1, 7, 1) == order
            &&& field(after1, 0, 2) == mode
            &&& after1 & !0xBBu32 == cr1 & !0xBBu32
            &&& field(after2, 8, 4) == size
            &&& after2 & !0xF00u32 == cr2 & !0xF00u32
        }),
{
}

/// After the settings are applied, each of their fields holds its encoding,
/// whatever it held before: the mode in bits 0 to 1, the divider in bits 3 to
/// 5 and the bit order in bit 7 of control register 1, the word size in bits
/// 8 to 11 of control register 2. Every other bit of the two registers and
/// every other register is as before.
pub proof fn lemma_settings_program_fields(settings: SpiSettings, regs: RegisterFile)
    ensures
        ({
            let after = run(settings_plan(settings), regs);
            &&& field(after(Register::SpiCr1), 0, 2) == settings.spi_mode.encoding()
            &&& field(after(Register::SpiCr1), 3, 3) == settings.spi_clock_divider.encoding()
            &&& field(after(Register::SpiCr1), 7, 1) == settings.spi_frame_format.encoding()
            &&& field(after(Register::SpiCr2), 8, 4) == settings.spi_data_size.encoding()
            &&& after(Register::SpiCr1) & !0xBBu32 == regs(Register::SpiCr1) & !0xBBu32
            &&& after(Register::SpiCr2) & !0xF00u32 == regs(Register::SpiCr2) & !0xF00u32
            &&& forall|reg: Register|
                reg != Register::SpiCr1 && reg != Register::SpiCr2 ==> #[trigger] after(reg)
                    == regs(reg)
        }),
{
    let plan = settings_plan(settings);
    let p0 = Seq::<Op>::empty();
    let p1 = p0.push(plan[0]);
    let p2 = p1.push(plan[1]);
    let p3 = p2.push(plan[2]);
    assert(p3.push(plan[3]) =~= plan);
    lemma_run_push(p0, plan[0], regs);
    lemma_run_push(p1, plan[1], regs);
    lemma_run_push(p2, plan[2], regs);
    lemma_run_push(p3, plan[3], regs);
    lemma_settings_words(
        regs(Register::SpiCr1),
        regs(Register::SpiCr2),
        settings.spi_clock_divider.encoding(),
        settings.spi_frame_format.encoding(),
        settings.spi_mode.encoding(),
        settings.spi_data_size.encoding(),
    );
}

/// What the control steps of bring-up leave in the two control registers.
proof fn lemma_begin_words(cr1: u32, cr2: u32)
    by (bit_vector)
    ensures
        ({
            let selected = modified(modified(cr1, 0, SPI_CR1_SSM), 0, SPI_CR1_SSI);
            let set = modified(
                modified(modified(selected, SPI_CR1_BR, 7u32 << 3u32), SPI_CR1_LSBFIRST, 0u32 << 7u32),
                SPI_CR1_MODE,
                0,
            );
            let after1 = modified(modified(set, SPI_CR1_MSTR, SPI_CR1_MSTR), 0, SPI_CR1_SPE);
            let after2 = modified(cr2, SPI_CR2_DS, 7u32 << 8u32);
            &&& after1 & 0x3FF == 0x37C
            &&& after1 & !0x3FFu32 == cr1 & !0x3FFu32
            &&& after2 & 0xF00 == 0x700
            &&& after2 & !0xF00u32 == cr2 & !0xF00u32
            &&& cr1 == 0 ==> after1 == 0x37C
            &&& cr2 == 0 ==> after2 == 0x700
        }),
{
}

/// The three pins' configuration stores into no register of the block and
/// not into the block's clock-enable register.
proof fn lemma_pins_spare_block(regs: RegisterFile)
    ensures
        run(pins_plan(), regs)(Register::SpiCr1) == regs(Register::SpiCr1),
        run(pins_plan(), regs)(Register::SpiCr2) == regs(Register::SpiCr2),
        run(pins_plan(), regs)(Register::RccApb1LEnr) == regs(Register::RccApb1LEnr),
{
    let first = pin_plan(pb5_spi3_mosi(), type_spi3_gpio_port());
    let second = pin_plan(pc10_spi3_sck(), type_spi3_gpio_port());
    let third = pin_plan(pc11_spi3_miso(), type_spi3_gpio_port());
    let r1 = run(first, regs);
    let r2 = run(second, r1);
    lemma_configure_pin(pb5_spi3_mosi(), type_spi3_gpio_port(), regs);
    lemma_configure_pin(pc10_spi3_sck(), type_spi3_gpio_port(), r1);
    lemma_configure_pin(pc11_spi3_miso(), type_spi3_gpio_port(), r2);
    lemma_run_concat(first, second, regs);
    lemma_run_concat(first + second, third, regs);
}

/// After bring-up the block's bus clock is on, and the low ten bits of
/// control register 1 are 0x37C whatever they were: software slave select
/// with the internal select high, the slowest clock, most significant bit
/// first, mode 0, master, peripheral on. The word-size field of control
/// register 2 holds 7, which is eight bits. The other bits of both registers
/// are as before, so over cleared registers the two hold 0x37C and 0x700.
/// The first step is the one that switches the bus clock on.
pub proof fn lemma_begin_brings_block_up(regs: RegisterFile)
    ensures
        ({
            let after = run(begin_plan(), regs);
            &&& begin_plan()[0] == Op::spec_set_bits(Register::RccApb1LEnr, RCC_APB1LENR_SPI3EN)
            &&& after(Register::RccApb1LEnr) & RCC_APB1LENR_SPI3EN == RCC_APB1LENR_SPI3EN
            &&& after(Register::SpiCr1) & 0x3FF == 0x37C
            &&& after(Register::SpiCr1) & !0x3FFu32 == regs(Register::SpiCr1) & !0x3FFu32
            &&& after(Register::SpiCr2) & 0xF00 == 0x700
            &&& after(Register::SpiCr2) & !0xF00u32 == regs(Register::SpiCr2) & !0xF00u32
            &&& regs(Register::SpiCr1) == 0 ==> after(Register::SpiCr1) == 0x37C
            &&& regs(Register::SpiCr2) == 0 ==> after(Register::SpiCr2) == 0x700
        }),
{
    let clock = seq![Op::spec_set_bits(Register::RccApb1LEnr, RCC_APB1LENR_SPI3EN)];
    let r0 = run(clock, regs);
    assert(clock =~= Seq::<Op>::empty().push(clock[0]));
    lemma_run_push(Seq::<Op>::empty(), clock[0], regs);
    lemma_set_bits(regs(Register::RccApb1LEnr), RCC_APB1LENR_SPI3EN);
    lemma_run_concat(clock, pins_plan(), regs);
    let r1 = run(pins_plan(), r0);
    lemma_pins_spare_block(r0);
    lemma_run_concat(clock + pins_plan(), control_plan(), regs);
    let tail = control_plan();
    let t0 = Seq::<Op>::empty();
    let t1 = t0.push(tail[0]);
    let t2 = t1.push(tail[1]);
    let t3 = t2.push(tail[2]);
    let t4 = t3.push(tail[3]);
    let t5 = t4.push(tail[4]);
    let t6 = t5.push(tail[5]);
    let t7 = t6.push(tail[6]);
    assert(t7.push(tail[7]) =~= tail);
    lemma_run_push(t0, tail[0], r1);
    lemma_run_push(t1, tail[1], r1);
    lemma_run_push(t2, tail[2], r1);
    lemma_run_push(t3, tail[3], r1);
    lemma_run_push(t4, tail[4], r1);
    lemma_run_push(t5, tail[5], r1);
    lemma_run_push(t6, tail[6], r1);
    lemma_run_push(t7, tail[7], r1);
    lemma_begin_words(regs(Register::SpiCr1), regs(Register::SpiCr2));
}

/// The receive callback of the block. An empty slot stands for the default,
/// which does nothing. The callback is replaced only while the receive
/// interrupt is held back, so that no interrupt sees the slot halfway.
pub struct SpiHandler<H> {
    pub receive: Option<H>,
    /// Whether the receive interrupt is held back for a replacement.
    pub held: bool,
}

impl<H> SpiHandler<H> {
    /// The slot with the default in place.
    pub fn new() -> (slot: Self)
        ensures
            slot.receive is None,
            !slot.held,
    {
        SpiHandler { receive: None, held: false }
    }

    /// Opens a replacement: the step that holds the receive interrupt back,
    /// which the host performs before it replaces the callback.
    pub fn hold(&mut self) -> (op: Op)
        ensures
            op == Op::spec_clear_bits(Register::SpiCr2, SPI_CR2_RXNEIE),
            final(self).held,
            final(self).receive == old(self).receive,
    {
        self.held = true;
        Op::clear_bits(Register::SpiCr2, SPI_CR2_RXNEIE)
    }

    /// Closes a replacement: the step that lets the receive interrupt
    /// through again, which the host performs after the callback is in place.
    pub fn release(&mut self) -> (op: Op)
        ensures
            op == Op::spec_set_bits(Register::SpiCr2, SPI_CR2_RXNEIE),
            !final(self).held,
            final(self).receive == old(self).receive,
    {
        self.held = false;
        Op::set_bits(Register::SpiCr2, SPI_CR2_RXNEIE)
    }
}

impl SPI {
    /// The steps that bring the block up with the default settings.
    pub fn begin() -> (plan: Vec<Op>)
        ensures
            plan@ == begin_plan(),
    {
        let mut plan: Vec<Op> = Vec::new();
        plan.push(Self::enable_rcc_clock());
        let pins: Vec<Op> = Self::configure_pins();
        extend(&mut plan, &pins);
        let select: Vec<Op> = Self::configure_specific_registers();
        extend(&mut plan, &select);
        let settings: Vec<Op> = Self::set_settings(
            SpiSettings {
                spi_mode: SpiMode::Mode0,
                spi_clock_divider: SpiClockDivider::DivideBy256,
                spi_frame_format: SpiFrameFormat::MSBFirst,
                spi_data_size: SpiDataSize::Bit8,
            },
        );
        extend(&mut plan, &settings);
        plan.push(Self::master_selection(true));
        plan.push(Self::enable_peripheral());
        assert(plan@ =~= begin_plan());
        plan
    }

    /// The steps that send `data`, if there is any. What came in meanwhile is
    /// told by `receive`.
    pub fn transmit(data: Option<u16>) -> (plan: Vec<Op>)
        ensures
            plan@ == transmit_plan(data),
    {
        let mut plan: Vec<Op> = Vec::new();
        match data {
            Some(word) => {
                plan.push(Op::Write { reg: Register::SpiDr, value: word as u32 });
                plan.push(Op::WaitSet { reg: Register::SpiSr, mask: SPI_SR_TXE });
                assert(plan@ =~= transmit_plan(data));
            },
            None => {},
        }
        plan
    }

    /// Whether the status word shows a word to fetch: the host reads the data
    /// register only then.
    pub fn data_ready(status: u32) -> (ready: bool)
        ensures
            ready == (received_word(status, 0) is Some),
    {
        status & SPI_SR_RXNE != 0
    }

    /// The word that came in, if any. `status` is the status word as read
    /// after the steps of `transmit`; `data` is the data word, which counts
    /// only where `data_ready(status)` holds.
    pub fn receive(status: u32, data: u32) -> (word: Option<u16>)
        ensures
            word == received_word(status, data),
    {
        if status & SPI_SR_RXNE != 0 {
            Some((data & 0xFFFF) as u16)
        } else {
            None
        }
    }

    /// The interrupt path: the word to hand to the receive callback, if the
    /// status word shows one.
    pub fn on_interrupt(status: u32, data: u32) -> (word: Option<u16>)
        ensures
            word == received_word(status, data),
    {
        Self::receive(status, data)
    }

    /// Replaces the receive callback, between `hold` and `release`.
    pub fn on_receive<H>(slot: &mut SpiHandler<H>, handler: H)
        requires
            old(slot).held,
        ensures
            final(slot).receive == Some(handler),
            final(slot).held,
    {
        slot.receive = Some(handler);
    }

    /// The steps that write the settings into their fields.
    pub fn set_settings(spi_settings: SpiSettings) -> (plan: Vec<Op>)
        ensures
            plan@ == settings_plan(spi_settings),
    {
        let mut plan: Vec<Op> = Vec::new();
        plan.push(Self::set_clock_divider(spi_settings.spi_clock_divider));
        plan.push(Self::set_frame_format(spi_settings.spi_frame_format));
        plan.push(Self::set_spi_mode(spi_settings.spi_mode));
        plan.push(Self::set_data_size(spi_settings.spi_data_size));
        assert(plan@ =~= settings_plan(spi_settings));
        plan
    }

    /// The step that writes the divider into bits 3 to 5 of control register 1.
    pub fn set_clock_divider(div: SpiClockDivider) -> (op: Op)
        ensures
            op == (Op::Modify {
                reg: Register::SpiCr1,
                clear: SPI_CR1_BR,
                set: div.encoding() << 3u32,
            }),
    {
        Op::Modify { reg: Register::SpiCr1, clear: SPI_CR1_BR, set: div.as_u32() << 3u32 }
    }

    /// The step that writes the bit order into bit 7 of control register 1.
    pub fn set_frame_format(fmt: SpiFrameFormat) -> (op: Op)
        ensures
            op == (Op::Modify {
                reg: Register::SpiCr1,
                clear: SPI_CR1_LSBFIRST,
                set: fmt.encoding() << 7u32,
            }),
    {
        Op::Modify { reg: Register::SpiCr1, clear: SPI_CR1_LSBFIRST, set: fmt.as_u32() << 7u32 }
    }

    /// The step that writes the mode into bits 0 to 1 of control register 1.
    pub fn set_spi_mode(mode: SpiMode) -> (op: Op)
        ensures
            op == (Op::Modify { reg: Register::SpiCr1, clear: SPI_CR1_MODE, set: mode.encoding() }),
    {
        Op::Modify { reg: Register::SpiCr1, clear: SPI_CR1_MODE, set: mode.as_u32() }
    }

    /// The step that writes the word size into bits 8 to 11 of control register 2.
    pub fn set_data_size(size: SpiDataSize) -> (op: Op)
        ensures
            op == (Op::Modify {
                reg: Register::SpiCr2,
                clear: SPI_CR2_DS,
                set: size.encoding() << 8u32,
            }),
    {
        Op::Modify { reg: Register::SpiCr2, clear: SPI_CR2_DS, set: size.as_u32() << 8u32 }
    }

    /// The step that puts the role into its bit: set for master, clear for
    /// the other side.
    pub fn master_selection(master_mode: bool) -> (op: Op)
        ensures
            op == role_op(master_mode),
    {
        Op::Modify {
            reg: Register::SpiCr1,
            clear: SPI_CR1_MSTR,
            set: if master_mode {
                SPI_CR1_MSTR
            } else {
                0
            },
        }
    }

    /// The step that switches the peripheral on.
    pub fn enable_peripheral() -> (op: Op)
        ensures
            op == Op::spec_set_bits(Register::SpiCr1, SPI_CR1_SPE),
    {
        Op::set_bits(Register::SpiCr1, SPI_CR1_SPE)
    }

    /// The steps that hand slave select to software: the management bit,
    /// then the internal select bit.
    pub fn configure_specific_registers() -> (plan: Vec<Op>)
        ensures
            plan@ == seq![
                Op::spec_set_bits(Register::SpiCr1, SPI_CR1_SSM),
                Op::spec_set_bits(Register::SpiCr1, SPI_CR1_SSI),
            ],
    {
        let mut plan: Vec<Op> = Vec::new();
        plan.push(Op::set_bits(Register::SpiCr1, SPI_CR1_SSM));
        plan.push(Op::set_bits(Register::SpiCr1, SPI_CR1_SSI));
        plan
    }

    /// The step that switches on the block's bus clock.
    pub fn enable_rcc_clock() -> (op: Op)
        ensures
            op == Op::spec_set_bits(Register::RccApb1LEnr, RCC_APB1LENR_SPI3EN),
    {
        Op::set_bits(Register::RccApb1LEnr, RCC_APB1LENR_SPI3EN)
    }

    /// The steps that configure the three lines.
    pub fn configure_pins() -> (plan: Vec<Op>)
        ensures
            plan@ == pins_plan(),
    {
        let mut plan: Vec<Op> = pb5_spi3_mosi().configure(type_spi3_gpio_port());
        let clock: Vec<Op> = pc10_spi3_sck().configure(type_spi3_gpio_port());
        let input: Vec<Op> = pc11_spi3_miso().configure(type_spi3_gpio_port());
        extend(&mut plan, &clock);
        extend(&mut plan, &input);
        plan
    }
}

} // verus!
