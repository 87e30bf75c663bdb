pub mod errors;
pub mod handler;
pub mod portdef;

use crate::bits::{lemma_set_bits, modified};
use crate::bus::{extend, lemma_run_concat, lemma_run_push, run, Op, Register, RegisterFile};
use crate::drivers::gpio::{clock_enable_op, lemma_configure_pin};
use crate::drivers::gpio::acts::configure_plan;
use crate::drivers::uart::portdef::{
    type_serial_usart1, usart1_rx, usart1_tx, RCC_APB2ENR_USART1EN,
};
use crate::system::PCLK1_FREQ;
use vstd::prelude::*;
use vstd::string::StringSliceAdditionalSpecFns;

pub use crate::drivers::uart::errors::SerialError;

verus! {

/// Control register 1: peripheral enable.
pub const USART_CR1_UE: u32 = 0x00000001;

/// Control register 1: receiver enable.
pub const USART_CR1_RE: u32 = 0x00000004;

/// Control register 1: transmitter enable.
pub const USART_CR1_TE: u32 = 0x00000008;

/// Control register 1: interrupt on "receive register not empty".
pub const USART_CR1_RXNEIE: u32 = 0x00000020;

/// Status register: overrun.
pub const USART_ISR_ORE: u32 = 0x00000008;

/// Status register: receive register not empty.
pub const USART_ISR_RXNE: u32 = 0x00000020;

/// Status register: transmission complete.
pub const USART_ISR_TC: u32 = 0x00000040;

/// Flag-clear register: clear the overrun flag.
pub const USART_ICR_ORECF: u32 = 0x00000008;

/// The baud rate that `configure` sets.
pub const DEFAULT_BAUDRATE: u32 = 115200;

/// Backspace as terminals send it.
pub const KEY_DELETE: u8 = 0x7F;

/// Line feed.
pub const KEY_LINE_FEED: u8 = 0x0A;

/// Carriage return.
pub const KEY_CARRIAGE_RETURN: u8 = 0x0D;

/// The first serial port of the chip.
pub struct Serial;

/// The baud-rate divider: the bus clock divided by the baud rate, rounded down.
pub open spec fn baud_divider(bus_clock: u32, baudrate: u32) -> u32 {
    (bus_clock / baudrate) as u32
}

/// Sending one byte: store it into the transmit register, then wait for
/// "transmission complete".
pub open spec fn write_byte_plan(byte: u8) -> Seq<Op> {
    seq![
        Op::Write { reg: Register::UsartTdr, value: byte as u32 },
        Op::WaitSet { reg: Register::UsartIsr, mask: USART_ISR_TC },
    ]
}

/// Sending bytes one after the other: each byte is stored and waited for
/// before the next is stored.
pub open spec fn print_plan(bytes: Seq<u8>) -> Seq<Op>
    decreases bytes.len(),
{
    if bytes.len() == 0 {
        Seq::empty()
    } else {
        print_plan(bytes.drop_last()) + write_byte_plan(bytes.last())
    }
}

/// The end of a line: line feed, then carriage return.
pub open spec fn line_end_plan() -> Seq<Op> {
    write_byte_plan(KEY_LINE_FEED) + write_byte_plan(KEY_CARRIAGE_RETURN)
}

/// Sending the bytes of `text` and then the end of a line.
pub open spec fn println_plan(text: &str) -> Seq<Op> {
    print_plan(text.spec_bytes()) + line_end_plan()
}

/// Taking back the last character on the terminal: backspace, a blank over
/// the character, and the escape sequence that moves the cursor one place left.
pub open spec fn erase_plan() -> Seq<Op> {
    write_byte_plan(0x08) + write_byte_plan(0x20) + write_byte_plan(0x1B) + write_byte_plan(0x5B)
        + write_byte_plan(0x31) + write_byte_plan(0x44)
}

/// Both lines of the port configured, transmit line first.
pub open spec fn pins_plan() -> Seq<Op> {
    seq![clock_enable_op(usart1_tx().port)] + configure_plan(
        usart1_tx().port,
        usart1_tx().pin,
        type_serial_usart1(),
    ) + seq![clock_enable_op(usart1_rx().port)] + configure_plan(
        usart1_rx().port,
        usart1_rx().pin,
        type_serial_usart1(),
    )
}

/// Bring-up of the port: bus clock, pins, peripheral off, transmitter and
/// receiver on, baud rate, receive interrupt, peripheral on.
pub open spec fn configure_plan_for(baudrate: u32) -> Seq<Op> {
    seq![Op::spec_set_bits(Register::RccApb2Enr, RCC_APB2ENR_USART1EN)] + pins_plan() + seq![
        Op::spec_clear_bits(Register::UsartCr1, USART_CR1_UE),
        Op::spec_set_bits(Register::UsartCr1, USART_CR1_TE | USART_CR1_RE),
        Op::Write { reg: Register::UsartBrr, value: baud_divider(PCLK1_FREQ, baudrate) },
        Op::spec_set_bits(Register::UsartCr1, USART_CR1_RXNEIE),
        Op::spec_set_bits(Register::UsartCr1, USART_CR1_UE),
    ]
}

/// What a read gives for the status word `status` and the data word `data`:
/// overrun comes first, then "nothing there", else the low byte of `data`.
pub open spec fn read_result(status: u32, data: u32) -> Result<u8, SerialError> {
    if status & USART_ISR_ORE != 0 {
        Err(SerialError::OverRun)
    } else if status & USART_ISR_RXNE == 0 {
        Err(SerialError::NoDataFound)
    } else {
        Ok((data & 0xFF) as u8)
    }
}

/// What four read-modify-writes in a row leave in control register 1:
/// peripheral off, transmitter and receiver on, receive interrupt on,
/// peripheral on.
proof fn lemma_control_word(word: u32)
    by (bit_vector)
    ensures
        ({
            let after = modified(
                modified(
                    modified(
                        modified(word, USART_CR1_UE, 0),
                        0,
                        USART_CR1_TE | USART_CR1_RE,
                    ),
                    0,
                    USART_CR1_RXNEIE,
                ),
                0,
                USART_CR1_UE,
            );
            &&& after & 0x2D == 0x2D
            &&& after & !0x2Du32 == word & !0x2Du32
        }),
{
}

/// After bring-up the port's bus clock is on, the baud register holds the
/// bus clock divided by the baud rate, and in control register 1 the
/// peripheral, the transmitter, the receiver and the receive interrupt are
/// on, its other bits as before. No register of the port is written before
/// the port's bus clock is on.
pub proof fn lemma_configure_brings_port_up(baudrate: u32, regs: RegisterFile)
    ensures
        ({
            let after = run(configure_plan_for(baudrate), regs);
            let on: u32 = 0x2D;
            &&& configure_plan_for(baudrate)[0] == Op::spec_set_bits(
                Register::RccApb2Enr,
                RCC_APB2ENR_USART1EN,
            )
            &&& after(Register::RccApb2Enr) & RCC_APB2ENR_USART1EN == RCC_APB2ENR_USART1EN
            &&& after(Register::UsartBrr) == baud_divider(PCLK1_FREQ, baudrate)
            &&& on == USART_CR1_UE | USART_CR1_RE | USART_CR1_TE | USART_CR1_RXNEIE
            &&& after(Register::UsartCr1) & on == on
            &&& after(Register::UsartCr1) & !on == regs(Register::UsartCr1) & !on
        }),
{
    let clock = seq![Op::spec_set_bits(Register::RccApb2Enr, RCC_APB2ENR_USART1EN)];
    let tx = seq![clock_enable_op(usart1_tx().port)] + configure_plan(
        usart1_tx().port,
        usart1_tx().pin,
        type_serial_usart1(),
    );
    let rx = seq![clock_enable_op(usart1_rx().port)] + configure_plan(
        usart1_rx().port,
        usart1_rx().pin,
        type_serial_usart1(),
    );
    let plan = configure_plan_for(baudrate);
    let tail = plan.subrange(plan.len() - 5, plan.len() as int);
    assert(pins_plan() =~= tx + rx);
    assert(plan =~= clock + tx + rx + tail);
    let r0 = run(clock, regs);
    assert(clock =~= Seq::<Op>::empty().push(clock[0]));
    lemma_run_push(Seq::<Op>::empty(), clock[0], regs);
    lemma_set_bits(regs(Register::RccApb2Enr), RCC_APB2ENR_USART1EN);
    lemma_run_concat(clock, tx, regs);
    let r1 = run(tx, r0);
    lemma_configure_pin(usart1_tx(), type_serial_usart1(), r0);
    lemma_run_concat(clock + tx, rx, regs);
    let r2 = run(rx, r1);
    lemma_configure_pin(usart1_rx(), type_serial_usart1(), r1);
    lemma_run_concat(clock + tx + rx, tail, regs);
    let t0 = Seq::<Op>::empty();
    let t1 = t0.push(tail[0]);
    let t2 = t1.push(tail[1]);
    let t3 = t2.push(tail[2]);
    let t4 = t3.push(tail[3]);
    assert(t4.push(tail[4]) =~= tail);
    lemma_run_push(t0, tail[0], r2);
    lemma_run_push(t1, tail[1], r2);
    lemma_run_push(t2, tail[2], r2);
    lemma_run_push(t3, tail[3], r2);
    lemma_run_push(t4, tail[4], r2);
    lemma_control_word(regs(Register::UsartCr1));
    assert(0x2Du32 == USART_CR1_UE | USART_CR1_RE | USART_CR1_TE | USART_CR1_RXNEIE)
        by (bit_vector);
}

/// Sending `bytes` is two steps for each byte, in the order of the bytes:
/// the store of the byte into the transmit register, and right after it the
/// wait for "transmission complete". No store comes before the wait for the
/// byte before it.
pub proof fn lemma_print_alternates(bytes: Seq<u8>)
    ensures
        print_plan(bytes).len() == 2 * bytes.len(),
        forall|k: int|
            0 <= k < bytes.len() ==> #[trigger] print_plan(bytes)[2 * k] == (Op::Write {
                reg: Register::UsartTdr,
                value: bytes[k] as u32,
            }) && print_plan(bytes)[2 * k + 1] == (Op::WaitSet {
                reg: Register::UsartIsr,
                mask: USART_ISR_TC,
            }),
    decreases bytes.len(),
{
    if bytes.len() > 0 {
        let front = bytes.drop_last();
        lemma_print_alternates(front);
        assert forall|k: int| 0 <= k < bytes.len() implies #[trigger] print_plan(bytes)[2 * k]
            == (Op::Write { reg: Register::UsartTdr, value: bytes[k] as u32 }) && print_plan(
            bytes,
        )[2 * k + 1] == (Op::WaitSet { reg: Register::UsartIsr, mask: USART_ISR_TC }) by {
            if k < front.len() {
                assert(print_plan(bytes)[2 * k] == print_plan(front)[2 * k]);
                assert(print_plan(bytes)[2 * k + 1] == print_plan(front)[2 * k + 1]);
                assert(front[k] == bytes[k]);
            } else {
                assert(print_plan(bytes)[2 * k] == write_byte_plan(bytes.last())[0]);
                assert(print_plan(bytes)[2 * k + 1] == write_byte_plan(bytes.last())[1]);
            }
        }
    }
}

/// Whether `byte` ends a line: line feed or carriage return.
pub open spec fn is_line_end(byte: u8) -> bool {
    byte == KEY_LINE_FEED || byte == KEY_CARRIAGE_RETURN
}

/// The text after one more key: the delete key takes the last character
/// away, if there is one; every other key is appended.
pub open spec fn text_after(text: Seq<u8>, key: u8) -> Seq<u8> {
    if key == KEY_DELETE {
        if text.len() > 0 {
            text.drop_last()
        } else {
            text
        }
    } else {
        text.push(key)
    }
}

/// What is sent back for one key: the erase sequence for the delete key, the
/// key itself for every other.
pub open spec fn echo_of(key: u8) -> Seq<Op> {
    if key == KEY_DELETE {
        erase_plan()
    } else {
        write_byte_plan(key)
    }
}

/// The text that the keys `keys`, none of them a line end, leave.
pub open spec fn typed_text(keys: Seq<u8>) -> Seq<u8>
    decreases keys.len(),
{
    if keys.len() == 0 {
        Seq::empty()
    } else {
        text_after(typed_text(keys.drop_last()), keys.last())
    }
}

/// All that is sent back for the keys `keys`, in order.
pub open spec fn typed_echo(keys: Seq<u8>) -> Seq<Op>
    decreases keys.len(),
{
    if keys.len() == 0 {
        Seq::empty()
    } else {
        typed_echo(keys.drop_last()) + echo_of(keys.last())
    }
}

/// How many keys come before the first line end of `input`; its length, if
/// it holds no line end.
pub open spec fn line_length(input: Seq<u8>) -> int
    decreases input.len(),
{
    if input.len() == 0 || is_line_end(input[0]) {
        0
    } else {
        1 + line_length(input.skip(1))
    }
}

/// What closes a line: the end of line is sent, and the receive interrupt
/// is let through again.
pub open spec fn closing_plan() -> Seq<Op> {
    line_end_plan().push(Op::spec_set_bits(Register::UsartCr1, USART_CR1_RXNEIE))
}

/// The keys of one line being read: the text so far.
pub struct LineEditor {
    pub text: Vec<u8>,
}

impl LineEditor {
    /// An editor with no text yet. The host performs
    /// `Serial::disable_interrupts` before it feeds the first key.
    pub fn new() -> (editor: LineEditor)
        ensures
            editor.text@ == Seq::<u8>::empty(),
    {
        LineEditor { text: Vec::new() }
    }

    /// Takes one received byte. A line end finishes the line: the text stays
    /// and the closing steps come back. Any other key changes the text and
    /// comes back with its echo.
    pub fn feed(&mut self, key: u8) -> (step: (bool, Vec<Op>))
        ensures
            step.0 == is_line_end(key),
            is_line_end(key) ==> final(self).text@ == old(self).text@ && step.1@ == closing_plan(),
            !is_line_end(key) ==> final(self).text@ == text_after(old(self).text@, key) && step.1@
                == echo_of(key),
    {
        if key == KEY_LINE_FEED || key == KEY_CARRIAGE_RETURN {
            let mut plan: Vec<Op> = Serial::write_byte(KEY_LINE_FEED);
            let back: Vec<Op> = Serial::write_byte(KEY_CARRIAGE_RETURN);
            extend(&mut plan, &back);
            plan.push(Serial::enable_interrupts());
            (true, plan)
        } else if key == KEY_DELETE {
            let plan: Vec<Op> = Serial::clear_last_char();
            self.text.pop();
            assert(old(self).text@.subrange(0, old(self).text@.len() - 1) =~= old(
                self,
            ).text@.drop_last());
            (false, plan)
        } else {
            let plan: Vec<Op> = Serial::write_byte(key);
            self.text.push(key);
            (false, plan)
        }
    }
}

/// The first line end of `input` is where `line_length` says, and no key
/// before it is a line end.
pub proof fn lemma_line_length(input: Seq<u8>)
    ensures
        0 <= line_length(input) <= input.len(),
        line_length(input) < input.len() ==> is_line_end(input[line_length(input)]),
        forall|i: int| 0 <= i < line_length(input) ==> !is_line_end(#[trigger] input[i]),
    decreases input.len(),
{
    if input.len() == 0 || is_line_end(input[0]) {
    } else {
        let rest = input.skip(1);
        lemma_line_length(rest);
        assert forall|i: int| 0 <= i < line_length(input) implies !is_line_end(
            #[trigger] input[i],
        ) by {
            if i > 0 {
                assert(input[i] == rest[i - 1]);
            }
        }
    }
}

impl Serial {
    /// The steps that bring the port up at 115200 baud.
    pub fn configure() -> (plan: Vec<Op>)
        ensures
            plan@ == configure_plan_for(DEFAULT_BAUDRATE),
    {
        let mut plan: Vec<Op> = Vec::new();
        plan.push(Self::enable_rcc_clock());
        let pins: Vec<Op> = Self::configure_gpio();
        extend(&mut plan, &pins);
        plan.push(Self::enabled(false));
        plan.push(Self::configure_basic_registers());
        plan.push(Self::set_baudrate(DEFAULT_BAUDRATE));
        plan.push(Self::enable_interrupts());
        plan.push(Self::enabled(true));
        assert(plan@ =~= configure_plan_for(DEFAULT_BAUDRATE));
        plan
    }

    /// The step that switches on the port's bus clock.
    pub fn enable_rcc_clock() -> (op: Op)
        ensures
            op == Op::spec_set_bits(Register::RccApb2Enr, RCC_APB2ENR_USART1EN),
    {
        Op::set_bits(Register::RccApb2Enr, RCC_APB2ENR_USART1EN)
    }

    /// The step that switches on transmitter and receiver.
    pub fn configure_basic_registers() -> (op: Op)
        ensures
            op == Op::spec_set_bits(Register::UsartCr1, USART_CR1_TE | USART_CR1_RE),
    {
        Op::set_bits(Register::UsartCr1, USART_CR1_TE | USART_CR1_RE)
    }

    /// The steps that configure the transmit and the receive pin.
    pub fn configure_gpio() -> (plan: Vec<Op>)
        ensures
            plan@ == pins_plan(),
    {
        let mut plan: Vec<Op> = usart1_tx().configure(type_serial_usart1());
        let rx: Vec<Op> = usart1_rx().configure(type_serial_usart1());
        extend(&mut plan, &rx);
        plan
    }

    /// The step that lets "receive register not empty" raise the interrupt.
    pub fn enable_interrupts() -> (op: Op)
        ensures
            op == Op::spec_set_bits(Register::UsartCr1, USART_CR1_RXNEIE),
    {
        Op::set_bits(Register::UsartCr1, USART_CR1_RXNEIE)
    }

    /// The step that keeps "receive register not empty" from raising the interrupt.
    pub fn disable_interrupts() -> (op: Op)
        ensures
            op == Op::spec_clear_bits(Register::UsartCr1, USART_CR1_RXNEIE),
    {
        Op::clear_bits(Register::UsartCr1, USART_CR1_RXNEIE)
    }

    /// The step that programs the divider for `baudrate` on the bus clock of
    /// the clock plan.
    pub fn set_baudrate(baudrate: u32) -> (op: Op)
        requires
            baudrate > 0,
        ensures
            op == (Op::Write {
                reg: Register::UsartBrr,
                value: baud_divider(PCLK1_FREQ, baudrate),
            }),
    {
        Op::Write { reg: Register::UsartBrr, value: PCLK1_FREQ / baudrate }
    }

    /// The step that switches the peripheral on or off.
    pub fn enabled(enable: bool) -> (op: Op)
        ensures
            enable ==> op == Op::spec_set_bits(Register::UsartCr1, USART_CR1_UE),
            !enable ==> op == Op::spec_clear_bits(Register::UsartCr1, USART_CR1_UE),
    {
        if enable {
            Op::set_bits(Register::UsartCr1, USART_CR1_UE)
        } else {
            Op::clear_bits(Register::UsartCr1, USART_CR1_UE)
        }
    }

    /// The steps that send the bytes of `d`, in order.
    pub fn print(d: &str) -> (plan: Vec<Op>)
        ensures
            plan@ == print_plan(d.spec_bytes()),
    {
        Self::print_bytes(d.as_bytes())
    }

    /// The steps that send `bytes`, in order.
    pub fn print_bytes(bytes: &[u8]) -> (plan: Vec<Op>)
        ensures
            plan@ == print_plan(bytes@),
    {
        let mut plan: Vec<Op> = Vec::new();
        let mut i: usize = 0;
        while i < bytes.len()
            invariant
                i <= bytes.len(),
                plan@ == print_plan(bytes@.subrange(0, i as int)),
            decreases bytes.len() - i,
        {
            let one: Vec<Op> = Self::write_byte(bytes[i]);
            extend(&mut plan, &one);
            assert(bytes@.subrange(0, i + 1).drop_last() =~= bytes@.subrange(0, i as int));
            i += 1;
        }
        assert(bytes@.subrange(0, bytes@.len() as int) =~= bytes@);
        plan
    }

    /// The steps that send the bytes of `d` and then the end of a line.
    pub fn println(d: &str) -> (plan: Vec<Op>)
        ensures
            plan@ == println_plan(d),
    {
        let mut plan: Vec<Op> = Self::print(d);
        let feed: Vec<Op> = Self::write_byte(KEY_LINE_FEED);
        let back: Vec<Op> = Self::write_byte(KEY_CARRIAGE_RETURN);
        extend(&mut plan, &feed);
        extend(&mut plan, &back);
        assert(plan@ =~= print_plan(d.spec_bytes()) + line_end_plan());
        plan
    }

    /// The steps that send one byte.
    pub fn write_byte(byte: u8) -> (plan: Vec<Op>)
        ensures
            plan@ == write_byte_plan(byte),
    {
        let mut plan: Vec<Op> = Vec::new();
        plan.push(Op::Write { reg: Register::UsartTdr, value: byte as u32 });
        plan.push(Op::WaitSet { reg: Register::UsartIsr, mask: USART_ISR_TC });
        assert(plan@ =~= write_byte_plan(byte));
        plan
    }

    /// Whether the status word `status` shows a byte to fetch: the host reads
    /// the data register only then.
    pub fn data_ready(status: u32) -> (ready: bool)
        ensures
            ready == (read_result(status, 0) is Ok),
    {
        status & USART_ISR_ORE == 0 && status & USART_ISR_RXNE != 0
    }

    /// The outcome of a read that does not wait. `status` is the status word;
    /// `data` is the data word, which counts only where `data_ready(status)`
    /// holds. Nothing is stored anywhere: an overrun stays flagged until
    /// `clear_ore_flag` is performed.
    pub fn read_byte(status: u32, data: u32) -> (outcome: Result<u8, SerialError>)
        ensures
            outcome == read_result(status, data),
    {
        if status & USART_ISR_ORE != 0 {
            return Err(SerialError::OverRun);
        }
        if status & USART_ISR_RXNE == 0 {
            return Err(SerialError::NoDataFound);
        }
        Ok((data & 0xFF) as u8)
    }

    /// Reads one line out of `input`, the bytes received in order. The keys
    /// before the first line end are edited into the text, and the steps are
    /// those of the whole session: the receive interrupt is held back, each
    /// key is echoed, the line is closed. Without a line end in `input` there
    /// is no line yet.
    pub fn read_input_text(input: &[u8]) -> (line: Option<(Vec<u8>, Vec<Op>)>)
        ensures
            match line {
                Some((text, plan)) => {
                    &&& line_length(input@) < input@.len()
                    &&& text@ == typed_text(input@.take(line_length(input@)))
                    &&& plan@ == seq![Op::spec_clear_bits(Register::UsartCr1, USART_CR1_RXNEIE)]
                        + typed_echo(input@.take(line_length(input@))) + closing_plan()
                },
                None => line_length(input@) >= input@.len(),
            },
    {
        let mut editor: LineEditor = LineEditor::new();
        let mut plan: Vec<Op> = Vec::new();
        plan.push(Self::disable_interrupts());
        let mut i: usize = 0;
        assert(input@.take(0) =~= Seq::<u8>::empty());
        assert(input@.skip(0) =~= input@);
        while i < input.len()
            invariant
                i <= input.len(),
                line_length(input@) == i + line_length(input@.skip(i as int)),
                editor.text@ == typed_text(input@.take(i as int)),
                plan@ == seq![Op::spec_clear_bits(Register::UsartCr1, USART_CR1_RXNEIE)]
                    + typed_echo(input@.take(i as int)),
            decreases input.len() - i,
        {
            let key: u8 = input[i];
            let step: (bool, Vec<Op>) = editor.feed(key);
            extend(&mut plan, &step.1);
            proof {
                assert(input@.skip(i as int)[0] == key);
            }
            if step.0 {
                return Some((editor.text, plan));
            }
            proof {
                assert(input@.skip(i as int).skip(1) =~= input@.skip(i + 1));
                assert(input@.take(i + 1).drop_last() =~= input@.take(i as int));
                assert(input@.take(i + 1).last() == key);
            }
            i += 1;
        }
        None
    }

    /// The step that clears the overrun flag.
    pub fn clear_ore_flag() -> (op: Op)
        ensures
            op == Op::spec_set_bits(Register::UsartIcr, USART_ICR_ORECF),
    {
        Op::set_bits(Register::UsartIcr, USART_ICR_ORECF)
    }

    /// The steps that take back the last echoed character.
    pub fn clear_last_char() -> (plan: Vec<Op>)
        ensures
            plan@ == erase_plan(),
    {
        let mut plan: Vec<Op> = Self::write_byte(0x08);
        let blank: Vec<Op> = Self::write_byte(0x20);
        let escape: Vec<Op> = Self::write_byte(0x1B);
        let bracket: Vec<Op> = Self::write_byte(0x5B);
        let one: Vec<Op> = Self::write_byte(0x31);
        let left: Vec<Op> = Self::write_byte(0x44);
        extend(&mut plan, &blank);
        extend(&mut plan, &escape);
        extend(&mut plan, &bracket);
        extend(&mut plan, &one);
        extend(&mut plan, &left);
        plan
    }
}

} // verus!
