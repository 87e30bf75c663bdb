use crate::bits::{field, modified};
use crate::bus::{lemma_run_push, run, Op, Register, RegisterFile};
use crate::coreutils::Conversions;
use crate::drivers::i2c::{I2cError, I2C};
use vstd::prelude::*;

verus! {

/// Control register 2: the address field.
pub const I2C_CR2_SADD: u32 = 0x000003FF;

/// Control register 2: the reading procedure of a ten-bit read.
pub const I2C_CR2_HEAD10R: u32 = 0x00001000;

/// Control register 2: the byte-count field.
pub const I2C_CR2_NBYTES: u32 = 0x00FF0000;

/// Control register 2: transfer direction, clear for a write.
pub const I2C_CR2_RD_WRN: u32 = 0x00000400;

/// Control register 2: ten-bit addressing.
pub const I2C_CR2_ADD10: u32 = 0x00000800;

/// Control register 2: start condition.
pub const I2C_CR2_START: u32 = 0x00002000;

/// Control register 2: stop condition.
pub const I2C_CR2_STOP: u32 = 0x00004000;

/// Control register 2: stop by itself after the last byte.
pub const I2C_CR2_AUTOEND: u32 = 0x02000000;

/// Status register: transmit register empty.
pub const I2C_ISR_TXE: u32 = 0x00000001;

/// Status register: transmit register wants the next byte.
pub const I2C_ISR_TXIS: u32 = 0x00000002;

/// Status register: received data waits.
pub const I2C_ISR_RXNE: u32 = 0x00000004;

/// Status register: own address matched.
pub const I2C_ISR_ADDR: u32 = 0x00000008;

/// Status register: not acknowledged.
pub const I2C_ISR_NACKF: u32 = 0x00000010;

/// Status register: transfer complete.
pub const I2C_ISR_TC: u32 = 0x00000040;

/// Status register: bus error.
pub const I2C_ISR_BERR: u32 = 0x00000100;

/// Status register: arbitration lost.
pub const I2C_ISR_ARLO: u32 = 0x00000200;

/// Status register: overrun or underrun.
pub const I2C_ISR_OVR: u32 = 0x00000400;

/// Status register: packet error check failed.
pub const I2C_ISR_PECERR: u32 = 0x00000800;

/// Status register: clock held low too long.
pub const I2C_ISR_TIMEOUT: u32 = 0x00001000;

/// Flag-clear register: clear "own address matched".
pub const I2C_ICR_ADDRCF: u32 = 0x00000008;

/// How a ten-bit read repeats the address after the direction changes.
#[derive(Clone, Copy, Debug, PartialEq, Eq, Structural)]
pub enum I2cHeaderOnlyReadDirection10Bit {
    CompleteSlaveAddress,
    SevenBitsFirst,
}

impl Conversions for I2cHeaderOnlyReadDirection10Bit {
    open spec fn encoding(&self) -> u32 {
        match self {
            I2cHeaderOnlyReadDirection10Bit::CompleteSlaveAddress => 0,
            I2cHeaderOnlyReadDirection10Bit::SevenBitsFirst => 1,
        }
    }

    fn as_u32(&self) -> (bits: u32) {
        match self {
            I2cHeaderOnlyReadDirection10Bit::CompleteSlaveAddress => 0,
            I2cHeaderOnlyReadDirection10Bit::SevenBitsFirst => 1,
        }
    }
}

/// Whom a transfer addresses, and how.
#[derive(Clone, Copy, Debug, PartialEq, Eq, Structural)]
pub struct MasterConfig {
    pub slave_address_to_send: u16,
    pub address_10_bit_mode: bool,
    pub i2c_10_bit_reading_procedure: Option<I2cHeaderOnlyReadDirection10Bit>,
}

/// The content of the ten-bit address field: a ten-bit address as it is, a
/// seven-bit address shifted left by one.
pub open spec fn address_field(address: u16, ten_bit: bool) -> u32 {
    if ten_bit {
        (address as u32) & 0x3FF
    } else {
        ((address as u32) << 1u32) & 0x3FF
    }
}

/// The content of the byte-count field, in place at bit 16, for a buffer of
/// `len` bytes: the low eight bits of `len`.
pub open spec fn byte_count_field(len: usize) -> u32 {
    ((len & 0xFF) as u32) << 16u32
}

/// The address phase of a write of `len` bytes to the seven-bit address
/// `dev_address`, all of it before the start condition: direction, address,
/// byte count, automatic end; then the start condition.
pub open spec fn master_transmit_plan(dev_address: u16, len: usize) -> Seq<Op> {
    seq![
        Op::spec_clear_bits(Register::I2cCr2, I2C_CR2_RD_WRN),
        Op::Modify {
            reg: Register::I2cCr2,
            clear: I2C_CR2_SADD,
            set: address_field(dev_address, false),
        },
        Op::Modify { reg: Register::I2cCr2, clear: I2C_CR2_NBYTES, set: byte_count_field(len) },
        Op::spec_set_bits(Register::I2cCr2, I2C_CR2_AUTOEND),
        Op::spec_set_bits(Register::I2cCr2, I2C_CR2_START),
    ]
}

/// The address phase as `config` gives it, over a cleared control register:
/// addressing mode, address, and the ten-bit reading procedure if there is one.
pub open spec fn begin_transmission_plan(config: MasterConfig) -> Seq<Op> {
    let head = seq![
        Op::Write { reg: Register::I2cCr2, value: 0 },
        Op::spec_set_bits(Register::I2cCr2, config.address_10_bit_mode.encoding() << 11u32),
        Op::spec_set_bits(
            Register::I2cCr2,
            address_field(config.slave_address_to_send, config.address_10_bit_mode),
        ),
    ];
    match config.i2c_10_bit_reading_procedure {
        Some(procedure) => head.push(
            Op::spec_set_bits(Register::I2cCr2, procedure.encoding() << 12u32),
        ),
        None => head,
    }
}

/// What starts a write of `len` bytes after `begin_transmission`: the byte
/// count written into its field, the direction cleared, the start condition.
pub open spec fn transmit_plan(len: usize) -> Seq<Op> {
    seq![
        Op::Modify { reg: Register::I2cCr2, clear: I2C_CR2_NBYTES, set: byte_count_field(len) },
        Op::spec_clear_bits(Register::I2cCr2, I2C_CR2_RD_WRN),
        Op::spec_set_bits(Register::I2cCr2, I2C_CR2_START),
    ]
}

/// The error that the status word `status` flags, if any. Where it flags
/// several, the first of these counts: not acknowledged, arbitration lost,
/// bus error, overrun or underrun, packet error, timeout.
pub open spec fn flagged_error(status: u32) -> Option<I2cError> {
    if status & I2C_ISR_NACKF != 0 {
        Some(I2cError::NotAcknowledged)
    } else if status & I2C_ISR_ARLO != 0 {
        Some(I2cError::ArbitrationLost)
    } else if status & I2C_ISR_BERR != 0 {
        Some(I2cError::BusError)
    } else if status & I2C_ISR_OVR != 0 {
        Some(I2cError::OverrunUnderrun)
    } else if status & I2C_ISR_PECERR != 0 {
        Some(I2cError::PECError)
    } else if status & I2C_ISR_TIMEOUT != 0 {
        Some(I2cError::TimeOut)
    } else {
        None
    }
}

/// What the host does next in the data phase of a write.
#[derive(Clone, Copy, Debug, PartialEq, Eq, Structural)]
pub enum TransferStep {
    /// Read the status register again.
    Poll,
    /// Store this byte into the transmit register, then read the status
    /// register again.
    Send(u8),
    /// The transfer is complete.
    Complete,
    /// The transfer has failed.
    Failed(I2cError),
}

/// The data phase of a write: how many bytes have gone to the transmit
/// register, and how many reads of the status register may still come back
/// without progress.
#[derive(Clone, Copy, Debug, PartialEq, Eq, Structural)]
pub struct MasterWrite {
    pub sent: usize,
    pub polls_left: u32,
}

/// What one read of the status register leads to, for a transfer that has
/// sent `sent` bytes of `buffer` and has `polls_left` idle reads left. Errors
/// come first, then completion, then the next byte; a request for a byte
/// beyond the buffer is an overrun; a read that shows none of these is idle,
/// and the last idle read allowed is a timeout.
pub open spec fn step_of(buffer: Seq<u8>, sent: usize, polls_left: u32, status: u32) -> TransferStep {
    match flagged_error(status) {
        Some(error) => TransferStep::Failed(error),
        None => if status & I2C_ISR_TC != 0 {
            TransferStep::Complete
        } else if status & I2C_ISR_TXIS != 0 {
            if sent < buffer.len() {
                TransferStep::Send(buffer[sent as int])
            } else {
                TransferStep::Failed(I2cError::OverrunUnderrun)
            }
        } else if polls_left <= 1 {
            TransferStep::Failed(I2cError::TimeOut)
        } else {
            TransferStep::Poll
        },
    }
}

/// What five read-modify-writes in a row leave in the control register:
/// direction cleared, address and byte count replaced, automatic end and
/// start set.
proof fn lemma_address_phase_word(word: u32, address: u32, count: u32)
    by (bit_vector)
    requires
        address <= 0x3FF,
        count <= 0xFF,
    ensures
        ({
            let after = modified(
                modified(
                    modified(
                        modified(modified(word, I2C_CR2_RD_WRN, 0), I2C_CR2_SADD, address),
                        I2C_CR2_NBYTES,
                        count << 16u32,
                    ),
                    0,
                    I2C_CR2_AUTOEND,
                ),
                0,
                I2C_CR2_START,
            );
            &&& field(after, 0, 10) == address
            &&& field(after, 10, 1) == 0
            &&& field(after, 16, 8) == count
            &&& after & I2C_CR2_AUTOEND == I2C_CR2_AUTOEND
            &&& after & I2C_CR2_START == I2C_CR2_START
            &&& after & 0xFC005800 == word & 0xFC005800
        }),
{
}

/// The address field of a seven-bit address is the address doubled, and the
/// byte-count field of a buffer of up to 255 bytes is its length.
proof fn lemma_transfer_fields(dev_address: u16, len: usize)
    by (bit_vector)
    ensures
        address_field(dev_address, false) <= 0x3FF,
        dev_address < 512 ==> address_field(dev_address, false) == 2 * dev_address,
        byte_count_field(len) == ((len & 0xFF) as u32) << 16u32,
        (len & 0xFF) as u32 <= 0xFF,
        len <= 255 ==> (len & 0xFF) as u32 == len,
{
}

/// After the address phase of a write, the control register holds the low
/// eight bits of the buffer's length in its byte-count field, a clear
/// direction bit, which means write, and the address shifted left by one in
/// its address field; automatic end and the start condition are set, the
/// other bits of the register and all other registers are as before. For a
/// buffer of up to 255 bytes the byte count is the length; for an address
/// below 512 the address field holds twice the address.
pub proof fn lemma_master_transmit_programs_transfer(
    dev_address: u16,
    len: usize,
    regs: RegisterFile,
)
    ensures
        ({
            let after = run(master_transmit_plan(dev_address, len), regs);
            let cr2 = after(Register::I2cCr2);
            &&& field(cr2, 16, 8) == (len & 0xFF) as u32
            &&& len <= 255 ==> field(cr2, 16, 8) == len
            &&& field(cr2, 10, 1) == 0
            &&& field(cr2, 0, 10) == address_field(dev_address, false)
            &&& dev_address < 512 ==> field(cr2, 0, 10) == 2 * dev_address
            &&& cr2 & I2C_CR2_AUTOEND == I2C_CR2_AUTOEND
            &&& cr2 & I2C_CR2_START == I2C_CR2_START
            &&& cr2 & 0xFC005800 == regs(Register::I2cCr2) & 0xFC005800
            &&& forall|reg: Register| reg != Register::I2cCr2 ==> #[trigger] after(reg) == regs(reg)
        }),
{
    let plan = master_transmit_plan(dev_address, len);
    let p0 = Seq::<Op>::empty();
    let p1 = p0.push(plan[0]);
    let p2 = p1.push(plan[1]);
    let p3 = p2.push(plan[2]);
    let p4 = p3.push(plan[3]);
    assert(p4.push(plan[4]) =~= plan);
    lemma_run_push(p0, plan[0], regs);
    lemma_run_push(p1, plan[1], regs);
    lemma_run_push(p2, plan[2], regs);
    lemma_run_push(p3, plan[3], regs);
    lemma_run_push(p4, plan[4], regs);
    lemma_transfer_fields(dev_address, len);
    lemma_address_phase_word(
        regs(Register::I2cCr2),
        address_field(dev_address, false),
        (len & 0xFF) as u32,
    );
}

/// Whether a step is a read-modify-write that leaves the start bit alone.
pub open spec fn sets_no_start(op: Op) -> bool {
    match op {
        Op::Modify { set, .. } => set & I2C_CR2_START == 0,
        _ => false,
    }
}

/// What the three steps that start a write leave in the control register.
proof fn lemma_transmit_word(word: u32, count: u32)
    by (bit_vector)
    requires
        count <= 0xFF,
    ensures
        ({
            let after = modified(
                modified(modified(word, I2C_CR2_NBYTES, count << 16u32), I2C_CR2_RD_WRN, 0),
                0,
                I2C_CR2_START,
            );
            &&& field(after, 16, 8) == count
            &&& field(after, 10, 1) == 0
            &&& after & I2C_CR2_START == I2C_CR2_START
            &&& field(after, 0, 10) == field(word, 0, 10)
            &&& field(after, 11, 1) == field(word, 11, 1)
            &&& after & !0x00FF2400u32 == word & !0x00FF2400u32
        }),
{
}

/// After the steps that start a write of `len` bytes, the byte-count field
/// holds the low eight bits of `len`, whatever it held before, the direction
/// bit is clear, which means write, and the start bit is set. The address
/// field, the addressing mode and every other bit of the register are as
/// before, and so is every other register. For a buffer of up to 255 bytes
/// the byte count is the length.
pub proof fn lemma_transmit_programs_transfer(len: usize, regs: RegisterFile)
    ensures
        ({
            let after = run(transmit_plan(len), regs);
            let cr2 = after(Register::I2cCr2);
            let before = regs(Register::I2cCr2);
            &&& field(cr2, 16, 8) == (len & 0xFF) as u32
            &&& len <= 255 ==> field(cr2, 16, 8) == len
            &&& field(cr2, 10, 1) == 0
            &&& cr2 & I2C_CR2_START == I2C_CR2_START
            &&& field(cr2, 0, 10) == field(before, 0, 10)
            &&& field(cr2, 11, 1) == field(before, 11, 1)
            &&& cr2 & !0x00FF2400u32 == before & !0x00FF2400u32
            &&& transmit_plan(len).last() == Op::spec_set_bits(Register::I2cCr2, I2C_CR2_START)
            &&& forall|reg: Register| reg != Register::I2cCr2 ==> #[trigger] after(reg) == regs(reg)
        }),
{
    let plan = transmit_plan(len);
    let p0 = Seq::<Op>::empty();
    let p1 = p0.push(plan[0]);
    let p2 = p1.push(plan[1]);
    assert(p2.push(plan[2]) =~= plan);
    lemma_run_push(p0, plan[0], regs);
    lemma_run_push(p1, plan[1], regs);
    lemma_run_push(p2, plan[2], regs);
    lemma_transfer_fields(0, len);
    lemma_transmit_word(regs(Register::I2cCr2), (len & 0xFF) as u32);
}

/// What the address phase of `begin_transmission` leaves in a cleared word.
proof fn lemma_address_word(mode: u32, address: u32, procedure: u32)
    by (bit_vector)
    requires
        mode <= 1,
        address <= 0x3FF,
        procedure <= 1,
    ensures
        ({
            let plain = modified(modified(0, 0, mode << 11u32), 0, address);
            let full = modified(plain, 0, procedure << 12u32);
            &&& field(plain, 0, 10) == address
            &&& field(plain, 11, 1) == mode
            &&& field(plain, 12, 1) == 0
            &&& plain & !0x1BFFu32 == 0
            &&& field(full, 0, 10) == address
            &&& field(full, 11, 1) == mode
            &&& field(full, 12, 1) == procedure
            &&& full & !0x1BFFu32 == 0
        }),
{
}

/// The address field never holds more than ten bits.
proof fn lemma_address_fits(address: u16, ten_bit: bool)
    by (bit_vector)
    ensures
        address_field(address, ten_bit) <= 0x3FF,
        ten_bit ==> address_field(address, ten_bit) == (address as u32) & 0x3FF,
        !ten_bit && address < 512 ==> address_field(address, ten_bit) == 2 * address,
{
}

/// After `begin_transmission` the control register holds the address in its
/// address field, as it is for a ten-bit address and shifted left by one for
/// a seven-bit address, the addressing mode in bit 11 and the reading
/// procedure, if `config` has one, in bit 12. Every other bit of the
/// register is clear, whatever it held before: no count, no direction and no
/// start condition is left over from an earlier transfer. No other register
/// changes.
pub proof fn lemma_begin_transmission_programs_address(config: MasterConfig, regs: RegisterFile)
    ensures
        ({
            let after = run(begin_transmission_plan(config), regs);
            let cr2 = after(Register::I2cCr2);
            &&& field(cr2, 0, 10) == address_field(
                config.slave_address_to_send,
                config.address_10_bit_mode,
            )
            &&& field(cr2, 11, 1) == config.address_10_bit_mode.encoding()
            &&& field(cr2, 12, 1) == match config.i2c_10_bit_reading_procedure {
                Some(procedure) => procedure.encoding(),
                None => 0,
            }
            &&& cr2 & !0x1BFFu32 == 0
            &&& forall|reg: Register| reg != Register::I2cCr2 ==> #[trigger] after(reg) == regs(reg)
        }),
{
    let plan = begin_transmission_plan(config);
    let address = address_field(config.slave_address_to_send, config.address_10_bit_mode);
    let p0 = Seq::<Op>::empty();
    let p1 = p0.push(plan[0]);
    let p2 = p1.push(plan[1]);
    let p3 = p2.push(plan[2]);
    lemma_run_push(p0, plan[0], regs);
    lemma_run_push(p1, plan[1], regs);
    lemma_run_push(p2, plan[2], regs);
    lemma_address_fits(config.slave_address_to_send, config.address_10_bit_mode);
    match config.i2c_10_bit_reading_procedure {
        Some(procedure) => {
            assert(p3.push(plan[3]) =~= plan);
            lemma_run_push(p3, plan[3], regs);
            lemma_address_word(
                config.address_10_bit_mode.encoding(),
                address,
                procedure.encoding(),
            );
        },
        None => {
            assert(p3 =~= plan);
            lemma_address_word(config.address_10_bit_mode.encoding(), address, 0);
        },
    }
}

/// No step of the address phase but the last sets the start bit.
proof fn lemma_fields_spare_start(address: u32, count: u32)
    by (bit_vector)
    requires
        address <= 0x3FF,
        count <= 0xFF,
    ensures
        address & I2C_CR2_START == 0,
        (count << 16u32) & I2C_CR2_START == 0,
        I2C_CR2_AUTOEND & I2C_CR2_START == 0,
        0u32 & I2C_CR2_START == 0,
{
}

/// In the address phase the start condition is the last step, and no step
/// before it sets the start bit: direction, address, byte count and
/// automatic end are all programmed before the transfer starts.
pub proof fn lemma_start_comes_last(dev_address: u16, len: usize)
    ensures
        master_transmit_plan(dev_address, len).last() == Op::spec_set_bits(
            Register::I2cCr2,
            I2C_CR2_START,
        ),
        forall|i: int|
            0 <= i < master_transmit_plan(dev_address, len).len() - 1 ==> sets_no_start(
                #[trigger] master_transmit_plan(dev_address, len)[i],
            ),
{
    lemma_transfer_fields(dev_address, len);
    lemma_fields_spare_start(address_field(dev_address, false), (len & 0xFF) as u32);
}

impl MasterWrite {
    /// A data phase at its beginning, with `max_polls` idle reads allowed.
    pub fn new(max_polls: u32) -> (transfer: MasterWrite)
        ensures
            transfer.sent == 0,
            transfer.polls_left == max_polls,
    {
        MasterWrite { sent: 0, polls_left: max_polls }
    }

    /// Takes the status word that the host has just read and says what to do
    /// next. A byte handed out counts as sent; an idle read is charged to the
    /// budget; nothing else changes.
    pub fn step(&mut self, buffer: &[u8], status: u32) -> (next: TransferStep)
        ensures
            next == step_of(buffer@, old(self).sent, old(self).polls_left, status),
            next is Send ==> final(self).sent == old(self).sent + 1 && final(self).polls_left
                == old(self).polls_left,
            next is Poll ==> final(self).sent == old(self).sent && final(self).polls_left == old(
                self,
            ).polls_left - 1,
            next is Complete || next is Failed ==> *final(self) == *old(self),
    {
        match I2C::check_error_flags(status) {
            Some(error) => TransferStep::Failed(error),
            None => {
                if status & I2C_ISR_TC != 0 {
                    TransferStep::Complete
                } else if status & I2C_ISR_TXIS != 0 {
                    if self.sent < buffer.len() {
                        let byte: u8 = buffer[self.sent];
                        self.sent = self.sent + 1;
                        TransferStep::Send(byte)
                    } else {
                        TransferStep::Failed(I2cError::OverrunUnderrun)
                    }
                } else if self.polls_left <= 1 {
                    TransferStep::Failed(I2cError::TimeOut)
                } else {
                    self.polls_left = self.polls_left - 1;
                    TransferStep::Poll
                }
            },
        }
    }
}

impl I2C {
    /// The steps of the address phase of a write of `buffer` to the
    /// seven-bit address `dev_address`, up to and with the start condition.
    /// The data phase follows: see `MasterWrite`.
    pub fn master_transmit(dev_address: u16, buffer: &[u8]) -> (plan: Vec<Op>)
        ensures
            plan@ == master_transmit_plan(dev_address, buffer@.len() as usize),
    {
        let mut plan: Vec<Op> = Vec::new();
        plan.push(Op::clear_bits(Register::I2cCr2, I2C_CR2_RD_WRN));
        plan.push(
            Op::Modify {
                reg: Register::I2cCr2,
                clear: I2C_CR2_SADD,
                set: ((dev_address as u32) << 1u32) & 0x3FF,
            },
        );
        plan.push(
            Op::Modify {
                reg: Register::I2cCr2,
                clear: I2C_CR2_NBYTES,
                set: ((buffer.len() & 0xFF) as u32) << 16u32,
            },
        );
        plan.push(Op::set_bits(Register::I2cCr2, I2C_CR2_AUTOEND));
        plan.push(Op::set_bits(Register::I2cCr2, I2C_CR2_START));
        assert(plan@ =~= master_transmit_plan(dev_address, buffer@.len() as usize));
        plan
    }

    /// The steps that program whom the next transfer addresses.
    pub fn begin_transmission(config: MasterConfig) -> (plan: Vec<Op>)
        ensures
            plan@ == begin_transmission_plan(config),
    {
        Self::master_initialization_address_phase(config)
    }

    /// The steps that start a write of `data` after `begin_transmission`.
    /// The data phase follows: see `MasterWrite`.
    pub fn transmit(data: &[u8]) -> (plan: Vec<Op>)
        ensures
            plan@ == transmit_plan(data@.len() as usize),
    {
        let mut plan: Vec<Op> = Self::master_set_number_of_bytes_and_transfer_direction(data.len());
        plan.push(Self::start_condition());
        plan
    }

    /// The step that ends a transfer with a stop condition.
    pub fn end_transmission() -> (op: Op)
        ensures
            op == Op::spec_set_bits(Register::I2cCr2, I2C_CR2_STOP),
    {
        Self::stop_condition()
    }

    /// The error that the status word flags, if any.
    pub fn check_error_flags(status: u32) -> (error: Option<I2cError>)
        ensures
            error == flagged_error(status),
    {
        if status & I2C_ISR_NACKF != 0 {
            Some(I2cError::NotAcknowledged)
        } else if status & I2C_ISR_ARLO != 0 {
            Some(I2cError::ArbitrationLost)
        } else if status & I2C_ISR_BERR != 0 {
            Some(I2cError::BusError)
        } else if status & I2C_ISR_OVR != 0 {
            Some(I2cError::OverrunUnderrun)
        } else if status & I2C_ISR_PECERR != 0 {
            Some(I2cError::PECError)
        } else if status & I2C_ISR_TIMEOUT != 0 {
            Some(I2cError::TimeOut)
        } else {
            None
        }
    }

    /// The steps that send one byte by hand: wait for the transmit register
    /// to be empty, then store the byte.
    pub fn write_into_tr_register(data_slice: u8) -> (plan: Vec<Op>)
        ensures
            plan@ == seq![
                Op::WaitSet { reg: Register::I2cIsr, mask: I2C_ISR_TXE },
                Op::Write { reg: Register::I2cTxdr, value: data_slice as u32 },
            ],
    {
        let mut plan: Vec<Op> = Vec::new();
        plan.push(Op::WaitSet { reg: Register::I2cIsr, mask: I2C_ISR_TXE });
        plan.push(Op::Write { reg: Register::I2cTxdr, value: data_slice as u32 });
        plan
    }

    /// The steps that write the byte count into its field and clear the
    /// direction bit, which asks for a write.
    pub fn master_set_number_of_bytes_and_transfer_direction(
        number_of_bytes_to_transmit: usize,
    ) -> (plan: Vec<Op>)
        ensures
            plan@ == seq![
                Op::Modify {
                    reg: Register::I2cCr2,
                    clear: I2C_CR2_NBYTES,
                    set: byte_count_field(number_of_bytes_to_transmit),
                },
                Op::spec_clear_bits(Register::I2cCr2, I2C_CR2_RD_WRN),
            ],
    {
        let mut plan: Vec<Op> = Vec::new();
        plan.push(
            Op::Modify {
                reg: Register::I2cCr2,
                clear: I2C_CR2_NBYTES,
                set: ((number_of_bytes_to_transmit & 0xFF) as u32) << 16u32,
            },
        );
        plan.push(Op::clear_bits(Register::I2cCr2, I2C_CR2_RD_WRN));
        plan
    }

    /// The steps of the address phase as `config` gives it; they belong before
    /// the start condition, after which the fields may not change.
    pub fn master_initialization_address_phase(config: MasterConfig) -> (plan: Vec<Op>)
        ensures
            plan@ == begin_transmission_plan(config),
    {
        let mut plan: Vec<Op> = Vec::new();
        plan.push(Op::Write { reg: Register::I2cCr2, value: 0 });
        plan.push(Op::set_bits(Register::I2cCr2, config.address_10_bit_mode.as_u32() << 11u32));
        let address: u32 = if config.address_10_bit_mode {
            (config.slave_address_to_send as u32) & 0x3FF
        } else {
            ((config.slave_address_to_send as u32) << 1u32) & 0x3FF
        };
        plan.push(Op::set_bits(Register::I2cCr2, address));
        match config.i2c_10_bit_reading_procedure {
            Some(procedure) => {
                plan.push(Op::set_bits(Register::I2cCr2, procedure.as_u32() << 12u32));
            },
            None => {},
        }
        assert(plan@ =~= begin_transmission_plan(config));
        plan
    }

    /// The step that puts a start condition on the bus.
    pub fn start_condition() -> (op: Op)
        ensures
            op == Op::spec_set_bits(Register::I2cCr2, I2C_CR2_START),
    {
        Op::set_bits(Register::I2cCr2, I2C_CR2_START)
    }

    /// The step that puts a stop condition on the bus.
    pub fn stop_condition() -> (op: Op)
        ensures
            op == Op::spec_set_bits(Register::I2cCr2, I2C_CR2_STOP),
    {
        Op::set_bits(Register::I2cCr2, I2C_CR2_STOP)
    }

    /// The interrupt path, first half: on an address match, the match flag
    /// is to be cleared and the match notified.
    pub fn on_address_event(status: u32) -> (clear: Option<Op>)
        ensures
            clear == if status & I2C_ISR_ADDR != 0 {
                Some(Op::Write { reg: Register::I2cIcr, value: I2C_ICR_ADDRCF })
            } else {
                None
            },
    {
        if status & I2C_ISR_ADDR != 0 {
            Some(Op::Write { reg: Register::I2cIcr, value: I2C_ICR_ADDRCF })
        } else {
            None
        }
    }

    /// The interrupt path, second half: the byte to notify, if the status
    /// word shows one. `data` is the receive register, which the host reads
    /// only where the status word has "received data waits" set.
    pub fn on_receive_event(status: u32, data: u32) -> (byte: Option<u8>)
        ensures
            byte == if status & I2C_ISR_RXNE != 0 {
                Some((data & 0xFF) as u8)
            } else {
                None
            },
    {
        if status & I2C_ISR_RXNE != 0 {
            Some((data & 0xFF) as u8)
        } else {
            None
        }
    }
}

} // verus!
