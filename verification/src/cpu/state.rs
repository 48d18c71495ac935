//! The processor as a mathematical state machine.
//!
//! A `CpuState` holds the registers, the latches and the queue of microcode
//! steps. `access` says which bus access the next cycle makes, and `step`
//! says what state the cycle leaves, given the byte that the bus returned.
//! Nothing else enters a cycle, so the two functions describe the processor
//! on any bus.

use vstd::prelude::*;
use crate::address::{high_byte, join_bytes, low_byte};
use super::{BusRead, BusWrite, IndexRegister, Latch, MicrocodeTask, Source, Status, IRQ_VECTOR,
    RESET_VECTOR, STACK_OFFSET};
use super::decoder::Instruction;
use super::instructions::{BranchOperation, ReadOperation, ReadWriteOperation, WriteOperation};

verus! {

/// One bus cycle, as the bus sees it.
#[derive(Clone, Copy, PartialEq, Eq, Structural, Debug)]
pub enum Access {
    /// A read of the address.
    Read(u16),
    /// A write of the byte to the address.
    Write(u16, u8),
}

/// The address of the stack's byte number `s`: always on page one.
pub open spec fn stack_address(s: u8) -> u16 {
    (STACK_OFFSET + s) as u16
}

/// The registers that the operations of the instruction set work on: the
/// accumulator, the two index registers, the stack pointer and the flags.
#[derive(Clone, Copy, PartialEq, Eq, Structural, Debug)]
pub struct Registers {
    pub a: u8,
    pub x: u8,
    pub y: u8,
    pub s: u8,
    pub p: Status,
}

/// What a read-modify-write operation leaves: the new byte and the new
/// registers.
pub type Modified = (u8, Registers);

impl Registers {
    // Flags

    /// The registers with the zero and negative flags set from `value`.
    pub open spec fn zero_negative(self, value: u8) -> Registers {
        Registers { p: Status { zero: value == 0, negative: value >= 0x80, ..self.p }, ..self }
    }

    pub open spec fn with_carry(self, carry: bool) -> Registers {
        Registers { p: Status { carry, ..self.p }, ..self }
    }

    pub open spec fn clc(self) -> Registers {
        self.with_carry(false)
    }

    pub open spec fn sec(self) -> Registers {
        self.with_carry(true)
    }

    pub open spec fn cld(self) -> Registers {
        Registers { p: Status { decimal: false, ..self.p }, ..self }
    }

    pub open spec fn sed(self) -> Registers {
        Registers { p: Status { decimal: true, ..self.p }, ..self }
    }

    pub open spec fn cli(self) -> Registers {
        Registers { p: Status { interrupt_disable: false, ..self.p }, ..self }
    }

    pub open spec fn sei(self) -> Registers {
        Registers { p: Status { interrupt_disable: true, ..self.p }, ..self }
    }

    pub open spec fn clv(self) -> Registers {
        Registers { p: Status { overflow: false, ..self.p }, ..self }
    }

    // Arithmetic and logic

    /// `A + M + C`. The carry flag tells that the sum passed 255, the
    /// overflow flag that the sign of the result differs from the sign of
    /// both operands.
    pub open spec fn adc(self, data: u8) -> Registers {
        let sum = self.a + data + if self.p.carry { 1int } else { 0int };
        let result = (sum % 256) as u8;
        Registers {
            a: result,
            p: Status {
                carry: sum > 255,
                zero: result == 0,
                negative: result >= 0x80,
                overflow: (((self.a ^ result) & (data ^ result)) & 0x80) != 0,
                ..self.p
            },
            ..self
        }
    }

    /// `A - M - (1 - C)`, computed as the addition of the complement of
    /// `M`.
    pub open spec fn sbc(self, data: u8) -> Registers {
        self.adc(!data)
    }

    pub open spec fn and(self, data: u8) -> Registers {
        Registers { a: self.a & data, ..self }.zero_negative(self.a & data)
    }

    pub open spec fn ora(self, data: u8) -> Registers {
        Registers { a: self.a | data, ..self }.zero_negative(self.a | data)
    }

    pub open spec fn eor(self, data: u8) -> Registers {
        Registers { a: self.a ^ data, ..self }.zero_negative(self.a ^ data)
    }

    /// The zero flag tells that `A & M` is zero; bits 7 and 6 of `M` go to
    /// the negative and overflow flags.
    pub open spec fn bit(self, data: u8) -> Registers {
        Registers {
            p: Status {
                zero: self.a & data == 0,
                negative: data >= 0x80,
                overflow: data & 0x40 != 0,
                ..self.p
            },
            ..self
        }
    }

    /// The flags after comparing `register` with `data`: carry when the
    /// register is not below the byte, zero and negative from their
    /// difference.
    pub open spec fn compare(self, register: u8, data: u8) -> Registers {
        self.zero_negative(register.wrapping_sub(data)).with_carry(register >= data)
    }

    // Loads and transfers

    pub open spec fn lda(self, data: u8) -> Registers {
        Registers { a: data, ..self }.zero_negative(data)
    }

    pub open spec fn ldx(self, data: u8) -> Registers {
        Registers { x: data, ..self }.zero_negative(data)
    }

    pub open spec fn ldy(self, data: u8) -> Registers {
        Registers { y: data, ..self }.zero_negative(data)
    }

    pub open spec fn lax(self, data: u8) -> Registers {
        Registers { a: data, x: data, ..self }.zero_negative(data)
    }

    pub open spec fn tax(self) -> Registers {
        self.ldx(self.a)
    }

    pub open spec fn tay(self) -> Registers {
        self.ldy(self.a)
    }

    pub open spec fn tsx(self) -> Registers {
        self.ldx(self.s)
    }

    pub open spec fn txa(self) -> Registers {
        self.lda(self.x)
    }

    pub open spec fn tya(self) -> Registers {
        self.lda(self.y)
    }

    /// The one transfer that leaves the flags alone.
    pub open spec fn txs(self) -> Registers {
        Registers { s: self.x, ..self }
    }

    // Increments and decrements of the index registers

    pub open spec fn inx(self) -> Registers {
        self.ldx(self.x.wrapping_add(1))
    }

    pub open spec fn iny(self) -> Registers {
        self.ldy(self.y.wrapping_add(1))
    }

    pub open spec fn dex(self) -> Registers {
        self.ldx(self.x.wrapping_sub(1))
    }

    pub open spec fn dey(self) -> Registers {
        self.ldy(self.y.wrapping_sub(1))
    }

    // Read-modify-write operations

    /// Shift left: bit 7 goes to the carry flag.
    pub open spec fn asl(self, data: u8) -> Modified {
        (data << 1, self.zero_negative(data << 1).with_carry(data >= 0x80))
    }

    /// Shift right: bit 0 goes to the carry flag.
    pub open spec fn lsr(self, data: u8) -> Modified {
        (data >> 1, self.zero_negative(data >> 1).with_carry(data & 0x01 != 0))
    }

    /// Rotate left: the carry flag comes in at bit 0, bit 7 goes to the
    /// carry flag.
    pub open spec fn rol(self, data: u8) -> Modified {
        let result = (data << 1) | if self.p.carry { 0x01u8 } else { 0u8 };
        (result, self.zero_negative(result).with_carry(data >= 0x80))
    }

    /// Rotate right: the carry flag comes in at bit 7, bit 0 goes to the
    /// carry flag.
    pub open spec fn ror(self, data: u8) -> Modified {
        let result = (data >> 1) | if self.p.carry { 0x80u8 } else { 0u8 };
        (result, self.zero_negative(result).with_carry(data & 0x01 != 0))
    }

    pub open spec fn inc(self, data: u8) -> Modified {
        (data.wrapping_add(1), self.zero_negative(data.wrapping_add(1)))
    }

    pub open spec fn dec(self, data: u8) -> Modified {
        (data.wrapping_sub(1), self.zero_negative(data.wrapping_sub(1)))
    }

    /// Shift left, then OR the result into the accumulator.
    pub open spec fn slo(self, data: u8) -> Modified {
        (self.asl(data).0, self.asl(data).1.ora(self.asl(data).0))
    }

    /// Rotate left, then AND the result into the accumulator.
    pub open spec fn rla(self, data: u8) -> Modified {
        (self.rol(data).0, self.rol(data).1.and(self.rol(data).0))
    }

    /// Shift right, then exclusive-OR the result into the accumulator.
    pub open spec fn sre(self, data: u8) -> Modified {
        (self.lsr(data).0, self.lsr(data).1.eor(self.lsr(data).0))
    }

    /// Rotate right, then add the result to the accumulator.
    pub open spec fn rra(self, data: u8) -> Modified {
        (self.ror(data).0, self.ror(data).1.adc(self.ror(data).0))
    }

    /// Decrement, then compare the accumulator with the result.
    pub open spec fn dcp(self, data: u8) -> Modified {
        (self.dec(data).0, self.dec(data).1.compare(self.a, self.dec(data).0))
    }

    /// Increment, then subtract the result from the accumulator.
    pub open spec fn isc(self, data: u8) -> Modified {
        (self.inc(data).0, self.inc(data).1.sbc(self.inc(data).0))
    }

    // Dispatch

    /// The registers after a read operation has consumed `data`.
    #[verifier::opaque]
    pub open spec fn read_operation(self, op: ReadOperation, data: u8) -> Registers {
        match op {
            ReadOperation::Adc => self.adc(data),
            ReadOperation::And => self.and(data),
            ReadOperation::Bit => self.bit(data),
            ReadOperation::Clc => self.clc(),
            ReadOperation::Cld => self.cld(),
            ReadOperation::Cli => self.cli(),
            ReadOperation::Clv => self.clv(),
            ReadOperation::Cmp => self.compare(self.a, data),
            ReadOperation::Cpx => self.compare(self.x, data),
            ReadOperation::Cpy => self.compare(self.y, data),
            ReadOperation::Dex => self.dex(),
            ReadOperation::Dey => self.dey(),
            ReadOperation::Eor => self.eor(data),
            ReadOperation::Inx => self.inx(),
            ReadOperation::Iny => self.iny(),
            ReadOperation::Lax => self.lax(data),
            ReadOperation::Lda => self.lda(data),
            ReadOperation::Ldx => self.ldx(data),
            ReadOperation::Ldy => self.ldy(data),
            ReadOperation::Nop => self,
            ReadOperation::Ora => self.ora(data),
            ReadOperation::Sbc => self.sbc(data),
            ReadOperation::Sec => self.sec(),
            ReadOperation::Sed => self.sed(),
            ReadOperation::Sei => self.sei(),
            ReadOperation::Tax => self.tax(),
            ReadOperation::Tay => self.tay(),
            ReadOperation::Tsx => self.tsx(),
            ReadOperation::Txa => self.txa(),
            ReadOperation::Txs => self.txs(),
            ReadOperation::Tya => self.tya(),
        }
    }

    /// The byte that a write operation stores.
    pub open spec fn write_operation(self, op: WriteOperation) -> u8 {
        match op {
            WriteOperation::Sax => self.a & self.x,
            WriteOperation::Sta => self.a,
            WriteOperation::Stx => self.x,
            WriteOperation::Sty => self.y,
        }
    }

    /// The byte and the registers that a read-modify-write operation
    /// leaves, given the byte it read.
    #[verifier::opaque]
    pub open spec fn read_write_operation(self, op: ReadWriteOperation, data: u8) -> Modified {
        match op {
            ReadWriteOperation::Asl => self.asl(data),
            ReadWriteOperation::Dcp => self.dcp(data),
            ReadWriteOperation::Dec => self.dec(data),
            ReadWriteOperation::Inc => self.inc(data),
            ReadWriteOperation::Isc => self.isc(data),
            ReadWriteOperation::Lsr => self.lsr(data),
            ReadWriteOperation::Rla => self.rla(data),
            ReadWriteOperation::Rol => self.rol(data),
            ReadWriteOperation::Ror => self.ror(data),
            ReadWriteOperation::Rra => self.rra(data),
            ReadWriteOperation::Slo => self.slo(data),
            ReadWriteOperation::Sre => self.sre(data),
        }
    }

    /// Whether a branch operation finds its flag as it wants it.
    pub open spec fn branch_operation(self, op: BranchOperation) -> bool {
        match op {
            BranchOperation::Bcc => !self.p.carry,
            BranchOperation::Bcs => self.p.carry,
            BranchOperation::Beq => self.p.zero,
            BranchOperation::Bmi => self.p.negative,
            BranchOperation::Bne => !self.p.zero,
            BranchOperation::Bpl => !self.p.negative,
            BranchOperation::Bvc => !self.p.overflow,
            BranchOperation::Bvs => self.p.overflow,
        }
    }

    /// The value of an index register.
    pub open spec fn index(self, register: IndexRegister) -> u8 {
        match register {
            IndexRegister::X => self.x,
            IndexRegister::Y => self.y,
        }
    }
}

/// The registers, the latches and the microcode queue of the processor.
pub struct CpuState {
    pub registers: Registers,
    pub pc: u16,
    /// The opcode of the instruction in flight.
    pub opcode: u8,
    /// The offset of the branch in flight.
    pub operand: u8,
    /// The effective address under construction.
    pub address: u16,
    /// The byte that a read-modify-write instruction holds between its
    /// read and its last write.
    pub data: u8,
    /// Whether adding the index to the address's low byte carried.
    pub address_carry: bool,
    /// The zero-page pointer of the indirect modes.
    pub pointer: u8,
    /// The number of cycles taken.
    pub cycle: nat,
    /// The steps still to take for the instruction in flight, one per
    /// cycle.
    pub queue: Seq<MicrocodeTask>,
}

impl CpuState {
    /// The state with other registers.
    pub open spec fn with(self, registers: Registers) -> CpuState {
        CpuState { registers, ..self }
    }

    // The bus side of a step

    /// The address that a read step puts on the bus.
    pub open spec fn read_address(self, io: BusRead) -> u16 {
        match io {
            BusRead::Address => self.address,
            BusRead::AddressIncrement => self.address,
            BusRead::Pc => self.pc,
            BusRead::PcIncrement => self.pc,
            BusRead::Pointer => self.pointer as u16,
            BusRead::PointerIncrement => self.pointer as u16,
            BusRead::Fixed(address) => address,
            BusRead::Stack => stack_address(self.registers.s),
            BusRead::PopStack => stack_address(self.registers.s.wrapping_add(1)),
        }
    }

    /// The state after the bus side of a read step: what the step advances,
    /// it advances around the end of its range.
    pub open spec fn after_read(self, io: BusRead) -> CpuState {
        match io {
            BusRead::AddressIncrement => CpuState {
                address: join_bytes(
                    high_byte(self.address),
                    low_byte(self.address).wrapping_add(1),
                ),
                ..self
            },
            BusRead::PcIncrement => CpuState { pc: self.pc.wrapping_add(1), ..self },
            BusRead::PointerIncrement => CpuState { pointer: self.pointer.wrapping_add(1), ..self },
            BusRead::PopStack => self.with(
                Registers { s: self.registers.s.wrapping_add(1), ..self.registers },
            ),
            _ => self,
        }
    }

    /// The address that a write step puts on the bus.
    pub open spec fn write_address(self, io: BusWrite) -> u16 {
        match io {
            BusWrite::Address => self.address,
            BusWrite::PushStack => stack_address(self.registers.s),
        }
    }

    /// The state after the bus side of a write step.
    pub open spec fn after_write(self, io: BusWrite) -> CpuState {
        match io {
            BusWrite::Address => self,
            BusWrite::PushStack => self.with(
                Registers { s: self.registers.s.wrapping_sub(1), ..self.registers },
            ),
        }
    }

    /// The byte that a write step puts on the bus.
    pub open spec fn source(self, source: Source) -> u8 {
        match source {
            Source::Operate(op) => self.registers.write_operation(op),
            Source::Data => self.data,
            Source::PcHigh => high_byte(self.pc),
            Source::PcLow => low_byte(self.pc),
            Source::Accumulator => self.registers.a,
            Source::Status => self.registers.p.pushed(),
        }
    }

    // The processor side of a step

    /// The state with `steps` behind the steps already queued.
    pub open spec fn enqueue(self, steps: Seq<MicrocodeTask>) -> CpuState {
        CpuState { queue: self.queue + steps, ..self }
    }

    /// The state with `step` before the steps already queued.
    pub open spec fn enqueue_front(self, step: MicrocodeTask) -> CpuState {
        CpuState { queue: seq![step] + self.queue, ..self }
    }

    /// The state with the instruction of `opcode` in flight.
    pub open spec fn decode_opcode(self, opcode: u8) -> CpuState {
        CpuState { opcode, ..self }.enqueue(steps(Instruction::of(opcode)))
    }

    /// The state with the index added to the low byte of the address and
    /// `data` as its high byte. The sum is not carried into the high byte:
    /// `address_carry` remembers whether it should have been.
    pub open spec fn index_address(self, register: IndexRegister, data: u8) -> CpuState {
        CpuState {
            address: join_bytes(
                data,
                low_byte(self.address).wrapping_add(self.registers.index(register)),
            ),
            address_carry: low_byte(self.address) + self.registers.index(register) > 0xff,
            ..self
        }
    }

    /// The state with the carry of `index_address` added to the high byte of
    /// the address.
    pub open spec fn fix_address(self) -> CpuState {
        if self.address_carry {
            CpuState { address: self.address.wrapping_add(0x100), ..self }
        } else {
            self
        }
    }

    /// Whether adding the branch offset to the low byte of the program
    /// counter leaves the page.
    pub open spec fn branch_crosses_page(self) -> bool {
        if self.operand < 0x80 {
            low_byte(self.pc) + self.operand > 0xff
        } else {
            low_byte(self.pc) + self.operand < 0x100
        }
    }

    /// The state after the branch offset has been added to the low byte of
    /// the program counter. Where the sum leaves the page, one more step is
    /// queued to correct the high byte.
    pub open spec fn branch_low(self) -> CpuState {
        let moved = CpuState {
            pc: join_bytes(high_byte(self.pc), low_byte(self.pc).wrapping_add(self.operand)),
            ..self
        };
        if self.branch_crosses_page() {
            moved.enqueue(seq![MicrocodeTask::Read(BusRead::Pc, Latch::BranchHigh)])
        } else {
            moved
        }
    }

    /// The state after the high byte of the program counter has followed a
    /// branch to the next page or the one before.
    pub open spec fn branch_high(self) -> CpuState {
        let high = if self.operand < 0x80 {
            high_byte(self.pc).wrapping_add(1)
        } else {
            high_byte(self.pc).wrapping_sub(1)
        };
        CpuState { pc: join_bytes(high, low_byte(self.pc)), ..self }
    }

    /// The state after a read step has handed `data` to its latch.
    pub open spec fn latch(self, latch: Latch, data: u8) -> CpuState {
        match latch {
            Latch::Decode => self.decode_opcode(data),
            Latch::Operate(op) => self.with(self.registers.read_operation(op, data)),
            Latch::Accumulate(op) => self.with(
                Registers {
                    a: self.registers.read_write_operation(op, self.registers.a).0,
                    ..self.registers.read_write_operation(op, self.registers.a).1
                },
            ),
            Latch::Discard => self,
            Latch::AddressLow => CpuState {
                address: join_bytes(high_byte(self.address), data),
                ..self
            },
            Latch::AddressHigh => CpuState {
                address: join_bytes(data, low_byte(self.address)),
                ..self
            },
            Latch::ZeroPageAddress => CpuState { address: data as u16, ..self },
            Latch::ZeroPageIndex(register) => CpuState {
                address: low_byte(self.address).wrapping_add(self.registers.index(register)) as u16,
                ..self
            },
            Latch::AddressHighIndexed(register) => self.index_address(register, data),
            Latch::AddressHighReadIndexed(register) => if self.index_address(
                register,
                data,
            ).address_carry {
                self.index_address(register, data).enqueue_front(
                    MicrocodeTask::Read(BusRead::Address, Latch::FixAddress),
                )
            } else {
                self.index_address(register, data)
            },
            Latch::FixAddress => self.fix_address(),
            Latch::Pointer => CpuState { pointer: data, ..self },
            Latch::PointerIndex => CpuState {
                pointer: self.pointer.wrapping_add(self.registers.x),
                ..self
            },
            Latch::Data => CpuState { data, ..self },
            Latch::PcLow => CpuState { pc: join_bytes(high_byte(self.pc), data), ..self },
            Latch::PcHigh => CpuState { pc: join_bytes(data, low_byte(self.pc)), ..self },
            Latch::Jump => CpuState {
                address: join_bytes(data, low_byte(self.address)),
                pc: join_bytes(data, low_byte(self.address)),
                ..self
            },
            Latch::InterruptDisable => self.with(self.registers.sei()),
            Latch::Accumulator => self.with(self.registers.lda(data)),
            Latch::Status => self.with(
                Registers { p: Status::from_bits_truncate(data), ..self.registers },
            ),
            Latch::BranchLow => self.branch_low(),
            Latch::BranchHigh => self.branch_high(),
        }
    }

    /// The state after the dummy write of a read-modify-write instruction:
    /// the operation has run on the latched byte, and its result waits in
    /// the latch for the last write.
    pub open spec fn modify(self, op: ReadWriteOperation) -> CpuState {
        CpuState {
            data: self.registers.read_write_operation(op, self.data).0,
            registers: self.registers.read_write_operation(op, self.data).1,
            ..self
        }
    }

    /// The state after a branch step has fetched the offset `data`. If the
    /// branch is taken, one more step is queued to move the program
    /// counter.
    pub open spec fn branch(self, op: BranchOperation, data: u8) -> CpuState {
        let fetched = CpuState { operand: data, ..self };
        if self.registers.branch_operation(op) {
            fetched.enqueue(seq![MicrocodeTask::Read(BusRead::Pc, Latch::BranchLow)])
        } else {
            fetched
        }
    }

    // Cycles

    /// The step that the next cycle takes: the first of the queue, or the
    /// fetch of an opcode when no instruction is in flight.
    pub open spec fn next_task(self) -> MicrocodeTask {
        if self.queue.len() == 0 {
            MicrocodeTask::Read(BusRead::PcIncrement, Latch::Decode)
        } else {
            self.queue.first()
        }
    }

    /// The one bus access of the next cycle.
    pub open spec fn access(self) -> Access {
        match self.next_task() {
            MicrocodeTask::Branch(_) => Access::Read(self.pc),
            MicrocodeTask::Read(io, _) => Access::Read(self.read_address(io)),
            MicrocodeTask::Write(io, source) => Access::Write(
                self.write_address(io),
                self.source(source),
            ),
            MicrocodeTask::ReadWrite(_) => Access::Write(self.address, self.data),
        }
    }

    /// The state with the cycle counted and the step taken off the queue.
    pub open spec fn begin_cycle(self) -> CpuState {
        CpuState {
            cycle: self.cycle + 1,
            queue: if self.queue.len() == 0 {
                self.queue
            } else {
                self.queue.drop_first()
            },
            ..self
        }
    }

    /// The state after the next cycle, in which the bus returned `data`. In
    /// a write cycle the bus returns nothing, and `data` is ignored.
    #[verifier::opaque]
    pub open spec fn step(self, data: u8) -> CpuState {
        match self.next_task() {
            MicrocodeTask::Branch(op) => self.begin_cycle().after_read(BusRead::PcIncrement).branch(
                op,
                data,
            ),
            MicrocodeTask::Read(io, latch) => self.begin_cycle().after_read(io).latch(latch, data),
            MicrocodeTask::Write(io, _) => self.begin_cycle().after_write(io),
            MicrocodeTask::ReadWrite(op) => self.begin_cycle().modify(op),
        }
    }

    /// The state after a reset: interrupts disabled, the stack pointer at
    /// `0xFD`, and the two fetches of the reset vector queued.
    pub open spec fn reset(self) -> CpuState {
        self.with(Registers { s: 0xfd, ..self.registers }.sei()).enqueue(reset_steps())
    }
}

// The steps of the instructions that move the program counter or the stack

pub open spec fn reset_steps() -> Seq<MicrocodeTask> {
    seq![
        MicrocodeTask::Read(BusRead::Fixed(RESET_VECTOR), Latch::PcLow),
        MicrocodeTask::Read(BusRead::Fixed((RESET_VECTOR + 1) as u16), Latch::PcHigh),
    ]
}

pub open spec fn brk_steps() -> Seq<MicrocodeTask> {
    seq![
        MicrocodeTask::Read(BusRead::PcIncrement, Latch::InterruptDisable),
        MicrocodeTask::Write(BusWrite::PushStack, Source::PcHigh),
        MicrocodeTask::Write(BusWrite::PushStack, Source::PcLow),
        MicrocodeTask::Write(BusWrite::PushStack, Source::Status),
        MicrocodeTask::Read(BusRead::Fixed(IRQ_VECTOR), Latch::PcLow),
        MicrocodeTask::Read(BusRead::Fixed((IRQ_VECTOR + 1) as u16), Latch::PcHigh),
    ]
}

pub open spec fn jmp_steps() -> Seq<MicrocodeTask> {
    seq![
        MicrocodeTask::Read(BusRead::PcIncrement, Latch::AddressLow),
        MicrocodeTask::Read(BusRead::Pc, Latch::Jump),
    ]
}

pub open spec fn jmp_indirect_steps() -> Seq<MicrocodeTask> {
    seq![
        MicrocodeTask::Read(BusRead::PcIncrement, Latch::AddressLow),
        MicrocodeTask::Read(BusRead::PcIncrement, Latch::AddressHigh),
        MicrocodeTask::Read(BusRead::AddressIncrement, Latch::PcLow),
        MicrocodeTask::Read(BusRead::Address, Latch::PcHigh),
    ]
}

pub open spec fn jsr_steps() -> Seq<MicrocodeTask> {
    seq![
        MicrocodeTask::Read(BusRead::PcIncrement, Latch::AddressLow),
        MicrocodeTask::Read(BusRead::Stack, Latch::Discard),
        MicrocodeTask::Write(BusWrite::PushStack, Source::PcHigh),
        MicrocodeTask::Write(BusWrite::PushStack, Source::PcLow),
        MicrocodeTask::Read(BusRead::Pc, Latch::Jump),
    ]
}

pub open spec fn pha_steps() -> Seq<MicrocodeTask> {
    seq![
        MicrocodeTask::Read(BusRead::Pc, Latch::Discard),
        MicrocodeTask::Write(BusWrite::PushStack, Source::Accumulator),
    ]
}

pub open spec fn php_steps() -> Seq<MicrocodeTask> {
    seq![
        MicrocodeTask::Read(BusRead::Pc, Latch::Discard),
        MicrocodeTask::Write(BusWrite::PushStack, Source::Status),
    ]
}

pub open spec fn pla_steps() -> Seq<MicrocodeTask> {
    seq![
        MicrocodeTask::Read(BusRead::Pc, Latch::Discard),
        MicrocodeTask::Read(BusRead::Stack, Latch::Discard),
        MicrocodeTask::Read(BusRead::PopStack, Latch::Accumulator),
    ]
}

pub open spec fn plp_steps() -> Seq<MicrocodeTask> {
    seq![
        MicrocodeTask::Read(BusRead::Pc, Latch::Discard),
        MicrocodeTask::Read(BusRead::Stack, Latch::Discard),
        MicrocodeTask::Read(BusRead::PopStack, Latch::Status),
    ]
}

pub open spec fn rti_steps() -> Seq<MicrocodeTask> {
    seq![
        MicrocodeTask::Read(BusRead::Pc, Latch::Discard),
        MicrocodeTask::Read(BusRead::Stack, Latch::Discard),
        MicrocodeTask::Read(BusRead::PopStack, Latch::Status),
        MicrocodeTask::Read(BusRead::PopStack, Latch::PcLow),
        MicrocodeTask::Read(BusRead::PopStack, Latch::PcHigh),
    ]
}

pub open spec fn rts_steps() -> Seq<MicrocodeTask> {
    seq![
        MicrocodeTask::Read(BusRead::Pc, Latch::Discard),
        MicrocodeTask::Read(BusRead::Stack, Latch::Discard),
        MicrocodeTask::Read(BusRead::PopStack, Latch::PcLow),
        MicrocodeTask::Read(BusRead::PopStack, Latch::PcHigh),
        MicrocodeTask::Read(BusRead::PcIncrement, Latch::Discard),
    ]
}

/// The steps that an instruction queues when it is decoded, one for each
/// cycle after the fetch of its opcode. A branch, and a read at an indexed
/// address, may queue one or two more on the way.
pub open spec fn steps(instruction: Instruction) -> Seq<MicrocodeTask> {
    match instruction {
        Instruction::Accumulator(op) => seq![
            MicrocodeTask::Read(BusRead::Pc, Latch::Accumulate(op)),
        ],
        Instruction::Branch(op) => seq![MicrocodeTask::Branch(op)],
        Instruction::Brk => brk_steps(),
        Instruction::Immediate(op) => seq![
            MicrocodeTask::Read(BusRead::PcIncrement, Latch::Operate(op)),
        ],
        Instruction::Implied(op) => seq![MicrocodeTask::Read(BusRead::Pc, Latch::Operate(op))],
        Instruction::Jmp => jmp_steps(),
        Instruction::JmpIndirect => jmp_indirect_steps(),
        Instruction::Jsr => jsr_steps(),
        Instruction::Pha => pha_steps(),
        Instruction::Php => php_steps(),
        Instruction::Pla => pla_steps(),
        Instruction::Plp => plp_steps(),
        Instruction::Read(op, mode) => super::addressing_modes::read_steps(op, mode),
        Instruction::ReadWrite(op, mode) => super::addressing_modes::read_write_steps(op, mode),
        Instruction::Rti => rti_steps(),
        Instruction::Rts => rts_steps(),
        Instruction::Unrecognized => seq![
            MicrocodeTask::Read(BusRead::Pc, Latch::Discard),
        ],
        Instruction::Write(op, mode) => super::addressing_modes::write_steps(op, mode),
    }
}

} // verus!
