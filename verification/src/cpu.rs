//! The processor: its registers, its bus adapter and its microcode
//! scheduler.
//!
//! An instruction is a queue of steps, one per bus cycle. `cycle` takes the
//! next step off the queue and performs it; when the queue is empty, the step
//! is the fetch of an opcode, which queues the steps of the instruction.

pub mod addressing_modes;
pub mod decoder;
pub mod instructions;
pub mod laws;
pub mod state;
pub mod timing;

use vstd::prelude::*;
use std::collections::VecDeque;
use crate::address::Address;
use crate::roms::Mapper;
use self::addressing_modes::{AddressingModes, BranchAddressingModes};
use self::decoder::Instruction;
use self::instructions::{BranchOperation, IllegalOperations, Operations, ReadOperation,
    ReadWriteOperation, WriteOperation};
use self::state::{reset_steps, steps, Access, CpuState, Registers};

verus! {

/// The first address of the stack's page.
pub const STACK_OFFSET: u16 = 0x0100;

/// Where the processor finds the address to start from after a
/// non-maskable interrupt.
pub const NMI_VECTOR: u16 = 0xfffa;

/// Where the processor finds the address to start from after a reset.
pub const RESET_VECTOR: u16 = 0xfffc;

/// Where the processor finds the address to start from after an interrupt
/// request or a `BRK`.
pub const IRQ_VECTOR: u16 = 0xfffe;

/// Bit 0 of the flags byte.
pub const CARRY: u8 = 0b0000_0001;

/// Bit 1 of the flags byte.
pub const ZERO: u8 = 0b0000_0010;

/// Bit 2 of the flags byte.
pub const INTERRUPT_DISABLE: u8 = 0b0000_0100;

/// Bit 3 of the flags byte.
pub const DECIMAL: u8 = 0b0000_1000;

/// Bit 4 of the flags byte. No flag stands behind it: it is set in the byte
/// that `PHP` and `BRK` push.
pub const BREAK: u8 = 0b0001_0000;

/// Bit 5 of the flags byte. No flag stands behind it: it always reads as
/// one.
pub const UNUSED: u8 = 0b0010_0000;

/// Bit 6 of the flags byte.
pub const OVERFLOW: u8 = 0b0100_0000;

/// Bit 7 of the flags byte.
pub const NEGATIVE: u8 = 0b1000_0000;

/// What a flag adds to the flags byte: the value of its bit if it is set.
pub open spec fn flag_value(flag: bool, bit: u8) -> int {
    if flag {
        bit as int
    } else {
        0
    }
}

/// The six flags of the processor.
#[derive(Clone, Copy, PartialEq, Eq, Structural, Debug)]
pub struct Status {
    pub carry: bool,
    pub zero: bool,
    pub interrupt_disable: bool,
    pub decimal: bool,
    pub overflow: bool,
    pub negative: bool,
}

impl Status {
    /// The flags as a byte: each flag at its bit, bit 5 set, bit 4 clear.
    pub open spec fn spec_bits(&self) -> u8 {
        (flag_value(self.carry, CARRY) + flag_value(self.zero, ZERO) + flag_value(
            self.interrupt_disable,
            INTERRUPT_DISABLE,
        ) + flag_value(self.decimal, DECIMAL) + UNUSED + flag_value(self.overflow, OVERFLOW)
            + flag_value(self.negative, NEGATIVE)) as u8
    }

    #[verifier::when_used_as_spec(spec_bits)]
    pub fn bits(&self) -> (bits: u8)
        ensures
            bits == self.spec_bits(),
    {
        let mut bits: u8 = UNUSED;
        if self.carry {
            bits = bits + CARRY;
        }
        if self.zero {
            bits = bits + ZERO;
        }
        if self.interrupt_disable {
            bits = bits + INTERRUPT_DISABLE;
        }
        if self.decimal {
            bits = bits + DECIMAL;
        }
        if self.overflow {
            bits = bits + OVERFLOW;
        }
        if self.negative {
            bits = bits + NEGATIVE;
        }
        bits
    }

    /// The flags as `PHP` and `BRK` push them: with bits 4 and 5 set.
    pub open spec fn spec_pushed(&self) -> u8 {
        (self.spec_bits() + 0x10) as u8
    }

    #[verifier::when_used_as_spec(spec_pushed)]
    pub fn pushed(&self) -> (bits: u8)
        ensures
            bits == self.spec_pushed(),
    {
        self.bits() + BREAK
    }

    /// The flags that a byte holds. Bits 4 and 5 of the byte are ignored.
    pub open spec fn spec_from_bits_truncate(bits: u8) -> Status {
        Status {
            carry: bits % 2 == 1,
            zero: (bits / 0x02) % 2 == 1,
            interrupt_disable: (bits / 0x04) % 2 == 1,
            decimal: (bits / 0x08) % 2 == 1,
            overflow: (bits / 0x40) % 2 == 1,
            negative: bits >= 0x80,
        }
    }

    #[verifier::when_used_as_spec(spec_from_bits_truncate)]
    pub fn from_bits_truncate(bits: u8) -> (status: Status)
        ensures
            status == Status::spec_from_bits_truncate(bits),
    {
        proof {
            lemma_flag_masks(bits);
        }
        Status {
            carry: bits & CARRY != 0,
            zero: bits & ZERO != 0,
            interrupt_disable: bits & INTERRUPT_DISABLE != 0,
            decimal: bits & DECIMAL != 0,
            overflow: bits & OVERFLOW != 0,
            negative: bits & NEGATIVE != 0,
        }
    }
}

/// The mask of a flag finds the flag's bit.
proof fn lemma_flag_masks(bits: u8)
    by (bit_vector)
    ensures
        (bits & 0x01 != 0) == (bits % 2 == 1),
        (bits & 0x02 != 0) == ((bits / 0x02) % 2 == 1),
        (bits & 0x04 != 0) == ((bits / 0x04) % 2 == 1),
        (bits & 0x08 != 0) == ((bits / 0x08) % 2 == 1),
        (bits & 0x40 != 0) == ((bits / 0x40) % 2 == 1),
        (bits & 0x80 != 0) == (bits >= 0x80),
{
}

/// One of the two index registers.
#[derive(Clone, Copy, PartialEq, Eq, Structural, Debug)]
pub enum IndexRegister {
    X,
    Y,
}

/// Where a read step reads, and what it advances on the way.
#[derive(Clone, Copy, PartialEq, Eq, Structural, Debug)]
pub enum BusRead {
    /// At the effective address.
    Address,
    /// At the effective address, whose low byte then moves on by one,
    /// staying on its page.
    AddressIncrement,
    /// At the program counter.
    Pc,
    /// At the program counter, which then moves on by one.
    PcIncrement,
    /// At the zero-page pointer.
    Pointer,
    /// At the zero-page pointer, which then moves on by one, staying on
    /// page zero.
    PointerIncrement,
    /// At the given address.
    Fixed(u16),
    /// At the top of the stack.
    Stack,
    /// At the byte above the top of the stack, which becomes the top.
    PopStack,
}

/// Where a write step writes.
#[derive(Clone, Copy, PartialEq, Eq, Structural, Debug)]
pub enum BusWrite {
    /// At the effective address.
    Address,
    /// At the top of the stack, which then moves down by one.
    PushStack,
}

/// What a read step does with the byte it read.
#[derive(Clone, Copy, PartialEq, Eq, Structural, Debug)]
pub enum Latch {
    /// The byte is an opcode: the steps of its instruction are queued.
    Decode,
    /// The operation runs on the byte.
    Operate(ReadOperation),
    /// The byte is dropped and the operation runs on the accumulator.
    Accumulate(ReadWriteOperation),
    /// The byte is dropped.
    Discard,
    /// The byte is the low byte of the effective address.
    AddressLow,
    /// The byte is the high byte of the effective address.
    AddressHigh,
    /// The byte is an address on page zero.
    ZeroPageAddress,
    /// The byte is dropped and the index is added to the zero-page address,
    /// which stays on page zero.
    ZeroPageIndex(IndexRegister),
    /// The byte is the high byte of the effective address, and the index
    /// is added to its low byte. The step that follows corrects the high
    /// byte.
    AddressHighIndexed(IndexRegister),
    /// As `AddressHighIndexed`, for an instruction that only reads: a step
    /// that corrects the high byte is put before the steps in the queue,
    /// and only if the sum carried.
    AddressHighReadIndexed(IndexRegister),
    /// The byte is dropped and the carry of the index is added to the high
    /// byte of the effective address.
    FixAddress,
    /// The byte is the zero-page pointer.
    Pointer,
    /// The byte is dropped and X is added to the zero-page pointer, which
    /// stays on page zero.
    PointerIndex,
    /// The byte waits for a read-modify-write operation.
    Data,
    /// The byte is the low byte of the program counter.
    PcLow,
    /// The byte is the high byte of the program counter.
    PcHigh,
    /// The byte is the high byte of the effective address, which becomes the
    /// program counter.
    Jump,
    /// The byte is dropped and the interrupt-disable flag is set.
    InterruptDisable,
    /// The byte is pulled into the accumulator.
    Accumulator,
    /// The byte is pulled into the flags.
    Status,
    /// The byte is dropped and the branch offset is added to the low byte
    /// of the program counter.
    BranchLow,
    /// The byte is dropped and the high byte of the program counter follows
    /// the branch.
    BranchHigh,
}

/// Where a write step takes its byte from.
#[derive(Clone, Copy, PartialEq, Eq, Structural, Debug)]
pub enum Source {
    /// From the operation.
    Operate(WriteOperation),
    /// From the latch of a read-modify-write instruction.
    Data,
    /// The high byte of the program counter.
    PcHigh,
    /// The low byte of the program counter.
    PcLow,
    /// The accumulator.
    Accumulator,
    /// The flags, with bits 4 and 5 set.
    Status,
}

/// One step of an instruction: the work of one bus cycle.
#[derive(Clone, Copy, PartialEq, Eq, Structural, Debug)]
pub enum MicrocodeTask {
    /// Reads the branch offset at the program counter and tests the flag.
    Branch(BranchOperation),
    /// Reads a byte and hands it to a latch.
    Read(BusRead, Latch),
    /// Writes a byte.
    Write(BusWrite, Source),
    /// Writes the latched byte back to the effective address, unchanged,
    /// and runs the operation on it.
    ReadWrite(ReadWriteOperation),
}

/// The processor, on the bus `M`.
pub struct Mos6502<M: Mapper> {
    pub a: u8,
    pub pc: u16,
    pub p: Status,
    pub s: u8,
    pub x: u8,
    pub y: u8,
    opcode: u8,
    operand: u8,
    address: u16,
    data: u8,
    address_carry: bool,
    pointer: u8,
    pub cycle: u32,
    pub mapper: M,
    cycle_microcode_queue: VecDeque<MicrocodeTask>,
}

impl<M: Mapper> View for Mos6502<M> {
    type V = CpuState;

    /// The processor without its bus.
    closed spec fn view(&self) -> CpuState {
        CpuState {
            registers: Registers { a: self.a, x: self.x, y: self.y, s: self.s, p: self.p },
            pc: self.pc,
            opcode: self.opcode,
            operand: self.operand,
            address: self.address,
            data: self.data,
            address_carry: self.address_carry,
            pointer: self.pointer,
            cycle: self.cycle as nat,
            queue: self.cycle_microcode_queue@,
        }
    }
}

/// Whether a processor in state `before` on the bus `bus_before` is, one
/// cycle later, in state `after` on the bus `bus_after`.
///
/// The cycle makes the one access that `before.access()` names. In a read
/// cycle the bus stays as it is and the byte it shows enters the step; in a
/// write cycle the bus takes the byte.
pub open spec fn cycled<M: Mapper>(
    before: CpuState,
    bus_before: M,
    after: CpuState,
    bus_after: M,
) -> bool {
    match before.access() {
        Access::Read(address) => {
            &&& bus_after == bus_before
            &&& after == before.step(bus_before.peek(address))
        },
        Access::Write(address, data) => {
            &&& bus_before.poked(address, data, &bus_after)
            &&& after == before.step(data)
        },
    }
}

impl<M: Mapper> Mos6502<M> {
    /// The bus of the processor.
    pub closed spec fn bus(&self) -> M {
        self.mapper
    }

    /// Whether the processor can take a cycle: its bus serves every address,
    /// and its cycle counter has not reached its last value.
    pub open spec fn can_cycle(&self) -> bool {
        &&& self.bus().well_formed()
        &&& self@.cycle < u32::MAX
    }

    /// The state at power-on: interrupts disabled, the stack pointer at
    /// `0xFD`, everything else zero, and no instruction in flight.
    pub open spec fn power_on() -> CpuState {
        CpuState {
            registers: Registers {
                a: 0,
                x: 0,
                y: 0,
                s: 0xfd,
                p: Status {
                    carry: false,
                    zero: false,
                    interrupt_disable: true,
                    decimal: false,
                    overflow: false,
                    negative: false,
                },
            },
            pc: RESET_VECTOR,
            opcode: 0,
            operand: 0,
            address: 0,
            data: 0,
            address_carry: false,
            pointer: 0,
            cycle: 0,
            queue: Seq::empty(),
        }
    }

    /// A processor at power-on, on the bus `mapper`.
    pub fn new(mapper: M) -> (cpu: Self)
        ensures
            cpu.bus() == mapper,
            cpu@ == Self::power_on(),
    {
        Self {
            a: 0x00,
            pc: RESET_VECTOR,
            p: Status {
                carry: false,
                zero: false,
                interrupt_disable: true,
                decimal: false,
                overflow: false,
                negative: false,
            },
            s: 0xFD,
            x: 0x00,
            y: 0x00,
            opcode: 0x00,
            operand: 0x00,
            address: 0x0000,
            data: 0x00,
            address_carry: false,
            pointer: 0x00,
            mapper,
            cycle: 0,
            cycle_microcode_queue: VecDeque::with_capacity(8),
        }
    }

    /// The registers, as the processor shows them to a program.
    pub fn registers(&self) -> (registers: Registers)
        ensures
            registers == self@.registers,
    {
        Registers { a: self.a, x: self.x, y: self.y, s: self.s, p: self.p }
    }

    /// The address of the next byte of the program.
    pub fn program_counter(&self) -> (pc: u16)
        ensures
            pc == self@.pc,
    {
        self.pc
    }

    /// The number of cycles taken since power-on.
    pub fn cycles(&self) -> (cycles: u32)
        ensures
            cycles == self@.cycle,
    {
        self.cycle
    }

    /// Puts the program counter at `pc`, for a program that does not start
    /// at its reset vector.
    pub fn start_at(&mut self, pc: u16)
        ensures
            final(self)@ == (CpuState { pc, ..old(self)@ }),
            final(self).bus() == old(self).bus(),
    {
        self.pc = pc;
    }

    /// The opcode of the instruction in flight, or of the last one.
    pub fn opcode(&self) -> (opcode: u8)
        ensures
            opcode == self@.opcode,
    {
        self.opcode
    }

    /// Whether no instruction is in flight: the next cycle fetches an
    /// opcode.
    pub fn is_idle(&self) -> (idle: bool)
        ensures
            idle == (self@.queue.len() == 0),
    {
        self.cycle_microcode_queue.len() == 0
    }

    // The microcode queue

    fn queue_branch_microcode(&mut self, op: BranchOperation)
        ensures
            final(self)@ == old(self)@.enqueue(seq![MicrocodeTask::Branch(op)]),
            final(self).bus() == old(self).bus(),
    {
        self.cycle_microcode_queue.push_back(MicrocodeTask::Branch(op));
        assert(self@.queue =~= old(self)@.queue + seq![MicrocodeTask::Branch(op)]);
    }

    fn queue_read(&mut self, io: BusRead, op: Latch)
        ensures
            final(self)@ == (CpuState {
                queue: old(self)@.queue.push(MicrocodeTask::Read(io, op)),
                ..old(self)@
            }),
            final(self).bus() == old(self).bus(),
    {
        self.cycle_microcode_queue.push_back(MicrocodeTask::Read(io, op));
    }

    fn queue_read_first(&mut self, io: BusRead, op: Latch)
        ensures
            final(self)@ == old(self)@.enqueue_front(MicrocodeTask::Read(io, op)),
            final(self).bus() == old(self).bus(),
    {
        self.cycle_microcode_queue.push_front(MicrocodeTask::Read(io, op));
    }

    fn queue_write(&mut self, io: BusWrite, op: Source)
        ensures
            final(self)@ == (CpuState {
                queue: old(self)@.queue.push(MicrocodeTask::Write(io, op)),
                ..old(self)@
            }),
            final(self).bus() == old(self).bus(),
    {
        self.cycle_microcode_queue.push_back(MicrocodeTask::Write(io, op));
    }

    fn queue_read_write_microcode(&mut self, op: ReadWriteOperation)
        ensures
            final(self)@ == (CpuState {
                queue: old(self)@.queue.push(MicrocodeTask::ReadWrite(op)),
                ..old(self)@
            }),
            final(self).bus() == old(self).bus(),
    {
        self.cycle_microcode_queue.push_back(MicrocodeTask::ReadWrite(op));
    }

    // The bus adapter: reads

    /// Reads the byte at `address`: one bus cycle.
    pub fn read(&mut self, address: u16) -> (data: u8)
        requires
            old(self).bus().well_formed(),
        ensures
            data == old(self).bus().peek(address),
            final(self)@ == old(self)@,
            final(self).bus() == old(self).bus(),
    {
        let data = self.mapper.read(address);
        data
    }

    fn read_address(&mut self) -> (data: u8)
        requires
            old(self).bus().well_formed(),
        ensures
            data == old(self).bus().peek(old(self)@.read_address(BusRead::Address)),
            final(self)@ == old(self)@.after_read(BusRead::Address),
            final(self).bus() == old(self).bus(),
    {
        self.read(self.address)
    }

    fn read_address_increment(&mut self) -> (data: u8)
        requires
            old(self).bus().well_formed(),
        ensures
            data == old(self).bus().peek(old(self)@.read_address(BusRead::AddressIncrement)),
            final(self)@ == old(self)@.after_read(BusRead::AddressIncrement),
            final(self).bus() == old(self).bus(),
    {
        let data = self.read_address();
        let low = self.address.get_low().wrapping_add(1);
        self.address.set_low(low);
        data
    }

    fn read_pc_increment(&mut self) -> (data: u8)
        requires
            old(self).bus().well_formed(),
        ensures
            data == old(self).bus().peek(old(self)@.read_address(BusRead::PcIncrement)),
            final(self)@ == old(self)@.after_read(BusRead::PcIncrement),
            final(self).bus() == old(self).bus(),
    {
        let data = self.read_pc();
        self.pc = self.pc.wrapping_add(1);
        data
    }

    fn read_pc(&mut self) -> (data: u8)
        requires
            old(self).bus().well_formed(),
        ensures
            data == old(self).bus().peek(old(self)@.read_address(BusRead::Pc)),
            final(self)@ == old(self)@.after_read(BusRead::Pc),
            final(self).bus() == old(self).bus(),
    {
        self.read(self.pc)
    }

    fn read_pointer(&mut self) -> (data: u8)
        requires
            old(self).bus().well_formed(),
        ensures
            data == old(self).bus().peek(old(self)@.read_address(BusRead::Pointer)),
            final(self)@ == old(self)@.after_read(BusRead::Pointer),
            final(self).bus() == old(self).bus(),
    {
        self.read(self.pointer as u16)
    }

    fn read_pointer_increment(&mut self) -> (data: u8)
        requires
            old(self).bus().well_formed(),
        ensures
            data == old(self).bus().peek(old(self)@.read_address(BusRead::PointerIncrement)),
            final(self)@ == old(self)@.after_read(BusRead::PointerIncrement),
            final(self).bus() == old(self).bus(),
    {
        let data = self.read_pointer();
        self.pointer = self.pointer.wrapping_add(1);
        data
    }

    fn read_fixed(&mut self, address: u16) -> (data: u8)
        requires
            old(self).bus().well_formed(),
        ensures
            data == old(self).bus().peek(old(self)@.read_address(BusRead::Fixed(address))),
            final(self)@ == old(self)@.after_read(BusRead::Fixed(address)),
            final(self).bus() == old(self).bus(),
    {
        self.read(address)
    }

    fn read_stack(&mut self) -> (data: u8)
        requires
            old(self).bus().well_formed(),
        ensures
            data == old(self).bus().peek(old(self)@.read_address(BusRead::Stack)),
            final(self)@ == old(self)@.after_read(BusRead::Stack),
            final(self).bus() == old(self).bus(),
    {
        self.read(STACK_OFFSET + self.s as u16)
    }

    /// The stack pointer moves up by one, from `0xFF` to `0x00`, and the
    /// byte it then points at is read.
    fn pop_stack(&mut self) -> (data: u8)
        requires
            old(self).bus().well_formed(),
        ensures
            data == old(self).bus().peek(old(self)@.read_address(BusRead::PopStack)),
            final(self)@ == old(self)@.after_read(BusRead::PopStack),
            final(self).bus() == old(self).bus(),
    {
        self.s = self.s.wrapping_add(1);
        let data = self.read_stack();
        data
    }

    /// The bus side of a read step.
    fn bus_read(&mut self, io: BusRead) -> (data: u8)
        requires
            old(self).bus().well_formed(),
        ensures
            data == old(self).bus().peek(old(self)@.read_address(io)),
            final(self)@ == old(self)@.after_read(io),
            final(self).bus() == old(self).bus(),
    {
        match io {
            BusRead::Address => self.read_address(),
            BusRead::AddressIncrement => self.read_address_increment(),
            BusRead::Pc => self.read_pc(),
            BusRead::PcIncrement => self.read_pc_increment(),
            BusRead::Pointer => self.read_pointer(),
            BusRead::PointerIncrement => self.read_pointer_increment(),
            BusRead::Fixed(address) => self.read_fixed(address),
            BusRead::Stack => self.read_stack(),
            BusRead::PopStack => self.pop_stack(),
        }
    }

    // The bus adapter: writes

    /// Writes `data` to `address`: one bus cycle.
    pub fn write(&mut self, address: u16, data: u8)
        requires
            old(self).bus().well_formed(),
        ensures
            old(self).bus().poked(address, data, &final(self).bus()),
            final(self).bus().well_formed(),
            final(self)@ == old(self)@,
    {
        self.mapper.write(address, data);
    }

    fn write_address(&mut self, data: u8)
        requires
            old(self).bus().well_formed(),
        ensures
            old(self).bus().poked(
                old(self)@.write_address(BusWrite::Address),
                data,
                &final(self).bus(),
            ),
            final(self).bus().well_formed(),
            final(self)@ == old(self)@.after_write(BusWrite::Address),
    {
        self.write(self.address, data);
    }

    /// The byte is written at the top of the stack, and the stack pointer
    /// moves down by one, from `0x00` to `0xFF`.
    fn push_stack(&mut self, data: u8)
        requires
            old(self).bus().well_formed(),
        ensures
            old(self).bus().poked(
                old(self)@.write_address(BusWrite::PushStack),
                data,
                &final(self).bus(),
            ),
            final(self).bus().well_formed(),
            final(self)@ == old(self)@.after_write(BusWrite::PushStack),
    {
        self.write(self.s as u16 + STACK_OFFSET, data);
        self.s = self.s.wrapping_sub(1);
    }

    /// The bus side of a write step.
    fn bus_write(&mut self, io: BusWrite, data: u8)
        requires
            old(self).bus().well_formed(),
        ensures
            old(self).bus().poked(old(self)@.write_address(io), data, &final(self).bus()),
            final(self).bus().well_formed(),
            final(self)@ == old(self)@.after_write(io),
    {
        match io {
            BusWrite::Address => self.write_address(data),
            BusWrite::PushStack => self.push_stack(data),
        }
    }

    // Latches

    fn set_zero_page_address(&mut self, data: u8)
        ensures
            final(self)@ == old(self)@.latch(Latch::ZeroPageAddress, data),
            final(self).bus() == old(self).bus(),
    {
        self.address = data as u16;
    }

    fn set_address_low(&mut self, data: u8)
        ensures
            final(self)@ == old(self)@.latch(Latch::AddressLow, data),
            final(self).bus() == old(self).bus(),
    {
        self.address.set_low(data);
    }

    fn set_address_high(&mut self, data: u8)
        ensures
            final(self)@ == old(self)@.latch(Latch::AddressHigh, data),
            final(self).bus() == old(self).bus(),
    {
        self.address.set_high(data);
    }

    fn set_pc_low(&mut self, data: u8)
        ensures
            final(self)@ == old(self)@.latch(Latch::PcLow, data),
            final(self).bus() == old(self).bus(),
    {
        self.pc.set_low(data);
    }

    fn set_pc_high(&mut self, data: u8)
        ensures
            final(self)@ == old(self)@.latch(Latch::PcHigh, data),
            final(self).bus() == old(self).bus(),
    {
        self.pc.set_high(data);
    }

    /// The value of an index register.
    fn index(&self, register: IndexRegister) -> (value: u8)
        ensures
            value == self@.registers.index(register),
    {
        match register {
            IndexRegister::X => self.x,
            IndexRegister::Y => self.y,
        }
    }

    /// Takes `data` as the high byte of the effective address and adds the
    /// index to its low byte, without a carry into the high byte.
    fn index_address(&mut self, register: IndexRegister, data: u8)
        ensures
            final(self)@ == old(self)@.index_address(register, data),
            final(self).bus() == old(self).bus(),
    {
        let low = self.address.get_low();
        let index = self.index(register);
        self.address = u16::from_high_low(data, low.wrapping_add(index));
        self.address_carry = index > 0xff - low;
    }

    /// Adds the offset of the branch to the low byte of the program
    /// counter.
    fn branch_low(&mut self)
        ensures
            final(self)@ == old(self)@.branch_low(),
            final(self).bus() == old(self).bus(),
    {
        let low = self.pc.get_low();
        let sum: u16 = low as u16 + self.operand as u16;
        let crosses = if self.operand < 0x80 {
            sum > 0xff
        } else {
            sum < 0x100
        };
        self.pc.set_low(low.wrapping_add(self.operand));
        if crosses {
            self.queue_read(BusRead::Pc, Latch::BranchHigh);
            assert(self@.queue =~= old(self)@.queue + seq![
                MicrocodeTask::Read(BusRead::Pc, Latch::BranchHigh),
            ]);
        }
    }

    /// Moves the high byte of the program counter to the page that the
    /// branch leads to.
    fn branch_high(&mut self)
        ensures
            final(self)@ == old(self)@.branch_high(),
            final(self).bus() == old(self).bus(),
    {
        let high = if self.operand < 0x80 {
            self.pc.get_high().wrapping_add(1)
        } else {
            self.pc.get_high().wrapping_sub(1)
        };
        self.pc.set_high(high);
    }

    /// Runs a read operation on the byte.
    fn read_operation(&mut self, op: ReadOperation, data: u8)
        ensures
            final(self)@ == old(self)@.with(old(self)@.registers.read_operation(op, data)),
            final(self).bus() == old(self).bus(),
    {
        reveal(Registers::read_operation);
        match op {
            ReadOperation::Adc => self.adc(data),
            ReadOperation::And => self.and(data),
            ReadOperation::Bit => self.bit(data),
            ReadOperation::Clc => self.clc(data),
            ReadOperation::Cld => self.cld(data),
            ReadOperation::Cli => self.cli(data),
            ReadOperation::Clv => self.clv(data),
            ReadOperation::Cmp => self.cmp(data),
            ReadOperation::Cpx => self.cpx(data),
            ReadOperation::Cpy => self.cpy(data),
            ReadOperation::Dex => self.dex(data),
            ReadOperation::Dey => self.dey(data),
            ReadOperation::Eor => self.eor(data),
            ReadOperation::Inx => self.inx(data),
            ReadOperation::Iny => self.iny(data),
            ReadOperation::Lax => self.lax(data),
            ReadOperation::Lda => self.lda(data),
            ReadOperation::Ldx => self.ldx(data),
            ReadOperation::Ldy => self.ldy(data),
            ReadOperation::Nop => self.nop(data),
            ReadOperation::Ora => self.ora(data),
            ReadOperation::Sbc => self.sbc(data),
            ReadOperation::Sec => self.sec(data),
            ReadOperation::Sed => self.sed(data),
            ReadOperation::Sei => self.sei(data),
            ReadOperation::Tax => self.tax(data),
            ReadOperation::Tay => self.tay(data),
            ReadOperation::Tsx => self.tsx(data),
            ReadOperation::Txa => self.txa(data),
            ReadOperation::Txs => self.txs(data),
            ReadOperation::Tya => self.tya(data),
        }
    }

    /// The byte that a write operation stores.
    fn write_operation(&mut self, op: WriteOperation) -> (data: u8)
        ensures
            data == old(self)@.registers.write_operation(op),
            final(self)@ == old(self)@,
            final(self).bus() == old(self).bus(),
    {
        match op {
            WriteOperation::Sax => self.sax(),
            WriteOperation::Sta => self.sta(),
            WriteOperation::Stx => self.stx(),
            WriteOperation::Sty => self.sty(),
        }
    }

    /// Runs a read-modify-write operation on the byte.
    fn read_write_operation(&mut self, op: ReadWriteOperation, data: u8) -> (result: u8)
        ensures
            result == old(self)@.registers.read_write_operation(op, data).0,
            final(self)@ == old(self)@.with(old(self)@.registers.read_write_operation(op, data).1),
            final(self).bus() == old(self).bus(),
    {
        reveal(Registers::read_write_operation);
        match op {
            ReadWriteOperation::Asl => self.asl(data),
            ReadWriteOperation::Dcp => self.dcp(data),
            ReadWriteOperation::Dec => self.dec(data),
            ReadWriteOperation::Inc => self.inc(data),
            ReadWriteOperation::Isc => self.isc(data),
            ReadWriteOperation::Lsr => self.lsr(data),
            ReadWriteOperation::Rla => self.rla(data),
            ReadWriteOperation::Rol => self.rol(data),
            ReadWriteOperation::Ror => self.ror(data),
            ReadWriteOperation::Rra => self.rra(data),
            ReadWriteOperation::Slo => self.slo(data),
            ReadWriteOperation::Sre => self.sre(data),
        }
    }

    /// Tests the flag of a branch operation.
    fn branch_operation(&mut self, op: BranchOperation) -> (taken: bool)
        ensures
            taken == old(self)@.registers.branch_operation(op),
            final(self)@ == old(self)@,
            final(self).bus() == old(self).bus(),
    {
        match op {
            BranchOperation::Bcc => self.bcc(),
            BranchOperation::Bcs => self.bcs(),
            BranchOperation::Beq => self.beq(),
            BranchOperation::Bmi => self.bmi(),
            BranchOperation::Bne => self.bne(),
            BranchOperation::Bpl => self.bpl(),
            BranchOperation::Bvc => self.bvc(),
            BranchOperation::Bvs => self.bvs(),
        }
    }

    /// The processor side of a read step.
    fn latch(&mut self, latch: Latch, data: u8)
        ensures
            final(self)@ == old(self)@.latch(latch, data),
            final(self).bus() == old(self).bus(),
    {
        match latch {
            Latch::Decode => self.decode_opcode(data),
            Latch::Operate(op) => self.read_operation(op, data),
            Latch::Accumulate(op) => {
                self.a = self.read_write_operation(op, self.a);
            },
            Latch::Discard => {},
            Latch::AddressLow => self.set_address_low(data),
            Latch::AddressHigh => self.set_address_high(data),
            Latch::ZeroPageAddress => self.set_zero_page_address(data),
            Latch::ZeroPageIndex(register) => {
                let low = self.address.get_low();
                let index = self.index(register);
                self.set_zero_page_address(low.wrapping_add(index));
            },
            Latch::AddressHighIndexed(register) => self.index_address(register, data),
            Latch::AddressHighReadIndexed(register) => {
                self.index_address(register, data);
                if self.address_carry {
                    self.queue_read_first(BusRead::Address, Latch::FixAddress);
                }
            },
            Latch::FixAddress => {
                if self.address_carry {
                    self.address = self.address.wrapping_add(0x100);
                }
            },
            Latch::Pointer => {
                self.pointer = data;
            },
            Latch::PointerIndex => {
                self.pointer = self.pointer.wrapping_add(self.x);
            },
            Latch::Data => {
                self.data = data;
            },
            Latch::PcLow => self.set_pc_low(data),
            Latch::PcHigh => self.set_pc_high(data),
            Latch::Jump => {
                self.set_address_high(data);
                self.pc = self.address;
            },
            Latch::InterruptDisable => self.sei(data),
            Latch::Accumulator => self.lda(data),
            Latch::Status => {
                self.p = Status::from_bits_truncate(data);
            },
            Latch::BranchLow => self.branch_low(),
            Latch::BranchHigh => self.branch_high(),
        }
    }

    /// The byte that a write step writes.
    fn source(&mut self, source: Source) -> (data: u8)
        ensures
            data == old(self)@.source(source),
            final(self)@ == old(self)@,
            final(self).bus() == old(self).bus(),
    {
        match source {
            Source::Operate(op) => self.write_operation(op),
            Source::Data => self.data,
            Source::PcHigh => self.pc.get_high(),
            Source::PcLow => self.pc.get_low(),
            Source::Accumulator => self.a,
            Source::Status => self.p.pushed(),
        }
    }

    fn set_negative_flag(&mut self, data: u8)
        ensures
            final(self)@ == old(self)@.with(
                Registers {
                    p: Status { negative: data >= 0x80, ..old(self)@.registers.p },
                    ..old(self)@.registers
                },
            ),
            final(self).bus() == old(self).bus(),
    {
        self.p.negative = data >= 0x80;
    }

    fn set_zero_flag(&mut self, data: u8)
        ensures
            final(self)@ == old(self)@.with(
                Registers {
                    p: Status { zero: data == 0, ..old(self)@.registers.p },
                    ..old(self)@.registers
                },
            ),
            final(self).bus() == old(self).bus(),
    {
        self.p.zero = data == 0;
    }
}

/// The interface of the processor to the console that drives it.
pub trait RP2A03 {
    /// Whether the processor can take a cycle.
    spec fn ready(&self) -> bool;

    fn reset(self: &mut Self);

    fn cycle(&mut self)
        requires
            old(self).ready(),
    ;

    fn decode_opcode(self: &mut Self, opcode: u8);
}

impl<M: Mapper> RP2A03 for Mos6502<M> {
    open spec fn ready(&self) -> bool {
        self.can_cycle()
    }

    /// One cycle: exactly one access to the bus, and the step that goes
    /// with it.
    fn cycle(&mut self)
        ensures
            cycled(old(self)@, old(self).bus(), final(self)@, final(self).bus()),
            final(self).bus().well_formed(),
    {
        reveal(CpuState::step);
        self.cycle += 1;
        let microcode = match self.cycle_microcode_queue.pop_front() {
            Some(microcode) => microcode,
            None => MicrocodeTask::Read(BusRead::PcIncrement, Latch::Decode),
        };

        match microcode {
            MicrocodeTask::Branch(op) => {
                let data = self.read_pc_increment();
                self.operand = data;
                if self.branch_operation(op) {
                    let ghost fetched = self@;
                    self.queue_read(BusRead::Pc, Latch::BranchLow);
                    assert(self@.queue =~= fetched.queue + seq![
                        MicrocodeTask::Read(BusRead::Pc, Latch::BranchLow),
                    ]);
                }
            },
            MicrocodeTask::Read(io, op) => {
                let data = self.bus_read(io);
                self.latch(op, data);
            },
            MicrocodeTask::Write(io, op) => {
                let data = self.source(op);
                self.bus_write(io, data);
            },
            MicrocodeTask::ReadWrite(op) => {
                let data = self.data;
                self.write_address(data);
                self.data = self.read_write_operation(op, data);
            },
        }
    }

    /// Queues the steps of the instruction that `opcode` stands for.
    fn decode_opcode(self: &mut Self, opcode: u8)
        ensures
            final(self)@ == old(self)@.decode_opcode(opcode),
            final(self).bus() == old(self).bus(),
    {
        self.opcode = opcode;
        match Instruction::decode(opcode) {
            Instruction::Accumulator(op) => op.accumulator(self),
            Instruction::Branch(op) => op.relative(self),
            Instruction::Brk => self.brk(),
            Instruction::Immediate(op) => op.immediate(self),
            Instruction::Implied(op) => op.implied(self),
            Instruction::Jmp => self.jmp(),
            Instruction::JmpIndirect => self.jmp_indrect(),
            Instruction::Jsr => self.jsr(),
            Instruction::Pha => self.pha(),
            Instruction::Php => self.php(),
            Instruction::Pla => self.pla(),
            Instruction::Plp => self.plp(),
            Instruction::Read(op, mode) => op.addressed(mode, self),
            Instruction::ReadWrite(op, mode) => op.addressed(mode, self),
            Instruction::Rti => self.rti(),
            Instruction::Rts => self.rts(),
            Instruction::Unrecognized => {
                self.queue_read(BusRead::Pc, Latch::Discard);
            },
            Instruction::Write(op, mode) => op.addressed(mode, self),
        }
        assert(self@.queue =~= old(self)@.queue + steps(Instruction::of(opcode)));
    }

    /// Disables interrupts, puts the stack pointer at `0xFD` and queues the
    /// two fetches of the reset vector.
    fn reset(self: &mut Self)
        ensures
            final(self)@ == old(self)@.reset(),
            final(self).bus() == old(self).bus(),
    {
        self.p.interrupt_disable = true;
        self.s = 0xfd;
        self.queue_read(BusRead::Fixed(RESET_VECTOR), Latch::PcLow);
        self.queue_read(BusRead::Fixed(RESET_VECTOR + 1), Latch::PcHigh);
        assert(self@.queue =~= old(self)@.queue + reset_steps());
    }
}

} // verus!
