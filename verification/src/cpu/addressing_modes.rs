//! The addressing modes: for each kind of operation and each mode, the steps
//! that fetch the operand's address and those that use it.
//!
//! The step numbers in the comments count bus cycles; cycle 1 is the fetch of
//! the opcode.

use vstd::prelude::*;
use crate::roms::Mapper;
use super::{BusRead, BusWrite, IndexRegister, Latch, MicrocodeTask, Mos6502, Source};
use super::instructions::{BranchOperation, ReadOperation, ReadWriteOperation, WriteOperation};

verus! {

/// The ways to address a byte in memory.
#[derive(Clone, Copy, PartialEq, Eq, Structural, Debug)]
pub enum AddressingMode {
    /// The two bytes after the opcode are the address.
    Absolute,
    /// X is added to the address after the opcode.
    AbsoluteIndexedX,
    /// Y is added to the address after the opcode.
    AbsoluteIndexedY,
    /// The byte after the opcode, with X added, points at the address on
    /// page zero.
    IndexedIndirectX,
    /// The byte after the opcode points at an address on page zero, to
    /// which Y is added.
    IndirectIndexedY,
    /// The byte after the opcode is an address on page zero.
    ZeroPage,
    /// X is added to the zero-page address after the opcode.
    ZeroPageIndexedX,
    /// Y is added to the zero-page address after the opcode.
    ZeroPageIndexedY,
}

/// The steps that form the effective address.
///
/// Adding an index to the low byte of an address may carry into its high
/// byte, which takes a cycle of its own: a read at the address whose high
/// byte is not yet corrected. With `fix_always` that cycle is part of the
/// steps; without, it is left to the step that adds the index, which queues
/// it when the sum carries.
pub open spec fn address_steps(mode: AddressingMode, fix_always: bool) -> Seq<MicrocodeTask> {
    match mode {
        AddressingMode::Absolute => seq![
            MicrocodeTask::Read(BusRead::PcIncrement, Latch::AddressLow),
            MicrocodeTask::Read(BusRead::PcIncrement, Latch::AddressHigh),
        ],
        AddressingMode::AbsoluteIndexedX => absolute_indexed_steps(IndexRegister::X, fix_always),
        AddressingMode::AbsoluteIndexedY => absolute_indexed_steps(IndexRegister::Y, fix_always),
        AddressingMode::IndexedIndirectX => seq![
            MicrocodeTask::Read(BusRead::PcIncrement, Latch::Pointer),
            MicrocodeTask::Read(BusRead::Pointer, Latch::PointerIndex),
            MicrocodeTask::Read(BusRead::PointerIncrement, Latch::AddressLow),
            MicrocodeTask::Read(BusRead::PointerIncrement, Latch::AddressHigh),
        ],
        AddressingMode::IndirectIndexedY => if fix_always {
            seq![
                MicrocodeTask::Read(BusRead::PcIncrement, Latch::Pointer),
                MicrocodeTask::Read(BusRead::PointerIncrement, Latch::AddressLow),
                MicrocodeTask::Read(
                    BusRead::PointerIncrement,
                    Latch::AddressHighIndexed(IndexRegister::Y),
                ),
                MicrocodeTask::Read(BusRead::Address, Latch::FixAddress),
            ]
        } else {
            seq![
                MicrocodeTask::Read(BusRead::PcIncrement, Latch::Pointer),
                MicrocodeTask::Read(BusRead::PointerIncrement, Latch::AddressLow),
                MicrocodeTask::Read(
                    BusRead::PointerIncrement,
                    Latch::AddressHighReadIndexed(IndexRegister::Y),
                ),
            ]
        },
        AddressingMode::ZeroPage => seq![
            MicrocodeTask::Read(BusRead::PcIncrement, Latch::ZeroPageAddress),
        ],
        AddressingMode::ZeroPageIndexedX => zero_page_indexed_steps(IndexRegister::X),
        AddressingMode::ZeroPageIndexedY => zero_page_indexed_steps(IndexRegister::Y),
    }
}

/// The address steps of the two absolute indexed modes.
pub open spec fn absolute_indexed_steps(register: IndexRegister, fix_always: bool) -> Seq<
    MicrocodeTask,
> {
    if fix_always {
        seq![
            MicrocodeTask::Read(BusRead::PcIncrement, Latch::AddressLow),
            MicrocodeTask::Read(BusRead::PcIncrement, Latch::AddressHighIndexed(register)),
            MicrocodeTask::Read(BusRead::Address, Latch::FixAddress),
        ]
    } else {
        seq![
            MicrocodeTask::Read(BusRead::PcIncrement, Latch::AddressLow),
            MicrocodeTask::Read(BusRead::PcIncrement, Latch::AddressHighReadIndexed(register)),
        ]
    }
}

/// The address steps of the two zero-page indexed modes.
pub open spec fn zero_page_indexed_steps(register: IndexRegister) -> Seq<MicrocodeTask> {
    seq![
        MicrocodeTask::Read(BusRead::PcIncrement, Latch::ZeroPageAddress),
        MicrocodeTask::Read(BusRead::Address, Latch::ZeroPageIndex(register)),
    ]
}

/// The steps of a read operation on memory: the address, then the read that
/// feeds the operation. The cycle that corrects an indexed address is spent
/// only when needed.
pub open spec fn read_steps(op: ReadOperation, mode: AddressingMode) -> Seq<MicrocodeTask> {
    address_steps(mode, false) + seq![MicrocodeTask::Read(BusRead::Address, Latch::Operate(op))]
}

/// The steps of a write operation: the address, then the write. The cycle
/// that corrects an indexed address is always spent.
pub open spec fn write_steps(op: WriteOperation, mode: AddressingMode) -> Seq<MicrocodeTask> {
    address_steps(mode, true) + seq![MicrocodeTask::Write(BusWrite::Address, Source::Operate(op))]
}

/// The steps of a read-modify-write operation: the address, the read, the
/// write of the byte as it was read, and the write of the new byte. The
/// cycle that corrects an indexed address is always spent.
pub open spec fn read_write_steps(op: ReadWriteOperation, mode: AddressingMode) -> Seq<
    MicrocodeTask,
> {
    address_steps(mode, true) + seq![
        MicrocodeTask::Read(BusRead::Address, Latch::Data),
        MicrocodeTask::ReadWrite(op),
        MicrocodeTask::Write(BusWrite::Address, Source::Data),
    ]
}

/// The one addressing mode of the branches.
pub trait BranchAddressingModes {
    fn relative<M: Mapper>(self, cpu: &mut Mos6502<M>);
}

impl BranchAddressingModes for BranchOperation {
    /// Queues the fetch of the branch offset. The step itself queues what
    /// follows: nothing if the branch is not taken, one step to move the
    /// program counter if it is, and a second one if the target lies on
    /// another page.
    fn relative<M: Mapper>(self, cpu: &mut Mos6502<M>)
        ensures
            final(cpu)@ == old(cpu)@.enqueue(seq![MicrocodeTask::Branch(self)]),
            final(cpu).bus() == old(cpu).bus(),
    {
        cpu.queue_branch_microcode(self);
    }
}

/// The addressing modes that reach a byte in memory.
pub trait AddressingModes {
    fn absolute<M: Mapper>(self, cpu: &mut Mos6502<M>);

    fn absolute_indexed_x<M: Mapper>(self, cpu: &mut Mos6502<M>);

    fn absolute_indexed_y<M: Mapper>(self, cpu: &mut Mos6502<M>);

    fn indexed_indirect_x<M: Mapper>(self, cpu: &mut Mos6502<M>);

    fn indirect_indexed_y<M: Mapper>(self, cpu: &mut Mos6502<M>);

    fn zero_page<M: Mapper>(self, cpu: &mut Mos6502<M>);

    fn zero_page_indexed_x<M: Mapper>(self, cpu: &mut Mos6502<M>);

    fn zero_page_indexed_y<M: Mapper>(self, cpu: &mut Mos6502<M>);
}

impl ReadOperation {
    /// Queues the operation on the accumulator: one dummy read of the byte
    /// after the opcode.
    pub fn accumulator<M: Mapper>(self, cpu: &mut Mos6502<M>)
        ensures
            final(cpu)@ == old(cpu)@.enqueue(
                seq![MicrocodeTask::Read(BusRead::Pc, Latch::Operate(self))],
            ),
            final(cpu).bus() == old(cpu).bus(),
    {
        self.implied(cpu);
    }

    /// Queues the operation on the byte after the opcode.
    pub fn immediate<M: Mapper>(self, cpu: &mut Mos6502<M>)
        ensures
            final(cpu)@ == old(cpu)@.enqueue(
                seq![MicrocodeTask::Read(BusRead::PcIncrement, Latch::Operate(self))],
            ),
            final(cpu).bus() == old(cpu).bus(),
    {
        cpu.queue_read(BusRead::PcIncrement, Latch::Operate(self));
        assert(cpu@.queue =~= old(cpu)@.queue + seq![
            MicrocodeTask::Read(BusRead::PcIncrement, Latch::Operate(self)),
        ]);
    }

    /// Queues the operation without an operand: one dummy read of the byte
    /// after the opcode.
    pub fn implied<M: Mapper>(self, cpu: &mut Mos6502<M>)
        ensures
            final(cpu)@ == old(cpu)@.enqueue(
                seq![MicrocodeTask::Read(BusRead::Pc, Latch::Operate(self))],
            ),
            final(cpu).bus() == old(cpu).bus(),
    {
        cpu.queue_read(BusRead::Pc, Latch::Operate(self));
        assert(cpu@.queue =~= old(cpu)@.queue + seq![
            MicrocodeTask::Read(BusRead::Pc, Latch::Operate(self)),
        ]);
    }

    /// Queues the operation in the given mode.
    pub fn addressed<M: Mapper>(self, mode: AddressingMode, cpu: &mut Mos6502<M>)
        ensures
            final(cpu)@ == old(cpu)@.enqueue(read_steps(self, mode)),
            final(cpu).bus() == old(cpu).bus(),
    {
        match mode {
            AddressingMode::Absolute => self.absolute(cpu),
            AddressingMode::AbsoluteIndexedX => self.absolute_indexed_x(cpu),
            AddressingMode::AbsoluteIndexedY => self.absolute_indexed_y(cpu),
            AddressingMode::IndexedIndirectX => self.indexed_indirect_x(cpu),
            AddressingMode::IndirectIndexedY => self.indirect_indexed_y(cpu),
            AddressingMode::ZeroPage => self.zero_page(cpu),
            AddressingMode::ZeroPageIndexedX => self.zero_page_indexed_x(cpu),
            AddressingMode::ZeroPageIndexedY => self.zero_page_indexed_y(cpu),
        }
    }
}

impl AddressingModes for ReadOperation {
    fn absolute<M: Mapper>(self, cpu: &mut Mos6502<M>)
        ensures
            final(cpu)@ == old(cpu)@.enqueue(read_steps(self, AddressingMode::Absolute)),
            final(cpu).bus() == old(cpu).bus(),
    {
        // 2    PC     R  fetch low byte of address, increment PC
        cpu.queue_read(BusRead::PcIncrement, Latch::AddressLow);
        // 3    PC     R  fetch high byte of address, increment PC
        cpu.queue_read(BusRead::PcIncrement, Latch::AddressHigh);
        // 4  address  R  read from effective address
        cpu.queue_read(BusRead::Address, Latch::Operate(self));
        assert(cpu@.queue =~= old(cpu)@.queue + read_steps(self, AddressingMode::Absolute));
    }

    fn absolute_indexed_x<M: Mapper>(self, cpu: &mut Mos6502<M>)
        ensures
            final(cpu)@ == old(cpu)@.enqueue(read_steps(self, AddressingMode::AbsoluteIndexedX)),
            final(cpu).bus() == old(cpu).bus(),
    {
        // 2     PC      R  fetch low byte of address, increment PC
        cpu.queue_read(BusRead::PcIncrement, Latch::AddressLow);
        // 3     PC      R  fetch high byte of address, add X to the low byte,
        //                  increment PC
        // 4  address+X* R  only if the sum carried: read from the address,
        //                  fix its high byte
        cpu.queue_read(BusRead::PcIncrement, Latch::AddressHighReadIndexed(IndexRegister::X));
        // 5  address+X  R  read from effective address
        cpu.queue_read(BusRead::Address, Latch::Operate(self));
        assert(cpu@.queue =~= old(cpu)@.queue + read_steps(
            self,
            AddressingMode::AbsoluteIndexedX,
        ));
    }

    fn absolute_indexed_y<M: Mapper>(self, cpu: &mut Mos6502<M>)
        ensures
            final(cpu)@ == old(cpu)@.enqueue(read_steps(self, AddressingMode::AbsoluteIndexedY)),
            final(cpu).bus() == old(cpu).bus(),
    {
        // 2     PC      R  fetch low byte of address, increment PC
        cpu.queue_read(BusRead::PcIncrement, Latch::AddressLow);
        // 3     PC      R  fetch high byte of address, add Y to the low byte,
        //                  increment PC
        // 4  address+Y* R  only if the sum carried: read from the address,
        //                  fix its high byte
        cpu.queue_read(BusRead::PcIncrement, Latch::AddressHighReadIndexed(IndexRegister::Y));
        // 5  address+Y  R  read from effective address
        cpu.queue_read(BusRead::Address, Latch::Operate(self));
        assert(cpu@.queue =~= old(cpu)@.queue + read_steps(
            self,
            AddressingMode::AbsoluteIndexedY,
        ));
    }

    fn indexed_indirect_x<M: Mapper>(self, cpu: &mut Mos6502<M>)
        ensures
            final(cpu)@ == old(cpu)@.enqueue(read_steps(self, AddressingMode::IndexedIndirectX)),
            final(cpu).bus() == old(cpu).bus(),
    {
        // 2      PC       R  fetch pointer address, increment PC
        cpu.queue_read(BusRead::PcIncrement, Latch::Pointer);
        // 3    pointer    R  read from the address, add X to it
        cpu.queue_read(BusRead::Pointer, Latch::PointerIndex);
        // 4   pointer+X   R  fetch effective address low
        cpu.queue_read(BusRead::PointerIncrement, Latch::AddressLow);
        // 5  pointer+X+1  R  fetch effective address high
        cpu.queue_read(BusRead::PointerIncrement, Latch::AddressHigh);
        // 6    address    R  read from effective address
        cpu.queue_read(BusRead::Address, Latch::Operate(self));
        assert(cpu@.queue =~= old(cpu)@.queue + read_steps(
            self,
            AddressingMode::IndexedIndirectX,
        ));
    }

    fn indirect_indexed_y<M: Mapper>(self, cpu: &mut Mos6502<M>)
        ensures
            final(cpu)@ == old(cpu)@.enqueue(read_steps(self, AddressingMode::IndirectIndexedY)),
            final(cpu).bus() == old(cpu).bus(),
    {
        // 2      PC       R  fetch pointer address, increment PC
        cpu.queue_read(BusRead::PcIncrement, Latch::Pointer);
        // 3    pointer    R  fetch effective address low
        cpu.queue_read(BusRead::PointerIncrement, Latch::AddressLow);
        // 4   pointer+1   R  fetch effective address high, add Y to the low
        //                    byte
        // 5   address+Y*  R  only if the sum carried: read from the address,
        //                    fix its high byte
        cpu.queue_read(
            BusRead::PointerIncrement,
            Latch::AddressHighReadIndexed(IndexRegister::Y),
        );
        // 6   address+Y   R  read from effective address
        cpu.queue_read(BusRead::Address, Latch::Operate(self));
        assert(cpu@.queue =~= old(cpu)@.queue + read_steps(
            self,
            AddressingMode::IndirectIndexedY,
        ));
    }

    fn zero_page<M: Mapper>(self, cpu: &mut Mos6502<M>)
        ensures
            final(cpu)@ == old(cpu)@.enqueue(read_steps(self, AddressingMode::ZeroPage)),
            final(cpu).bus() == old(cpu).bus(),
    {
        // 2    PC     R  fetch address, increment PC
        cpu.queue_read(BusRead::PcIncrement, Latch::ZeroPageAddress);
        // 3  address  R  read from effective address
        cpu.queue_read(BusRead::Address, Latch::Operate(self));
        assert(cpu@.queue =~= old(cpu)@.queue + read_steps(self, AddressingMode::ZeroPage));
    }

    fn zero_page_indexed_x<M: Mapper>(self, cpu: &mut Mos6502<M>)
        ensures
            final(cpu)@ == old(cpu)@.enqueue(read_steps(self, AddressingMode::ZeroPageIndexedX)),
            final(cpu).bus() == old(cpu).bus(),
    {
        // 2     PC      R  fetch address, increment PC
        cpu.queue_read(BusRead::PcIncrement, Latch::ZeroPageAddress);
        // 3   address   R  read from address, add X to it
        cpu.queue_read(BusRead::Address, Latch::ZeroPageIndex(IndexRegister::X));
        // 4  address+X  R  read from effective address
        cpu.queue_read(BusRead::Address, Latch::Operate(self));
        assert(cpu@.queue =~= old(cpu)@.queue + read_steps(
            self,
            AddressingMode::ZeroPageIndexedX,
        ));
    }

    fn zero_page_indexed_y<M: Mapper>(self, cpu: &mut Mos6502<M>)
        ensures
            final(cpu)@ == old(cpu)@.enqueue(read_steps(self, AddressingMode::ZeroPageIndexedY)),
            final(cpu).bus() == old(cpu).bus(),
    {
        // 2     PC      R  fetch address, increment PC
        cpu.queue_read(BusRead::PcIncrement, Latch::ZeroPageAddress);
        // 3   address   R  read from address, add Y to it
        cpu.queue_read(BusRead::Address, Latch::ZeroPageIndex(IndexRegister::Y));
        // 4  address+Y  R  read from effective address
        cpu.queue_read(BusRead::Address, Latch::Operate(self));
        assert(cpu@.queue =~= old(cpu)@.queue + read_steps(
            self,
            AddressingMode::ZeroPageIndexedY,
        ));
    }
}

impl WriteOperation {
    /// Queues the operation in the given mode.
    pub fn addressed<M: Mapper>(self, mode: AddressingMode, cpu: &mut Mos6502<M>)
        ensures
            final(cpu)@ == old(cpu)@.enqueue(write_steps(self, mode)),
            final(cpu).bus() == old(cpu).bus(),
    {
        match mode {
            AddressingMode::Absolute => self.absolute(cpu),
            AddressingMode::AbsoluteIndexedX => self.absolute_indexed_x(cpu),
            AddressingMode::AbsoluteIndexedY => self.absolute_indexed_y(cpu),
            AddressingMode::IndexedIndirectX => self.indexed_indirect_x(cpu),
            AddressingMode::IndirectIndexedY => self.indirect_indexed_y(cpu),
            AddressingMode::ZeroPage => self.zero_page(cpu),
            AddressingMode::ZeroPageIndexedX => self.zero_page_indexed_x(cpu),
            AddressingMode::ZeroPageIndexedY => self.zero_page_indexed_y(cpu),
        }
    }
}

impl AddressingModes for WriteOperation {
    fn absolute<M: Mapper>(self, cpu: &mut Mos6502<M>)
        ensures
            final(cpu)@ == old(cpu)@.enqueue(write_steps(self, AddressingMode::Absolute)),
            final(cpu).bus() == old(cpu).bus(),
    {
        // 2    PC     R  fetch low byte of address, increment PC
        cpu.queue_read(BusRead::PcIncrement, Latch::AddressLow);
        // 3    PC     R  fetch high byte of address, increment PC
        cpu.queue_read(BusRead::PcIncrement, Latch::AddressHigh);
        // 4  address  W  write register to effective address
        cpu.queue_write(BusWrite::Address, Source::Operate(self));
        assert(cpu@.queue =~= old(cpu)@.queue + write_steps(self, AddressingMode::Absolute));
    }

    fn absolute_indexed_x<M: Mapper>(self, cpu: &mut Mos6502<M>)
        ensures
            final(cpu)@ == old(cpu)@.enqueue(write_steps(self, AddressingMode::AbsoluteIndexedX)),
            final(cpu).bus() == old(cpu).bus(),
    {
        // 2     PC      R  fetch low byte of address, increment PC
        cpu.queue_read(BusRead::PcIncrement, Latch::AddressLow);
        // 3     PC      R  fetch high byte of address, add X to the low byte,
        //                  increment PC
        cpu.queue_read(BusRead::PcIncrement, Latch::AddressHighIndexed(IndexRegister::X));
        // 4  address+X* R  read from the address, fix its high byte
        cpu.queue_read(BusRead::Address, Latch::FixAddress);
        // 5  address+X  W  write to effective address
        cpu.queue_write(BusWrite::Address, Source::Operate(self));
        assert(cpu@.queue =~= old(cpu)@.queue + write_steps(
            self,
            AddressingMode::AbsoluteIndexedX,
        ));
    }

    fn absolute_indexed_y<M: Mapper>(self, cpu: &mut Mos6502<M>)
        ensures
            final(cpu)@ == old(cpu)@.enqueue(write_steps(self, AddressingMode::AbsoluteIndexedY)),
            final(cpu).bus() == old(cpu).bus(),
    {
        // 2     PC      R  fetch low byte of address, increment PC
        cpu.queue_read(BusRead::PcIncrement, Latch::AddressLow);
        // 3     PC      R  fetch high byte of address, add Y to the low byte,
        //                  increment PC
        cpu.queue_read(BusRead::PcIncrement, Latch::AddressHighIndexed(IndexRegister::Y));
        // 4  address+Y* R  read from the address, fix its high byte
        cpu.queue_read(BusRead::Address, Latch::FixAddress);
        // 5  address+Y  W  write to effective address
        cpu.queue_write(BusWrite::Address, Source::Operate(self));
        assert(cpu@.queue =~= old(cpu)@.queue + write_steps(
            self,
            AddressingMode::AbsoluteIndexedY,
        ));
    }

    fn indexed_indirect_x<M: Mapper>(self, cpu: &mut Mos6502<M>)
        ensures
            final(cpu)@ == old(cpu)@.enqueue(write_steps(self, AddressingMode::IndexedIndirectX)),
            final(cpu).bus() == old(cpu).bus(),
    {
        // 2      PC       R  fetch pointer address, increment PC
        cpu.queue_read(BusRead::PcIncrement, Latch::Pointer);
        // 3    pointer    R  read from the address, add X to it
        cpu.queue_read(BusRead::Pointer, Latch::PointerIndex);
        // 4   pointer+X   R  fetch effective address low
        cpu.queue_read(BusRead::PointerIncrement, Latch::AddressLow);
        // 5  pointer+X+1  R  fetch effective address high
        cpu.queue_read(BusRead::PointerIncrement, Latch::AddressHigh);
        // 6    address    W  write to effective address
        cpu.queue_write(BusWrite::Address, Source::Operate(self));
        assert(cpu@.queue =~= old(cpu)@.queue + write_steps(
            self,
            AddressingMode::IndexedIndirectX,
        ));
    }

    fn indirect_indexed_y<M: Mapper>(self, cpu: &mut Mos6502<M>)
        ensures
            final(cpu)@ == old(cpu)@.enqueue(write_steps(self, AddressingMode::IndirectIndexedY)),
            final(cpu).bus() == old(cpu).bus(),
    {
        // 2      PC       R  fetch pointer address, increment PC
        cpu.queue_read(BusRead::PcIncrement, Latch::Pointer);
        // 3    pointer    R  fetch effective address low
        cpu.queue_read(BusRead::PointerIncrement, Latch::AddressLow);
        // 4   pointer+1   R  fetch effective address high, add Y to the low
        //                    byte
        cpu.queue_read(BusRead::PointerIncrement, Latch::AddressHighIndexed(IndexRegister::Y));
        // 5   address+Y*  R  read from the address, fix its high byte
        cpu.queue_read(BusRead::Address, Latch::FixAddress);
        // 6   address+Y   W  write to effective address
        cpu.queue_write(BusWrite::Address, Source::Operate(self));
        assert(cpu@.queue =~= old(cpu)@.queue + write_steps(
            self,
            AddressingMode::IndirectIndexedY,
        ));
    }

    fn zero_page<M: Mapper>(self, cpu: &mut Mos6502<M>)
        ensures
            final(cpu)@ == old(cpu)@.enqueue(write_steps(self, AddressingMode::ZeroPage)),
            final(cpu).bus() == old(cpu).bus(),
    {
        // 2    PC     R  fetch address, increment PC
        cpu.queue_read(BusRead::PcIncrement, Latch::ZeroPageAddress);
        // 3  address  W  write register to effective address
        cpu.queue_write(BusWrite::Address, Source::Operate(self));
        assert(cpu@.queue =~= old(cpu)@.queue + write_steps(self, AddressingMode::ZeroPage));
    }

    fn zero_page_indexed_x<M: Mapper>(self, cpu: &mut Mos6502<M>)
        ensures
            final(cpu)@ == old(cpu)@.enqueue(write_steps(self, AddressingMode::ZeroPageIndexedX)),
            final(cpu).bus() == old(cpu).bus(),
    {
        // 2     PC      R  fetch address, increment PC
        cpu.queue_read(BusRead::PcIncrement, Latch::ZeroPageAddress);
        // 3   address   R  read from address, add X to it
        cpu.queue_read(BusRead::Address, Latch::ZeroPageIndex(IndexRegister::X));
        // 4  address+X  W  write to effective address
        cpu.queue_write(BusWrite::Address, Source::Operate(self));
        assert(cpu@.queue =~= old(cpu)@.queue + write_steps(
            self,
            AddressingMode::ZeroPageIndexedX,
        ));
    }

    fn zero_page_indexed_y<M: Mapper>(self, cpu: &mut Mos6502<M>)
        ensures
            final(cpu)@ == old(cpu)@.enqueue(write_steps(self, AddressingMode::ZeroPageIndexedY)),
            final(cpu).bus() == old(cpu).bus(),
    {
        // 2     PC      R  fetch address, increment PC
        cpu.queue_read(BusRead::PcIncrement, Latch::ZeroPageAddress);
        // 3   address   R  read from address, add Y to it
        cpu.queue_read(BusRead::Address, Latch::ZeroPageIndex(IndexRegister::Y));
        // 4  address+Y  W  write to effective address
        cpu.queue_write(BusWrite::Address, Source::Operate(self));
        assert(cpu@.queue =~= old(cpu)@.queue + write_steps(
            self,
            AddressingMode::ZeroPageIndexedY,
        ));
    }
}

impl ReadWriteOperation {
    /// Queues the operation on the accumulator: one dummy read of the byte
    /// after the opcode.
    pub fn accumulator<M: Mapper>(self, cpu: &mut Mos6502<M>)
        ensures
            final(cpu)@ == old(cpu)@.enqueue(
                seq![MicrocodeTask::Read(BusRead::Pc, Latch::Accumulate(self))],
            ),
            final(cpu).bus() == old(cpu).bus(),
    {
        cpu.queue_read(BusRead::Pc, Latch::Accumulate(self));
        assert(cpu@.queue =~= old(cpu)@.queue + seq![
            MicrocodeTask::Read(BusRead::Pc, Latch::Accumulate(self)),
        ]);
    }

    /// Queues the operation in the given mode.
    pub fn addressed<M: Mapper>(self, mode: AddressingMode, cpu: &mut Mos6502<M>)
        ensures
            final(cpu)@ == old(cpu)@.enqueue(read_write_steps(self, mode)),
            final(cpu).bus() == old(cpu).bus(),
    {
        match mode {
            AddressingMode::Absolute => self.absolute(cpu),
            AddressingMode::AbsoluteIndexedX => self.absolute_indexed_x(cpu),
            AddressingMode::AbsoluteIndexedY => self.absolute_indexed_y(cpu),
            AddressingMode::IndexedIndirectX => self.indexed_indirect_x(cpu),
            AddressingMode::IndirectIndexedY => self.indirect_indexed_y(cpu),
            AddressingMode::ZeroPage => self.zero_page(cpu),
            AddressingMode::ZeroPageIndexedX => self.zero_page_indexed_x(cpu),
            AddressingMode::ZeroPageIndexedY => self.zero_page_indexed_y(cpu),
        }
    }

    /// Queues the three steps that every read-modify-write instruction
    /// ends with.
    fn modify<M: Mapper>(self, cpu: &mut Mos6502<M>)
        ensures
            final(cpu)@ == old(cpu)@.enqueue(
                seq![
                    MicrocodeTask::Read(BusRead::Address, Latch::Data),
                    MicrocodeTask::ReadWrite(self),
                    MicrocodeTask::Write(BusWrite::Address, Source::Data),
                ],
            ),
            final(cpu).bus() == old(cpu).bus(),
    {
        //  address  R  read from effective address
        cpu.queue_read(BusRead::Address, Latch::Data);
        //  address  W  write the value back to effective address,
        //              and do the operation on it
        cpu.queue_read_write_microcode(self);
        //  address  W  write the new value to effective address
        cpu.queue_write(BusWrite::Address, Source::Data);
        assert(cpu@.queue =~= old(cpu)@.queue + seq![
            MicrocodeTask::Read(BusRead::Address, Latch::Data),
            MicrocodeTask::ReadWrite(self),
            MicrocodeTask::Write(BusWrite::Address, Source::Data),
        ]);
    }
}

impl AddressingModes for ReadWriteOperation {
    fn absolute<M: Mapper>(self, cpu: &mut Mos6502<M>)
        ensures
            final(cpu)@ == old(cpu)@.enqueue(read_write_steps(self, AddressingMode::Absolute)),
            final(cpu).bus() == old(cpu).bus(),
    {
        // 2    PC     R  fetch low byte of address, increment PC
        cpu.queue_read(BusRead::PcIncrement, Latch::AddressLow);
        // 3    PC     R  fetch high byte of address, increment PC
        cpu.queue_read(BusRead::PcIncrement, Latch::AddressHigh);
        // 4 to 6: read, write back, write
        self.modify(cpu);
        assert(cpu@.queue =~= old(cpu)@.queue + read_write_steps(self, AddressingMode::Absolute));
    }

    fn absolute_indexed_x<M: Mapper>(self, cpu: &mut Mos6502<M>)
        ensures
            final(cpu)@ == old(cpu)@.enqueue(
                read_write_steps(self, AddressingMode::AbsoluteIndexedX),
            ),
            final(cpu).bus() == old(cpu).bus(),
    {
        // 2    PC       R  fetch low byte of address, increment PC
        cpu.queue_read(BusRead::PcIncrement, Latch::AddressLow);
        // 3    PC       R  fetch high byte of address, add X to the low
        //                  byte, increment PC
        cpu.queue_read(BusRead::PcIncrement, Latch::AddressHighIndexed(IndexRegister::X));
        // 4  address+X* R  read from the address, fix its high byte
        cpu.queue_read(BusRead::Address, Latch::FixAddress);
        // 5 to 7: read, write back, write
        self.modify(cpu);
        assert(cpu@.queue =~= old(cpu)@.queue + read_write_steps(
            self,
            AddressingMode::AbsoluteIndexedX,
        ));
    }

    fn absolute_indexed_y<M: Mapper>(self, cpu: &mut Mos6502<M>)
        ensures
            final(cpu)@ == old(cpu)@.enqueue(
                read_write_steps(self, AddressingMode::AbsoluteIndexedY),
            ),
            final(cpu).bus() == old(cpu).bus(),
    {
        // 2    PC       R  fetch low byte of address, increment PC
        cpu.queue_read(BusRead::PcIncrement, Latch::AddressLow);
        // 3    PC       R  fetch high byte of address, add Y to the low
        //                  byte, increment PC
        cpu.queue_read(BusRead::PcIncrement, Latch::AddressHighIndexed(IndexRegister::Y));
        // 4  address+Y* R  read from the address, fix its high byte
        cpu.queue_read(BusRead::Address, Latch::FixAddress);
        // 5 to 7: read, write back, write
        self.modify(cpu);
        assert(cpu@.queue =~= old(cpu)@.queue + read_write_steps(
            self,
            AddressingMode::AbsoluteIndexedY,
        ));
    }

    fn indexed_indirect_x<M: Mapper>(self, cpu: &mut Mos6502<M>)
        ensures
            final(cpu)@ == old(cpu)@.enqueue(
                read_write_steps(self, AddressingMode::IndexedIndirectX),
            ),
            final(cpu).bus() == old(cpu).bus(),
    {
        // 2      PC       R  fetch pointer address, increment PC
        cpu.queue_read(BusRead::PcIncrement, Latch::Pointer);
        // 3    pointer    R  read from the address, add X to it
        cpu.queue_read(BusRead::Pointer, Latch::PointerIndex);
        // 4   pointer+X   R  fetch effective address low
        cpu.queue_read(BusRead::PointerIncrement, Latch::AddressLow);
        // 5  pointer+X+1  R  fetch effective address high
        cpu.queue_read(BusRead::PointerIncrement, Latch::AddressHigh);
        // 6 to 8: read, write back, write
        self.modify(cpu);
        assert(cpu@.queue =~= old(cpu)@.queue + read_write_steps(
            self,
            AddressingMode::IndexedIndirectX,
        ));
    }

    fn indirect_indexed_y<M: Mapper>(self, cpu: &mut Mos6502<M>)
        ensures
            final(cpu)@ == old(cpu)@.enqueue(
                read_write_steps(self, AddressingMode::IndirectIndexedY),
            ),
            final(cpu).bus() == old(cpu).bus(),
    {
        // 2      PC       R  fetch pointer address, increment PC
        cpu.queue_read(BusRead::PcIncrement, Latch::Pointer);
        // 3    pointer    R  fetch effective address low
        cpu.queue_read(BusRead::PointerIncrement, Latch::AddressLow);
        // 4   pointer+1   R  fetch effective address high, add Y to the low
        //                    byte
        cpu.queue_read(BusRead::PointerIncrement, Latch::AddressHighIndexed(IndexRegister::Y));
        // 5   address+Y*  R  read from the address, fix its high byte
        cpu.queue_read(BusRead::Address, Latch::FixAddress);
        // 6 to 8: read, write back, write
        self.modify(cpu);
        assert(cpu@.queue =~= old(cpu)@.queue + read_write_steps(
            self,
            AddressingMode::IndirectIndexedY,
        ));
    }

    fn zero_page<M: Mapper>(self, cpu: &mut Mos6502<M>)
        ensures
            final(cpu)@ == old(cpu)@.enqueue(read_write_steps(self, AddressingMode::ZeroPage)),
            final(cpu).bus() == old(cpu).bus(),
    {
        // 2    PC     R  fetch address, increment PC
        cpu.queue_read(BusRead::PcIncrement, Latch::ZeroPageAddress);
        // 3 to 5: read, write back, write
        self.modify(cpu);
        assert(cpu@.queue =~= old(cpu)@.queue + read_write_steps(self, AddressingMode::ZeroPage));
    }

    fn zero_page_indexed_x<M: Mapper>(self, cpu: &mut Mos6502<M>)
        ensures
            final(cpu)@ == old(cpu)@.enqueue(
                read_write_steps(self, AddressingMode::ZeroPageIndexedX),
            ),
            final(cpu).bus() == old(cpu).bus(),
    {
        // 2     PC      R  fetch address, increment PC
        cpu.queue_read(BusRead::PcIncrement, Latch::ZeroPageAddress);
        // 3   address   R  read from address, add X to it
        cpu.queue_read(BusRead::Address, Latch::ZeroPageIndex(IndexRegister::X));
        // 4 to 6: read, write back, write
        self.modify(cpu);
        assert(cpu@.queue =~= old(cpu)@.queue + read_write_steps(
            self,
            AddressingMode::ZeroPageIndexedX,
        ));
    }

    fn zero_page_indexed_y<M: Mapper>(self, cpu: &mut Mos6502<M>)
        ensures
            final(cpu)@ == old(cpu)@.enqueue(
                read_write_steps(self, AddressingMode::ZeroPageIndexedY),
            ),
            final(cpu).bus() == old(cpu).bus(),
    {
        // 2     PC      R  fetch address, increment PC
        cpu.queue_read(BusRead::PcIncrement, Latch::ZeroPageAddress);
        // 3   address   R  read from address, add Y to it
        cpu.queue_read(BusRead::Address, Latch::ZeroPageIndex(IndexRegister::Y));
        // 4 to 6: read, write back, write
        self.modify(cpu);
        assert(cpu@.queue =~= old(cpu)@.queue + read_write_steps(
            self,
            AddressingMode::ZeroPageIndexedY,
        ));
    }
}

} // verus!
