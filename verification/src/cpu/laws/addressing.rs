//! Where the operand lies: the addresses that the addressing modes reach,
//! and the cycles in which they reach them.

use vstd::prelude::*;
use crate::address::{high_byte, join_bytes, lemma_split_join, low_byte};
use crate::cpu::addressing_modes::{address_steps, AddressingMode};
use crate::cpu::state::Registers;
use crate::cpu::timing::address_step_count;
use crate::cpu::decoder::Instruction;
use crate::cpu::instructions::{ReadOperation, ReadWriteOperation, WriteOperation};
use crate::cpu::state::{steps, Access, CpuState};
use crate::cpu::{BusRead, BusWrite, IndexRegister, Latch, MicrocodeTask, Source};
use super::steps::{address_of, lemma_run_fetch, lemma_run_read, lemma_run_start, lemma_run_step,
    lemma_run_write, lemma_step_fetch, lemma_step_read, lemma_step_read_write, lemma_step_write};

verus! {

/// Whether a mode adds an index to a 16-bit address.
pub open spec fn crosses_pages(mode: AddressingMode) -> bool {
    mode == AddressingMode::AbsoluteIndexedX || mode == AddressingMode::AbsoluteIndexedY || mode
        == AddressingMode::IndirectIndexedY
}

/// The index register of a mode that adds an index to a 16-bit address.
pub open spec fn index_of(mode: AddressingMode) -> IndexRegister {
    if mode == AddressingMode::AbsoluteIndexedX {
        IndexRegister::X
    } else {
        IndexRegister::Y
    }
}

/// The number of the cycle, counted from the fetch of the opcode as cycle
/// zero, in which an instruction fetches the high byte of its address and
/// adds the index to the low byte.
pub open spec fn index_cycle(mode: AddressingMode) -> nat {
    if mode == AddressingMode::IndirectIndexedY {
        3
    } else {
        2
    }
}

/// Whether an instruction that adds `index` to the address of low byte
/// `low`, in cycle `n`, spends the two cycles after `n` as it must when it
/// writes: in the first it reads at the address whose high byte is not yet
/// corrected, and in the second it is at the address that it means, whether
/// the sum carried or not.
pub open spec fn fixes_up(state: CpuState, inputs: Seq<u8>, n: nat, low: u8, index: u8) -> bool {
    let high = inputs[n as int];
    let carry: u16 = if low + index > 0xff {
        0x100
    } else {
        0
    };
    let fix = state.run(inputs, n + 1);
    let then = state.run(inputs, n + 2);
    &&& fix.access() == Access::Read(join_bytes(high, low.wrapping_add(index)))
    &&& then.address == join_bytes(high, low.wrapping_add(index)).wrapping_add(carry)
    &&& then.address == join_bytes(high, low).wrapping_add(index as u16)
    &&& address_of(then.access()) == then.address
    &&& then.queue.len() > 0
    &&& then.queue[0] is Write ==> then.access() is Write
    &&& then.queue[0] is Read ==> then.access() is Read
}

/// The address with the index added to its low byte alone, corrected by
/// the carry, is the address with the index added to all of it.
proof fn lemma_index_sum(high: u8, low: u8, index: u8)
    ensures
        join_bytes(high, low.wrapping_add(index)).wrapping_add(
            if low + index > 0xff {
                0x100u16
            } else {
                0u16
            },
        ) == join_bytes(high, low).wrapping_add(index as u16),
{
    let base = join_bytes(high, low) as int;
    assert(base == high * 256 + low);
    if low + index > 0xff {
        let uncorrected = join_bytes(high, low.wrapping_add(index)) as int;
        assert(low.wrapping_add(index) == low + index - 0x100);
        assert(uncorrected == high * 256 + low + index - 0x100);
        assert(uncorrected + 0x100 == base + index);
    } else {
        assert(low.wrapping_add(index) == low + index);
        assert(base + index <= 0xffff);
    }
}

/// The two steps that add an index to an address and correct the address.
proof fn lemma_index_steps(
    state: CpuState,
    inputs: Seq<u8>,
    start: nat,
    register: IndexRegister,
    io: BusRead,
    rest: Seq<MicrocodeTask>,
)
    requires
        state.run(inputs, start).queue =~= seq![
            MicrocodeTask::Read(io, Latch::AddressHighIndexed(register)),
            MicrocodeTask::Read(BusRead::Address, Latch::FixAddress),
        ] + rest,
        io == BusRead::PcIncrement || io == BusRead::PointerIncrement,
        rest.len() > 0,
        rest[0] matches MicrocodeTask::Write(BusWrite::Address, _) || rest[0]
            == MicrocodeTask::Read(BusRead::Address, Latch::Data),
    ensures
        fixes_up(
            state,
            inputs,
            start,
            low_byte(state.run(inputs, start).address),
            state.run(inputs, start).registers.index(register),
        ),
        state.run(inputs, start + 2).queue == rest,
{
    let before = state.run(inputs, start);
    let fix_step = MicrocodeTask::Read(BusRead::Address, Latch::FixAddress);
    lemma_run_step(state, inputs, start);
    lemma_run_step(state, inputs, start + 1);
    assert(before.queue[0] == MicrocodeTask::Read(io, Latch::AddressHighIndexed(register)));
    lemma_step_read(before, inputs[start as int], io, Latch::AddressHighIndexed(register));
    let fix = state.run(inputs, start + 1);
    assert(fix.queue =~= seq![fix_step] + rest);
    assert(fix.queue[0] == fix_step);
    lemma_step_read(fix, inputs[start as int + 1], BusRead::Address, Latch::FixAddress);
    let then = state.run(inputs, start + 2);
    assert(then.queue =~= rest);
    assert(then.queue[0] == rest[0]);
    lemma_index_sum(
        inputs[start as int],
        low_byte(before.address),
        before.registers.index(register),
    );
    match rest[0] {
        MicrocodeTask::Write(BusWrite::Address, source) => {
            lemma_step_write(then, 0, BusWrite::Address, source);
        },
        _ => {
            lemma_step_read(then, 0, BusRead::Address, Latch::Data);
        },
    }
}

/// The steps of a write or a read-modify-write instruction at an indexed
/// address always hold the cycle that corrects the address.
proof fn lemma_fix_up(
    state: CpuState,
    inputs: Seq<u8>,
    mode: AddressingMode,
    rest: Seq<MicrocodeTask>,
)
    requires
        state.idle(),
        crosses_pages(mode),
        steps(Instruction::of(inputs[0])) == address_steps(mode, true) + rest,
        rest.len() > 0,
        rest[0] matches MicrocodeTask::Write(BusWrite::Address, _) || rest[0]
            == MicrocodeTask::Read(BusRead::Address, Latch::Data),
    ensures
        fixes_up(
            state,
            inputs,
            index_cycle(mode),
            inputs[index_cycle(mode) - 1],
            state.registers.index(index_of(mode)),
        ),
        state.run(inputs, index_cycle(mode) + 2).queue == rest,
{
    let register = index_of(mode);
    let indexed = MicrocodeTask::Read(
        if mode == AddressingMode::IndirectIndexedY {
            BusRead::PointerIncrement
        } else {
            BusRead::PcIncrement
        },
        Latch::AddressHighIndexed(register),
    );
    let fix_step = MicrocodeTask::Read(BusRead::Address, Latch::FixAddress);
    lemma_run_start(state, inputs);
    lemma_run_step(state, inputs, 0);
    lemma_run_step(state, inputs, 1);
    lemma_run_step(state, inputs, 2);
    lemma_step_fetch(state, inputs[0]);
    let fetched = state.run(inputs, 1);
    if mode == AddressingMode::IndirectIndexedY {
        let low_step = MicrocodeTask::Read(BusRead::PointerIncrement, Latch::AddressLow);
        assert(fetched.queue[0] == MicrocodeTask::Read(BusRead::PcIncrement, Latch::Pointer));
        lemma_step_read(fetched, inputs[1], BusRead::PcIncrement, Latch::Pointer);
        let pointed = state.run(inputs, 2);
        assert(pointed.queue =~= seq![low_step, indexed, fix_step] + rest);
        assert(pointed.queue[0] == low_step);
        lemma_step_read(pointed, inputs[2], BusRead::PointerIncrement, Latch::AddressLow);
        let low = state.run(inputs, 3);
        assert(low.queue =~= seq![indexed, fix_step] + rest);
        assert(low.address == join_bytes(high_byte(pointed.address), inputs[2]));
        lemma_split_join(0, high_byte(pointed.address), inputs[2]);
        assert(low.registers == state.registers);
        lemma_index_steps(state, inputs, 3, register, BusRead::PointerIncrement, rest);
    } else {
        assert(fetched.queue[0] == MicrocodeTask::Read(BusRead::PcIncrement, Latch::AddressLow));
        lemma_step_read(fetched, inputs[1], BusRead::PcIncrement, Latch::AddressLow);
        let low = state.run(inputs, 2);
        assert(low.queue =~= seq![indexed, fix_step] + rest);
        assert(low.address == join_bytes(high_byte(fetched.address), inputs[1]));
        lemma_split_join(0, high_byte(fetched.address), inputs[1]);
        assert(low.registers == state.registers);
        lemma_index_steps(state, inputs, 2, register, BusRead::PcIncrement, rest);
    }
}

/// A write at an indexed address always spends the cycle that corrects the
/// address, whether adding the index carried or not: in the cycle after the
/// one that adds the index it reads at the address whose high byte is not
/// yet corrected, and in the next it writes at the address that it means.
pub proof fn lemma_write_fix_up(
    state: CpuState,
    inputs: Seq<u8>,
    op: WriteOperation,
    mode: AddressingMode,
)
    requires
        state.idle(),
        inputs.len() > index_cycle(mode),
        crosses_pages(mode),
        Instruction::of(inputs[0]) == Instruction::Write(op, mode),
    ensures
        fixes_up(
            state,
            inputs,
            index_cycle(mode),
            inputs[index_cycle(mode) - 1],
            state.registers.index(index_of(mode)),
        ),
        state.run(inputs, index_cycle(mode) + 2).access() is Write,
{
    let rest = seq![MicrocodeTask::Write(BusWrite::Address, Source::Operate(op))];
    assert(rest[0] == MicrocodeTask::Write(BusWrite::Address, Source::Operate(op)));
    lemma_fix_up(state, inputs, mode, rest);
    assert(state.run(inputs, index_cycle(mode) + 2).queue[0] == rest[0]);
}

/// A read-modify-write at an indexed address always spends the cycle that
/// corrects the address, whether adding the index carried or not: in the
/// cycle after the one that adds the index it reads at the address whose
/// high byte is not yet corrected, and in the next it reads at the address
/// that it means.
pub proof fn lemma_read_write_fix_up(
    state: CpuState,
    inputs: Seq<u8>,
    op: ReadWriteOperation,
    mode: AddressingMode,
)
    requires
        state.idle(),
        inputs.len() > index_cycle(mode),
        crosses_pages(mode),
        Instruction::of(inputs[0]) == Instruction::ReadWrite(op, mode),
    ensures
        fixes_up(
            state,
            inputs,
            index_cycle(mode),
            inputs[index_cycle(mode) - 1],
            state.registers.index(index_of(mode)),
        ),
        state.run(inputs, index_cycle(mode) + 2).access() is Read,
{
    let rest = seq![
        MicrocodeTask::Read(BusRead::Address, Latch::Data),
        MicrocodeTask::ReadWrite(op),
        MicrocodeTask::Write(BusWrite::Address, Source::Data),
    ];
    assert(rest[0] == MicrocodeTask::Read(BusRead::Address, Latch::Data));
    lemma_fix_up(state, inputs, mode, rest);
    assert(state.run(inputs, index_cycle(mode) + 2).queue[0] == rest[0]);
}

/// The three cycles that end every read-modify-write instruction: a read
/// of the byte, a write of the byte as it was read, and a write of the byte
/// that the operation made of it, all at the same address.
pub proof fn lemma_modify_cycles(
    state: CpuState,
    inputs: Seq<u8>,
    start: nat,
    op: ReadWriteOperation,
)
    requires
        inputs.len() >= start + 3,
        state.run(inputs, start).queue == seq![
            MicrocodeTask::Read(BusRead::Address, Latch::Data),
            MicrocodeTask::ReadWrite(op),
            MicrocodeTask::Write(BusWrite::Address, Source::Data),
        ],
    ensures
        ({
            let before = state.run(inputs, start);
            let read = inputs[start as int];
            let modified = before.registers.read_write_operation(op, read);
            &&& state.run(inputs, start).access() == Access::Read(before.address)
            &&& state.run(inputs, start + 1).access() == Access::Write(before.address, read)
            &&& state.run(inputs, start + 2).access() == Access::Write(before.address, modified.0)
            &&& state.run(inputs, start + 3) == (CpuState {
                data: modified.0,
                registers: modified.1,
                cycle: before.cycle + 3,
                queue: Seq::empty(),
                ..before
            })
        }),
{
    let before = state.run(inputs, start);
    let second = MicrocodeTask::ReadWrite(op);
    let third = MicrocodeTask::Write(BusWrite::Address, Source::Data);
    lemma_run_step(state, inputs, start);
    lemma_run_step(state, inputs, start + 1);
    lemma_run_step(state, inputs, start + 2);
    assert(before.queue[0] == MicrocodeTask::Read(BusRead::Address, Latch::Data));
    lemma_step_read(before, inputs[start as int], BusRead::Address, Latch::Data);
    let read = state.run(inputs, start + 1);
    assert(read.queue =~= seq![second, third]);
    assert(read.queue[0] == second);
    lemma_step_read_write(read, inputs[start as int + 1], op);
    let modified = state.run(inputs, start + 2);
    assert(modified.queue =~= seq![third]);
    assert(modified.queue[0] == third);
    lemma_step_write(modified, inputs[start as int + 2], BusWrite::Address, Source::Data);
    assert(state.run(inputs, start + 3).queue =~= Seq::<MicrocodeTask>::empty());
}

/// A read at an indexed zero-page address takes four cycles and never
/// leaves page zero: the sum of the operand and the index is reduced to a
/// byte. The third cycle reads at the operand itself, before the index is
/// added.
pub proof fn lemma_read_zero_page_indexed(
    state: CpuState,
    inputs: Seq<u8>,
    op: ReadOperation,
    register: IndexRegister,
)
    requires
        state.idle(),
        inputs.len() >= 4,
        Instruction::of(inputs[0]) == Instruction::Read(
            op,
            match register {
                IndexRegister::X => AddressingMode::ZeroPageIndexedX,
                IndexRegister::Y => AddressingMode::ZeroPageIndexedY,
            },
        ),
    ensures
        state.run(inputs, 2).access() == Access::Read(inputs[1] as u16),
        state.run(inputs, 3).access() == Access::Read(
            inputs[1].wrapping_add(state.registers.index(register)) as u16,
        ),
        address_of(state.run(inputs, 3).access()) < 0x100,
        state.run(inputs, 4).idle(),
        state.run(inputs, 4).pc == state.pc.wrapping_add(2),
        state.run(inputs, 4).registers == state.registers.read_operation(op, inputs[3]),
{
    lemma_run_start(state, inputs);
    lemma_run_step(state, inputs, 0);
    lemma_run_step(state, inputs, 1);
    lemma_run_step(state, inputs, 2);
    lemma_run_step(state, inputs, 3);
    lemma_step_fetch(state, inputs[0]);
    let fetched = state.run(inputs, 1);
    let second = MicrocodeTask::Read(BusRead::Address, Latch::ZeroPageIndex(register));
    let third = MicrocodeTask::Read(BusRead::Address, Latch::Operate(op));
    assert(fetched.queue =~= seq![
        MicrocodeTask::Read(BusRead::PcIncrement, Latch::ZeroPageAddress),
        second,
        third,
    ]);
    assert(fetched.queue[0] == MicrocodeTask::Read(BusRead::PcIncrement, Latch::ZeroPageAddress));
    lemma_step_read(fetched, inputs[1], BusRead::PcIncrement, Latch::ZeroPageAddress);
    let based = state.run(inputs, 2);
    assert(based.queue =~= seq![second, third]);
    assert(based.queue[0] == second);
    assert(based.address == inputs[1]);
    lemma_step_read(based, inputs[2], BusRead::Address, Latch::ZeroPageIndex(register));
    let indexed = state.run(inputs, 3);
    assert(indexed.queue =~= seq![third]);
    assert(indexed.queue[0] == third);
    assert(low_byte(based.address) == inputs[1]);
    lemma_step_read(indexed, inputs[3], BusRead::Address, Latch::Operate(op));
    assert(state.run(inputs, 4).queue =~= Seq::<MicrocodeTask>::empty());
}

/// An operation on the byte after the opcode takes two cycles.
pub proof fn lemma_immediate(state: CpuState, inputs: Seq<u8>, op: ReadOperation)
    requires
        state.idle(),
        inputs.len() >= 2,
        Instruction::of(inputs[0]) == Instruction::Immediate(op),
    ensures
        state.run(inputs, 1).access() == Access::Read(state.pc.wrapping_add(1)),
        state.run(inputs, 2) == (CpuState {
            pc: state.pc.wrapping_add(2),
            registers: state.registers.read_operation(op, inputs[1]),
            opcode: inputs[0],
            cycle: state.cycle + 2,
            ..state
        }),
{
    lemma_run_fetch(state, inputs);
    let last = MicrocodeTask::Read(BusRead::PcIncrement, Latch::Operate(op));
    assert(state.run(inputs, 1).queue =~= seq![last] + Seq::<MicrocodeTask>::empty());
    lemma_run_read(state, inputs, 1, BusRead::PcIncrement, Latch::Operate(op), Seq::empty());
    assert(state.run(inputs, 2).queue =~= state.queue);
}

/// An operation without an operand takes two cycles: the second reads the
/// byte after the opcode and drops it.
pub proof fn lemma_implied(state: CpuState, inputs: Seq<u8>, op: ReadOperation)
    requires
        state.idle(),
        inputs.len() >= 2,
        Instruction::of(inputs[0]) == Instruction::Implied(op),
    ensures
        state.run(inputs, 1).access() == Access::Read(state.pc.wrapping_add(1)),
        state.run(inputs, 2) == (CpuState {
            pc: state.pc.wrapping_add(1),
            registers: state.registers.read_operation(op, inputs[1]),
            opcode: inputs[0],
            cycle: state.cycle + 2,
            ..state
        }),
{
    lemma_run_fetch(state, inputs);
    let last = MicrocodeTask::Read(BusRead::Pc, Latch::Operate(op));
    assert(state.run(inputs, 1).queue =~= seq![last] + Seq::<MicrocodeTask>::empty());
    lemma_run_read(state, inputs, 1, BusRead::Pc, Latch::Operate(op), Seq::empty());
    assert(state.run(inputs, 2).queue =~= state.queue);
}

/// A read-modify-write operation on the accumulator takes two cycles: the
/// second reads the byte after the opcode and drops it.
pub proof fn lemma_accumulator(state: CpuState, inputs: Seq<u8>, op: ReadWriteOperation)
    requires
        state.idle(),
        inputs.len() >= 2,
        Instruction::of(inputs[0]) == Instruction::Accumulator(op),
    ensures
        ({
            let modified = state.registers.read_write_operation(op, state.registers.a);
            &&& state.run(inputs, 1).access() == Access::Read(state.pc.wrapping_add(1))
            &&& state.run(inputs, 2) == (CpuState {
                pc: state.pc.wrapping_add(1),
                registers: crate::cpu::state::Registers { a: modified.0, ..modified.1 },
                opcode: inputs[0],
                cycle: state.cycle + 2,
                ..state
            })
        }),
{
    lemma_run_fetch(state, inputs);
    let last = MicrocodeTask::Read(BusRead::Pc, Latch::Accumulate(op));
    assert(state.run(inputs, 1).queue =~= seq![last] + Seq::<MicrocodeTask>::empty());
    lemma_run_read(state, inputs, 1, BusRead::Pc, Latch::Accumulate(op), Seq::empty());
    assert(state.run(inputs, 2).queue =~= state.queue);
}

/// A read at an absolute address takes four cycles, and the fourth reads
/// at the address that the two bytes after the opcode name, low byte
/// first.
pub proof fn lemma_read_absolute(state: CpuState, inputs: Seq<u8>, op: ReadOperation)
    requires
        state.idle(),
        inputs.len() >= 4,
        Instruction::of(inputs[0]) == Instruction::Read(op, AddressingMode::Absolute),
    ensures
        state.run(inputs, 1).access() == Access::Read(state.pc.wrapping_add(1)),
        state.run(inputs, 2).access() == Access::Read(state.pc.wrapping_add(2)),
        state.run(inputs, 3).access() == Access::Read(join_bytes(inputs[2], inputs[1])),
        state.run(inputs, 4).idle(),
        state.run(inputs, 4).pc == state.pc.wrapping_add(3),
        state.run(inputs, 4).registers == state.registers.read_operation(op, inputs[3]),
{
    lemma_run_fetch(state, inputs);
    let second = MicrocodeTask::Read(BusRead::PcIncrement, Latch::AddressHigh);
    let last = MicrocodeTask::Read(BusRead::Address, Latch::Operate(op));
    assert(state.run(inputs, 1).queue =~= seq![
        MicrocodeTask::Read(BusRead::PcIncrement, Latch::AddressLow),
    ] + seq![second, last]);
    lemma_run_read(state, inputs, 1, BusRead::PcIncrement, Latch::AddressLow, seq![second, last]);
    lemma_split_join(0, high_byte(state.address), inputs[1]);
    assert(state.run(inputs, 2).queue =~= seq![second] + seq![last]);
    lemma_run_read(state, inputs, 2, BusRead::PcIncrement, Latch::AddressHigh, seq![last]);
    assert(state.run(inputs, 3).queue =~= seq![last] + Seq::<MicrocodeTask>::empty());
    lemma_run_read(state, inputs, 3, BusRead::Address, Latch::Operate(op), Seq::empty());
}

/// A read at a zero-page address takes three cycles, and the third reads
/// at the address on page zero that the byte after the opcode names.
pub proof fn lemma_read_zero_page(state: CpuState, inputs: Seq<u8>, op: ReadOperation)
    requires
        state.idle(),
        inputs.len() >= 3,
        Instruction::of(inputs[0]) == Instruction::Read(op, AddressingMode::ZeroPage),
    ensures
        state.run(inputs, 1).access() == Access::Read(state.pc.wrapping_add(1)),
        state.run(inputs, 2).access() == Access::Read(inputs[1] as u16),
        state.run(inputs, 3).idle(),
        state.run(inputs, 3).pc == state.pc.wrapping_add(2),
        state.run(inputs, 3).registers == state.registers.read_operation(op, inputs[2]),
{
    lemma_run_fetch(state, inputs);
    let last = MicrocodeTask::Read(BusRead::Address, Latch::Operate(op));
    assert(state.run(inputs, 1).queue =~= seq![
        MicrocodeTask::Read(BusRead::PcIncrement, Latch::ZeroPageAddress),
    ] + seq![last]);
    lemma_run_read(state, inputs, 1, BusRead::PcIncrement, Latch::ZeroPageAddress, seq![last]);
    assert(state.run(inputs, 2).queue =~= seq![last] + Seq::<MicrocodeTask>::empty());
    lemma_run_read(state, inputs, 2, BusRead::Address, Latch::Operate(op), Seq::empty());
}

/// A read through an indexed pointer takes six cycles. The pointer and its
/// second byte both lie on page zero: X is added to the byte after the
/// opcode, and one more for the second byte, each sum reduced to a byte.
/// The third cycle reads at the pointer before X is added.
pub proof fn lemma_read_indexed_indirect(state: CpuState, inputs: Seq<u8>, op: ReadOperation)
    requires
        state.idle(),
        inputs.len() >= 6,
        Instruction::of(inputs[0]) == Instruction::Read(op, AddressingMode::IndexedIndirectX),
    ensures
        ({
            let pointer = inputs[1].wrapping_add(state.registers.x);
            &&& state.run(inputs, 1).access() == Access::Read(state.pc.wrapping_add(1))
            &&& state.run(inputs, 2).access() == Access::Read(inputs[1] as u16)
            &&& state.run(inputs, 3).access() == Access::Read(pointer as u16)
            &&& state.run(inputs, 4).access() == Access::Read(pointer.wrapping_add(1) as u16)
            &&& state.run(inputs, 5).access() == Access::Read(join_bytes(inputs[4], inputs[3]))
            &&& state.run(inputs, 6).idle()
            &&& state.run(inputs, 6).pc == state.pc.wrapping_add(2)
            &&& state.run(inputs, 6).registers == state.registers.read_operation(op, inputs[5])
        }),
{
    lemma_run_fetch(state, inputs);
    let second = MicrocodeTask::Read(BusRead::Pointer, Latch::PointerIndex);
    let third = MicrocodeTask::Read(BusRead::PointerIncrement, Latch::AddressLow);
    let fourth = MicrocodeTask::Read(BusRead::PointerIncrement, Latch::AddressHigh);
    let last = MicrocodeTask::Read(BusRead::Address, Latch::Operate(op));
    assert(state.run(inputs, 1).queue =~= seq![
        MicrocodeTask::Read(BusRead::PcIncrement, Latch::Pointer),
    ] + seq![second, third, fourth, last]);
    lemma_run_read(
        state,
        inputs,
        1,
        BusRead::PcIncrement,
        Latch::Pointer,
        seq![second, third, fourth, last],
    );
    assert(state.run(inputs, 2).queue =~= seq![second] + seq![third, fourth, last]);
    lemma_run_read(
        state,
        inputs,
        2,
        BusRead::Pointer,
        Latch::PointerIndex,
        seq![third, fourth, last],
    );
    assert(state.run(inputs, 3).queue =~= seq![third] + seq![fourth, last]);
    lemma_run_read(
        state,
        inputs,
        3,
        BusRead::PointerIncrement,
        Latch::AddressLow,
        seq![fourth, last],
    );
    lemma_split_join(0, high_byte(state.run(inputs, 3).address), inputs[3]);
    assert(state.run(inputs, 4).queue =~= seq![fourth] + seq![last]);
    lemma_run_read(state, inputs, 4, BusRead::PointerIncrement, Latch::AddressHigh, seq![last]);
    assert(state.run(inputs, 5).queue =~= seq![last] + Seq::<MicrocodeTask>::empty());
    lemma_run_read(state, inputs, 5, BusRead::Address, Latch::Operate(op), Seq::empty());
}

/// The cycles of a read that follow the fetch of the low byte of an
/// indexed address: the fetch of the high byte, a read at the address
/// whose high byte is not yet corrected if adding the index carried, and
/// the read at the address with the index added to all of it.
proof fn lemma_read_indexed_cycles(
    state: CpuState,
    inputs: Seq<u8>,
    n: nat,
    op: ReadOperation,
    io: BusRead,
    register: IndexRegister,
)
    requires
        state.run(inputs, n).queue == seq![
            MicrocodeTask::Read(io, Latch::AddressHighReadIndexed(register)),
            MicrocodeTask::Read(BusRead::Address, Latch::Operate(op)),
        ],
        io == BusRead::PcIncrement || io == BusRead::PointerIncrement,
    ensures
        ({
            let before = state.run(inputs, n);
            let low = low_byte(before.address);
            let high = inputs[n as int];
            let index = before.registers.index(register);
            let target = join_bytes(high, low).wrapping_add(index as u16);
            if low + index > 0xff {
                &&& state.run(inputs, n + 1).access() == Access::Read(
                    join_bytes(high, low.wrapping_add(index)),
                )
                &&& state.run(inputs, n + 2).access() == Access::Read(target)
                &&& state.run(inputs, n + 3).idle()
                &&& state.run(inputs, n + 3).registers == before.registers.read_operation(
                    op,
                    inputs[n as int + 2],
                )
                &&& state.run(inputs, n + 3).pc == state.run(inputs, n + 1).pc
            } else {
                &&& state.run(inputs, n + 1).access() == Access::Read(target)
                &&& state.run(inputs, n + 2).idle()
                &&& state.run(inputs, n + 2).registers == before.registers.read_operation(
                    op,
                    inputs[n as int + 1],
                )
                &&& state.run(inputs, n + 2).pc == state.run(inputs, n + 1).pc
            }
        }),
{
    let before = state.run(inputs, n);
    let last = MicrocodeTask::Read(BusRead::Address, Latch::Operate(op));
    let fix = MicrocodeTask::Read(BusRead::Address, Latch::FixAddress);
    assert(before.queue =~= seq![
        MicrocodeTask::Read(io, Latch::AddressHighReadIndexed(register)),
    ] + seq![last]);
    lemma_run_read(state, inputs, n, io, Latch::AddressHighReadIndexed(register), seq![last]);
    lemma_index_sum(inputs[n as int], low_byte(before.address), before.registers.index(register));
    if low_byte(before.address) + before.registers.index(register) > 0xff {
        assert(state.run(inputs, n + 1).queue =~= seq![fix] + seq![last]);
        lemma_run_read(state, inputs, n + 1, BusRead::Address, Latch::FixAddress, seq![last]);
        assert(state.run(inputs, n + 2).queue =~= seq![last] + Seq::<MicrocodeTask>::empty());
        lemma_run_read(state, inputs, n + 2, BusRead::Address, Latch::Operate(op), Seq::empty());
    } else {
        assert(state.run(inputs, n + 1).queue =~= seq![last] + Seq::<MicrocodeTask>::empty());
        lemma_run_read(state, inputs, n + 1, BusRead::Address, Latch::Operate(op), Seq::empty());
    }
}

/// A read at an absolute indexed address reads at the address after the
/// opcode with the index added to all of it. If adding the index to the
/// low byte does not carry, that is the fourth and last cycle; if it does,
/// the fourth cycle reads at the address whose high byte is not yet
/// corrected, and the fifth reads at the address.
pub proof fn lemma_read_absolute_indexed(
    state: CpuState,
    inputs: Seq<u8>,
    op: ReadOperation,
    register: IndexRegister,
)
    requires
        state.idle(),
        inputs.len() >= 5,
        Instruction::of(inputs[0]) == Instruction::Read(
            op,
            match register {
                IndexRegister::X => AddressingMode::AbsoluteIndexedX,
                IndexRegister::Y => AddressingMode::AbsoluteIndexedY,
            },
        ),
    ensures
        ({
            let index = state.registers.index(register);
            let target = join_bytes(inputs[2], inputs[1]).wrapping_add(index as u16);
            &&& state.run(inputs, 1).access() == Access::Read(state.pc.wrapping_add(1))
            &&& state.run(inputs, 2).access() == Access::Read(state.pc.wrapping_add(2))
            &&& if inputs[1] + index > 0xff {
                &&& state.run(inputs, 3).access() == Access::Read(
                    join_bytes(inputs[2], inputs[1].wrapping_add(index)),
                )
                &&& state.run(inputs, 4).access() == Access::Read(target)
                &&& state.run(inputs, 5).idle()
                &&& state.run(inputs, 5).pc == state.pc.wrapping_add(3)
                &&& state.run(inputs, 5).registers == state.registers.read_operation(op, inputs[4])
            } else {
                &&& state.run(inputs, 3).access() == Access::Read(target)
                &&& state.run(inputs, 4).idle()
                &&& state.run(inputs, 4).pc == state.pc.wrapping_add(3)
                &&& state.run(inputs, 4).registers == state.registers.read_operation(op, inputs[3])
            }
        }),
{
    lemma_run_fetch(state, inputs);
    let second = MicrocodeTask::Read(
        BusRead::PcIncrement,
        Latch::AddressHighReadIndexed(register),
    );
    let last = MicrocodeTask::Read(BusRead::Address, Latch::Operate(op));
    assert(state.run(inputs, 1).queue =~= seq![
        MicrocodeTask::Read(BusRead::PcIncrement, Latch::AddressLow),
    ] + seq![second, last]);
    lemma_run_read(state, inputs, 1, BusRead::PcIncrement, Latch::AddressLow, seq![second, last]);
    lemma_split_join(0, high_byte(state.address), inputs[1]);
    lemma_run_step(state, inputs, 2);
    lemma_step_read(
        state.run(inputs, 2),
        inputs[2],
        BusRead::PcIncrement,
        Latch::AddressHighReadIndexed(register),
    );
    lemma_read_indexed_cycles(state, inputs, 2, op, BusRead::PcIncrement, register);
}

/// A read at an indirect indexed address reads its pointer's two bytes on
/// page zero, and then at the address that they name with Y added to all
/// of it. If adding Y to the low byte does not carry, that is the fifth
/// and last cycle; if it does, the fifth cycle reads at the address whose
/// high byte is not yet corrected, and the sixth reads at the address.
pub proof fn lemma_read_indirect_indexed(state: CpuState, inputs: Seq<u8>, op: ReadOperation)
    requires
        state.idle(),
        inputs.len() >= 6,
        Instruction::of(inputs[0]) == Instruction::Read(op, AddressingMode::IndirectIndexedY),
    ensures
        ({
            let y = state.registers.y;
            let target = join_bytes(inputs[3], inputs[2]).wrapping_add(y as u16);
            &&& state.run(inputs, 1).access() == Access::Read(state.pc.wrapping_add(1))
            &&& state.run(inputs, 2).access() == Access::Read(inputs[1] as u16)
            &&& state.run(inputs, 3).access() == Access::Read(inputs[1].wrapping_add(1) as u16)
            &&& if inputs[2] + y > 0xff {
                &&& state.run(inputs, 4).access() == Access::Read(
                    join_bytes(inputs[3], inputs[2].wrapping_add(y)),
                )
                &&& state.run(inputs, 5).access() == Access::Read(target)
                &&& state.run(inputs, 6).idle()
                &&& state.run(inputs, 6).pc == state.pc.wrapping_add(2)
                &&& state.run(inputs, 6).registers == state.registers.read_operation(op, inputs[5])
            } else {
                &&& state.run(inputs, 4).access() == Access::Read(target)
                &&& state.run(inputs, 5).idle()
                &&& state.run(inputs, 5).pc == state.pc.wrapping_add(2)
                &&& state.run(inputs, 5).registers == state.registers.read_operation(op, inputs[4])
            }
        }),
{
    lemma_run_fetch(state, inputs);
    let second = MicrocodeTask::Read(BusRead::PointerIncrement, Latch::AddressLow);
    let third = MicrocodeTask::Read(
        BusRead::PointerIncrement,
        Latch::AddressHighReadIndexed(IndexRegister::Y),
    );
    let last = MicrocodeTask::Read(BusRead::Address, Latch::Operate(op));
    assert(state.run(inputs, 1).queue =~= seq![
        MicrocodeTask::Read(BusRead::PcIncrement, Latch::Pointer),
    ] + seq![second, third, last]);
    lemma_run_read(
        state,
        inputs,
        1,
        BusRead::PcIncrement,
        Latch::Pointer,
        seq![second, third, last],
    );
    assert(state.run(inputs, 2).queue =~= seq![second] + seq![third, last]);
    lemma_run_read(
        state,
        inputs,
        2,
        BusRead::PointerIncrement,
        Latch::AddressLow,
        seq![third, last],
    );
    lemma_split_join(0, high_byte(state.run(inputs, 2).address), inputs[2]);
    lemma_run_step(state, inputs, 3);
    lemma_step_read(
        state.run(inputs, 3),
        inputs[3],
        BusRead::PointerIncrement,
        Latch::AddressHighReadIndexed(IndexRegister::Y),
    );
    lemma_read_indexed_cycles(
        state,
        inputs,
        3,
        op,
        BusRead::PointerIncrement,
        IndexRegister::Y,
    );
}

/// The address that an addressing mode reaches.
///
/// `operands` holds the bytes that the bus returns while the address is
/// formed: first the byte after the opcode, then, as the mode has it, the
/// second byte after the opcode or what the bus shows at the pointer.
pub open spec fn effective_address(
    mode: AddressingMode,
    registers: Registers,
    operands: Seq<u8>,
) -> u16 {
    match mode {
        AddressingMode::Absolute => join_bytes(operands[1], operands[0]),
        AddressingMode::AbsoluteIndexedX => join_bytes(operands[1], operands[0]).wrapping_add(
            registers.x as u16,
        ),
        AddressingMode::AbsoluteIndexedY => join_bytes(operands[1], operands[0]).wrapping_add(
            registers.y as u16,
        ),
        AddressingMode::IndexedIndirectX => join_bytes(operands[3], operands[2]),
        AddressingMode::IndirectIndexedY => join_bytes(operands[2], operands[1]).wrapping_add(
            registers.y as u16,
        ),
        AddressingMode::ZeroPage => operands[0] as u16,
        AddressingMode::ZeroPageIndexedX => operands[0].wrapping_add(registers.x) as u16,
        AddressingMode::ZeroPageIndexedY => operands[0].wrapping_add(registers.y) as u16,
    }
}

/// The number of bytes that follow the opcode of an instruction in a mode.
pub open spec fn operand_bytes(mode: AddressingMode) -> nat {
    match mode {
        AddressingMode::Absolute => 2,
        AddressingMode::AbsoluteIndexedX => 2,
        AddressingMode::AbsoluteIndexedY => 2,
        _ => 1,
    }
}

/// Whether `after` is what the address steps of a mode make of `before`:
/// the effective address stands in its latch, the program counter stands
/// behind the operand, `rest` is left in the queue, and the registers are
/// as they were.
pub open spec fn addressed(
    before: CpuState,
    after: CpuState,
    mode: AddressingMode,
    operands: Seq<u8>,
    rest: Seq<MicrocodeTask>,
) -> bool {
    after == (CpuState {
        pc: before.pc.wrapping_add(operand_bytes(mode) as u16),
        address: effective_address(mode, before.registers, operands),
        address_carry: after.address_carry,
        pointer: after.pointer,
        cycle: before.cycle + address_step_count(mode, true),
        queue: rest,
        ..before
    })
}

/// The address steps of the absolute mode.
proof fn lemma_address_absolute(
    state: CpuState,
    inputs: Seq<u8>,
    n: nat,
    rest: Seq<MicrocodeTask>,
)
    requires
        inputs.len() >= n + 2,
        state.run(inputs, n).queue == address_steps(AddressingMode::Absolute, true) + rest,
    ensures
        addressed(
            state.run(inputs, n),
            state.run(inputs, n + 2),
            AddressingMode::Absolute,
            inputs.subrange(n as int, n as int + 2),
            rest,
        ),
{
    let second = MicrocodeTask::Read(BusRead::PcIncrement, Latch::AddressHigh);
    assert(state.run(inputs, n).queue =~= seq![
        MicrocodeTask::Read(BusRead::PcIncrement, Latch::AddressLow),
    ] + (seq![second] + rest));
    lemma_run_read(state, inputs, n, BusRead::PcIncrement, Latch::AddressLow, seq![second] + rest);
    lemma_split_join(0, high_byte(state.run(inputs, n).address), inputs[n as int]);
    lemma_run_read(state, inputs, n + 1, BusRead::PcIncrement, Latch::AddressHigh, rest);
}

/// The address steps of the two absolute indexed modes.
#[verifier::rlimit(30)]
proof fn lemma_address_absolute_indexed(
    state: CpuState,
    inputs: Seq<u8>,
    n: nat,
    register: IndexRegister,
    rest: Seq<MicrocodeTask>,
)
    requires
        inputs.len() >= n + 3,
        state.run(inputs, n).queue == crate::cpu::addressing_modes::absolute_indexed_steps(
            register,
            true,
        ) + rest,
    ensures
        addressed(
            state.run(inputs, n),
            state.run(inputs, n + 3),
            match register {
                IndexRegister::X => AddressingMode::AbsoluteIndexedX,
                IndexRegister::Y => AddressingMode::AbsoluteIndexedY,
            },
            inputs.subrange(n as int, n as int + 3),
            rest,
        ),
{
    let second = MicrocodeTask::Read(BusRead::PcIncrement, Latch::AddressHighIndexed(register));
    let third = MicrocodeTask::Read(BusRead::Address, Latch::FixAddress);
    assert(state.run(inputs, n).queue =~= seq![
        MicrocodeTask::Read(BusRead::PcIncrement, Latch::AddressLow),
    ] + (seq![second, third] + rest));
    lemma_run_read(
        state,
        inputs,
        n,
        BusRead::PcIncrement,
        Latch::AddressLow,
        seq![second, third] + rest,
    );
    lemma_split_join(0, high_byte(state.run(inputs, n).address), inputs[n as int]);
    assert(state.run(inputs, n + 1).queue =~= seq![second] + (seq![third] + rest));
    lemma_run_read(
        state,
        inputs,
        n + 1,
        BusRead::PcIncrement,
        Latch::AddressHighIndexed(register),
        seq![third] + rest,
    );
    lemma_index_sum(
        inputs[n as int + 1],
        inputs[n as int],
        state.run(inputs, n).registers.index(register),
    );
    lemma_run_read(state, inputs, n + 2, BusRead::Address, Latch::FixAddress, rest);
}

/// The address steps of the indexed indirect mode.
proof fn lemma_address_indexed_indirect(
    state: CpuState,
    inputs: Seq<u8>,
    n: nat,
    rest: Seq<MicrocodeTask>,
)
    requires
        inputs.len() >= n + 4,
        state.run(inputs, n).queue == address_steps(AddressingMode::IndexedIndirectX, true)
            + rest,
    ensures
        addressed(
            state.run(inputs, n),
            state.run(inputs, n + 4),
            AddressingMode::IndexedIndirectX,
            inputs.subrange(n as int, n as int + 4),
            rest,
        ),
{
    let second = MicrocodeTask::Read(BusRead::Pointer, Latch::PointerIndex);
    let third = MicrocodeTask::Read(BusRead::PointerIncrement, Latch::AddressLow);
    let fourth = MicrocodeTask::Read(BusRead::PointerIncrement, Latch::AddressHigh);
    assert(state.run(inputs, n).queue =~= seq![
        MicrocodeTask::Read(BusRead::PcIncrement, Latch::Pointer),
    ] + (seq![second, third, fourth] + rest));
    lemma_run_read(
        state,
        inputs,
        n,
        BusRead::PcIncrement,
        Latch::Pointer,
        seq![second, third, fourth] + rest,
    );
    assert(state.run(inputs, n + 1).queue =~= seq![second] + (seq![third, fourth] + rest));
    lemma_run_read(
        state,
        inputs,
        n + 1,
        BusRead::Pointer,
        Latch::PointerIndex,
        seq![third, fourth] + rest,
    );
    assert(state.run(inputs, n + 2).queue =~= seq![third] + (seq![fourth] + rest));
    lemma_run_read(
        state,
        inputs,
        n + 2,
        BusRead::PointerIncrement,
        Latch::AddressLow,
        seq![fourth] + rest,
    );
    lemma_split_join(0, high_byte(state.run(inputs, n + 2).address), inputs[n as int + 2]);
    lemma_run_read(state, inputs, n + 3, BusRead::PointerIncrement, Latch::AddressHigh, rest);
}

/// The address steps of the indirect indexed mode.
proof fn lemma_address_indirect_indexed(
    state: CpuState,
    inputs: Seq<u8>,
    n: nat,
    rest: Seq<MicrocodeTask>,
)
    requires
        inputs.len() >= n + 4,
        state.run(inputs, n).queue == address_steps(AddressingMode::IndirectIndexedY, true)
            + rest,
    ensures
        addressed(
            state.run(inputs, n),
            state.run(inputs, n + 4),
            AddressingMode::IndirectIndexedY,
            inputs.subrange(n as int, n as int + 4),
            rest,
        ),
{
    let second = MicrocodeTask::Read(BusRead::PointerIncrement, Latch::AddressLow);
    let third = MicrocodeTask::Read(
        BusRead::PointerIncrement,
        Latch::AddressHighIndexed(IndexRegister::Y),
    );
    let fourth = MicrocodeTask::Read(BusRead::Address, Latch::FixAddress);
    assert(state.run(inputs, n).queue =~= seq![
        MicrocodeTask::Read(BusRead::PcIncrement, Latch::Pointer),
    ] + (seq![second, third, fourth] + rest));
    lemma_run_read(
        state,
        inputs,
        n,
        BusRead::PcIncrement,
        Latch::Pointer,
        seq![second, third, fourth] + rest,
    );
    assert(state.run(inputs, n + 1).queue =~= seq![second] + (seq![third, fourth] + rest));
    lemma_run_read(
        state,
        inputs,
        n + 1,
        BusRead::PointerIncrement,
        Latch::AddressLow,
        seq![third, fourth] + rest,
    );
    lemma_split_join(0, high_byte(state.run(inputs, n + 1).address), inputs[n as int + 1]);
    assert(state.run(inputs, n + 2).queue =~= seq![third] + (seq![fourth] + rest));
    lemma_run_read(
        state,
        inputs,
        n + 2,
        BusRead::PointerIncrement,
        Latch::AddressHighIndexed(IndexRegister::Y),
        seq![fourth] + rest,
    );
    lemma_index_sum(inputs[n as int + 2], inputs[n as int + 1], state.run(inputs, n).registers.y);
    lemma_run_read(state, inputs, n + 3, BusRead::Address, Latch::FixAddress, rest);
}

/// The address steps of the zero-page mode.
proof fn lemma_address_zero_page(
    state: CpuState,
    inputs: Seq<u8>,
    n: nat,
    rest: Seq<MicrocodeTask>,
)
    requires
        inputs.len() >= n + 1,
        state.run(inputs, n).queue == address_steps(AddressingMode::ZeroPage, true) + rest,
    ensures
        addressed(
            state.run(inputs, n),
            state.run(inputs, n + 1),
            AddressingMode::ZeroPage,
            inputs.subrange(n as int, n as int + 1),
            rest,
        ),
{
    assert(state.run(inputs, n).queue =~= seq![
        MicrocodeTask::Read(BusRead::PcIncrement, Latch::ZeroPageAddress),
    ] + rest);
    lemma_run_read(state, inputs, n, BusRead::PcIncrement, Latch::ZeroPageAddress, rest);
}

/// The address steps of the two zero-page indexed modes.
proof fn lemma_address_zero_page_indexed(
    state: CpuState,
    inputs: Seq<u8>,
    n: nat,
    register: IndexRegister,
    rest: Seq<MicrocodeTask>,
)
    requires
        inputs.len() >= n + 2,
        state.run(inputs, n).queue == crate::cpu::addressing_modes::zero_page_indexed_steps(
            register,
        ) + rest,
    ensures
        addressed(
            state.run(inputs, n),
            state.run(inputs, n + 2),
            match register {
                IndexRegister::X => AddressingMode::ZeroPageIndexedX,
                IndexRegister::Y => AddressingMode::ZeroPageIndexedY,
            },
            inputs.subrange(n as int, n as int + 2),
            rest,
        ),
{
    let second = MicrocodeTask::Read(BusRead::Address, Latch::ZeroPageIndex(register));
    assert(state.run(inputs, n).queue =~= seq![
        MicrocodeTask::Read(BusRead::PcIncrement, Latch::ZeroPageAddress),
    ] + (seq![second] + rest));
    lemma_run_read(
        state,
        inputs,
        n,
        BusRead::PcIncrement,
        Latch::ZeroPageAddress,
        seq![second] + rest,
    );
    lemma_run_read(state, inputs, n + 1, BusRead::Address, Latch::ZeroPageIndex(register), rest);
}

/// The steps that form an address leave the effective address of their
/// mode in the address latch, in every mode.
pub proof fn lemma_address(
    state: CpuState,
    inputs: Seq<u8>,
    n: nat,
    mode: AddressingMode,
    rest: Seq<MicrocodeTask>,
)
    requires
        inputs.len() >= n + address_step_count(mode, true),
        state.run(inputs, n).queue == address_steps(mode, true) + rest,
    ensures
        addressed(
            state.run(inputs, n),
            state.run(inputs, n + address_step_count(mode, true)),
            mode,
            inputs.subrange(n as int, n as int + address_step_count(mode, true)),
            rest,
        ),
{
    match mode {
        AddressingMode::Absolute => lemma_address_absolute(state, inputs, n, rest),
        AddressingMode::AbsoluteIndexedX => {
            lemma_address_absolute_indexed(state, inputs, n, IndexRegister::X, rest)
        },
        AddressingMode::AbsoluteIndexedY => {
            lemma_address_absolute_indexed(state, inputs, n, IndexRegister::Y, rest)
        },
        AddressingMode::IndexedIndirectX => lemma_address_indexed_indirect(state, inputs, n, rest),
        AddressingMode::IndirectIndexedY => lemma_address_indirect_indexed(state, inputs, n, rest),
        AddressingMode::ZeroPage => lemma_address_zero_page(state, inputs, n, rest),
        AddressingMode::ZeroPageIndexedX => {
            lemma_address_zero_page_indexed(state, inputs, n, IndexRegister::X, rest)
        },
        AddressingMode::ZeroPageIndexedY => {
            lemma_address_zero_page_indexed(state, inputs, n, IndexRegister::Y, rest)
        },
    }
}

/// A write instruction, in every mode: after the cycles that form the
/// address, one cycle writes the byte of the operation at the effective
/// address. No register changes, and the program counter stands behind the
/// instruction.
pub proof fn lemma_write(state: CpuState, inputs: Seq<u8>, op: WriteOperation, mode: AddressingMode)
    requires
        state.idle(),
        inputs.len() >= 2 + address_step_count(mode, true),
        Instruction::of(inputs[0]) == Instruction::Write(op, mode),
    ensures
        ({
            let n = address_step_count(mode, true);
            let operands = inputs.subrange(1, 1 + n as int);
            let address = effective_address(mode, state.registers, operands);
            &&& state.run(inputs, 1 + n).access() == Access::Write(
                address,
                state.registers.write_operation(op),
            )
            &&& state.run(inputs, 2 + n).idle()
            &&& state.run(inputs, 2 + n).registers == state.registers
            &&& state.run(inputs, 2 + n).pc == state.pc.wrapping_add(1).wrapping_add(
                operand_bytes(mode) as u16,
            )
        }),
{
    let n = address_step_count(mode, true);
    let rest = seq![MicrocodeTask::Write(BusWrite::Address, Source::Operate(op))];
    lemma_run_fetch(state, inputs);
    lemma_address(state, inputs, 1, mode, rest);
    assert(rest =~= seq![MicrocodeTask::Write(BusWrite::Address, Source::Operate(op))]
        + Seq::<MicrocodeTask>::empty());
    lemma_run_write(state, inputs, 1 + n, BusWrite::Address, Source::Operate(op), Seq::empty());
}

/// A read-modify-write instruction, in every mode: after the cycles that
/// form the address, three cycles read the byte at the effective address,
/// write it back as it was read, and write the byte that the operation
/// made of it. The program counter stands behind the instruction.
pub proof fn lemma_read_write(
    state: CpuState,
    inputs: Seq<u8>,
    op: ReadWriteOperation,
    mode: AddressingMode,
)
    requires
        state.idle(),
        inputs.len() >= 4 + address_step_count(mode, true),
        Instruction::of(inputs[0]) == Instruction::ReadWrite(op, mode),
    ensures
        ({
            let n = address_step_count(mode, true);
            let operands = inputs.subrange(1, 1 + n as int);
            let address = effective_address(mode, state.registers, operands);
            let read = inputs[1 + n as int];
            let modified = state.registers.read_write_operation(op, read);
            &&& state.run(inputs, 1 + n).access() == Access::Read(address)
            &&& state.run(inputs, 2 + n).access() == Access::Write(address, read)
            &&& state.run(inputs, 3 + n).access() == Access::Write(address, modified.0)
            &&& state.run(inputs, 4 + n).idle()
            &&& state.run(inputs, 4 + n).registers == modified.1
            &&& state.run(inputs, 4 + n).pc == state.pc.wrapping_add(1).wrapping_add(
                operand_bytes(mode) as u16,
            )
        }),
{
    let n = address_step_count(mode, true);
    let rest = seq![
        MicrocodeTask::Read(BusRead::Address, Latch::Data),
        MicrocodeTask::ReadWrite(op),
        MicrocodeTask::Write(BusWrite::Address, Source::Data),
    ];
    lemma_run_fetch(state, inputs);
    lemma_address(state, inputs, 1, mode, rest);
    lemma_modify_cycles(state, inputs, 1 + n, op);
}

} // verus!
