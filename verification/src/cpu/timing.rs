//! How many cycles an instruction takes.
//!
//! `run` lets the state machine of `state` take a number of cycles on a bus
//! that returns given bytes. The theorems of this module hold of every
//! state and of every sequence of bytes, and so of every program on every
//! bus.

use vstd::prelude::*;
use crate::address::{high_byte, lemma_split_join, low_byte};
use super::{BusRead, IndexRegister, Latch, MicrocodeTask};
use super::addressing_modes::{address_steps, AddressingMode};
use super::decoder::Instruction;
use super::instructions::{BranchOperation, ReadOperation};
use super::laws::steps::{lemma_run_fetch, lemma_run_read, lemma_run_step, lemma_step_branch};
use super::state::{steps, CpuState};

verus! {

impl CpuState {
    /// The state after `n` cycles, where the bus returns `inputs[i]` in
    /// cycle number `i`, counted from zero. What it returns in a write cycle
    /// does not matter.
    pub open spec fn run(self, inputs: Seq<u8>, n: nat) -> CpuState
        decreases n,
    {
        if n == 0 {
            self
        } else {
            self.run(inputs, (n - 1) as nat).step(inputs[n - 1])
        }
    }

    /// Whether no instruction is in flight.
    pub open spec fn idle(self) -> bool {
        self.queue.len() == 0
    }
}

/// The number of cycles that the instruction of an opcode takes, as the
/// processor's documentation gives it: without what a branch adds when it is
/// taken, and without what a read adds when its index crosses a page. An
/// opcode outside the supported set counts as a no-operation of two cycles.
#[verifier::opaque]
pub open spec fn documented_cycles(opcode: u8) -> nat {
    match opcode {
        0x04 | 0x05 | 0x08 | 0x24 | 0x25 | 0x44 | 0x45 | 0x48 | 0x4c | 0x64 | 0x65 | 0x84
            | 0x85 | 0x86 | 0x87 | 0xa4 | 0xa5 | 0xa6 | 0xa7 | 0xc4 | 0xc5 | 0xe4 | 0xe5 => 3,
        0x0c | 0x0d | 0x14 | 0x15 | 0x19 | 0x1c | 0x1d | 0x28 | 0x2c | 0x2d | 0x34 | 0x35
            | 0x39 | 0x3c | 0x3d | 0x4d | 0x54 | 0x55 | 0x59 | 0x5c | 0x5d | 0x68 | 0x6d | 0x74
            | 0x75 | 0x79 | 0x7c | 0x7d | 0x8c | 0x8d | 0x8e | 0x8f | 0x94 | 0x95 | 0x96 | 0x97
            | 0xac | 0xad | 0xae | 0xaf | 0xb4 | 0xb5 | 0xb6 | 0xb7 | 0xb9 | 0xbc | 0xbd | 0xbe
            | 0xbf | 0xcc | 0xcd | 0xd4 | 0xd5 | 0xd9 | 0xdc | 0xdd | 0xec | 0xed | 0xf4 | 0xf5
            | 0xf9 | 0xfc | 0xfd => 4,
        0x06 | 0x07 | 0x11 | 0x26 | 0x27 | 0x31 | 0x46 | 0x47 | 0x51 | 0x66 | 0x67 | 0x6c
            | 0x71 | 0x99 | 0x9d | 0xb1 | 0xb3 | 0xc6 | 0xc7 | 0xd1 | 0xe6 | 0xe7 | 0xf1 => 5,
        0x01 | 0x0e | 0x0f | 0x16 | 0x17 | 0x20 | 0x21 | 0x2e | 0x2f | 0x36 | 0x37 | 0x40
            | 0x41 | 0x4e | 0x4f | 0x56 | 0x57 | 0x60 | 0x61 | 0x6e | 0x6f | 0x76 | 0x77 | 0x81
            | 0x83 | 0x91 | 0xa1 | 0xa3 | 0xc1 | 0xce | 0xcf | 0xd6 | 0xd7 | 0xe1 | 0xee | 0xef
            | 0xf6 | 0xf7 => 6,
        0x00 | 0x1b | 0x1e | 0x1f | 0x3b | 0x3e | 0x3f | 0x5b | 0x5e | 0x5f | 0x7b | 0x7e
            | 0x7f | 0xdb | 0xde | 0xdf | 0xfb | 0xfe | 0xff => 7,
        0x03 | 0x13 | 0x23 | 0x33 | 0x43 | 0x53 | 0x63 | 0x73 | 0xc3 | 0xd3 | 0xe3 | 0xf3 => 8,
        _ => 2,
    }
}

/// Whether two addresses lie on different pages.
pub open spec fn pages_differ(a: u16, b: u16) -> bool {
    high_byte(a) != high_byte(b)
}

/// The offset of a branch as the signed number it stands for.
pub open spec fn signed_offset(operand: u8) -> int {
    if operand < 0x80 {
        operand as int
    } else {
        operand - 0x100
    }
}

/// The address that a branch leads to: `offset` away from the address
/// `next` of the instruction after the branch, counted around the ends of
/// the address space.
pub open spec fn branch_target(next: u16, operand: u8) -> u16 {
    ((next + signed_offset(operand)) % 0x10000) as u16
}

/// The one cycle that it takes to carry the sum of the low byte of an
/// address and an index into the high byte.
pub open spec fn carry_cycles(low: u8, index: u8) -> nat {
    if low + index > 0xff {
        1
    } else {
        0
    }
}

/// The cycles that an instruction takes beyond the documented number, for
/// an instruction whose opcode lies at `state.pc` and is followed by the
/// bytes that the bus returns in the cycles after its fetch.
///
/// A branch that is taken takes one more cycle, and another one if its
/// target lies on another page than the instruction after the branch. A
/// read at an indexed address takes one more cycle if adding the index
/// carries into the high byte of the address.
pub open spec fn extra_cycles(state: CpuState, inputs: Seq<u8>) -> nat {
    match Instruction::of(inputs[0]) {
        Instruction::Branch(op) => if !state.registers.branch_operation(op) {
            0
        } else if pages_differ(
            state.pc.wrapping_add(2),
            branch_target(state.pc.wrapping_add(2), inputs[1]),
        ) {
            2
        } else {
            1
        },
        Instruction::Read(_, AddressingMode::AbsoluteIndexedX) => carry_cycles(
            inputs[1],
            state.registers.x,
        ),
        Instruction::Read(_, AddressingMode::AbsoluteIndexedY) => carry_cycles(
            inputs[1],
            state.registers.y,
        ),
        Instruction::Read(_, AddressingMode::IndirectIndexedY) => carry_cycles(
            inputs[2],
            state.registers.y,
        ),
        _ => 0,
    }
}

/// The number of cycles that the instruction at `state.pc` takes, its fetch
/// included.
pub open spec fn instruction_cycles(state: CpuState, inputs: Seq<u8>) -> nat {
    documented_cycles(inputs[0]) + extra_cycles(state, inputs)
}

/// Whether a step leaves the queue behind it as it finds it.
pub open spec fn queues_nothing(task: MicrocodeTask) -> bool {
    match task {
        MicrocodeTask::Branch(_) => false,
        MicrocodeTask::Read(_, Latch::Decode) => false,
        MicrocodeTask::Read(_, Latch::BranchLow) => false,
        MicrocodeTask::Read(_, Latch::AddressHighReadIndexed(_)) => false,
        _ => true,
    }
}

/// Whether an instruction queues all its steps when it is decoded.
pub open spec fn queues_at_once(instruction: Instruction) -> bool {
    match instruction {
        Instruction::Branch(_) => false,
        Instruction::Read(_, AddressingMode::AbsoluteIndexedX) => false,
        Instruction::Read(_, AddressingMode::AbsoluteIndexedY) => false,
        Instruction::Read(_, AddressingMode::IndirectIndexedY) => false,
        _ => true,
    }
}

/// The number of steps that an instruction queues when it is decoded.
pub open spec fn step_count(instruction: Instruction) -> nat {
    match instruction {
        Instruction::Accumulator(_) => 1,
        Instruction::Branch(_) => 1,
        Instruction::Brk => 6,
        Instruction::Immediate(_) => 1,
        Instruction::Implied(_) => 1,
        Instruction::Jmp => 2,
        Instruction::JmpIndirect => 4,
        Instruction::Jsr => 5,
        Instruction::Pha => 2,
        Instruction::Php => 2,
        Instruction::Pla => 3,
        Instruction::Plp => 3,
        Instruction::Read(_, mode) => address_step_count(mode, false) + 1,
        Instruction::ReadWrite(_, mode) => address_step_count(mode, true) + 3,
        Instruction::Rti => 5,
        Instruction::Rts => 5,
        Instruction::Unrecognized => 1,
        Instruction::Write(_, mode) => address_step_count(mode, true) + 1,
    }
}

/// The number of steps that form the effective address.
pub open spec fn address_step_count(mode: AddressingMode, fix_always: bool) -> nat {
    match mode {
        AddressingMode::Absolute => 2,
        AddressingMode::AbsoluteIndexedX | AddressingMode::AbsoluteIndexedY => if fix_always {
            3
        } else {
            2
        },
        AddressingMode::IndexedIndirectX => 4,
        AddressingMode::IndirectIndexedY => if fix_always {
            4
        } else {
            3
        },
        AddressingMode::ZeroPage => 1,
        AddressingMode::ZeroPageIndexedX | AddressingMode::ZeroPageIndexedY => 2,
    }
}

/// The address steps are as many as `address_step_count` says, and with
/// `fix_always` none of them queues a step.
proof fn lemma_address_steps(mode: AddressingMode, fix_always: bool)
    ensures
        address_steps(mode, fix_always).len() == address_step_count(mode, fix_always),
        fix_always ==> forall|i: int|
            0 <= i < address_steps(mode, fix_always).len() ==> queues_nothing(
                #[trigger] address_steps(mode, fix_always)[i],
            ),
        !fix_always && mode != AddressingMode::AbsoluteIndexedX && mode
            != AddressingMode::AbsoluteIndexedY && mode != AddressingMode::IndirectIndexedY
            ==> forall|i: int|
            0 <= i < address_steps(mode, fix_always).len() ==> queues_nothing(
                #[trigger] address_steps(mode, fix_always)[i],
            ),
{
}

/// An instruction queues as many steps as `step_count` says, and an
/// instruction that queues its steps at once has no step that queues
/// another.
proof fn lemma_steps(instruction: Instruction)
    ensures
        steps(instruction).len() == step_count(instruction),
        queues_at_once(instruction) ==> forall|i: int|
            0 <= i < steps(instruction).len() ==> queues_nothing(#[trigger] steps(instruction)[i]),
{
    match instruction {
        Instruction::Read(op, mode) => {
            lemma_address_steps(mode, false);
        },
        Instruction::ReadWrite(op, mode) => {
            lemma_address_steps(mode, true);
        },
        Instruction::Write(op, mode) => {
            lemma_address_steps(mode, true);
        },
        _ => {},
    }
}

/// The documented number of cycles of every opcode is one for the fetch and
/// one for each step that its instruction queues when it is decoded.
pub proof fn lemma_documented_cycles(opcode: u8)
    ensures
        documented_cycles(opcode) == 1 + step_count(Instruction::of(opcode)),
{
    reveal(Instruction::of);
    reveal(documented_cycles);
}

/// A step that queues nothing takes itself off the queue and leaves the rest.
proof fn lemma_step_queue(state: CpuState, data: u8)
    requires
        state.queue.len() > 0,
        queues_nothing(state.queue[0]),
    ensures
        state.step(data).queue == state.queue.drop_first(),
{
    reveal(CpuState::step);
}

/// Steps that queue nothing leave the queue one by one.
proof fn lemma_run_queue(state: CpuState, inputs: Seq<u8>, start: nat, n: nat)
    requires
        n <= state.run(inputs, start).queue.len(),
        forall|i: int|
            0 <= i < n ==> queues_nothing(#[trigger] state.run(inputs, start).queue[i]),
    ensures
        state.run(inputs, start + n).queue == state.run(inputs, start).queue.subrange(
            n as int,
            state.run(inputs, start).queue.len() as int,
        ),
    decreases n,
{
    let queue = state.run(inputs, start).queue;
    if n == 0 {
        assert(queue.subrange(0, queue.len() as int) =~= queue);
    } else {
        lemma_run_queue(state, inputs, start, (n - 1) as nat);
        let before = state.run(inputs, (start + n - 1) as nat);
        assert(before.queue[0] == queue[n - 1]);
        lemma_step_queue(before, inputs[start + n - 1]);
        assert(state.run(inputs, start + n) == before.step(inputs[start + n - 1]));
        assert(before.queue.drop_first() =~= queue.subrange(n as int, queue.len() as int));
    }
}

/// An instruction that queues all its steps at once takes one cycle for
/// its fetch and one for each step.
proof fn lemma_cycles_at_once(state: CpuState, inputs: Seq<u8>)
    requires
        state.idle(),
        queues_at_once(Instruction::of(inputs[0])),
    ensures
        state.run(inputs, documented_cycles(inputs[0])).idle(),
        forall|k: nat|
            0 < k < documented_cycles(inputs[0]) ==> !(#[trigger] state.run(inputs, k)).idle(),
{
    let instruction = Instruction::of(inputs[0]);
    let count = step_count(instruction);
    lemma_run_fetch(state, inputs);
    lemma_steps(instruction);
    lemma_documented_cycles(inputs[0]);
    lemma_run_queue(state, inputs, 1, count);
    assert forall|k: nat| 0 < k < 1 + count implies !(#[trigger] state.run(inputs, k)).idle() by {
        lemma_run_queue(state, inputs, 1, (k - 1) as nat);
    }
}

/// While an instruction that queues all its steps at once is in flight, the
/// queue holds exactly one step for each cycle that the instruction still
/// has to take.
pub proof fn lemma_queue_holds_remaining_cycles(state: CpuState, inputs: Seq<u8>, k: nat)
    requires
        state.idle(),
        queues_at_once(Instruction::of(inputs[0])),
        0 < k <= documented_cycles(inputs[0]),
    ensures
        state.run(inputs, k).queue.len() == documented_cycles(inputs[0]) - k,
{
    let instruction = Instruction::of(inputs[0]);
    lemma_run_fetch(state, inputs);
    lemma_steps(instruction);
    lemma_documented_cycles(inputs[0]);
    lemma_run_queue(state, inputs, 1, (k - 1) as nat);
}

/// A branch takes two cycles if it is not taken, three if it is, and four
/// if it leads to another page.
proof fn lemma_cycles_branch(state: CpuState, inputs: Seq<u8>, op: BranchOperation)
    requires
        state.idle(),
        Instruction::of(inputs[0]) == Instruction::Branch(op),
    ensures
        state.run(inputs, instruction_cycles(state, inputs)).idle(),
        forall|k: nat|
            0 < k < instruction_cycles(state, inputs) ==> !(#[trigger] state.run(inputs, k)).idle(),
{
    lemma_run_fetch(state, inputs);
    lemma_documented_cycles(inputs[0]);
    let fetched = state.run(inputs, 1);
    assert(fetched.queue[0] == MicrocodeTask::Branch(op));
    lemma_run_step(state, inputs, 1);
    lemma_step_branch(fetched, inputs[1], op);
    let tested = state.run(inputs, 2);
    assert(fetched.queue.drop_first() =~= Seq::<MicrocodeTask>::empty());
    if state.registers.branch_operation(op) {
        let low_step = MicrocodeTask::Read(BusRead::Pc, Latch::BranchLow);
        assert(tested.queue =~= seq![low_step] + Seq::<MicrocodeTask>::empty());
        lemma_run_read(state, inputs, 2, BusRead::Pc, Latch::BranchLow, Seq::empty());
        lemma_branch_crosses_page(tested);
        let moved = state.run(inputs, 3);
        if tested.branch_crosses_page() {
            let high_step = MicrocodeTask::Read(BusRead::Pc, Latch::BranchHigh);
            assert(moved.queue =~= seq![high_step] + Seq::<MicrocodeTask>::empty());
            lemma_run_read(state, inputs, 3, BusRead::Pc, Latch::BranchHigh, Seq::empty());
            assert(instruction_cycles(state, inputs) == 4);
            assert forall|k: nat| 0 < k < 4 implies !(#[trigger] state.run(inputs, k)).idle() by {
                assert(k == 1 || k == 2 || k == 3);
            }
        } else {
            assert(moved.queue =~= Seq::<MicrocodeTask>::empty());
            assert(instruction_cycles(state, inputs) == 3);
            assert forall|k: nat| 0 < k < 3 implies !(#[trigger] state.run(inputs, k)).idle() by {
                assert(k == 1 || k == 2);
            }
        }
    } else {
        assert(tested.queue =~= Seq::<MicrocodeTask>::empty());
        assert(instruction_cycles(state, inputs) == 2);
        assert forall|k: nat| 0 < k < 2 implies !(#[trigger] state.run(inputs, k)).idle() by {
            assert(k == 1);
        }
    }
}

/// A branch leads to another page just when the sum of the low byte of the
/// address behind it and its offset leaves the range of a byte: upwards for
/// an offset that counts forwards, downwards for one that counts backwards.
pub proof fn lemma_target_page(next: u16, operand: u8)
    ensures
        pages_differ(next, branch_target(next, operand)) == if operand < 0x80 {
            low_byte(next) + operand > 0xff
        } else {
            low_byte(next) + operand < 0x100
        },
        low_byte(branch_target(next, operand)) == low_byte(next).wrapping_add(operand),
        pages_differ(next, branch_target(next, operand)) ==> high_byte(
            branch_target(next, operand),
        ) == if operand < 0x80 {
            high_byte(next).wrapping_add(1)
        } else {
            high_byte(next).wrapping_sub(1)
        },
{
    let page = next as int / 256;
    let low = next as int % 256;
    let sum = low + signed_offset(operand);
    assert(next == page * 256 + low);
    // the page and the offset on it that the target has before it is
    // brought back into the address space
    let moved: int = if sum > 0xff {
        1
    } else if sum < 0 {
        -1
    } else {
        0
    };
    let offset = sum - moved * 256;
    assert(0 <= offset < 256);
    assert(next + signed_offset(operand) == (page + moved) * 256 + offset);
    let wrapped: int = if page + moved > 0xff {
        0
    } else if page + moved < 0 {
        0xff
    } else {
        page + moved
    };
    let target = branch_target(next, operand) as int;
    assert(target == wrapped * 256 + offset) by {
        let address = next + signed_offset(operand);
        if page + moved > 0xff {
            assert(address - 0x10000 == offset);
            assert(address % 0x10000 == address - 0x10000);
        } else if page + moved < 0 {
            assert(address + 0x10000 == 0xff * 256 + offset);
            assert(address % 0x10000 == address + 0x10000);
        } else {
            assert(0 <= address < 0x10000);
            assert(address % 0x10000 == address);
        }
    }
    assert(target / 256 == wrapped && target % 256 == offset);
}

/// The sum of the low byte of the program counter and the branch offset
/// leaves the range of a byte just when the branch leads to another page.
pub proof fn lemma_branch_crosses_page(state: CpuState)
    ensures
        state.branch_crosses_page() == pages_differ(
            state.pc,
            branch_target(state.pc, state.operand),
        ),
{
    lemma_target_page(state.pc, state.operand);
}

/// After the fetch of the low byte of an indexed address, a read takes two
/// more cycles, or three if adding the index carries.
proof fn lemma_cycles_read_indexed(
    state: CpuState,
    inputs: Seq<u8>,
    n: nat,
    op: ReadOperation,
    io: BusRead,
    register: IndexRegister,
)
    requires
        state.run(inputs, n).queue == seq![
            MicrocodeTask::Read(io, Latch::AddressHighReadIndexed(register)),
            MicrocodeTask::Read(BusRead::Address, Latch::Operate(op)),
        ],
        io == BusRead::PcIncrement || io == BusRead::PointerIncrement,
    ensures
        ({
            let before = state.run(inputs, n);
            let carry = carry_cycles(low_byte(before.address), before.registers.index(register));
            &&& !state.run(inputs, n + 1).idle()
            &&& carry == 1 ==> !state.run(inputs, n + 2).idle()
            &&& state.run(inputs, n + 2 + carry).idle()
        }),
{
    let before = state.run(inputs, n);
    let last = MicrocodeTask::Read(BusRead::Address, Latch::Operate(op));
    let fix = MicrocodeTask::Read(BusRead::Address, Latch::FixAddress);
    assert(before.queue =~= seq![
        MicrocodeTask::Read(io, Latch::AddressHighReadIndexed(register)),
    ] + seq![last]);
    lemma_run_read(state, inputs, n, io, Latch::AddressHighReadIndexed(register), seq![last]);
    if low_byte(before.address) + before.registers.index(register) > 0xff {
        assert(state.run(inputs, n + 1).queue =~= seq![fix] + seq![last]);
        lemma_run_read(state, inputs, n + 1, BusRead::Address, Latch::FixAddress, seq![last]);
        assert(state.run(inputs, n + 2).queue =~= seq![last] + Seq::<MicrocodeTask>::empty());
        lemma_run_read(state, inputs, n + 2, BusRead::Address, Latch::Operate(op), Seq::empty());
    } else {
        assert(state.run(inputs, n + 1).queue =~= seq![last] + Seq::<MicrocodeTask>::empty());
        lemma_run_read(state, inputs, n + 1, BusRead::Address, Latch::Operate(op), Seq::empty());
    }
}

/// A read at an absolute indexed address takes its documented four cycles,
/// and a fifth if adding the index carries.
proof fn lemma_cycles_read_absolute_indexed(
    state: CpuState,
    inputs: Seq<u8>,
    op: ReadOperation,
    register: IndexRegister,
)
    requires
        state.idle(),
        Instruction::of(inputs[0]) == Instruction::Read(
            op,
            match register {
                IndexRegister::X => AddressingMode::AbsoluteIndexedX,
                IndexRegister::Y => AddressingMode::AbsoluteIndexedY,
            },
        ),
    ensures
        state.run(inputs, instruction_cycles(state, inputs)).idle(),
        forall|k: nat|
            0 < k < instruction_cycles(state, inputs) ==> !(#[trigger] state.run(inputs, k)).idle(),
{
    lemma_run_fetch(state, inputs);
    lemma_documented_cycles(inputs[0]);
    let second = MicrocodeTask::Read(
        BusRead::PcIncrement,
        Latch::AddressHighReadIndexed(register),
    );
    let last = MicrocodeTask::Read(BusRead::Address, Latch::Operate(op));
    assert(state.run(inputs, 1).queue =~= seq![
        MicrocodeTask::Read(BusRead::PcIncrement, Latch::AddressLow),
    ] + seq![second, last]);
    lemma_run_read(state, inputs, 1, BusRead::PcIncrement, Latch::AddressLow, seq![second, last]);
    lemma_split_join(0, high_byte(state.run(inputs, 1).address), inputs[1]);
    lemma_cycles_read_indexed(state, inputs, 2, op, BusRead::PcIncrement, register);
    let carry = carry_cycles(inputs[1], state.registers.index(register));
    assert(instruction_cycles(state, inputs) == 4 + carry);
    assert forall|k: nat| 0 < k < 4 + carry implies !(#[trigger] state.run(inputs, k)).idle() by {
        assert(k == 1 || k == 2 || k == 3 || k == 4);
    }
}

/// A read at an indirect indexed address takes its documented five cycles,
/// and a sixth if adding the index carries.
proof fn lemma_cycles_read_indirect_indexed(state: CpuState, inputs: Seq<u8>, op: ReadOperation)
    requires
        state.idle(),
        Instruction::of(inputs[0]) == Instruction::Read(op, AddressingMode::IndirectIndexedY),
    ensures
        state.run(inputs, instruction_cycles(state, inputs)).idle(),
        forall|k: nat|
            0 < k < instruction_cycles(state, inputs) ==> !(#[trigger] state.run(inputs, k)).idle(),
{
    lemma_run_fetch(state, inputs);
    lemma_documented_cycles(inputs[0]);
    let second = MicrocodeTask::Read(BusRead::PointerIncrement, Latch::AddressLow);
    let third = MicrocodeTask::Read(
        BusRead::PointerIncrement,
        Latch::AddressHighReadIndexed(IndexRegister::Y),
    );
    let last = MicrocodeTask::Read(BusRead::Address, Latch::Operate(op));
    assert(state.run(inputs, 1).queue =~= seq![
        MicrocodeTask::Read(BusRead::PcIncrement, Latch::Pointer),
    ] + seq![second, third, last]);
    lemma_run_read(
        state,
        inputs,
        1,
        BusRead::PcIncrement,
        Latch::Pointer,
        seq![second, third, last],
    );
    assert(state.run(inputs, 2).queue =~= seq![second] + seq![third, last]);
    lemma_run_read(
        state,
        inputs,
        2,
        BusRead::PointerIncrement,
        Latch::AddressLow,
        seq![third, last],
    );
    lemma_split_join(0, high_byte(state.run(inputs, 2).address), inputs[2]);
    lemma_cycles_read_indexed(
        state,
        inputs,
        3,
        op,
        BusRead::PointerIncrement,
        IndexRegister::Y,
    );
    let carry = carry_cycles(inputs[2], state.registers.y);
    assert(instruction_cycles(state, inputs) == 5 + carry);
    assert forall|k: nat| 0 < k < 5 + carry implies !(#[trigger] state.run(inputs, k)).idle() by {
        assert(k == 1 || k == 2 || k == 3 || k == 4 || k == 5);
    }
}

/// Every instruction takes exactly its documented number of cycles; a
/// branch takes one more when it is taken and another one when its target
/// lies on another page; a read at an indexed address takes one more when
/// the index carries into the high byte of the address.
///
/// Whatever the registers hold and whatever the bus returns: a processor
/// with no instruction in flight has none in flight again after
/// `instruction_cycles` cycles, and not before.
pub proof fn lemma_instruction_cycles(state: CpuState, inputs: Seq<u8>)
    requires
        state.idle(),
    ensures
        state.run(inputs, instruction_cycles(state, inputs)).idle(),
        forall|k: nat|
            0 < k < instruction_cycles(state, inputs) ==> !(#[trigger] state.run(inputs, k)).idle(),
{
    match Instruction::of(inputs[0]) {
        Instruction::Branch(op) => lemma_cycles_branch(state, inputs, op),
        Instruction::Read(op, AddressingMode::AbsoluteIndexedX) => {
            lemma_cycles_read_absolute_indexed(state, inputs, op, IndexRegister::X)
        },
        Instruction::Read(op, AddressingMode::AbsoluteIndexedY) => {
            lemma_cycles_read_absolute_indexed(state, inputs, op, IndexRegister::Y)
        },
        Instruction::Read(op, AddressingMode::IndirectIndexedY) => {
            lemma_cycles_read_indirect_indexed(state, inputs, op)
        },
        _ => lemma_cycles_at_once(state, inputs),
    }
}

} // verus!
