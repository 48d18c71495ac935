//! Where the program counter goes: reset, jumps and branches.

use vstd::prelude::*;
use crate::address::{high_byte, join_bytes, lemma_split_join, low_byte};
use crate::cpu::decoder::Instruction;
use crate::cpu::instructions::BranchOperation;
use crate::cpu::state::{reset_steps, stack_address, Access, CpuState, Registers};
use crate::cpu::timing::{branch_target, instruction_cycles, lemma_branch_crosses_page,
    lemma_documented_cycles, lemma_target_page};
use crate::cpu::{cycled, BusRead, BusWrite, Latch, MicrocodeTask, Source, Status, IRQ_VECTOR,
    RESET_VECTOR};
use crate::roms::Mapper;
use super::steps::{lemma_run_fetch, lemma_run_read, lemma_run_start, lemma_run_step,
    lemma_run_write, lemma_step_branch, lemma_step_fetch, lemma_step_read};

verus! {

/// After a reset of a processor with no instruction in flight, two cycles
/// read the two bytes of the reset vector, and the program counter is the
/// address that the bus shows there, low byte first. Interrupts are
/// disabled, the stack pointer stands at `0xFD`, and the bus is as it was.
pub proof fn lemma_reset<M: Mapper>(
    state: CpuState,
    bus: M,
    first: CpuState,
    first_bus: M,
    second: CpuState,
    second_bus: M,
)
    requires
        state.idle(),
        cycled(state.reset(), bus, first, first_bus),
        cycled(first, first_bus, second, second_bus),
    ensures
        state.reset().access() == Access::Read(RESET_VECTOR),
        first.access() == Access::Read((RESET_VECTOR + 1) as u16),
        second.pc == join_bytes(bus.peek((RESET_VECTOR + 1) as u16), bus.peek(RESET_VECTOR)),
        second.idle(),
        second.registers.s == 0xfd,
        second.registers.p.interrupt_disable,
        second_bus == bus,
{
    let reset = state.reset();
    let high = MicrocodeTask::Read(BusRead::Fixed((RESET_VECTOR + 1) as u16), Latch::PcHigh);
    assert(reset.queue =~= reset_steps());
    assert(reset.queue[0] == MicrocodeTask::Read(BusRead::Fixed(RESET_VECTOR), Latch::PcLow));
    lemma_step_read(
        reset,
        bus.peek(RESET_VECTOR),
        BusRead::Fixed(RESET_VECTOR),
        Latch::PcLow,
    );
    assert(first.queue =~= seq![high]);
    assert(first.queue[0] == high);
    lemma_step_read(
        first,
        first_bus.peek((RESET_VECTOR + 1) as u16),
        BusRead::Fixed((RESET_VECTOR + 1) as u16),
        Latch::PcHigh,
    );
    assert(second.queue =~= Seq::<MicrocodeTask>::empty());
}

/// The jump through a pointer takes five cycles. It reads the low byte of
/// its target at the pointer and the high byte at the pointer with its low
/// byte advanced by one: a pointer at the last byte of a page has its
/// second byte at the first byte of the same page.
pub proof fn lemma_jmp_indirect(state: CpuState, inputs: Seq<u8>)
    requires
        state.idle(),
        inputs.len() >= 5,
        inputs[0] == 0x6c,
    ensures
        state.run(inputs, 3).access() == Access::Read(join_bytes(inputs[2], inputs[1])),
        state.run(inputs, 4).access() == Access::Read(
            join_bytes(inputs[2], inputs[1].wrapping_add(1)),
        ),
        state.run(inputs, 5).pc == join_bytes(inputs[4], inputs[3]),
        state.run(inputs, 5).idle(),
        state.run(inputs, 5).registers == state.registers,
{
    assert(Instruction::of(0x6c) == Instruction::JmpIndirect) by {
        reveal(Instruction::of);
    }
    lemma_run_start(state, inputs);
    lemma_run_step(state, inputs, 0);
    lemma_run_step(state, inputs, 1);
    lemma_run_step(state, inputs, 2);
    lemma_run_step(state, inputs, 3);
    lemma_run_step(state, inputs, 4);
    lemma_step_fetch(state, inputs[0]);
    let fetched = state.run(inputs, 1);
    let second = MicrocodeTask::Read(BusRead::PcIncrement, Latch::AddressHigh);
    let third = MicrocodeTask::Read(BusRead::AddressIncrement, Latch::PcLow);
    let fourth = MicrocodeTask::Read(BusRead::Address, Latch::PcHigh);
    assert(fetched.queue[0] == MicrocodeTask::Read(BusRead::PcIncrement, Latch::AddressLow));
    lemma_step_read(fetched, inputs[1], BusRead::PcIncrement, Latch::AddressLow);
    let low = state.run(inputs, 2);
    assert(low.queue =~= seq![second, third, fourth]);
    assert(low.queue[0] == second);
    assert(low.address == join_bytes(high_byte(fetched.address), inputs[1]));
    lemma_split_join(0, high_byte(fetched.address), inputs[1]);
    lemma_step_read(low, inputs[2], BusRead::PcIncrement, Latch::AddressHigh);
    let high = state.run(inputs, 3);
    assert(high.queue =~= seq![third, fourth]);
    assert(high.queue[0] == third);
    assert(high.address == join_bytes(inputs[2], inputs[1]));
    lemma_split_join(0, inputs[2], inputs[1]);
    lemma_step_read(high, inputs[3], BusRead::AddressIncrement, Latch::PcLow);
    let target_low = state.run(inputs, 4);
    assert(target_low.queue =~= seq![fourth]);
    assert(target_low.queue[0] == fourth);
    assert(target_low.address == join_bytes(inputs[2], inputs[1].wrapping_add(1)));
    assert(target_low.pc == join_bytes(high_byte(high.pc), inputs[3]));
    lemma_split_join(0, high_byte(high.pc), inputs[3]);
    lemma_step_read(target_low, inputs[4], BusRead::Address, Latch::PcHigh);
    assert(state.run(inputs, 5).queue =~= Seq::<MicrocodeTask>::empty());
}

/// The two steps that move the program counter of a taken branch leave it
/// at the target of the branch.
proof fn lemma_branch_moves(state: CpuState)
    ensures
        !state.branch_crosses_page() ==> state.branch_low().pc == branch_target(
            state.pc,
            state.operand,
        ),
        state.branch_crosses_page() ==> state.branch_low().branch_high().pc == branch_target(
            state.pc,
            state.operand,
        ),
{
    let target = branch_target(state.pc, state.operand);
    lemma_target_page(state.pc, state.operand);
    lemma_split_join(target, 0, 0);
    lemma_split_join(state.pc, 0, 0);
    lemma_split_join(0, high_byte(state.pc), low_byte(target));
}

/// A branch that is not taken leaves the program counter behind its two
/// bytes; a branch that is taken leaves it at its target, on whichever page
/// that lies. It takes two, three or four cycles, as `instruction_cycles`
/// says, and changes no register.
pub proof fn lemma_branch(state: CpuState, inputs: Seq<u8>, op: BranchOperation)
    requires
        state.idle(),
        inputs.len() >= 4,
        Instruction::of(inputs[0]) == Instruction::Branch(op),
    ensures
        ({
            let next = state.pc.wrapping_add(2);
            let after = state.run(inputs, instruction_cycles(state, inputs));
            &&& 2 <= instruction_cycles(state, inputs) <= 4
            &&& after.idle()
            &&& after.registers == state.registers
            &&& after.pc == if state.registers.branch_operation(op) {
                branch_target(next, inputs[1])
            } else {
                next
            }
        }),
{
    lemma_run_start(state, inputs);
    lemma_run_step(state, inputs, 0);
    lemma_run_step(state, inputs, 1);
    lemma_run_step(state, inputs, 2);
    lemma_run_step(state, inputs, 3);
    lemma_documented_cycles(inputs[0]);
    lemma_step_fetch(state, inputs[0]);
    let fetched = state.run(inputs, 1);
    assert(fetched.queue[0] == MicrocodeTask::Branch(op));
    lemma_step_branch(fetched, inputs[1], op);
    let tested = state.run(inputs, 2);
    assert(tested.pc == state.pc.wrapping_add(2));
    if state.registers.branch_operation(op) {
        let low_step = MicrocodeTask::Read(BusRead::Pc, Latch::BranchLow);
        assert(tested.queue =~= seq![low_step]);
        assert(tested.queue[0] == low_step);
        lemma_step_read(tested, inputs[2], BusRead::Pc, Latch::BranchLow);
        lemma_branch_crosses_page(tested);
        let taken = tested.begin_cycle();
        lemma_branch_moves(taken);
        let moved = state.run(inputs, 3);
        assert(moved == taken.branch_low());
        if tested.branch_crosses_page() {
            let high_step = MicrocodeTask::Read(BusRead::Pc, Latch::BranchHigh);
            assert(moved.queue =~= seq![high_step]);
            assert(moved.queue[0] == high_step);
            lemma_step_read(moved, inputs[3], BusRead::Pc, Latch::BranchHigh);
            assert(state.run(inputs, 4).queue =~= Seq::<MicrocodeTask>::empty());
            assert(state.run(inputs, 4).pc == moved.branch_high().pc);
        } else {
            assert(moved.queue =~= Seq::<MicrocodeTask>::empty());
        }
    } else {
        assert(tested.queue =~= Seq::<MicrocodeTask>::empty());
    }
}

/// The jump takes three cycles and leaves the program counter at the
/// address that the two bytes after the opcode name, low byte first.
pub proof fn lemma_jmp(state: CpuState, inputs: Seq<u8>)
    requires
        state.idle(),
        inputs.len() >= 3,
        inputs[0] == 0x4c,
    ensures
        state.run(inputs, 1).access() == Access::Read(state.pc.wrapping_add(1)),
        state.run(inputs, 2).access() == Access::Read(state.pc.wrapping_add(2)),
        state.run(inputs, 3).pc == join_bytes(inputs[2], inputs[1]),
        state.run(inputs, 3).idle(),
        state.run(inputs, 3).registers == state.registers,
{
    assert(Instruction::of(0x4c) == Instruction::Jmp) by {
        reveal(Instruction::of);
    }
    lemma_run_fetch(state, inputs);
    let last = MicrocodeTask::Read(BusRead::Pc, Latch::Jump);
    assert(state.run(inputs, 1).queue =~= seq![
        MicrocodeTask::Read(BusRead::PcIncrement, Latch::AddressLow),
    ] + seq![last]);
    lemma_run_read(state, inputs, 1, BusRead::PcIncrement, Latch::AddressLow, seq![last]);
    lemma_split_join(0, high_byte(state.address), inputs[1]);
    assert(state.run(inputs, 2).queue =~= seq![last] + Seq::<MicrocodeTask>::empty());
    lemma_run_read(state, inputs, 2, BusRead::Pc, Latch::Jump, Seq::empty());
}

/// The call of a subroutine takes six cycles. It pushes the address of its
/// own last byte, high byte first, and leaves the program counter at the
/// address that the two bytes after the opcode name. The third cycle reads
/// at the top of the stack and drops the byte.
#[verifier::rlimit(30)]
pub proof fn lemma_jsr(state: CpuState, inputs: Seq<u8>, start: nat)
    requires
        state.run(inputs, start).idle(),
        inputs.len() >= start + 6,
        inputs[start as int] == 0x20,
    ensures
        ({
            let before = state.run(inputs, start);
            let s = before.registers.s;
            let last_byte = before.pc.wrapping_add(2);
            &&& state.run(inputs, start).access() == Access::Read(before.pc)
            &&& state.run(inputs, start + 1).access() == Access::Read(before.pc.wrapping_add(1))
            &&& state.run(inputs, start + 2).access() == Access::Read(stack_address(s))
            &&& state.run(inputs, start + 3).access() == Access::Write(
                stack_address(s),
                high_byte(last_byte),
            )
            &&& state.run(inputs, start + 4).access() == Access::Write(
                stack_address(s.wrapping_sub(1)),
                low_byte(last_byte),
            )
            &&& state.run(inputs, start + 5).access() == Access::Read(last_byte)
            &&& state.run(inputs, start + 6).idle()
            &&& state.run(inputs, start + 6).pc == join_bytes(
                inputs[start as int + 5],
                inputs[start as int + 1],
            )
            &&& state.run(inputs, start + 6).registers == (Registers {
                s: s.wrapping_sub(2),
                ..before.registers
            })
        }),
{
    assert(Instruction::of(0x20) == Instruction::Jsr) by {
        reveal(Instruction::of);
    }
    let before = state.run(inputs, start);
    lemma_run_step(state, inputs, start);
    lemma_step_fetch(before, inputs[start as int]);
    let second = MicrocodeTask::Read(BusRead::Stack, Latch::Discard);
    let third = MicrocodeTask::Write(BusWrite::PushStack, Source::PcHigh);
    let fourth = MicrocodeTask::Write(BusWrite::PushStack, Source::PcLow);
    let last = MicrocodeTask::Read(BusRead::Pc, Latch::Jump);
    assert(state.run(inputs, start + 1).queue =~= seq![
        MicrocodeTask::Read(BusRead::PcIncrement, Latch::AddressLow),
    ] + seq![second, third, fourth, last]);
    lemma_run_read(
        state,
        inputs,
        start + 1,
        BusRead::PcIncrement,
        Latch::AddressLow,
        seq![second, third, fourth, last],
    );
    lemma_split_join(0, high_byte(before.address), inputs[start as int + 1]);
    assert(state.run(inputs, start + 2).queue =~= seq![second] + seq![third, fourth, last]);
    lemma_run_read(
        state,
        inputs,
        start + 2,
        BusRead::Stack,
        Latch::Discard,
        seq![third, fourth, last],
    );
    assert(state.run(inputs, start + 3).queue =~= seq![third] + seq![fourth, last]);
    lemma_run_write(
        state,
        inputs,
        start + 3,
        BusWrite::PushStack,
        Source::PcHigh,
        seq![fourth, last],
    );
    assert(state.run(inputs, start + 4).queue =~= seq![fourth] + seq![last]);
    lemma_run_write(state, inputs, start + 4, BusWrite::PushStack, Source::PcLow, seq![last]);
    assert(state.run(inputs, start + 5).queue =~= seq![last] + Seq::<MicrocodeTask>::empty());
    lemma_run_read(state, inputs, start + 5, BusRead::Pc, Latch::Jump, Seq::empty());
}

/// The return from a subroutine takes six cycles. It pulls an address, low
/// byte first, and leaves the program counter one behind it. The second
/// and third cycles read after the opcode and at the top of the stack and
/// drop the bytes; the last reads at the address that was pulled.
pub proof fn lemma_rts(state: CpuState, inputs: Seq<u8>, start: nat)
    requires
        state.run(inputs, start).idle(),
        inputs.len() >= start + 6,
        inputs[start as int] == 0x60,
    ensures
        ({
            let before = state.run(inputs, start);
            let s = before.registers.s;
            let pulled = join_bytes(inputs[start as int + 4], inputs[start as int + 3]);
            &&& state.run(inputs, start).access() == Access::Read(before.pc)
            &&& state.run(inputs, start + 1).access() == Access::Read(before.pc.wrapping_add(1))
            &&& state.run(inputs, start + 2).access() == Access::Read(stack_address(s))
            &&& state.run(inputs, start + 3).access() == Access::Read(
                stack_address(s.wrapping_add(1)),
            )
            &&& state.run(inputs, start + 4).access() == Access::Read(
                stack_address(s.wrapping_add(2)),
            )
            &&& state.run(inputs, start + 5).access() == Access::Read(pulled)
            &&& state.run(inputs, start + 6).idle()
            &&& state.run(inputs, start + 6).pc == pulled.wrapping_add(1)
            &&& state.run(inputs, start + 6).registers == (Registers {
                s: s.wrapping_add(2),
                ..before.registers
            })
        }),
{
    assert(Instruction::of(0x60) == Instruction::Rts) by {
        reveal(Instruction::of);
    }
    let before = state.run(inputs, start);
    lemma_run_step(state, inputs, start);
    lemma_step_fetch(before, inputs[start as int]);
    let second = MicrocodeTask::Read(BusRead::Stack, Latch::Discard);
    let third = MicrocodeTask::Read(BusRead::PopStack, Latch::PcLow);
    let fourth = MicrocodeTask::Read(BusRead::PopStack, Latch::PcHigh);
    let last = MicrocodeTask::Read(BusRead::PcIncrement, Latch::Discard);
    assert(state.run(inputs, start + 1).queue =~= seq![
        MicrocodeTask::Read(BusRead::Pc, Latch::Discard),
    ] + seq![second, third, fourth, last]);
    lemma_run_read(
        state,
        inputs,
        start + 1,
        BusRead::Pc,
        Latch::Discard,
        seq![second, third, fourth, last],
    );
    assert(state.run(inputs, start + 2).queue =~= seq![second] + seq![third, fourth, last]);
    lemma_run_read(
        state,
        inputs,
        start + 2,
        BusRead::Stack,
        Latch::Discard,
        seq![third, fourth, last],
    );
    assert(state.run(inputs, start + 3).queue =~= seq![third] + seq![fourth, last]);
    lemma_run_read(state, inputs, start + 3, BusRead::PopStack, Latch::PcLow, seq![fourth, last]);
    lemma_split_join(0, high_byte(state.run(inputs, start + 3).pc), inputs[start as int + 3]);
    assert(state.run(inputs, start + 4).queue =~= seq![fourth] + seq![last]);
    lemma_run_read(state, inputs, start + 4, BusRead::PopStack, Latch::PcHigh, seq![last]);
    assert(state.run(inputs, start + 5).queue =~= seq![last] + Seq::<MicrocodeTask>::empty());
    lemma_run_read(state, inputs, start + 5, BusRead::PcIncrement, Latch::Discard, Seq::empty());
}

/// A subroutine that does nothing but return comes back behind its call:
/// after `JSR` and, at its target, `RTS`, the program counter stands behind
/// the three bytes of the `JSR` and the stack pointer where it stood,
/// provided the bus returns to `RTS` the two bytes that `JSR` pushed. `RTS`
/// reads them at the addresses to which `JSR` wrote them.
pub proof fn lemma_jsr_rts(state: CpuState, inputs: Seq<u8>)
    requires
        state.idle(),
        inputs.len() >= 12,
        inputs[0] == 0x20,
        inputs[6] == 0x60,
    ensures
        state.run(inputs, 3).access() == Access::Write(
            stack_address(state.registers.s),
            high_byte(state.pc.wrapping_add(2)),
        ),
        state.run(inputs, 4).access() == Access::Write(
            stack_address(state.registers.s.wrapping_sub(1)),
            low_byte(state.pc.wrapping_add(2)),
        ),
        state.run(inputs, 9).access() == Access::Read(
            stack_address(state.registers.s.wrapping_sub(1)),
        ),
        state.run(inputs, 10).access() == Access::Read(stack_address(state.registers.s)),
        state.run(inputs, 12).idle(),
        state.run(inputs, 12).registers == state.registers,
        inputs[9] == low_byte(state.pc.wrapping_add(2)) && inputs[10] == high_byte(
            state.pc.wrapping_add(2),
        ) ==> state.run(inputs, 12).pc == state.pc.wrapping_add(3),
{
    lemma_run_start(state, inputs);
    lemma_jsr(state, inputs, 0);
    lemma_rts(state, inputs, 6);
    lemma_split_join(state.pc.wrapping_add(2), 0, 0);
}

/// The software interrupt takes seven cycles. It reads the byte after the
/// opcode and drops it, sets the interrupt-disable flag, pushes the address
/// behind that byte, high byte first, and the flags with bits 4 and 5 set,
/// and leaves the program counter at the address that the interrupt vector
/// holds.
pub proof fn lemma_brk(state: CpuState, inputs: Seq<u8>)
    requires
        state.idle(),
        inputs.len() >= 7,
        inputs[0] == 0x00,
    ensures
        ({
            let s = state.registers.s;
            let behind = state.pc.wrapping_add(2);
            let disabled = state.registers.sei();
            &&& state.run(inputs, 1).access() == Access::Read(state.pc.wrapping_add(1))
            &&& state.run(inputs, 2).access() == Access::Write(
                stack_address(s),
                high_byte(behind),
            )
            &&& state.run(inputs, 3).access() == Access::Write(
                stack_address(s.wrapping_sub(1)),
                low_byte(behind),
            )
            &&& state.run(inputs, 4).access() == Access::Write(
                stack_address(s.wrapping_sub(2)),
                disabled.p.pushed(),
            )
            &&& state.run(inputs, 5).access() == Access::Read(IRQ_VECTOR)
            &&& state.run(inputs, 6).access() == Access::Read((IRQ_VECTOR + 1) as u16)
            &&& state.run(inputs, 7).idle()
            &&& state.run(inputs, 7).pc == join_bytes(inputs[6], inputs[5])
            &&& state.run(inputs, 7).registers == (Registers { s: s.wrapping_sub(3), ..disabled })
        }),
{
    assert(Instruction::of(0x00) == Instruction::Brk) by {
        reveal(Instruction::of);
    }
    lemma_run_fetch(state, inputs);
    let second = MicrocodeTask::Write(BusWrite::PushStack, Source::PcHigh);
    let third = MicrocodeTask::Write(BusWrite::PushStack, Source::PcLow);
    let fourth = MicrocodeTask::Write(BusWrite::PushStack, Source::Status);
    let fifth = MicrocodeTask::Read(BusRead::Fixed(IRQ_VECTOR), Latch::PcLow);
    let last = MicrocodeTask::Read(BusRead::Fixed((IRQ_VECTOR + 1) as u16), Latch::PcHigh);
    assert(state.run(inputs, 1).queue =~= seq![
        MicrocodeTask::Read(BusRead::PcIncrement, Latch::InterruptDisable),
    ] + seq![second, third, fourth, fifth, last]);
    lemma_run_read(
        state,
        inputs,
        1,
        BusRead::PcIncrement,
        Latch::InterruptDisable,
        seq![second, third, fourth, fifth, last],
    );
    assert(state.run(inputs, 2).queue =~= seq![second] + seq![third, fourth, fifth, last]);
    lemma_run_write(
        state,
        inputs,
        2,
        BusWrite::PushStack,
        Source::PcHigh,
        seq![third, fourth, fifth, last],
    );
    assert(state.run(inputs, 3).queue =~= seq![third] + seq![fourth, fifth, last]);
    lemma_run_write(
        state,
        inputs,
        3,
        BusWrite::PushStack,
        Source::PcLow,
        seq![fourth, fifth, last],
    );
    assert(state.run(inputs, 4).queue =~= seq![fourth] + seq![fifth, last]);
    lemma_run_write(state, inputs, 4, BusWrite::PushStack, Source::Status, seq![fifth, last]);
    assert(state.run(inputs, 5).queue =~= seq![fifth] + seq![last]);
    lemma_run_read(state, inputs, 5, BusRead::Fixed(IRQ_VECTOR), Latch::PcLow, seq![last]);
    lemma_split_join(0, high_byte(state.run(inputs, 5).pc), inputs[5]);
    assert(state.run(inputs, 6).queue =~= seq![last] + Seq::<MicrocodeTask>::empty());
    lemma_run_read(
        state,
        inputs,
        6,
        BusRead::Fixed((IRQ_VECTOR + 1) as u16),
        Latch::PcHigh,
        Seq::empty(),
    );
}

/// The return from an interrupt takes six cycles. It pulls the flags,
/// ignoring bits 4 and 5 of the byte it finds, and then the program
/// counter, low byte first.
#[verifier::rlimit(30)]
pub proof fn lemma_rti(state: CpuState, inputs: Seq<u8>)
    requires
        state.idle(),
        inputs.len() >= 6,
        inputs[0] == 0x40,
    ensures
        ({
            let s = state.registers.s;
            &&& state.run(inputs, 1).access() == Access::Read(state.pc.wrapping_add(1))
            &&& state.run(inputs, 2).access() == Access::Read(stack_address(s))
            &&& state.run(inputs, 3).access() == Access::Read(stack_address(s.wrapping_add(1)))
            &&& state.run(inputs, 4).access() == Access::Read(stack_address(s.wrapping_add(2)))
            &&& state.run(inputs, 5).access() == Access::Read(stack_address(s.wrapping_add(3)))
            &&& state.run(inputs, 6).idle()
            &&& state.run(inputs, 6).pc == join_bytes(inputs[5], inputs[4])
            &&& state.run(inputs, 6).registers == (Registers {
                s: s.wrapping_add(3),
                p: Status::from_bits_truncate(inputs[3]),
                ..state.registers
            })
        }),
{
    assert(Instruction::of(0x40) == Instruction::Rti) by {
        reveal(Instruction::of);
    }
    lemma_run_fetch(state, inputs);
    let second = MicrocodeTask::Read(BusRead::Stack, Latch::Discard);
    let third = MicrocodeTask::Read(BusRead::PopStack, Latch::Status);
    let fourth = MicrocodeTask::Read(BusRead::PopStack, Latch::PcLow);
    let last = MicrocodeTask::Read(BusRead::PopStack, Latch::PcHigh);
    assert(state.run(inputs, 1).queue =~= seq![
        MicrocodeTask::Read(BusRead::Pc, Latch::Discard),
    ] + seq![second, third, fourth, last]);
    lemma_run_read(
        state,
        inputs,
        1,
        BusRead::Pc,
        Latch::Discard,
        seq![second, third, fourth, last],
    );
    assert(state.run(inputs, 2).queue =~= seq![second] + seq![third, fourth, last]);
    lemma_run_read(state, inputs, 2, BusRead::Stack, Latch::Discard, seq![third, fourth, last]);
    assert(state.run(inputs, 3).queue =~= seq![third] + seq![fourth, last]);
    lemma_run_read(state, inputs, 3, BusRead::PopStack, Latch::Status, seq![fourth, last]);
    assert(state.run(inputs, 4).queue =~= seq![fourth] + seq![last]);
    lemma_run_read(state, inputs, 4, BusRead::PopStack, Latch::PcLow, seq![last]);
    lemma_split_join(0, high_byte(state.run(inputs, 4).pc), inputs[4]);
    assert(state.run(inputs, 5).queue =~= seq![last] + Seq::<MicrocodeTask>::empty());
    lemma_run_read(state, inputs, 5, BusRead::PopStack, Latch::PcHigh, Seq::empty());
}

} // verus!
