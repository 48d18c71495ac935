//! The stack and the flags byte.

use vstd::prelude::*;
use crate::cpu::decoder::Instruction;
use crate::cpu::state::{stack_address, Access, CpuState, Registers};
use crate::cpu::{flag_value, BusRead, BusWrite, Latch, MicrocodeTask, Source, Status, BREAK,
    UNUSED};
use super::steps::{address_of, lemma_run_start, lemma_run_step, lemma_step_fetch,
    lemma_step_read, lemma_step_write};

verus! {

/// Whether a step works on the stack.
pub open spec fn on_stack(task: MicrocodeTask) -> bool {
    match task {
        MicrocodeTask::Read(BusRead::Stack, _) => true,
        MicrocodeTask::Read(BusRead::PopStack, _) => true,
        MicrocodeTask::Write(BusWrite::PushStack, _) => true,
        _ => false,
    }
}

/// The stack never leaves page one. After any number of cycles, wherever
/// the stack pointer stands, the byte that it points at has an address from
/// `0x0100` to `0x01FF`, and so has every byte that a step reads, pushes or
/// pulls.
pub proof fn lemma_stack_on_page_one(state: CpuState, inputs: Seq<u8>, n: nat)
    ensures
        ({
            let after = state.run(inputs, n);
            &&& 0 <= after.registers.s <= 0xff
            &&& 0x0100 <= stack_address(after.registers.s) <= 0x01ff
            &&& on_stack(after.next_task()) ==> 0x0100 <= address_of(after.access()) <= 0x01ff
        }),
{
}

/// Bits 4 and 5 of a byte, read off its value.
proof fn lemma_flag_bits(bits: u8)
    by (bit_vector)
    ensures
        (bits & 0x20 == 0x20) == (bits % 64 >= 32),
        (bits & 0x10 == 0x10) == (bits % 32 >= 16),
        bits & 0x10 == 0x10 || bits & 0x10 == 0,
{
}

/// A byte without its bits 4 and 5 is the sum of its other bits.
proof fn lemma_flag_sum(bits: u8)
    by (bit_vector)
    ensures
        flag_value(bits % 2 == 1, 0x01) + flag_value((bits / 0x02) % 2 == 1, 0x02) + flag_value(
            (bits / 0x04) % 2 == 1,
            0x04,
        ) + flag_value((bits / 0x08) % 2 == 1, 0x08) + flag_value((bits / 0x40) % 2 == 1, 0x40)
            + flag_value(bits >= 0x80, 0x80) == bits & 0xcf,
        bits & 0xcf <= 0xcf,
        (bits & 0xcf) % 2 == bits % 2,
        ((bits & 0xcf) / 0x02) % 2 == (bits / 0x02) % 2,
        ((bits & 0xcf) / 0x04) % 2 == (bits / 0x04) % 2,
        ((bits & 0xcf) / 0x08) % 2 == (bits / 0x08) % 2,
        ((bits & 0xcf) / 0x40) % 2 == (bits / 0x40) % 2,
        ((bits & 0xcf) >= 0x80) == (bits >= 0x80),
{
}

/// The flags that a byte holds are the flags that went into it.
proof fn lemma_flags_of_bits(
    bits: u8,
    carry: bool,
    zero: bool,
    interrupt_disable: bool,
    decimal: bool,
    overflow: bool,
    negative: bool,
    extra: u8,
)
    by (bit_vector)
    requires
        extra == 0x20 || extra == 0x30,
        bits == flag_value(carry, 0x01) + flag_value(zero, 0x02) + flag_value(
            interrupt_disable,
            0x04,
        ) + flag_value(decimal, 0x08) + extra + flag_value(overflow, 0x40) + flag_value(
            negative,
            0x80,
        ),
    ensures
        (bits % 2 == 1) == carry,
        ((bits / 0x02) % 2 == 1) == zero,
        ((bits / 0x04) % 2 == 1) == interrupt_disable,
        ((bits / 0x08) % 2 == 1) == decimal,
        ((bits / 0x40) % 2 == 1) == overflow,
        (bits >= 0x80) == negative,
{
}

/// The byte that stands for the flags on the stack has bits 4 and 5 set,
/// whatever the flags are. In the flags byte that the processor shows
/// otherwise, bit 5 is set and bit 4 is clear.
pub proof fn lemma_pushed_bits(p: Status)
    ensures
        p.pushed() & UNUSED == UNUSED,
        p.pushed() & BREAK == BREAK,
        p.bits() & UNUSED == UNUSED,
        p.bits() & BREAK == 0,
{
    lemma_flag_bits(p.pushed());
    lemma_flag_bits(p.bits());
}

/// The flags survive the stack: the flags that `PLP` makes of the byte that
/// `PHP` pushed are the flags that `PHP` found. Of any other byte, `PLP`
/// takes what bits 0 to 3, 6 and 7 say and ignores bits 4 and 5.
#[verifier::rlimit(30)]
pub proof fn lemma_flags_round_trip(p: Status, bits: u8)
    ensures
        Status::from_bits_truncate(p.pushed()) == p,
        Status::from_bits_truncate(p.bits()) == p,
        Status::from_bits_truncate(bits).bits() == (bits & 0xcf) + 0x20,
        Status::from_bits_truncate(bits) == Status::from_bits_truncate(bits & 0xcf),
{
    lemma_flags_of_bits(
        p.bits(),
        p.carry,
        p.zero,
        p.interrupt_disable,
        p.decimal,
        p.overflow,
        p.negative,
        0x20,
    );
    lemma_flags_of_bits(
        p.pushed(),
        p.carry,
        p.zero,
        p.interrupt_disable,
        p.decimal,
        p.overflow,
        p.negative,
        0x30,
    );
    lemma_flag_sum(bits);
}

/// A push instruction takes three cycles, and in the third it writes its
/// byte to the top of the stack, which then moves down by one.
proof fn lemma_push(state: CpuState, inputs: Seq<u8>, start: nat, source: Source)
    requires
        state.run(inputs, start).idle(),
        crate::cpu::state::steps(Instruction::of(inputs[start as int])) == seq![
            MicrocodeTask::Read(BusRead::Pc, Latch::Discard),
            MicrocodeTask::Write(BusWrite::PushStack, source),
        ],
    ensures
        ({
            let before = state.run(inputs, start);
            &&& state.run(inputs, start + 2).access() == Access::Write(
                stack_address(before.registers.s),
                before.source(source),
            )
            &&& state.run(inputs, start + 3) == (CpuState {
                pc: before.pc.wrapping_add(1),
                registers: Registers {
                    s: before.registers.s.wrapping_sub(1),
                    ..before.registers
                },
                opcode: inputs[start as int],
                cycle: before.cycle + 3,
                ..before
            })
        }),
{
    let before = state.run(inputs, start);
    let write = MicrocodeTask::Write(BusWrite::PushStack, source);
    lemma_run_step(state, inputs, start);
    lemma_run_step(state, inputs, start + 1);
    lemma_run_step(state, inputs, start + 2);
    lemma_step_fetch(before, inputs[start as int]);
    let fetched = state.run(inputs, start + 1);
    assert(fetched.queue[0] == MicrocodeTask::Read(BusRead::Pc, Latch::Discard));
    lemma_step_read(fetched, inputs[start as int + 1], BusRead::Pc, Latch::Discard);
    let read = state.run(inputs, start + 2);
    assert(read.queue =~= seq![write]);
    assert(read.queue[0] == write);
    lemma_step_write(read, inputs[start as int + 2], BusWrite::PushStack, source);
    assert(state.run(inputs, start + 3).queue =~= before.queue);
}

/// A pull instruction takes four cycles, and in the fourth it reads its
/// byte from above the top of the stack, which has moved up by one.
proof fn lemma_pull(state: CpuState, inputs: Seq<u8>, start: nat, latch: Latch)
    requires
        state.run(inputs, start).idle(),
        latch == Latch::Accumulator || latch == Latch::Status,
        crate::cpu::state::steps(Instruction::of(inputs[start as int])) == seq![
            MicrocodeTask::Read(BusRead::Pc, Latch::Discard),
            MicrocodeTask::Read(BusRead::Stack, Latch::Discard),
            MicrocodeTask::Read(BusRead::PopStack, latch),
        ],
    ensures
        ({
            let before = state.run(inputs, start);
            let pulled = inputs[start as int + 3];
            let up = Registers { s: before.registers.s.wrapping_add(1), ..before.registers };
            &&& state.run(inputs, start + 3).access() == Access::Read(
                stack_address(before.registers.s.wrapping_add(1)),
            )
            &&& state.run(inputs, start + 4) == (CpuState {
                pc: before.pc.wrapping_add(1),
                registers: if latch == Latch::Accumulator {
                    up.lda(pulled)
                } else {
                    Registers { p: Status::from_bits_truncate(pulled), ..up }
                },
                opcode: inputs[start as int],
                cycle: before.cycle + 4,
                ..before
            })
        }),
{
    let before = state.run(inputs, start);
    let second = MicrocodeTask::Read(BusRead::Stack, Latch::Discard);
    let third = MicrocodeTask::Read(BusRead::PopStack, latch);
    lemma_run_step(state, inputs, start);
    lemma_run_step(state, inputs, start + 1);
    lemma_run_step(state, inputs, start + 2);
    lemma_run_step(state, inputs, start + 3);
    lemma_step_fetch(before, inputs[start as int]);
    let fetched = state.run(inputs, start + 1);
    assert(fetched.queue[0] == MicrocodeTask::Read(BusRead::Pc, Latch::Discard));
    lemma_step_read(fetched, inputs[start as int + 1], BusRead::Pc, Latch::Discard);
    let first = state.run(inputs, start + 2);
    assert(first.queue =~= seq![second, third]);
    assert(first.queue[0] == second);
    lemma_step_read(first, inputs[start as int + 2], BusRead::Stack, Latch::Discard);
    let waiting = state.run(inputs, start + 3);
    assert(waiting.queue =~= seq![third]);
    assert(waiting.queue[0] == third);
    lemma_step_read(waiting, inputs[start as int + 3], BusRead::PopStack, latch);
    assert(state.run(inputs, start + 4).queue =~= before.queue);
}

/// `PHP` takes three cycles, and in the third it writes the flags to the
/// top of the stack, with bits 4 and 5 set.
pub proof fn lemma_php(state: CpuState, inputs: Seq<u8>, start: nat)
    requires
        state.run(inputs, start).idle(),
        inputs.len() >= start + 3,
        inputs[start as int] == 0x08,
    ensures
        ({
            let before = state.run(inputs, start);
            &&& state.run(inputs, start + 2).access() == Access::Write(
                stack_address(before.registers.s),
                before.registers.p.pushed(),
            )
            &&& before.registers.p.pushed() & UNUSED == UNUSED
            &&& before.registers.p.pushed() & BREAK == BREAK
            &&& state.run(inputs, start + 3) == (CpuState {
                pc: before.pc.wrapping_add(1),
                registers: Registers {
                    s: before.registers.s.wrapping_sub(1),
                    ..before.registers
                },
                opcode: 0x08,
                cycle: before.cycle + 3,
                ..before
            })
        }),
{
    assert(Instruction::of(0x08) == Instruction::Php) by {
        reveal(Instruction::of);
    }
    lemma_pushed_bits(state.run(inputs, start).registers.p);
    lemma_push(state, inputs, start, Source::Status);
}

/// `PLP` takes four cycles, and in the fourth it pulls the flags from the
/// stack. Bits 4 and 5 of the byte it finds there do not matter.
pub proof fn lemma_plp(state: CpuState, inputs: Seq<u8>, start: nat)
    requires
        state.run(inputs, start).idle(),
        inputs.len() >= start + 4,
        inputs[start as int] == 0x28,
    ensures
        ({
            let before = state.run(inputs, start);
            &&& state.run(inputs, start + 3).access() == Access::Read(
                stack_address(before.registers.s.wrapping_add(1)),
            )
            &&& state.run(inputs, start + 4) == (CpuState {
                pc: before.pc.wrapping_add(1),
                registers: Registers {
                    s: before.registers.s.wrapping_add(1),
                    p: Status::from_bits_truncate(inputs[start as int + 3]),
                    ..before.registers
                },
                opcode: 0x28,
                cycle: before.cycle + 4,
                ..before
            })
            &&& Status::from_bits_truncate(inputs[start as int + 3]) == Status::from_bits_truncate(
                inputs[start as int + 3] & 0xcf,
            )
        }),
{
    assert(Instruction::of(0x28) == Instruction::Plp) by {
        reveal(Instruction::of);
    }
    lemma_pull(state, inputs, start, Latch::Status);
    lemma_flags_round_trip(state.registers.p, inputs[start as int + 3]);
}

/// `PHA` takes three cycles, and in the third it writes the accumulator to
/// the top of the stack.
pub proof fn lemma_pha(state: CpuState, inputs: Seq<u8>, start: nat)
    requires
        state.run(inputs, start).idle(),
        inputs.len() >= start + 3,
        inputs[start as int] == 0x48,
    ensures
        ({
            let before = state.run(inputs, start);
            &&& state.run(inputs, start + 2).access() == Access::Write(
                stack_address(before.registers.s),
                before.registers.a,
            )
            &&& state.run(inputs, start + 3) == (CpuState {
                pc: before.pc.wrapping_add(1),
                registers: Registers {
                    s: before.registers.s.wrapping_sub(1),
                    ..before.registers
                },
                opcode: 0x48,
                cycle: before.cycle + 3,
                ..before
            })
        }),
{
    assert(Instruction::of(0x48) == Instruction::Pha) by {
        reveal(Instruction::of);
    }
    lemma_push(state, inputs, start, Source::Accumulator);
}

/// `PLA` takes four cycles, and in the fourth it pulls the accumulator from
/// the stack and sets the zero and negative flags from it.
pub proof fn lemma_pla(state: CpuState, inputs: Seq<u8>, start: nat)
    requires
        state.run(inputs, start).idle(),
        inputs.len() >= start + 4,
        inputs[start as int] == 0x68,
    ensures
        ({
            let before = state.run(inputs, start);
            let pulled = inputs[start as int + 3];
            &&& state.run(inputs, start + 3).access() == Access::Read(
                stack_address(before.registers.s.wrapping_add(1)),
            )
            &&& state.run(inputs, start + 4) == (CpuState {
                pc: before.pc.wrapping_add(1),
                registers: Registers {
                    a: pulled,
                    s: before.registers.s.wrapping_add(1),
                    ..before.registers
                }.zero_negative(pulled),
                opcode: 0x68,
                cycle: before.cycle + 4,
                ..before
            })
        }),
{
    assert(Instruction::of(0x68) == Instruction::Pla) by {
        reveal(Instruction::of);
    }
    lemma_pull(state, inputs, start, Latch::Accumulator);
}

/// `PHA` and then `PLA` restore the accumulator: `PLA` reads the byte at
/// the address to which `PHA` wrote the accumulator, and if the bus returns
/// there what was written, the accumulator and the stack pointer are what
/// they were.
pub proof fn lemma_pha_pla(state: CpuState, inputs: Seq<u8>)
    requires
        state.idle(),
        inputs.len() >= 7,
        inputs[0] == 0x48,
        inputs[3] == 0x68,
    ensures
        state.run(inputs, 2).access() == Access::Write(
            stack_address(state.registers.s),
            state.registers.a,
        ),
        state.run(inputs, 6).access() == Access::Read(stack_address(state.registers.s)),
        state.run(inputs, 7).idle(),
        state.run(inputs, 7).registers.s == state.registers.s,
        inputs[6] == state.registers.a ==> state.run(inputs, 7).registers.a == state.registers.a,
{
    lemma_run_start(state, inputs);
    lemma_pha(state, inputs, 0);
    lemma_pla(state, inputs, 3);
}

/// `PHP` and then `PLP` restore the flags: `PLP` reads the byte at the
/// address to which `PHP` wrote the flags, and if the bus returns there
/// what was written, or anything that differs from it only in bits 4 and
/// 5, the flags and the stack pointer are what they were.
pub proof fn lemma_php_plp(state: CpuState, inputs: Seq<u8>)
    requires
        state.idle(),
        inputs.len() >= 7,
        inputs[0] == 0x08,
        inputs[3] == 0x28,
    ensures
        state.run(inputs, 2).access() == Access::Write(
            stack_address(state.registers.s),
            state.registers.p.pushed(),
        ),
        state.run(inputs, 6).access() == Access::Read(stack_address(state.registers.s)),
        state.run(inputs, 7).idle(),
        state.run(inputs, 7).registers.s == state.registers.s,
        inputs[6] & 0xcf == state.registers.p.pushed() & 0xcf ==> state.run(inputs, 7).registers.p
            == state.registers.p,
{
    lemma_run_start(state, inputs);
    lemma_php(state, inputs, 0);
    lemma_plp(state, inputs, 3);
    lemma_flags_round_trip(state.registers.p, inputs[6]);
    lemma_flags_round_trip(state.registers.p, state.registers.p.pushed());
}

} // verus!
