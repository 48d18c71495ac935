//! One cycle at a time: what each kind of step does.

use vstd::prelude::*;
use crate::cpu::decoder::Instruction;
use crate::cpu::instructions::{BranchOperation, ReadWriteOperation};
use crate::cpu::state::{steps, Access, CpuState};
use crate::cpu::{cycled, BusRead, BusWrite, Latch, MicrocodeTask, Source};
use crate::roms::Mapper;

verus! {

/// The address of an access.
pub open spec fn address_of(access: Access) -> u16 {
    match access {
        Access::Read(address) => address,
        Access::Write(address, _) => address,
    }
}

/// The byte that enters the next cycle of a processor on a bus: in a read
/// cycle, what the bus shows at the address of the access.
pub open spec fn bus_input<M: Mapper>(state: CpuState, bus: M) -> u8 {
    match state.access() {
        Access::Read(address) => bus.peek(address),
        Access::Write(_, data) => data,
    }
}

/// A cycle of the processor on a bus is a step of the state machine, with
/// the byte that the bus shows as its input.
pub proof fn lemma_cycled_steps<M: Mapper>(
    before: CpuState,
    bus_before: M,
    after: CpuState,
    bus_after: M,
)
    requires
        cycled(before, bus_before, after, bus_after),
    ensures
        after == before.step(bus_input(before, bus_before)),
        before.access() is Read ==> bus_after == bus_before,
{
}

/// The start of a run is the state itself.
pub proof fn lemma_run_start(state: CpuState, inputs: Seq<u8>)
    ensures
        state.run(inputs, 0) == state,
{
    reveal_with_fuel(CpuState::run, 1);
}

/// Two states that follow each other in a run are one step apart.
pub proof fn lemma_run_step(state: CpuState, inputs: Seq<u8>, n: nat)
    ensures
        state.run(inputs, n + 1) == state.run(inputs, n).step(inputs[n as int]),
{
}

/// The cycle that fetches an opcode: a read at the program counter, which
/// moves on by one. The steps of the instruction are queued.
pub proof fn lemma_step_fetch(state: CpuState, data: u8)
    requires
        state.idle(),
    ensures
        state.access() == Access::Read(state.pc),
        state.step(data) == (CpuState {
            pc: state.pc.wrapping_add(1),
            cycle: state.cycle + 1,
            opcode: data,
            queue: steps(Instruction::of(data)),
            ..state
        }),
{
    reveal(CpuState::step);
    assert(state.step(data).queue =~= steps(Instruction::of(data)));
}

/// The cycle of a read step: a read at the address of the step, and the
/// byte goes to the latch of the step.
pub proof fn lemma_step_read(state: CpuState, data: u8, io: BusRead, latch: Latch)
    requires
        state.queue.len() > 0,
        state.queue[0] == MicrocodeTask::Read(io, latch),
    ensures
        state.access() == Access::Read(state.read_address(io)),
        state.step(data) == state.begin_cycle().after_read(io).latch(latch, data),
        state.begin_cycle().queue == state.queue.drop_first(),
{
    reveal(CpuState::step);
}

/// The cycle of a write step: a write of the byte of the step's source at
/// the address of the step.
pub proof fn lemma_step_write(state: CpuState, data: u8, io: BusWrite, source: Source)
    requires
        state.queue.len() > 0,
        state.queue[0] == MicrocodeTask::Write(io, source),
    ensures
        state.access() == Access::Write(state.write_address(io), state.source(source)),
        state.step(data) == state.begin_cycle().after_write(io),
        state.begin_cycle().queue == state.queue.drop_first(),
{
    reveal(CpuState::step);
}

/// The cycle of the dummy write of a read-modify-write instruction: the
/// byte that was read is written back as it is.
pub proof fn lemma_step_read_write(state: CpuState, data: u8, op: ReadWriteOperation)
    requires
        state.queue.len() > 0,
        state.queue[0] == MicrocodeTask::ReadWrite(op),
    ensures
        state.access() == Access::Write(state.address, state.data),
        state.step(data) == state.begin_cycle().modify(op),
        state.begin_cycle().queue == state.queue.drop_first(),
{
    reveal(CpuState::step);
}

/// The cycle of a branch step: a read of the offset at the program counter,
/// which moves on by one.
pub proof fn lemma_step_branch(state: CpuState, data: u8, op: BranchOperation)
    requires
        state.queue.len() > 0,
        state.queue[0] == MicrocodeTask::Branch(op),
    ensures
        state.access() == Access::Read(state.pc),
        state.step(data) == state.begin_cycle().after_read(BusRead::PcIncrement).branch(op, data),
        state.begin_cycle().queue == state.queue.drop_first(),
{
    reveal(CpuState::step);
}

/// The cycle of a run in which a read step stands first in the queue.
pub proof fn lemma_run_read(
    state: CpuState,
    inputs: Seq<u8>,
    n: nat,
    io: BusRead,
    latch: Latch,
    rest: Seq<MicrocodeTask>,
)
    requires
        state.run(inputs, n).queue == seq![MicrocodeTask::Read(io, latch)] + rest,
    ensures
        state.run(inputs, n).access() == Access::Read(state.run(inputs, n).read_address(io)),
        state.run(inputs, n + 1) == state.run(inputs, n).begin_cycle().after_read(io).latch(
            latch,
            inputs[n as int],
        ),
        state.run(inputs, n).begin_cycle().queue == rest,
        state.run(inputs, n).begin_cycle() == (CpuState {
            cycle: state.run(inputs, n).cycle + 1,
            queue: rest,
            ..state.run(inputs, n)
        }),
{
    let before = state.run(inputs, n);
    lemma_run_step(state, inputs, n);
    assert(before.queue[0] == MicrocodeTask::Read(io, latch));
    lemma_step_read(before, inputs[n as int], io, latch);
    assert(before.queue.drop_first() =~= rest);
}

/// The cycle of a run in which a write step stands first in the queue.
pub proof fn lemma_run_write(
    state: CpuState,
    inputs: Seq<u8>,
    n: nat,
    io: BusWrite,
    source: Source,
    rest: Seq<MicrocodeTask>,
)
    requires
        state.run(inputs, n).queue == seq![MicrocodeTask::Write(io, source)] + rest,
    ensures
        state.run(inputs, n).access() == Access::Write(
            state.run(inputs, n).write_address(io),
            state.run(inputs, n).source(source),
        ),
        state.run(inputs, n + 1) == state.run(inputs, n).begin_cycle().after_write(io),
        state.run(inputs, n).begin_cycle() == (CpuState {
            cycle: state.run(inputs, n).cycle + 1,
            queue: rest,
            ..state.run(inputs, n)
        }),
{
    let before = state.run(inputs, n);
    lemma_run_step(state, inputs, n);
    assert(before.queue[0] == MicrocodeTask::Write(io, source));
    lemma_step_write(before, inputs[n as int], io, source);
    assert(before.queue.drop_first() =~= rest);
}

/// The first cycle of an instruction: the fetch of its opcode.
pub proof fn lemma_run_fetch(state: CpuState, inputs: Seq<u8>)
    requires
        state.idle(),
    ensures
        state.run(inputs, 0).access() == Access::Read(state.pc),
        state.run(inputs, 1) == (CpuState {
            pc: state.pc.wrapping_add(1),
            cycle: state.cycle + 1,
            opcode: inputs[0],
            queue: steps(Instruction::of(inputs[0])),
            ..state
        }),
{
    lemma_run_start(state, inputs);
    lemma_run_step(state, inputs, 0);
    lemma_step_fetch(state, inputs[0]);
}

/// A cycle counts as one, whatever its step.
pub proof fn lemma_step_counts(state: CpuState, data: u8)
    ensures
        state.step(data).cycle == state.cycle + 1,
{
    reveal(CpuState::step);
}

/// Every cycle counts: after `n` cycles the cycle counter is `n` further.
pub proof fn lemma_run_counts_cycles(state: CpuState, inputs: Seq<u8>, n: nat)
    ensures
        state.run(inputs, n).cycle == state.cycle + n,
    decreases n,
{
    if n > 0 {
        lemma_run_counts_cycles(state, inputs, (n - 1) as nat);
        lemma_step_counts(state.run(inputs, (n - 1) as nat), inputs[n - 1]);
    }
}

} // verus!
