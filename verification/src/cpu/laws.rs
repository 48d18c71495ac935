//! What holds of the processor whatever it runs.
//!
//! Each theorem speaks of the state machine of `state`, and so of every
//! processor that `cycle` drives: of any state, any program and any bus.
//! Where a theorem follows an instruction through its cycles, `inputs` holds
//! what the bus returns in each of them, the opcode first.

pub mod addressing;
pub mod arithmetic;
pub mod control;
pub mod stack;
pub mod steps;
