//! A cycle-accurate interpreter of the Ricoh 2A03, the MOS 6502 variant at the
//! heart of the Nintendo Entertainment System, with the bus devices and the
//! cartridge mapping that it needs to run a program.
//!
//! Every call of `cycle` performs exactly one bus access. What the processor
//! does in a cycle is stated by the mathematical model in `cpu::state`, and
//! the executable code is proved to follow it.

pub mod address;
pub mod apu;
pub mod bus;
pub mod cpu;
pub mod memory;
pub mod ppu;
pub mod roms;
pub mod system;
