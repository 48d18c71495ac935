//! The opcode map: which operation and which addressing mode each of the 256
//! opcodes stands for.

use vstd::prelude::*;
use super::addressing_modes::AddressingMode;
use super::instructions::{BranchOperation, ReadOperation, ReadWriteOperation, WriteOperation};

verus! {

/// What an opcode asks for.
#[derive(Clone, Copy, PartialEq, Eq, Structural, Debug)]
pub enum Instruction {
    /// A read-modify-write operation on the accumulator.
    Accumulator(ReadWriteOperation),
    /// A branch on a flag, to an address relative to the program counter.
    Branch(BranchOperation),
    /// The software interrupt.
    Brk,
    /// A read operation on the byte that follows the opcode.
    Immediate(ReadOperation),
    /// A read operation that takes no operand.
    Implied(ReadOperation),
    /// The jump to an address.
    Jmp,
    /// The jump to the address that a pointer holds.
    JmpIndirect,
    /// The call of a subroutine.
    Jsr,
    /// Push the accumulator.
    Pha,
    /// Push the flags.
    Php,
    /// Pull the accumulator.
    Pla,
    /// Pull the flags.
    Plp,
    /// A read operation on a byte in memory.
    Read(ReadOperation, AddressingMode),
    /// A read-modify-write operation on a byte in memory.
    ReadWrite(ReadWriteOperation, AddressingMode),
    /// The return from an interrupt.
    Rti,
    /// The return from a subroutine.
    Rts,
    /// An opcode outside the supported set. It runs as a no-operation of two
    /// cycles.
    Unrecognized,
    /// A write operation to a byte in memory.
    Write(WriteOperation, AddressingMode),
}

impl Instruction {
    /// The instruction of an opcode, listed by operation: the documented
    /// instruction set, and the undocumented operations `LAX`, `SAX`, `DCP`,
    /// `ISC`, `SLO`, `RLA`, `SRE`, `RRA`, the second `SBC` and the
    /// no-operations that take one, two and three bytes.
    #[verifier::opaque]
    pub open spec fn of(opcode: u8) -> Instruction {
        match opcode {
            0x69 => Instruction::Immediate(ReadOperation::Adc),
            0x65 => Instruction::Read(ReadOperation::Adc, AddressingMode::ZeroPage),
            0x75 => Instruction::Read(ReadOperation::Adc, AddressingMode::ZeroPageIndexedX),
            0x6d => Instruction::Read(ReadOperation::Adc, AddressingMode::Absolute),
            0x7d => Instruction::Read(ReadOperation::Adc, AddressingMode::AbsoluteIndexedX),
            0x79 => Instruction::Read(ReadOperation::Adc, AddressingMode::AbsoluteIndexedY),
            0x61 => Instruction::Read(ReadOperation::Adc, AddressingMode::IndexedIndirectX),
            0x71 => Instruction::Read(ReadOperation::Adc, AddressingMode::IndirectIndexedY),
            0x29 => Instruction::Immediate(ReadOperation::And),
            0x25 => Instruction::Read(ReadOperation::And, AddressingMode::ZeroPage),
            0x35 => Instruction::Read(ReadOperation::And, AddressingMode::ZeroPageIndexedX),
            0x2d => Instruction::Read(ReadOperation::And, AddressingMode::Absolute),
            0x3d => Instruction::Read(ReadOperation::And, AddressingMode::AbsoluteIndexedX),
            0x39 => Instruction::Read(ReadOperation::And, AddressingMode::AbsoluteIndexedY),
            0x21 => Instruction::Read(ReadOperation::And, AddressingMode::IndexedIndirectX),
            0x31 => Instruction::Read(ReadOperation::And, AddressingMode::IndirectIndexedY),
            0x24 => Instruction::Read(ReadOperation::Bit, AddressingMode::ZeroPage),
            0x2c => Instruction::Read(ReadOperation::Bit, AddressingMode::Absolute),
            0x18 => Instruction::Implied(ReadOperation::Clc),
            0xd8 => Instruction::Implied(ReadOperation::Cld),
            0x58 => Instruction::Implied(ReadOperation::Cli),
            0xb8 => Instruction::Implied(ReadOperation::Clv),
            0xc9 => Instruction::Immediate(ReadOperation::Cmp),
            0xc5 => Instruction::Read(ReadOperation::Cmp, AddressingMode::ZeroPage),
            0xd5 => Instruction::Read(ReadOperation::Cmp, AddressingMode::ZeroPageIndexedX),
            0xcd => Instruction::Read(ReadOperation::Cmp, AddressingMode::Absolute),
            0xdd => Instruction::Read(ReadOperation::Cmp, AddressingMode::AbsoluteIndexedX),
            0xd9 => Instruction::Read(ReadOperation::Cmp, AddressingMode::AbsoluteIndexedY),
            0xc1 => Instruction::Read(ReadOperation::Cmp, AddressingMode::IndexedIndirectX),
            0xd1 => Instruction::Read(ReadOperation::Cmp, AddressingMode::IndirectIndexedY),
            0xe0 => Instruction::Immediate(ReadOperation::Cpx),
            0xe4 => Instruction::Read(ReadOperation::Cpx, AddressingMode::ZeroPage),
            0xec => Instruction::Read(ReadOperation::Cpx, AddressingMode::Absolute),
            0xc0 => Instruction::Immediate(ReadOperation::Cpy),
            0xc4 => Instruction::Read(ReadOperation::Cpy, AddressingMode::ZeroPage),
            0xcc => Instruction::Read(ReadOperation::Cpy, AddressingMode::Absolute),
            0xca => Instruction::Implied(ReadOperation::Dex),
            0x88 => Instruction::Implied(ReadOperation::Dey),
            0x49 => Instruction::Immediate(ReadOperation::Eor),
            0x45 => Instruction::Read(ReadOperation::Eor, AddressingMode::ZeroPage),
            0x55 => Instruction::Read(ReadOperation::Eor, AddressingMode::ZeroPageIndexedX),
            0x4d => Instruction::Read(ReadOperation::Eor, AddressingMode::Absolute),
            0x5d => Instruction::Read(ReadOperation::Eor, AddressingMode::AbsoluteIndexedX),
            0x59 => Instruction::Read(ReadOperation::Eor, AddressingMode::AbsoluteIndexedY),
            0x41 => Instruction::Read(ReadOperation::Eor, AddressingMode::IndexedIndirectX),
            0x51 => Instruction::Read(ReadOperation::Eor, AddressingMode::IndirectIndexedY),
            0xe8 => Instruction::Implied(ReadOperation::Inx),
            0xc8 => Instruction::Implied(ReadOperation::Iny),
            0xa7 => Instruction::Read(ReadOperation::Lax, AddressingMode::ZeroPage),
            0xb7 => Instruction::Read(ReadOperation::Lax, AddressingMode::ZeroPageIndexedY),
            0xaf => Instruction::Read(ReadOperation::Lax, AddressingMode::Absolute),
            0xbf => Instruction::Read(ReadOperation::Lax, AddressingMode::AbsoluteIndexedY),
            0xa3 => Instruction::Read(ReadOperation::Lax, AddressingMode::IndexedIndirectX),
            0xb3 => Instruction::Read(ReadOperation::Lax, AddressingMode::IndirectIndexedY),
            0xa9 => Instruction::Immediate(ReadOperation::Lda),
            0xa5 => Instruction::Read(ReadOperation::Lda, AddressingMode::ZeroPage),
            0xb5 => Instruction::Read(ReadOperation::Lda, AddressingMode::ZeroPageIndexedX),
            0xad => Instruction::Read(ReadOperation::Lda, AddressingMode::Absolute),
            0xbd => Instruction::Read(ReadOperation::Lda, AddressingMode::AbsoluteIndexedX),
            0xb9 => Instruction::Read(ReadOperation::Lda, AddressingMode::AbsoluteIndexedY),
            0xa1 => Instruction::Read(ReadOperation::Lda, AddressingMode::IndexedIndirectX),
            0xb1 => Instruction::Read(ReadOperation::Lda, AddressingMode::IndirectIndexedY),
            0xa2 => Instruction::Immediate(ReadOperation::Ldx),
            0xa6 => Instruction::Read(ReadOperation::Ldx, AddressingMode::ZeroPage),
            0xb6 => Instruction::Read(ReadOperation::Ldx, AddressingMode::ZeroPageIndexedY),
            0xae => Instruction::Read(ReadOperation::Ldx, AddressingMode::Absolute),
            0xbe => Instruction::Read(ReadOperation::Ldx, AddressingMode::AbsoluteIndexedY),
            0xa0 => Instruction::Immediate(ReadOperation::Ldy),
            0xa4 => Instruction::Read(ReadOperation::Ldy, AddressingMode::ZeroPage),
            0xb4 => Instruction::Read(ReadOperation::Ldy, AddressingMode::ZeroPageIndexedX),
            0xac => Instruction::Read(ReadOperation::Ldy, AddressingMode::Absolute),
            0xbc => Instruction::Read(ReadOperation::Ldy, AddressingMode::AbsoluteIndexedX),
            0xea | 0x1a | 0x3a | 0x5a | 0x7a | 0xda | 0xfa =>
                Instruction::Implied(ReadOperation::Nop),
            0x80 | 0x82 | 0x89 | 0xc2 | 0xe2 => Instruction::Immediate(ReadOperation::Nop),
            0x04 | 0x44 | 0x64 => Instruction::Read(ReadOperation::Nop, AddressingMode::ZeroPage),
            0x14 | 0x34 | 0x54 | 0x74 | 0xd4 | 0xf4 =>
                Instruction::Read(ReadOperation::Nop, AddressingMode::ZeroPageIndexedX),
            0x0c => Instruction::Read(ReadOperation::Nop, AddressingMode::Absolute),
            0x1c | 0x3c | 0x5c | 0x7c | 0xdc | 0xfc =>
                Instruction::Read(ReadOperation::Nop, AddressingMode::AbsoluteIndexedX),
            0x09 => Instruction::Immediate(ReadOperation::Ora),
            0x05 => Instruction::Read(ReadOperation::Ora, AddressingMode::ZeroPage),
            0x15 => Instruction::Read(ReadOperation::Ora, AddressingMode::ZeroPageIndexedX),
            0x0d => Instruction::Read(ReadOperation::Ora, AddressingMode::Absolute),
            0x1d => Instruction::Read(ReadOperation::Ora, AddressingMode::AbsoluteIndexedX),
            0x19 => Instruction::Read(ReadOperation::Ora, AddressingMode::AbsoluteIndexedY),
            0x01 => Instruction::Read(ReadOperation::Ora, AddressingMode::IndexedIndirectX),
            0x11 => Instruction::Read(ReadOperation::Ora, AddressingMode::IndirectIndexedY),
            0xe9 | 0xeb => Instruction::Immediate(ReadOperation::Sbc),
            0xe5 => Instruction::Read(ReadOperation::Sbc, AddressingMode::ZeroPage),
            0xf5 => Instruction::Read(ReadOperation::Sbc, AddressingMode::ZeroPageIndexedX),
            0xed => Instruction::Read(ReadOperation::Sbc, AddressingMode::Absolute),
            0xfd => Instruction::Read(ReadOperation::Sbc, AddressingMode::AbsoluteIndexedX),
            0xf9 => Instruction::Read(ReadOperation::Sbc, AddressingMode::AbsoluteIndexedY),
            0xe1 => Instruction::Read(ReadOperation::Sbc, AddressingMode::IndexedIndirectX),
            0xf1 => Instruction::Read(ReadOperation::Sbc, AddressingMode::IndirectIndexedY),
            0x38 => Instruction::Implied(ReadOperation::Sec),
            0xf8 => Instruction::Implied(ReadOperation::Sed),
            0x78 => Instruction::Implied(ReadOperation::Sei),
            0xaa => Instruction::Implied(ReadOperation::Tax),
            0xa8 => Instruction::Implied(ReadOperation::Tay),
            0xba => Instruction::Implied(ReadOperation::Tsx),
            0x8a => Instruction::Implied(ReadOperation::Txa),
            0x9a => Instruction::Implied(ReadOperation::Txs),
            0x98 => Instruction::Implied(ReadOperation::Tya),
            0x87 => Instruction::Write(WriteOperation::Sax, AddressingMode::ZeroPage),
            0x97 => Instruction::Write(WriteOperation::Sax, AddressingMode::ZeroPageIndexedY),
            0x8f => Instruction::Write(WriteOperation::Sax, AddressingMode::Absolute),
            0x83 => Instruction::Write(WriteOperation::Sax, AddressingMode::IndexedIndirectX),
            0x85 => Instruction::Write(WriteOperation::Sta, AddressingMode::ZeroPage),
            0x95 => Instruction::Write(WriteOperation::Sta, AddressingMode::ZeroPageIndexedX),
            0x8d => Instruction::Write(WriteOperation::Sta, AddressingMode::Absolute),
            0x9d => Instruction::Write(WriteOperation::Sta, AddressingMode::AbsoluteIndexedX),
            0x99 => Instruction::Write(WriteOperation::Sta, AddressingMode::AbsoluteIndexedY),
            0x81 => Instruction::Write(WriteOperation::Sta, AddressingMode::IndexedIndirectX),
            0x91 => Instruction::Write(WriteOperation::Sta, AddressingMode::IndirectIndexedY),
            0x86 => Instruction::Write(WriteOperation::Stx, AddressingMode::ZeroPage),
            0x96 => Instruction::Write(WriteOperation::Stx, AddressingMode::ZeroPageIndexedY),
            0x8e => Instruction::Write(WriteOperation::Stx, AddressingMode::Absolute),
            0x84 => Instruction::Write(WriteOperation::Sty, AddressingMode::ZeroPage),
            0x94 => Instruction::Write(WriteOperation::Sty, AddressingMode::ZeroPageIndexedX),
            0x8c => Instruction::Write(WriteOperation::Sty, AddressingMode::Absolute),
            0x0a => Instruction::Accumulator(ReadWriteOperation::Asl),
            0x06 => Instruction::ReadWrite(ReadWriteOperation::Asl, AddressingMode::ZeroPage),
            0x16 =>
                Instruction::ReadWrite(ReadWriteOperation::Asl, AddressingMode::ZeroPageIndexedX),
            0x0e => Instruction::ReadWrite(ReadWriteOperation::Asl, AddressingMode::Absolute),
            0x1e =>
                Instruction::ReadWrite(ReadWriteOperation::Asl, AddressingMode::AbsoluteIndexedX),
            0xc7 => Instruction::ReadWrite(ReadWriteOperation::Dcp, AddressingMode::ZeroPage),
            0xd7 =>
                Instruction::ReadWrite(ReadWriteOperation::Dcp, AddressingMode::ZeroPageIndexedX),
            0xcf => Instruction::ReadWrite(ReadWriteOperation::Dcp, AddressingMode::Absolute),
            0xdf =>
                Instruction::ReadWrite(ReadWriteOperation::Dcp, AddressingMode::AbsoluteIndexedX),
            0xdb =>
                Instruction::ReadWrite(ReadWriteOperation::Dcp, AddressingMode::AbsoluteIndexedY),
            0xc3 =>
                Instruction::ReadWrite(ReadWriteOperation::Dcp, AddressingMode::IndexedIndirectX),
            0xd3 =>
                Instruction::ReadWrite(ReadWriteOperation::Dcp, AddressingMode::IndirectIndexedY),
            0xc6 => Instruction::ReadWrite(ReadWriteOperation::Dec, AddressingMode::ZeroPage),
            0xd6 =>
                Instruction::ReadWrite(ReadWriteOperation::Dec, AddressingMode::ZeroPageIndexedX),
            0xce => Instruction::ReadWrite(ReadWriteOperation::Dec, AddressingMode::Absolute),
            0xde =>
                Instruction::ReadWrite(ReadWriteOperation::Dec, AddressingMode::AbsoluteIndexedX),
            0xe6 => Instruction::ReadWrite(ReadWriteOperation::Inc, AddressingMode::ZeroPage),
            0xf6 =>
                Instruction::ReadWrite(ReadWriteOperation::Inc, AddressingMode::ZeroPageIndexedX),
            0xee => Instruction::ReadWrite(ReadWriteOperation::Inc, AddressingMode::Absolute),
            0xfe =>
                Instruction::ReadWrite(ReadWriteOperation::Inc, AddressingMode::AbsoluteIndexedX),
            0xe7 => Instruction::ReadWrite(ReadWriteOperation::Isc, AddressingMode::ZeroPage),
            0xf7 =>
                Instruction::ReadWrite(ReadWriteOperation::Isc, AddressingMode::ZeroPageIndexedX),
            0xef => Instruction::ReadWrite(ReadWriteOperation::Isc, AddressingMode::Absolute),
            0xff =>
                Instruction::ReadWrite(ReadWriteOperation::Isc, AddressingMode::AbsoluteIndexedX),
            0xfb =>
                Instruction::ReadWrite(ReadWriteOperation::Isc, AddressingMode::AbsoluteIndexedY),
            0xe3 =>
                Instruction::ReadWrite(ReadWriteOperation::Isc, AddressingMode::IndexedIndirectX),
            0xf3 =>
                Instruction::ReadWrite(ReadWriteOperation::Isc, AddressingMode::IndirectIndexedY),
            0x4a => Instruction::Accumulator(ReadWriteOperation::Lsr),
            0x46 => Instruction::ReadWrite(ReadWriteOperation::Lsr, AddressingMode::ZeroPage),
            0x56 =>
                Instruction::ReadWrite(ReadWriteOperation::Lsr, AddressingMode::ZeroPageIndexedX),
            0x4e => Instruction::ReadWrite(ReadWriteOperation::Lsr, AddressingMode::Absolute),
            0x5e =>
                Instruction::ReadWrite(ReadWriteOperation::Lsr, AddressingMode::AbsoluteIndexedX),
            0x27 => Instruction::ReadWrite(ReadWriteOperation::Rla, AddressingMode::ZeroPage),
            0x37 =>
                Instruction::ReadWrite(ReadWriteOperation::Rla, AddressingMode::ZeroPageIndexedX),
            0x2f => Instruction::ReadWrite(ReadWriteOperation::Rla, AddressingMode::Absolute),
            0x3f =>
                Instruction::ReadWrite(ReadWriteOperation::Rla, AddressingMode::AbsoluteIndexedX),
            0x3b =>
                Instruction::ReadWrite(ReadWriteOperation::Rla, AddressingMode::AbsoluteIndexedY),
            0x23 =>
                Instruction::ReadWrite(ReadWriteOperation::Rla, AddressingMode::IndexedIndirectX),
            0x33 =>
                Instruction::ReadWrite(ReadWriteOperation::Rla, AddressingMode::IndirectIndexedY),
            0x2a => Instruction::Accumulator(ReadWriteOperation::Rol),
            0x26 => Instruction::ReadWrite(ReadWriteOperation::Rol, AddressingMode::ZeroPage),
            0x36 =>
                Instruction::ReadWrite(ReadWriteOperation::Rol, AddressingMode::ZeroPageIndexedX),
            0x2e => Instruction::ReadWrite(ReadWriteOperation::Rol, AddressingMode::Absolute),
            0x3e =>
                Instruction::ReadWrite(ReadWriteOperation::Rol, AddressingMode::AbsoluteIndexedX),
            0x6a => Instruction::Accumulator(ReadWriteOperation::Ror),
            0x66 => Instruction::ReadWrite(ReadWriteOperation::Ror, AddressingMode::ZeroPage),
            0x76 =>
                Instruction::ReadWrite(ReadWriteOperation::Ror, AddressingMode::ZeroPageIndexedX),
            0x6e => Instruction::ReadWrite(ReadWriteOperation::Ror, AddressingMode::Absolute),
            0x7e =>
                Instruction::ReadWrite(ReadWriteOperation::Ror, AddressingMode::AbsoluteIndexedX),
            0x67 => Instruction::ReadWrite(ReadWriteOperation::Rra, AddressingMode::ZeroPage),
            0x77 =>
                Instruction::ReadWrite(ReadWriteOperation::Rra, AddressingMode::ZeroPageIndexedX),
            0x6f => Instruction::ReadWrite(ReadWriteOperation::Rra, AddressingMode::Absolute),
            0x7f =>
                Instruction::ReadWrite(ReadWriteOperation::Rra, AddressingMode::AbsoluteIndexedX),
            0x7b =>
                Instruction::ReadWrite(ReadWriteOperation::Rra, AddressingMode::AbsoluteIndexedY),
            0x63 =>
                Instruction::ReadWrite(ReadWriteOperation::Rra, AddressingMode::IndexedIndirectX),
            0x73 =>
                Instruction::ReadWrite(ReadWriteOperation::Rra, AddressingMode::IndirectIndexedY),
            0x07 => Instruction::ReadWrite(ReadWriteOperation::Slo, AddressingMode::ZeroPage),
            0x17 =>
                Instruction::ReadWrite(ReadWriteOperation::Slo, AddressingMode::ZeroPageIndexedX),
            0x0f => Instruction::ReadWrite(ReadWriteOperation::Slo, AddressingMode::Absolute),
            0x1f =>
                Instruction::ReadWrite(ReadWriteOperation::Slo, AddressingMode::AbsoluteIndexedX),
            0x1b =>
                Instruction::ReadWrite(ReadWriteOperation::Slo, AddressingMode::AbsoluteIndexedY),
            0x03 =>
                Instruction::ReadWrite(ReadWriteOperation::Slo, AddressingMode::IndexedIndirectX),
            0x13 =>
                Instruction::ReadWrite(ReadWriteOperation::Slo, AddressingMode::IndirectIndexedY),
            0x47 => Instruction::ReadWrite(ReadWriteOperation::Sre, AddressingMode::ZeroPage),
            0x57 =>
                Instruction::ReadWrite(ReadWriteOperation::Sre, AddressingMode::ZeroPageIndexedX),
            0x4f => Instruction::ReadWrite(ReadWriteOperation::Sre, AddressingMode::Absolute),
            0x5f =>
                Instruction::ReadWrite(ReadWriteOperation::Sre, AddressingMode::AbsoluteIndexedX),
            0x5b =>
                Instruction::ReadWrite(ReadWriteOperation::Sre, AddressingMode::AbsoluteIndexedY),
            0x43 =>
                Instruction::ReadWrite(ReadWriteOperation::Sre, AddressingMode::IndexedIndirectX),
            0x53 =>
                Instruction::ReadWrite(ReadWriteOperation::Sre, AddressingMode::IndirectIndexedY),
            0x90 => Instruction::Branch(BranchOperation::Bcc),
            0xb0 => Instruction::Branch(BranchOperation::Bcs),
            0xf0 => Instruction::Branch(BranchOperation::Beq),
            0x30 => Instruction::Branch(BranchOperation::Bmi),
            0xd0 => Instruction::Branch(BranchOperation::Bne),
            0x10 => Instruction::Branch(BranchOperation::Bpl),
            0x50 => Instruction::Branch(BranchOperation::Bvc),
            0x70 => Instruction::Branch(BranchOperation::Bvs),
            0x00 => Instruction::Brk,
            0x4c => Instruction::Jmp,
            0x6c => Instruction::JmpIndirect,
            0x20 => Instruction::Jsr,
            0x48 => Instruction::Pha,
            0x08 => Instruction::Php,
            0x68 => Instruction::Pla,
            0x28 => Instruction::Plp,
            0x40 => Instruction::Rti,
            0x60 => Instruction::Rts,
            _ => Instruction::Unrecognized,
        }
    }

    /// Whether the opcode belongs to the supported set.
    pub open spec fn recognized(opcode: u8) -> bool {
        Instruction::of(opcode) != Instruction::Unrecognized
    }

    /// Decodes an opcode.
    pub fn decode(opcode: u8) -> (instruction: Instruction)
        ensures
            instruction == Instruction::of(opcode),
    {
        reveal(Instruction::of);
        match opcode {
            // 00 to 0f
            0x00 => Instruction::Brk,
            0x01 => Instruction::Read(ReadOperation::Ora, AddressingMode::IndexedIndirectX),
            0x03 =>
                Instruction::ReadWrite(ReadWriteOperation::Slo, AddressingMode::IndexedIndirectX),
            0x04 => Instruction::Read(ReadOperation::Nop, AddressingMode::ZeroPage),
            0x05 => Instruction::Read(ReadOperation::Ora, AddressingMode::ZeroPage),
            0x06 => Instruction::ReadWrite(ReadWriteOperation::Asl, AddressingMode::ZeroPage),
            0x07 => Instruction::ReadWrite(ReadWriteOperation::Slo, AddressingMode::ZeroPage),
            0x08 => Instruction::Php,
            0x09 => Instruction::Immediate(ReadOperation::Ora),
            0x0a => Instruction::Accumulator(ReadWriteOperation::Asl),
            0x0c => Instruction::Read(ReadOperation::Nop, AddressingMode::Absolute),
            0x0d => Instruction::Read(ReadOperation::Ora, AddressingMode::Absolute),
            0x0e => Instruction::ReadWrite(ReadWriteOperation::Asl, AddressingMode::Absolute),
            0x0f => Instruction::ReadWrite(ReadWriteOperation::Slo, AddressingMode::Absolute),
            // 10 to 1f
            0x10 => Instruction::Branch(BranchOperation::Bpl),
            0x11 => Instruction::Read(ReadOperation::Ora, AddressingMode::IndirectIndexedY),
            0x13 =>
                Instruction::ReadWrite(ReadWriteOperation::Slo, AddressingMode::IndirectIndexedY),
            0x14 => Instruction::Read(ReadOperation::Nop, AddressingMode::ZeroPageIndexedX),
            0x15 => Instruction::Read(ReadOperation::Ora, AddressingMode::ZeroPageIndexedX),
            0x16 =>
                Instruction::ReadWrite(ReadWriteOperation::Asl, AddressingMode::ZeroPageIndexedX),
            0x17 =>
                Instruction::ReadWrite(ReadWriteOperation::Slo, AddressingMode::ZeroPageIndexedX),
            0x18 => Instruction::Implied(ReadOperation::Clc),
            0x19 => Instruction::Read(ReadOperation::Ora, AddressingMode::AbsoluteIndexedY),
            0x1a => Instruction::Implied(ReadOperation::Nop),
            0x1b =>
                Instruction::ReadWrite(ReadWriteOperation::Slo, AddressingMode::AbsoluteIndexedY),
            0x1c => Instruction::Read(ReadOperation::Nop, AddressingMode::AbsoluteIndexedX),
            0x1d => Instruction::Read(ReadOperation::Ora, AddressingMode::AbsoluteIndexedX),
            0x1e =>
                Instruction::ReadWrite(ReadWriteOperation::Asl, AddressingMode::AbsoluteIndexedX),
            0x1f =>
                Instruction::ReadWrite(ReadWriteOperation::Slo, AddressingMode::AbsoluteIndexedX),
            // 20 to 2f
            0x20 => Instruction::Jsr,
            0x21 => Instruction::Read(ReadOperation::And, AddressingMode::IndexedIndirectX),
            0x23 =>
                Instruction::ReadWrite(ReadWriteOperation::Rla, AddressingMode::IndexedIndirectX),
            0x24 => Instruction::Read(ReadOperation::Bit, AddressingMode::ZeroPage),
            0x25 => Instruction::Read(ReadOperation::And, AddressingMode::ZeroPage),
            0x26 => Instruction::ReadWrite(ReadWriteOperation::Rol, AddressingMode::ZeroPage),
            0x27 => Instruction::ReadWrite(ReadWriteOperation::Rla, AddressingMode::ZeroPage),
            0x28 => Instruction::Plp,
            0x29 => Instruction::Immediate(ReadOperation::And),
            0x2a => Instruction::Accumulator(ReadWriteOperation::Rol),
            0x2c => Instruction::Read(ReadOperation::Bit, AddressingMode::Absolute),
            0x2d => Instruction::Read(ReadOperation::And, AddressingMode::Absolute),
            0x2e => Instruction::ReadWrite(ReadWriteOperation::Rol, AddressingMode::Absolute),
            0x2f => Instruction::ReadWrite(ReadWriteOperation::Rla, AddressingMode::Absolute),
            // 30 to 3f
            0x30 => Instruction::Branch(BranchOperation::Bmi),
            0x31 => Instruction::Read(ReadOperation::And, AddressingMode::IndirectIndexedY),
            0x33 =>
                Instruction::ReadWrite(ReadWriteOperation::Rla, AddressingMode::IndirectIndexedY),
            0x34 => Instruction::Read(ReadOperation::Nop, AddressingMode::ZeroPageIndexedX),
            0x35 => Instruction::Read(ReadOperation::And, AddressingMode::ZeroPageIndexedX),
            0x36 =>
                Instruction::ReadWrite(ReadWriteOperation::Rol, AddressingMode::ZeroPageIndexedX),
            0x37 =>
                Instruction::ReadWrite(ReadWriteOperation::Rla, AddressingMode::ZeroPageIndexedX),
            0x38 => Instruction::Implied(ReadOperation::Sec),
            0x39 => Instruction::Read(ReadOperation::And, AddressingMode::AbsoluteIndexedY),
            0x3a => Instruction::Implied(ReadOperation::Nop),
            0x3b =>
                Instruction::ReadWrite(ReadWriteOperation::Rla, AddressingMode::AbsoluteIndexedY),
            0x3c => Instruction::Read(ReadOperation::Nop, AddressingMode::AbsoluteIndexedX),
            0x3d => Instruction::Read(ReadOperation::And, AddressingMode::AbsoluteIndexedX),
            0x3e =>
                Instruction::ReadWrite(ReadWriteOperation::Rol, AddressingMode::AbsoluteIndexedX),
            0x3f =>
                Instruction::ReadWrite(ReadWriteOperation::Rla, AddressingMode::AbsoluteIndexedX),
            // 40 to 4f
            0x40 => Instruction::Rti,
            0x41 => Instruction::Read(ReadOperation::Eor, AddressingMode::IndexedIndirectX),
            0x43 =>
                Instruction::ReadWrite(ReadWriteOperation::Sre, AddressingMode::IndexedIndirectX),
            0x44 => Instruction::Read(ReadOperation::Nop, AddressingMode::ZeroPage),
            0x45 => Instruction::Read(ReadOperation::Eor, AddressingMode::ZeroPage),
            0x46 => Instruction::ReadWrite(ReadWriteOperation::Lsr, AddressingMode::ZeroPage),
            0x47 => Instruction::ReadWrite(ReadWriteOperation::Sre, AddressingMode::ZeroPage),
            0x48 => Instruction::Pha,
            0x49 => Instruction::Immediate(ReadOperation::Eor),
            0x4a => Instruction::Accumulator(ReadWriteOperation::Lsr),
            0x4c => Instruction::Jmp,
            0x4d => Instruction::Read(ReadOperation::Eor, AddressingMode::Absolute),
            0x4e => Instruction::ReadWrite(ReadWriteOperation::Lsr, AddressingMode::Absolute),
            0x4f => Instruction::ReadWrite(ReadWriteOperation::Sre, AddressingMode::Absolute),
            // 50 to 5f
            0x50 => Instruction::Branch(BranchOperation::Bvc),
            0x51 => Instruction::Read(ReadOperation::Eor, AddressingMode::IndirectIndexedY),
            0x53 =>
                Instruction::ReadWrite(ReadWriteOperation::Sre, AddressingMode::IndirectIndexedY),
            0x54 => Instruction::Read(ReadOperation::Nop, AddressingMode::ZeroPageIndexedX),
            0x55 => Instruction::Read(ReadOperation::Eor, AddressingMode::ZeroPageIndexedX),
            0x56 =>
                Instruction::ReadWrite(ReadWriteOperation::Lsr, AddressingMode::ZeroPageIndexedX),
            0x57 =>
                Instruction::ReadWrite(ReadWriteOperation::Sre, AddressingMode::ZeroPageIndexedX),
            0x58 => Instruction::Implied(ReadOperation::Cli),
            0x59 => Instruction::Read(ReadOperation::Eor, AddressingMode::AbsoluteIndexedY),
            0x5a => Instruction::Implied(ReadOperation::Nop),
            0x5b =>
                Instruction::ReadWrite(ReadWriteOperation::Sre, AddressingMode::AbsoluteIndexedY),
            0x5c => Instruction::Read(ReadOperation::Nop, AddressingMode::AbsoluteIndexedX),
            0x5d => Instruction::Read(ReadOperation::Eor, AddressingMode::AbsoluteIndexedX),
            0x5e =>
                Instruction::ReadWrite(ReadWriteOperation::Lsr, AddressingMode::AbsoluteIndexedX),
            0x5f =>
                Instruction::ReadWrite(ReadWriteOperation::Sre, AddressingMode::AbsoluteIndexedX),
            // 60 to 6f
            0x60 => Instruction::Rts,
            0x61 => Instruction::Read(ReadOperation::Adc, AddressingMode::IndexedIndirectX),
            0x63 =>
                Instruction::ReadWrite(ReadWriteOperation::Rra, AddressingMode::IndexedIndirectX),
            0x64 => Instruction::Read(ReadOperation::Nop, AddressingMode::ZeroPage),
            0x65 => Instruction::Read(ReadOperation::Adc, AddressingMode::ZeroPage),
            0x66 => Instruction::ReadWrite(ReadWriteOperation::Ror, AddressingMode::ZeroPage),
            0x67 => Instruction::ReadWrite(ReadWriteOperation::Rra, AddressingMode::ZeroPage),
            0x68 => Instruction::Pla,
            0x69 => Instruction::Immediate(ReadOperation::Adc),
            0x6a => Instruction::Accumulator(ReadWriteOperation::Ror),
            0x6c => Instruction::JmpIndirect,
            0x6d => Instruction::Read(ReadOperation::Adc, AddressingMode::Absolute),
            0x6e => Instruction::ReadWrite(ReadWriteOperation::Ror, AddressingMode::Absolute),
            0x6f => Instruction::ReadWrite(ReadWriteOperation::Rra, AddressingMode::Absolute),
            // 70 to 7f
            0x70 => Instruction::Branch(BranchOperation::Bvs),
            0x71 => Instruction::Read(ReadOperation::Adc, AddressingMode::IndirectIndexedY),
            0x73 =>
                Instruction::ReadWrite(ReadWriteOperation::Rra, AddressingMode::IndirectIndexedY),
            0x74 => Instruction::Read(ReadOperation::Nop, AddressingMode::ZeroPageIndexedX),
            0x75 => Instruction::Read(ReadOperation::Adc, AddressingMode::ZeroPageIndexedX),
            0x76 =>
                Instruction::ReadWrite(ReadWriteOperation::Ror, AddressingMode::ZeroPageIndexedX),
            0x77 =>
                Instruction::ReadWrite(ReadWriteOperation::Rra, AddressingMode::ZeroPageIndexedX),
            0x78 => Instruction::Implied(ReadOperation::Sei),
            0x79 => Instruction::Read(ReadOperation::Adc, AddressingMode::AbsoluteIndexedY),
            0x7a => Instruction::Implied(ReadOperation::Nop),
            0x7b =>
                Instruction::ReadWrite(ReadWriteOperation::Rra, AddressingMode::AbsoluteIndexedY),
            0x7c => Instruction::Read(ReadOperation::Nop, AddressingMode::AbsoluteIndexedX),
            0x7d => Instruction::Read(ReadOperation::Adc, AddressingMode::AbsoluteIndexedX),
            0x7e =>
                Instruction::ReadWrite(ReadWriteOperation::Ror, AddressingMode::AbsoluteIndexedX),
            0x7f =>
                Instruction::ReadWrite(ReadWriteOperation::Rra, AddressingMode::AbsoluteIndexedX),
            // 80 to 8f
            0x80 => Instruction::Immediate(ReadOperation::Nop),
            0x81 => Instruction::Write(WriteOperation::Sta, AddressingMode::IndexedIndirectX),
            0x82 => Instruction::Immediate(ReadOperation::Nop),
            0x83 => Instruction::Write(WriteOperation::Sax, AddressingMode::IndexedIndirectX),
            0x84 => Instruction::Write(WriteOperation::Sty, AddressingMode::ZeroPage),
            0x85 => Instruction::Write(WriteOperation::Sta, AddressingMode::ZeroPage),
            0x86 => Instruction::Write(WriteOperation::Stx, AddressingMode::ZeroPage),
            0x87 => Instruction::Write(WriteOperation::Sax, AddressingMode::ZeroPage),
            0x88 => Instruction::Implied(ReadOperation::Dey),
            0x89 => Instruction::Immediate(ReadOperation::Nop),
            0x8a => Instruction::Implied(ReadOperation::Txa),
            0x8c => Instruction::Write(WriteOperation::Sty, AddressingMode::Absolute),
            0x8d => Instruction::Write(WriteOperation::Sta, AddressingMode::Absolute),
            0x8e => Instruction::Write(WriteOperation::Stx, AddressingMode::Absolute),
            0x8f => Instruction::Write(WriteOperation::Sax, AddressingMode::Absolute),
            // 90 to 9f
            0x90 => Instruction::Branch(BranchOperation::Bcc),
            0x91 => Instruction::Write(WriteOperation::Sta, AddressingMode::IndirectIndexedY),
            0x94 => Instruction::Write(WriteOperation::Sty, AddressingMode::ZeroPageIndexedX),
            0x95 => Instruction::Write(WriteOperation::Sta, AddressingMode::ZeroPageIndexedX),
            0x96 => Instruction::Write(WriteOperation::Stx, AddressingMode::ZeroPageIndexedY),
            0x97 => Instruction::Write(WriteOperation::Sax, AddressingMode::ZeroPageIndexedY),
            0x98 => Instruction::Implied(ReadOperation::Tya),
            0x99 => Instruction::Write(WriteOperation::Sta, AddressingMode::AbsoluteIndexedY),
            0x9a => Instruction::Implied(ReadOperation::Txs),
            0x9d => Instruction::Write(WriteOperation::Sta, AddressingMode::AbsoluteIndexedX),
            // a0 to af
            0xa0 => Instruction::Immediate(ReadOperation::Ldy),
            0xa1 => Instruction::Read(ReadOperation::Lda, AddressingMode::IndexedIndirectX),
            0xa2 => Instruction::Immediate(ReadOperation::Ldx),
            0xa3 => Instruction::Read(ReadOperation::Lax, AddressingMode::IndexedIndirectX),
            0xa4 => Instruction::Read(ReadOperation::Ldy, AddressingMode::ZeroPage),
            0xa5 => Instruction::Read(ReadOperation::Lda, AddressingMode::ZeroPage),
            0xa6 => Instruction::Read(ReadOperation::Ldx, AddressingMode::ZeroPage),
            0xa7 => Instruction::Read(ReadOperation::Lax, AddressingMode::ZeroPage),
            0xa8 => Instruction::Implied(ReadOperation::Tay),
            0xa9 => Instruction::Immediate(ReadOperation::Lda),
            0xaa => Instruction::Implied(ReadOperation::Tax),
            0xac => Instruction::Read(ReadOperation::Ldy, AddressingMode::Absolute),
            0xad => Instruction::Read(ReadOperation::Lda, AddressingMode::Absolute),
            0xae => Instruction::Read(ReadOperation::Ldx, AddressingMode::Absolute),
            0xaf => Instruction::Read(ReadOperation::Lax, AddressingMode::Absolute),
            // b0 to bf
            0xb0 => Instruction::Branch(BranchOperation::Bcs),
            0xb1 => Instruction::Read(ReadOperation::Lda, AddressingMode::IndirectIndexedY),
            0xb3 => Instruction::Read(ReadOperation::Lax, AddressingMode::IndirectIndexedY),
            0xb4 => Instruction::Read(ReadOperation::Ldy, AddressingMode::ZeroPageIndexedX),
            0xb5 => Instruction::Read(ReadOperation::Lda, AddressingMode::ZeroPageIndexedX),
            0xb6 => Instruction::Read(ReadOperation::Ldx, AddressingMode::ZeroPageIndexedY),
            0xb7 => Instruction::Read(ReadOperation::Lax, AddressingMode::ZeroPageIndexedY),
            0xb8 => Instruction::Implied(ReadOperation::Clv),
            0xb9 => Instruction::Read(ReadOperation::Lda, AddressingMode::AbsoluteIndexedY),
            0xba => Instruction::Implied(ReadOperation::Tsx),
            0xbc => Instruction::Read(ReadOperation::Ldy, AddressingMode::AbsoluteIndexedX),
            0xbd => Instruction::Read(ReadOperation::Lda, AddressingMode::AbsoluteIndexedX),
            0xbe => Instruction::Read(ReadOperation::Ldx, AddressingMode::AbsoluteIndexedY),
            0xbf => Instruction::Read(ReadOperation::Lax, AddressingMode::AbsoluteIndexedY),
            // c0 to cf
            0xc0 => Instruction::Immediate(ReadOperation::Cpy),
            0xc1 => Instruction::Read(ReadOperation::Cmp, AddressingMode::IndexedIndirectX),
            0xc2 => Instruction::Immediate(ReadOperation::Nop),
            0xc3 =>
                Instruction::ReadWrite(ReadWriteOperation::Dcp, AddressingMode::IndexedIndirectX),
            0xc4 => Instruction::Read(ReadOperation::Cpy, AddressingMode::ZeroPage),
            0xc5 => Instruction::Read(ReadOperation::Cmp, AddressingMode::ZeroPage),
            0xc6 => Instruction::ReadWrite(ReadWriteOperation::Dec, AddressingMode::ZeroPage),
            0xc7 => Instruction::ReadWrite(ReadWriteOperation::Dcp, AddressingMode::ZeroPage),
            0xc8 => Instruction::Implied(ReadOperation::Iny),
            0xc9 => Instruction::Immediate(ReadOperation::Cmp),
            0xca => Instruction::Implied(ReadOperation::Dex),
            0xcc => Instruction::Read(ReadOperation::Cpy, AddressingMode::Absolute),
            0xcd => Instruction::Read(ReadOperation::Cmp, AddressingMode::Absolute),
            0xce => Instruction::ReadWrite(ReadWriteOperation::Dec, AddressingMode::Absolute),
            0xcf => Instruction::ReadWrite(ReadWriteOperation::Dcp, AddressingMode::Absolute),
            // d0 to df
            0xd0 => Instruction::Branch(BranchOperation::Bne),
            0xd1 => Instruction::Read(ReadOperation::Cmp, AddressingMode::IndirectIndexedY),
            0xd3 =>
                Instruction::ReadWrite(ReadWriteOperation::Dcp, AddressingMode::IndirectIndexedY),
            0xd4 => Instruction::Read(ReadOperation::Nop, AddressingMode::ZeroPageIndexedX),
            0xd5 => Instruction::Read(ReadOperation::Cmp, AddressingMode::ZeroPageIndexedX),
            0xd6 =>
                Instruction::ReadWrite(ReadWriteOperation::Dec, AddressingMode::ZeroPageIndexedX),
            0xd7 =>
                Instruction::ReadWrite(ReadWriteOperation::Dcp, AddressingMode::ZeroPageIndexedX),
            0xd8 => Instruction::Implied(ReadOperation::Cld),
            0xd9 => Instruction::Read(ReadOperation::Cmp, AddressingMode::AbsoluteIndexedY),
            0xda => Instruction::Implied(ReadOperation::Nop),
            0xdb =>
                Instruction::ReadWrite(ReadWriteOperation::Dcp, AddressingMode::AbsoluteIndexedY),
            0xdc => Instruction::Read(ReadOperation::Nop, AddressingMode::AbsoluteIndexedX),
            0xdd => Instruction::Read(ReadOperation::Cmp, AddressingMode::AbsoluteIndexedX),
            0xde =>
                Instruction::ReadWrite(ReadWriteOperation::Dec, AddressingMode::AbsoluteIndexedX),
            0xdf =>
                Instruction::ReadWrite(ReadWriteOperation::Dcp, AddressingMode::AbsoluteIndexedX),
            // e0 to ef
            0xe0 => Instruction::Immediate(ReadOperation::Cpx),
            0xe1 => Instruction::Read(ReadOperation::Sbc, AddressingMode::IndexedIndirectX),
            0xe2 => Instruction::Immediate(ReadOperation::Nop),
            0xe3 =>
                Instruction::ReadWrite(ReadWriteOperation::Isc, AddressingMode::IndexedIndirectX),
            0xe4 => Instruction::Read(ReadOperation::Cpx, AddressingMode::ZeroPage),
            0xe5 => Instruction::Read(ReadOperation::Sbc, AddressingMode::ZeroPage),
            0xe6 => Instruction::ReadWrite(ReadWriteOperation::Inc, AddressingMode::ZeroPage),
            0xe7 => Instruction::ReadWrite(ReadWriteOperation::Isc, AddressingMode::ZeroPage),
            0xe8 => Instruction::Implied(ReadOperation::Inx),
            0xe9 => Instruction::Immediate(ReadOperation::Sbc),
            0xea => Instruction::Implied(ReadOperation::Nop),
            0xeb => Instruction::Immediate(ReadOperation::Sbc),
            0xec => Instruction::Read(ReadOperation::Cpx, AddressingMode::Absolute),
            0xed => Instruction::Read(ReadOperation::Sbc, AddressingMode::Absolute),
            0xee => Instruction::ReadWrite(ReadWriteOperation::Inc, AddressingMode::Absolute),
            0xef => Instruction::ReadWrite(ReadWriteOperation::Isc, AddressingMode::Absolute),
            // f0 to ff
            0xf0 => Instruction::Branch(BranchOperation::Beq),
            0xf1 => Instruction::Read(ReadOperation::Sbc, AddressingMode::IndirectIndexedY),
            0xf3 =>
                Instruction::ReadWrite(ReadWriteOperation::Isc, AddressingMode::IndirectIndexedY),
            0xf4 => Instruction::Read(ReadOperation::Nop, AddressingMode::ZeroPageIndexedX),
            0xf5 => Instruction::Read(ReadOperation::Sbc, AddressingMode::ZeroPageIndexedX),
            0xf6 =>
                Instruction::ReadWrite(ReadWriteOperation::Inc, AddressingMode::ZeroPageIndexedX),
            0xf7 =>
                Instruction::ReadWrite(ReadWriteOperation::Isc, AddressingMode::ZeroPageIndexedX),
            0xf8 => Instruction::Implied(ReadOperation::Sed),
            0xf9 => Instruction::Read(ReadOperation::Sbc, AddressingMode::AbsoluteIndexedY),
            0xfa => Instruction::Implied(ReadOperation::Nop),
            0xfb =>
                Instruction::ReadWrite(ReadWriteOperation::Isc, AddressingMode::AbsoluteIndexedY),
            0xfc => Instruction::Read(ReadOperation::Nop, AddressingMode::AbsoluteIndexedX),
            0xfd => Instruction::Read(ReadOperation::Sbc, AddressingMode::AbsoluteIndexedX),
            0xfe =>
                Instruction::ReadWrite(ReadWriteOperation::Inc, AddressingMode::AbsoluteIndexedX),
            0xff =>
                Instruction::ReadWrite(ReadWriteOperation::Isc, AddressingMode::AbsoluteIndexedX),
            _ => Instruction::Unrecognized,
        }
    }
}

} // verus!
