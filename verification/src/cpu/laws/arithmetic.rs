//! What the arithmetic of the processor computes, in numbers.

use vstd::prelude::*;
use crate::cpu::state::Registers;
use crate::cpu::timing::signed_offset;

verus! {

/// The carry flag as a number.
pub open spec fn carry_in(registers: Registers) -> int {
    if registers.p.carry {
        1
    } else {
        0
    }
}

/// The sign test on bytes: the test on bit 7 tells that the two operands
/// have the same sign and the result has the other.
proof fn lemma_sign_bits(a: u8, m: u8, result: u8)
    by (bit_vector)
    ensures
        ((a ^ result) & (m ^ result) & 0x80 != 0) == ((a < 0x80) == (m < 0x80) && (a < 0x80) != (
        result < 0x80)),
{
}

/// The complement of a byte.
proof fn lemma_complement(m: u8)
    by (bit_vector)
    ensures
        !m == 255 - m,
{
}

/// `ADC` adds: the accumulator holds the sum of the accumulator, the byte
/// and the carry, reduced to a byte. The carry flag tells that the sum
/// passed 255, and the overflow flag that the sum of the three as signed
/// numbers left the range from -128 to 127.
pub proof fn lemma_adc(registers: Registers, data: u8)
    ensures
        ({
            let sum = registers.a + data + carry_in(registers);
            let signed = signed_offset(registers.a) + signed_offset(data) + carry_in(registers);
            let after = registers.adc(data);
            &&& after.a == sum % 256
            &&& after.p.carry == (sum > 255)
            &&& after.p.overflow == (signed > 127 || signed < -128)
            &&& after.p.zero == (after.a == 0)
            &&& after.p.negative == (after.a >= 0x80)
            &&& after.p.decimal == registers.p.decimal
            &&& after.p.interrupt_disable == registers.p.interrupt_disable
            &&& after.x == registers.x
            &&& after.y == registers.y
            &&& after.s == registers.s
        }),
{
    let sum = registers.a + data + carry_in(registers);
    lemma_sign_bits(registers.a, data, (sum % 256) as u8);
}

/// `SBC` subtracts: the accumulator holds the accumulator less the byte,
/// and less one more if the carry flag is clear, reduced to a byte. The
/// carry flag tells that nothing had to be borrowed, and the overflow flag
/// that the difference of the signed numbers left the range from -128 to
/// 127.
pub proof fn lemma_sbc(registers: Registers, data: u8)
    ensures
        ({
            let borrow = 1 - carry_in(registers);
            let difference = registers.a - data - borrow;
            let signed = signed_offset(registers.a) - signed_offset(data) - borrow;
            let after = registers.sbc(data);
            &&& after.a == difference % 256
            &&& after.p.carry == (difference >= 0)
            &&& after.p.overflow == (signed > 127 || signed < -128)
            &&& after.p.zero == (after.a == 0)
            &&& after.p.negative == (after.a >= 0x80)
        }),
{
    lemma_complement(data);
    lemma_adc(registers, !data);
    let sum = registers.a + (255 - data) + carry_in(registers);
    let difference = registers.a - data - (1 - carry_in(registers));
    assert(sum == difference + 256);
    assert(sum % 256 == difference % 256) by {
        if difference >= 0 {
            assert(sum % 256 == sum - 256);
            assert(difference % 256 == difference);
        } else {
            assert(sum % 256 == sum);
            assert(difference % 256 == difference + 256);
        }
    }
}

/// A shift to the left doubles the byte.
proof fn lemma_shift_left(data: u8)
    by (bit_vector)
    ensures
        data << 1u8 == (data * 2) % 256,
{
}

/// A shift to the right halves the byte, and the bit that leaves it is its
/// lowest.
proof fn lemma_shift_right(data: u8)
    by (bit_vector)
    ensures
        data >> 1u8 == data / 2u8,
        (data & 0x01u8 != 0u8) == (data % 2u8 == 1u8),
{
}

/// The bit that a rotation brings in finds its place empty.
proof fn lemma_rotate_bits(data: u8)
    by (bit_vector)
    ensures
        ((data << 1u8) | 0x01u8) == (data << 1u8) + 1,
        ((data >> 1u8) | 0x80u8) == (data >> 1u8) + 0x80,
        ((data << 1u8) | 0u8) == (data << 1u8),
        ((data >> 1u8) | 0u8) == (data >> 1u8),
{
}

/// The shifts and the rotations, in numbers. A rotation moves the nine
/// bits that the byte and the carry flag make together: to the left, the
/// byte doubles, the carry comes in at the bottom and the top bit goes to
/// the carry; to the right, the byte halves, the carry comes in at the top
/// and the lowest bit goes to the carry.
pub proof fn lemma_shifts(registers: Registers, data: u8)
    ensures
        registers.asl(data).0 == (data * 2) % 256,
        registers.asl(data).1.p.carry == (data >= 0x80),
        registers.lsr(data).0 == data / 2,
        registers.lsr(data).1.p.carry == (data % 2 == 1),
        !registers.lsr(data).1.p.negative,
        registers.rol(data).0 == (data * 2) % 256 + carry_in(registers),
        registers.rol(data).1.p.carry == (data >= 0x80),
        registers.ror(data).0 == data / 2 + 0x80 * carry_in(registers),
        registers.ror(data).1.p.carry == (data % 2 == 1),
{
    lemma_shift_left(data);
    lemma_shift_right(data);
    lemma_rotate_bits(data);
}

/// A rotation to the left and one to the right undo each other: the byte
/// and the carry flag are what they were.
pub proof fn lemma_rotations_undo(registers: Registers, data: u8)
    ensures
        registers.rol(data).1.ror(registers.rol(data).0).0 == data,
        registers.rol(data).1.ror(registers.rol(data).0).1.p.carry == registers.p.carry,
        registers.ror(data).1.rol(registers.ror(data).0).0 == data,
        registers.ror(data).1.rol(registers.ror(data).0).1.p.carry == registers.p.carry,
{
    lemma_shifts(registers, data);
    lemma_shifts(registers.rol(data).1, registers.rol(data).0);
    lemma_shifts(registers.ror(data).1, registers.ror(data).0);
}

/// A comparison subtracts without keeping the difference: the carry flag
/// tells that the register is not below the byte, the zero flag that the
/// two are equal, and the negative flag is bit 7 of their difference.
pub proof fn lemma_compare(registers: Registers, register: u8, data: u8)
    ensures
        ({
            let after = registers.compare(register, data);
            &&& after.p.carry == (register >= data)
            &&& after.p.zero == (register == data)
            &&& after.p.negative == ((register - data) % 256 >= 0x80)
            &&& after == (Registers { p: after.p, ..registers })
            &&& after.p.overflow == registers.p.overflow
        }),
{
}

} // verus!
