//! The operations of the instruction set: what each does to the registers and
//! the flags, given the byte that its addressing mode fetched.

use vstd::prelude::*;
use crate::address::Address;
use crate::roms::Mapper;
use super::{BusRead, BusWrite, Latch, Mos6502, Source, IRQ_VECTOR};
use super::state::{brk_steps, jmp_indirect_steps, jmp_steps, jsr_steps, pha_steps, php_steps,
    pla_steps, plp_steps, rti_steps, rts_steps};

verus! {

/// An operation that tests a flag and branches on it.
#[derive(Clone, Copy, PartialEq, Eq, Structural, Debug)]
pub enum BranchOperation {
    Bcc,
    Bcs,
    Beq,
    Bmi,
    Bne,
    Bpl,
    Bvc,
    Bvs,
}

/// An operation that consumes one byte, read from memory or from the
/// instruction stream. Operations on registers alone ignore the byte.
#[derive(Clone, Copy, PartialEq, Eq, Structural, Debug)]
pub enum ReadOperation {
    Adc,
    And,
    Bit,
    Clc,
    Cld,
    Cli,
    Clv,
    Cmp,
    Cpx,
    Cpy,
    Dex,
    Dey,
    Eor,
    Inx,
    Iny,
    Lax,
    Lda,
    Ldx,
    Ldy,
    Nop,
    Ora,
    Sbc,
    Sec,
    Sed,
    Sei,
    Tax,
    Tay,
    Tsx,
    Txa,
    Txs,
    Tya,
}

/// An operation that produces the byte to store.
#[derive(Clone, Copy, PartialEq, Eq, Structural, Debug)]
pub enum WriteOperation {
    Sax,
    Sta,
    Stx,
    Sty,
}

/// An operation that takes a byte and gives back the byte that replaces it.
#[derive(Clone, Copy, PartialEq, Eq, Structural, Debug)]
pub enum ReadWriteOperation {
    Asl,
    Dcp,
    Dec,
    Inc,
    Isc,
    Lsr,
    Rla,
    Rol,
    Ror,
    Rra,
    Slo,
    Sre,
}

/// The documented operations of the 6502.
pub trait Operations {
    fn adc(&mut self, data: u8);

    fn and(&mut self, data: u8);

    fn asl(&mut self, data: u8) -> u8;

    fn bcc(&mut self) -> bool;

    fn bcs(&mut self) -> bool;

    fn beq(&mut self) -> bool;

    fn bit(&mut self, data: u8);

    fn bmi(&mut self) -> bool;

    fn bne(&mut self) -> bool;

    fn bpl(&mut self) -> bool;

    fn brk(&mut self);

    fn bvc(&mut self) -> bool;

    fn bvs(&mut self) -> bool;

    fn clc(&mut self, data: u8);

    fn cld(&mut self, data: u8);

    fn cli(&mut self, data: u8);

    fn clv(&mut self, data: u8);

    fn cmp(&mut self, data: u8);

    fn cpx(&mut self, data: u8);

    fn cpy(&mut self, data: u8);

    fn dec(&mut self, data: u8) -> u8;

    fn dex(&mut self, data: u8);

    fn dey(&mut self, data: u8);

    fn eor(&mut self, data: u8);

    fn inc(&mut self, data: u8) -> u8;

    fn inx(&mut self, data: u8);

    fn iny(&mut self, data: u8);

    fn jmp(&mut self);

    fn jmp_indrect(&mut self);

    fn jsr(&mut self);

    fn lda(&mut self, data: u8);

    fn ldx(&mut self, data: u8);

    fn ldy(&mut self, data: u8);

    fn lsr(&mut self, data: u8) -> u8;

    fn nop(&mut self, data: u8);

    fn ora(&mut self, data: u8);

    fn pha(&mut self);

    fn php(&mut self);

    fn pla(&mut self);

    fn plp(&mut self);

    fn rol(&mut self, data: u8) -> u8;

    fn ror(&mut self, data: u8) -> u8;

    fn rti(&mut self);

    fn rts(&mut self);

    fn sbc(&mut self, data: u8);

    fn sec(&mut self, data: u8);

    fn sed(&mut self, data: u8);

    fn sei(&mut self, data: u8);

    fn sta(&mut self) -> u8;

    fn stx(&mut self) -> u8;

    fn sty(&mut self) -> u8;

    fn tax(&mut self, data: u8);

    fn tay(&mut self, data: u8);

    fn tsx(&mut self, data: u8);

    fn txa(&mut self, data: u8);

    fn txs(&mut self, data: u8);

    fn tya(&mut self, data: u8);
}

impl<M: Mapper> Operations for Mos6502<M> {
    /// Adds the byte and the carry to the accumulator.
    fn adc(&mut self, data: u8)
        ensures
            final(self)@ == old(self)@.with(old(self)@.registers.adc(data)),
            final(self).bus() == old(self).bus(),
    {
        let carry: u16 = if self.p.carry { 1 } else { 0 };
        let sum: u16 = self.a as u16 + data as u16 + carry;
        let result: u8 = (sum % 256) as u8;

        self.p.carry = sum > 0xff;
        self.set_zero_flag(result);
        self.set_negative_flag(result);
        self.p.overflow = (((self.a ^ result) & (data ^ result)) & 0x80) != 0;
        self.a = result;
    }

    fn and(&mut self, data: u8)
        ensures
            final(self)@ == old(self)@.with(old(self)@.registers.and(data)),
            final(self).bus() == old(self).bus(),
    {
        self.a = self.a & data;
        self.set_zero_flag(self.a);
        self.set_negative_flag(self.a);
    }

    fn asl(&mut self, data: u8) -> (result: u8)
        ensures
            result == old(self)@.registers.asl(data).0,
            final(self)@ == old(self)@.with(old(self)@.registers.asl(data).1),
            final(self).bus() == old(self).bus(),
    {
        let result = data << 1;
        self.set_zero_flag(result);
        self.set_negative_flag(result);
        self.p.carry = data >= 0x80;
        result
    }

    fn bcc(&mut self) -> (taken: bool)
        ensures
            taken == !old(self)@.registers.p.carry,
            final(self)@ == old(self)@,
            final(self).bus() == old(self).bus(),
    {
        !self.p.carry
    }

    fn bcs(&mut self) -> (taken: bool)
        ensures
            taken == old(self)@.registers.p.carry,
            final(self)@ == old(self)@,
            final(self).bus() == old(self).bus(),
    {
        self.p.carry
    }

    fn beq(&mut self) -> (taken: bool)
        ensures
            taken == old(self)@.registers.p.zero,
            final(self)@ == old(self)@,
            final(self).bus() == old(self).bus(),
    {
        self.p.zero
    }

    /// Tests the byte against the accumulator; the byte's two top bits go to
    /// the negative and overflow flags.
    fn bit(&mut self, data: u8)
        ensures
            final(self)@ == old(self)@.with(old(self)@.registers.bit(data)),
            final(self).bus() == old(self).bus(),
    {
        self.set_negative_flag(data);
        self.p.overflow = data & 0x40 != 0;
        self.p.zero = self.a & data == 0;
    }

    fn bmi(&mut self) -> (taken: bool)
        ensures
            taken == old(self)@.registers.p.negative,
            final(self)@ == old(self)@,
            final(self).bus() == old(self).bus(),
    {
        self.p.negative
    }

    fn bne(&mut self) -> (taken: bool)
        ensures
            taken == !old(self)@.registers.p.zero,
            final(self)@ == old(self)@,
            final(self).bus() == old(self).bus(),
    {
        !self.p.zero
    }

    fn bpl(&mut self) -> (taken: bool)
        ensures
            taken == !old(self)@.registers.p.negative,
            final(self)@ == old(self)@,
            final(self).bus() == old(self).bus(),
    {
        !self.p.negative
    }

    /// Queues the software interrupt: the return address and the flags go to
    /// the stack, and the program counter comes from the interrupt vector.
    fn brk(&mut self)
        ensures
            final(self)@ == old(self)@.enqueue(brk_steps()),
            final(self).bus() == old(self).bus(),
    {
        self.queue_read(BusRead::PcIncrement, Latch::InterruptDisable);
        self.queue_write(BusWrite::PushStack, Source::PcHigh);
        self.queue_write(BusWrite::PushStack, Source::PcLow);
        self.queue_write(BusWrite::PushStack, Source::Status);
        self.queue_read(BusRead::Fixed(IRQ_VECTOR), Latch::PcLow);
        self.queue_read(BusRead::Fixed(IRQ_VECTOR + 1), Latch::PcHigh);
        assert(self@.queue =~= old(self)@.queue + brk_steps());
    }

    fn bvc(&mut self) -> (taken: bool)
        ensures
            taken == !old(self)@.registers.p.overflow,
            final(self)@ == old(self)@,
            final(self).bus() == old(self).bus(),
    {
        !self.p.overflow
    }

    fn bvs(&mut self) -> (taken: bool)
        ensures
            taken == old(self)@.registers.p.overflow,
            final(self)@ == old(self)@,
            final(self).bus() == old(self).bus(),
    {
        self.p.overflow
    }

    fn clc(&mut self, _data: u8)
        ensures
            final(self)@ == old(self)@.with(old(self)@.registers.clc()),
            final(self).bus() == old(self).bus(),
    {
        self.p.carry = false;
    }

    fn cld(&mut self, _data: u8)
        ensures
            final(self)@ == old(self)@.with(old(self)@.registers.cld()),
            final(self).bus() == old(self).bus(),
    {
        self.p.decimal = false;
    }

    fn cli(&mut self, _data: u8)
        ensures
            final(self)@ == old(self)@.with(old(self)@.registers.cli()),
            final(self).bus() == old(self).bus(),
    {
        self.p.interrupt_disable = false;
    }

    fn clv(&mut self, _data: u8)
        ensures
            final(self)@ == old(self)@.with(old(self)@.registers.clv()),
            final(self).bus() == old(self).bus(),
    {
        self.p.overflow = false;
    }

    fn cmp(&mut self, data: u8)
        ensures
            final(self)@ == old(self)@.with(
                old(self)@.registers.compare(old(self)@.registers.a, data),
            ),
            final(self).bus() == old(self).bus(),
    {
        let result = self.a.wrapping_sub(data);
        self.set_zero_flag(result);
        self.set_negative_flag(result);
        self.p.carry = self.a >= data;
    }

    fn cpx(&mut self, data: u8)
        ensures
            final(self)@ == old(self)@.with(
                old(self)@.registers.compare(old(self)@.registers.x, data),
            ),
            final(self).bus() == old(self).bus(),
    {
        let result = self.x.wrapping_sub(data);
        self.set_zero_flag(result);
        self.set_negative_flag(result);
        self.p.carry = self.x >= data;
    }

    fn cpy(&mut self, data: u8)
        ensures
            final(self)@ == old(self)@.with(
                old(self)@.registers.compare(old(self)@.registers.y, data),
            ),
            final(self).bus() == old(self).bus(),
    {
        let result = self.y.wrapping_sub(data);
        self.set_zero_flag(result);
        self.set_negative_flag(result);
        self.p.carry = self.y >= data;
    }

    fn dec(&mut self, data: u8) -> (result: u8)
        ensures
            result == old(self)@.registers.dec(data).0,
            final(self)@ == old(self)@.with(old(self)@.registers.dec(data).1),
            final(self).bus() == old(self).bus(),
    {
        let result = data.wrapping_sub(1);
        self.set_zero_flag(result);
        self.set_negative_flag(result);
        result
    }

    fn dex(&mut self, _data: u8)
        ensures
            final(self)@ == old(self)@.with(old(self)@.registers.dex()),
            final(self).bus() == old(self).bus(),
    {
        self.x = self.x.wrapping_sub(1);
        self.set_zero_flag(self.x);
        self.set_negative_flag(self.x);
    }

    fn dey(&mut self, _data: u8)
        ensures
            final(self)@ == old(self)@.with(old(self)@.registers.dey()),
            final(self).bus() == old(self).bus(),
    {
        self.y = self.y.wrapping_sub(1);
        self.set_zero_flag(self.y);
        self.set_negative_flag(self.y);
    }

    fn eor(&mut self, data: u8)
        ensures
            final(self)@ == old(self)@.with(old(self)@.registers.eor(data)),
            final(self).bus() == old(self).bus(),
    {
        self.a = self.a ^ data;
        self.set_zero_flag(self.a);
        self.set_negative_flag(self.a);
    }

    /// Adds one to the byte. The carry flag is not touched.
    fn inc(&mut self, data: u8) -> (result: u8)
        ensures
            result == old(self)@.registers.inc(data).0,
            final(self)@ == old(self)@.with(old(self)@.registers.inc(data).1),
            final(self).bus() == old(self).bus(),
    {
        let result = data.wrapping_add(1);
        self.set_zero_flag(result);
        self.set_negative_flag(result);
        result
    }

    fn inx(&mut self, _data: u8)
        ensures
            final(self)@ == old(self)@.with(old(self)@.registers.inx()),
            final(self).bus() == old(self).bus(),
    {
        self.x = self.x.wrapping_add(1);
        self.set_zero_flag(self.x);
        self.set_negative_flag(self.x);
    }

    fn iny(&mut self, _data: u8)
        ensures
            final(self)@ == old(self)@.with(old(self)@.registers.iny()),
            final(self).bus() == old(self).bus(),
    {
        self.y = self.y.wrapping_add(1);
        self.set_zero_flag(self.y);
        self.set_negative_flag(self.y);
    }

    /// Queues the jump to the address that follows the opcode.
    fn jmp(&mut self)
        ensures
            final(self)@ == old(self)@.enqueue(jmp_steps()),
            final(self).bus() == old(self).bus(),
    {
        self.queue_read(BusRead::PcIncrement, Latch::AddressLow);
        self.queue_read(BusRead::Pc, Latch::Jump);
        assert(self@.queue =~= old(self)@.queue + jmp_steps());
    }

    /// Queues the jump through a pointer. The pointer's second byte is
    /// fetched from the pointer's own page: the low byte of the pointer is
    /// advanced without a carry.
    fn jmp_indrect(&mut self)
        ensures
            final(self)@ == old(self)@.enqueue(jmp_indirect_steps()),
            final(self).bus() == old(self).bus(),
    {
        self.queue_read(BusRead::PcIncrement, Latch::AddressLow);
        self.queue_read(BusRead::PcIncrement, Latch::AddressHigh);
        self.queue_read(BusRead::AddressIncrement, Latch::PcLow);
        self.queue_read(BusRead::Address, Latch::PcHigh);
        assert(self@.queue =~= old(self)@.queue + jmp_indirect_steps());
    }

    /// Queues the call: the address of the call's last byte goes to the
    /// stack.
    fn jsr(&mut self)
        ensures
            final(self)@ == old(self)@.enqueue(jsr_steps()),
            final(self).bus() == old(self).bus(),
    {
        self.queue_read(BusRead::PcIncrement, Latch::AddressLow);
        self.queue_read(BusRead::Stack, Latch::Discard);
        self.queue_write(BusWrite::PushStack, Source::PcHigh);
        self.queue_write(BusWrite::PushStack, Source::PcLow);
        self.queue_read(BusRead::Pc, Latch::Jump);
        assert(self@.queue =~= old(self)@.queue + jsr_steps());
    }

    fn lda(&mut self, data: u8)
        ensures
            final(self)@ == old(self)@.with(old(self)@.registers.lda(data)),
            final(self).bus() == old(self).bus(),
    {
        self.a = data;
        self.set_zero_flag(self.a);
        self.set_negative_flag(self.a);
    }

    fn ldx(&mut self, data: u8)
        ensures
            final(self)@ == old(self)@.with(old(self)@.registers.ldx(data)),
            final(self).bus() == old(self).bus(),
    {
        self.x = data;
        self.set_zero_flag(self.x);
        self.set_negative_flag(self.x);
    }

    fn ldy(&mut self, data: u8)
        ensures
            final(self)@ == old(self)@.with(old(self)@.registers.ldy(data)),
            final(self).bus() == old(self).bus(),
    {
        self.y = data;
        self.set_zero_flag(self.y);
        self.set_negative_flag(self.y);
    }

    /// Shifts the byte right. The flags follow the result, so the negative
    /// flag is always cleared.
    fn lsr(&mut self, data: u8) -> (result: u8)
        ensures
            result == old(self)@.registers.lsr(data).0,
            final(self)@ == old(self)@.with(old(self)@.registers.lsr(data).1),
            final(self).bus() == old(self).bus(),
    {
        let result = data >> 1;
        self.p.carry = data & 0x01 != 0;
        self.set_zero_flag(result);
        self.set_negative_flag(result);
        result
    }

    fn nop(&mut self, _data: u8)
        ensures
            final(self)@ == old(self)@,
            final(self).bus() == old(self).bus(),
    {
    }

    fn ora(&mut self, data: u8)
        ensures
            final(self)@ == old(self)@.with(old(self)@.registers.ora(data)),
            final(self).bus() == old(self).bus(),
    {
        self.a = self.a | data;
        self.set_zero_flag(self.a);
        self.set_negative_flag(self.a);
    }

    fn pha(&mut self)
        ensures
            final(self)@ == old(self)@.enqueue(pha_steps()),
            final(self).bus() == old(self).bus(),
    {
        self.queue_read(BusRead::Pc, Latch::Discard);
        self.queue_write(BusWrite::PushStack, Source::Accumulator);
        assert(self@.queue =~= old(self)@.queue + pha_steps());
    }

    fn php(&mut self)
        ensures
            final(self)@ == old(self)@.enqueue(php_steps()),
            final(self).bus() == old(self).bus(),
    {
        self.queue_read(BusRead::Pc, Latch::Discard);
        self.queue_write(BusWrite::PushStack, Source::Status);
        assert(self@.queue =~= old(self)@.queue + php_steps());
    }

    fn pla(&mut self)
        ensures
            final(self)@ == old(self)@.enqueue(pla_steps()),
            final(self).bus() == old(self).bus(),
    {
        self.queue_read(BusRead::Pc, Latch::Discard);
        self.queue_read(BusRead::Stack, Latch::Discard);
        self.queue_read(BusRead::PopStack, Latch::Accumulator);
        assert(self@.queue =~= old(self)@.queue + pla_steps());
    }

    fn plp(&mut self)
        ensures
            final(self)@ == old(self)@.enqueue(plp_steps()),
            final(self).bus() == old(self).bus(),
    {
        self.queue_read(BusRead::Pc, Latch::Discard);
        self.queue_read(BusRead::Stack, Latch::Discard);
        self.queue_read(BusRead::PopStack, Latch::Status);
        assert(self@.queue =~= old(self)@.queue + plp_steps());
    }

    fn rol(&mut self, data: u8) -> (result: u8)
        ensures
            result == old(self)@.registers.rol(data).0,
            final(self)@ == old(self)@.with(old(self)@.registers.rol(data).1),
            final(self).bus() == old(self).bus(),
    {
        let result = (data << 1) | if self.p.carry { 0x01 } else { 0 };
        self.set_zero_flag(result);
        self.p.carry = data >= 0x80;
        self.set_negative_flag(result);
        result
    }

    fn ror(&mut self, data: u8) -> (result: u8)
        ensures
            result == old(self)@.registers.ror(data).0,
            final(self)@ == old(self)@.with(old(self)@.registers.ror(data).1),
            final(self).bus() == old(self).bus(),
    {
        let result = (data >> 1) | if self.p.carry { 0b1000_0000 } else { 0 };
        self.set_zero_flag(result);
        self.p.carry = data & 0x01 != 0;
        self.set_negative_flag(result);
        result
    }

    fn rti(&mut self)
        ensures
            final(self)@ == old(self)@.enqueue(rti_steps()),
            final(self).bus() == old(self).bus(),
    {
        self.queue_read(BusRead::Pc, Latch::Discard);
        self.queue_read(BusRead::Stack, Latch::Discard);
        self.queue_read(BusRead::PopStack, Latch::Status);
        self.queue_read(BusRead::PopStack, Latch::PcLow);
        self.queue_read(BusRead::PopStack, Latch::PcHigh);
        assert(self@.queue =~= old(self)@.queue + rti_steps());
    }

    fn rts(&mut self)
        ensures
            final(self)@ == old(self)@.enqueue(rts_steps()),
            final(self).bus() == old(self).bus(),
    {
        self.queue_read(BusRead::Pc, Latch::Discard);
        self.queue_read(BusRead::Stack, Latch::Discard);
        self.queue_read(BusRead::PopStack, Latch::PcLow);
        self.queue_read(BusRead::PopStack, Latch::PcHigh);
        self.queue_read(BusRead::PcIncrement, Latch::Discard);
        assert(self@.queue =~= old(self)@.queue + rts_steps());
    }

    /// Subtracts the byte and the borrow from the accumulator: an addition
    /// of the byte's complement.
    fn sbc(&mut self, data: u8)
        ensures
            final(self)@ == old(self)@.with(old(self)@.registers.sbc(data)),
            final(self).bus() == old(self).bus(),
    {
        self.adc(!data);
    }

    fn sec(&mut self, _data: u8)
        ensures
            final(self)@ == old(self)@.with(old(self)@.registers.sec()),
            final(self).bus() == old(self).bus(),
    {
        self.p.carry = true;
    }

    fn sed(&mut self, _data: u8)
        ensures
            final(self)@ == old(self)@.with(old(self)@.registers.sed()),
            final(self).bus() == old(self).bus(),
    {
        self.p.decimal = true;
    }

    fn sei(&mut self, _data: u8)
        ensures
            final(self)@ == old(self)@.with(old(self)@.registers.sei()),
            final(self).bus() == old(self).bus(),
    {
        self.p.interrupt_disable = true;
    }

    fn sta(&mut self) -> (data: u8)
        ensures
            data == old(self)@.registers.a,
            final(self)@ == old(self)@,
            final(self).bus() == old(self).bus(),
    {
        self.a
    }

    fn stx(&mut self) -> (data: u8)
        ensures
            data == old(self)@.registers.x,
            final(self)@ == old(self)@,
            final(self).bus() == old(self).bus(),
    {
        self.x
    }

    fn sty(&mut self) -> (data: u8)
        ensures
            data == old(self)@.registers.y,
            final(self)@ == old(self)@,
            final(self).bus() == old(self).bus(),
    {
        self.y
    }

    fn tax(&mut self, _data: u8)
        ensures
            final(self)@ == old(self)@.with(old(self)@.registers.tax()),
            final(self).bus() == old(self).bus(),
    {
        self.x = self.a;
        self.set_zero_flag(self.x);
        self.set_negative_flag(self.x);
    }

    fn tay(&mut self, _data: u8)
        ensures
            final(self)@ == old(self)@.with(old(self)@.registers.tay()),
            final(self).bus() == old(self).bus(),
    {
        self.y = self.a;
        self.set_zero_flag(self.y);
        self.set_negative_flag(self.y);
    }

    fn tsx(&mut self, _data: u8)
        ensures
            final(self)@ == old(self)@.with(old(self)@.registers.tsx()),
            final(self).bus() == old(self).bus(),
    {
        self.x = self.s;
        self.set_zero_flag(self.x);
        self.set_negative_flag(self.x);
    }

    fn txa(&mut self, _data: u8)
        ensures
            final(self)@ == old(self)@.with(old(self)@.registers.txa()),
            final(self).bus() == old(self).bus(),
    {
        self.a = self.x;
        self.set_zero_flag(self.a);
        self.set_negative_flag(self.a);
    }

    /// Copies X to the stack pointer. No flag changes.
    fn txs(&mut self, _data: u8)
        ensures
            final(self)@ == old(self)@.with(old(self)@.registers.txs()),
            final(self).bus() == old(self).bus(),
    {
        self.s = self.x;
    }

    fn tya(&mut self, _data: u8)
        ensures
            final(self)@ == old(self)@.with(old(self)@.registers.tya()),
            final(self).bus() == old(self).bus(),
    {
        self.a = self.y;
        self.set_zero_flag(self.a);
        self.set_negative_flag(self.a);
    }
}

/// The undocumented operations that programs rely on. Each but `lax` and `sax`
/// joins a read-modify-write operation and an operation on the accumulator.
pub trait IllegalOperations {
    fn dcp(&mut self, data: u8) -> u8;

    fn isc(&mut self, data: u8) -> u8;

    fn lax(&mut self, data: u8);

    fn rla(&mut self, data: u8) -> u8;

    fn sax(&mut self) -> u8;

    fn slo(&mut self, data: u8) -> u8;

    fn sre(&mut self, data: u8) -> u8;

    fn rra(&mut self, data: u8) -> u8;
}

impl<M: Mapper> IllegalOperations for Mos6502<M> {
    fn dcp(&mut self, data: u8) -> (result: u8)
        ensures
            result == old(self)@.registers.dcp(data).0,
            final(self)@ == old(self)@.with(old(self)@.registers.dcp(data).1),
            final(self).bus() == old(self).bus(),
    {
        let result = self.dec(data);
        self.cmp(result);
        result
    }

    fn isc(&mut self, data: u8) -> (result: u8)
        ensures
            result == old(self)@.registers.isc(data).0,
            final(self)@ == old(self)@.with(old(self)@.registers.isc(data).1),
            final(self).bus() == old(self).bus(),
    {
        let result = self.inc(data);
        self.sbc(result);
        result
    }

    fn lax(&mut self, data: u8)
        ensures
            final(self)@ == old(self)@.with(old(self)@.registers.lax(data)),
            final(self).bus() == old(self).bus(),
    {
        self.x = data;
        self.a = data;
        self.set_zero_flag(self.a);
        self.set_negative_flag(self.a);
    }

    fn rla(&mut self, data: u8) -> (result: u8)
        ensures
            result == old(self)@.registers.rla(data).0,
            final(self)@ == old(self)@.with(old(self)@.registers.rla(data).1),
            final(self).bus() == old(self).bus(),
    {
        let result = self.rol(data);
        self.and(result);
        result
    }

    fn sax(&mut self) -> (data: u8)
        ensures
            data == old(self)@.registers.a & old(self)@.registers.x,
            final(self)@ == old(self)@,
            final(self).bus() == old(self).bus(),
    {
        self.a & self.x
    }

    fn slo(&mut self, data: u8) -> (result: u8)
        ensures
            result == old(self)@.registers.slo(data).0,
            final(self)@ == old(self)@.with(old(self)@.registers.slo(data).1),
            final(self).bus() == old(self).bus(),
    {
        let result = self.asl(data);
        self.ora(result);
        result
    }

    fn sre(&mut self, data: u8) -> (result: u8)
        ensures
            result == old(self)@.registers.sre(data).0,
            final(self)@ == old(self)@.with(old(self)@.registers.sre(data).1),
            final(self).bus() == old(self).bus(),
    {
        let result = self.lsr(data);
        self.eor(result);
        result
    }

    fn rra(&mut self, data: u8) -> (result: u8)
        ensures
            result == old(self)@.registers.rra(data).0,
            final(self)@ == old(self)@.with(old(self)@.registers.rra(data).1),
            final(self).bus() == old(self).bus(),
    {
        let result = self.ror(data);
        self.adc(result);
        result
    }
}

} // verus!
