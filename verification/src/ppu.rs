//! The picture unit, reduced to its status register and a clock.

use vstd::prelude::*;
use crate::bus::BusDevice;

verus! {

/// The address of the picture unit's status register.
pub const STATUS_REGISTER: u16 = 0x2002;

/// Bit 5 of the status register: more than eight sprites on a scanline.
pub const SPRITE_OVERFLOW: u8 = 0b0010_0000;

/// Bit 6 of the status register: sprite zero overlaps the background.
pub const SPRITE0_HIT: u8 = 0b0100_0000;

/// Bit 7 of the status register: the vertical blank has begun.
pub const VBLANK: u8 = 0b1000_0000;

/// The three flags of the picture unit's status register.
#[derive(Clone, Copy, PartialEq, Eq, Structural, Debug)]
pub struct Status {
    pub sprite_overflow: bool,
    pub sprite0_hit: bool,
    pub vblank: bool,
}

impl Status {
    /// The register as the bus shows it: each flag at its bit, the low five
    /// bits clear.
    pub open spec fn spec_bits(&self) -> u8 {
        ((if self.sprite_overflow { 0x20int } else { 0 })
            + (if self.sprite0_hit { 0x40int } else { 0 })
            + (if self.vblank { 0x80int } else { 0 })) as u8
    }

    #[verifier::when_used_as_spec(spec_bits)]
    pub fn bits(&self) -> (bits: u8)
        ensures
            bits == self.spec_bits(),
    {
        let mut bits: u8 = 0;
        if self.sprite_overflow {
            bits = bits + SPRITE_OVERFLOW;
        }
        if self.sprite0_hit {
            bits = bits + SPRITE0_HIT;
        }
        if self.vblank {
            bits = bits + VBLANK;
        }
        bits
    }
}

/// The picture processing unit: a status register whose vertical-blank flag
/// turns over every 256 cycles, and a latch for the last byte written.
pub struct PPU {
    data: u8,
    scanline_counter_or_something: u16,
    pub status: Status,
}

impl PPU {
    /// The last byte written to the unit.
    pub closed spec fn latched(&self) -> u8 {
        self.data
    }

    /// The number of cycles taken, modulo 65536.
    pub closed spec fn elapsed(&self) -> u16 {
        self.scanline_counter_or_something
    }

    /// The flags of the status register.
    pub closed spec fn flags(&self) -> Status {
        self.status
    }

    /// Whether the unit is as it is at power-on: in vertical blank, with
    /// the sprite overflow flag set.
    pub open spec fn is_power_on(&self) -> bool {
        &&& self.latched() == 0
        &&& self.elapsed() == 0
        &&& self.flags() == (Status { sprite_overflow: true, sprite0_hit: false, vblank: true })
    }

    /// A unit at power-on.
    pub fn new() -> (ppu: Self)
        ensures
            ppu.is_power_on(),
    {
        Self {
            data: 0,
            scanline_counter_or_something: 0,
            status: Status { sprite_overflow: true, sprite0_hit: false, vblank: true },
        }
    }

    /// A reset leaves the unit as it is.
    pub fn reset(self: &mut Self)
        ensures
            *final(self) == *old(self),
    {
    }

    /// One clock tick. The vertical-blank flag turns over on every tick that
    /// brings the counter to a multiple of 256.
    pub fn cycle(&mut self)
        ensures
            final(self).elapsed() == old(self).elapsed().wrapping_add(1),
            final(self).latched() == old(self).latched(),
            final(self).flags() == (Status {
                vblank: if final(self).elapsed() % 256 == 0 {
                    !old(self).flags().vblank
                } else {
                    old(self).flags().vblank
                },
                ..old(self).flags()
            }),
    {
        self.scanline_counter_or_something = self.scanline_counter_or_something.wrapping_add(1);

        if self.scanline_counter_or_something % 256 == 0 {
            self.status.vblank = !self.status.vblank;
        }
    }

    fn read_status(&self) -> (bits: u8)
        ensures
            bits == self.flags().bits(),
    {
        self.status.bits()
    }
}

impl BusDevice for PPU {
    open spec fn well_formed(&self) -> bool {
        true
    }

    /// The status register shows the flags; every other address shows zero.
    open spec fn peek(&self, address: u16) -> u8 {
        if address == STATUS_REGISTER {
            self.flags().bits()
        } else {
            0
        }
    }

    /// A write at any address is latched and changes nothing else.
    open spec fn poked(&self, address: u16, data: u8, after: &Self) -> bool {
        &&& after.latched() == data
        &&& after.elapsed() == self.elapsed()
        &&& after.flags() == self.flags()
    }

    fn read(&self, address: u16) -> (data: u8) {
        match address {
            0x2002 => self.read_status(),
            _ => 0,
        }
    }

    fn write(&mut self, address: u16, data: u8) {
        self.data = data;
    }
}

} // verus!
