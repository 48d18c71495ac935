//! Sixteen-bit bus addresses and their two bytes.

use vstd::prelude::*;

verus! {

/// The low byte of a 16-bit address: its offset within its page.
pub open spec fn low_byte(address: u16) -> u8 {
    (address % 256) as u8
}

/// The high byte of a 16-bit address: the number of its page.
pub open spec fn high_byte(address: u16) -> u8 {
    (address / 256) as u8
}

/// The address at offset `low` on page `high`.
pub open spec fn join_bytes(high: u8, low: u8) -> u16 {
    (high * 256 + low) as u16
}

/// The masks and shifts below compute the arithmetic of `low_byte`,
/// `high_byte` and `join_bytes`.
proof fn lemma_address_bits(a: u16, h: u8, l: u8)
    by (bit_vector)
    ensures
        (a & 0xff) == a % 256,
        ((a >> 8u16) & 0xff) == a / 256,
        ((a & 0xff00) | (l as u16)) == (a / 256) * 256 + l,
        ((a & 0x00ff) | ((h as u16) << 8u16)) == h * 256 + a % 256,
        (((h as u16) << 8u16) | (l as u16)) == h * 256 + l,
{
}

/// Splitting an address and joining the two bytes gives the address back, and
/// joining two bytes and splitting gives the bytes back.
pub proof fn lemma_split_join(address: u16, high: u8, low: u8)
    ensures
        join_bytes(high_byte(address), low_byte(address)) == address,
        high_byte(join_bytes(high, low)) == high,
        low_byte(join_bytes(high, low)) == low,
{
}

/// Access to the two bytes of a 16-bit address.
pub trait Address {
    fn set_low(&mut self, value: u8);

    fn set_high(&mut self, value: u8);

    fn get_low(&mut self) -> u8;

    fn get_high(&mut self) -> u8;

    fn from_high_low(high: u8, low: u8) -> u16;
}

impl Address for u16 {
    /// Replaces the low byte and keeps the page.
    fn set_low(&mut self, value: u8)
        ensures
            *final(self) == join_bytes(high_byte(*old(self)), value),
    {
        proof {
            lemma_address_bits(*self, 0, value);
        }
        *self = (*self & 0xff00) | value as u16;
    }

    /// Replaces the page and keeps the low byte.
    fn set_high(&mut self, value: u8)
        ensures
            *final(self) == join_bytes(value, low_byte(*old(self))),
    {
        proof {
            lemma_address_bits(*self, value, 0);
        }
        *self = (*self & 0x00ff) | ((value as u16) << 8);
    }

    fn get_low(&mut self) -> (low: u8)
        ensures
            low == low_byte(*old(self)),
            *final(self) == *old(self),
    {
        proof {
            lemma_address_bits(*self, 0, 0);
        }
        (*self & 0xff) as u8
    }

    fn get_high(&mut self) -> (high: u8)
        ensures
            high == high_byte(*old(self)),
            *final(self) == *old(self),
    {
        proof {
            lemma_address_bits(*self, 0, 0);
        }
        (*self >> 8 & 0xff) as u8
    }

    fn from_high_low(high: u8, low: u8) -> (address: u16)
        ensures
            address == join_bytes(high, low),
    {
        proof {
            lemma_address_bits(0, high, low);
        }
        ((high as u16) << 8) | low as u16
    }
}

} // verus!
