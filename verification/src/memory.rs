//! Banks of random-access and read-only memory.

use vstd::prelude::*;
use vstd::slice::slice_to_vec;
use crate::bus::BusDevice;

verus! {

/// The index into a bank that a bus address selects: the distance of the
/// address from the bank's first address, counted around the end of the
/// address space, reduced by the bank's mirroring mask.
pub open spec fn bank_index(address: u16, offset: u16, mask: u16) -> u16 {
    address.wrapping_sub(offset) & mask
}

/// A masked value is no larger than its mask.
proof fn lemma_masked(value: u16, mask: u16)
    by (bit_vector)
    ensures
        value & mask <= mask,
{
}

trait MemoryDevice {
    /// The first bus address of the bank.
    spec fn base(&self) -> u16;

    /// The mask that folds the bank's mirrors onto it.
    spec fn mirror(&self) -> u16;

    fn normalize_address(&self, address: u16) -> (index: u16)
        ensures
            index == bank_index(address, self.base(), self.mirror()),
            index <= self.mirror(),
    ;
}

/// `SIZE` bytes of random-access memory, mapped from bus address `offset` on
/// and mirrored as `mask` says.
pub struct RAM<const SIZE: usize> {
    pub bank: Box<[u8; SIZE]>,
    offset: u16,
    mask: u16,
}

impl<const SIZE: usize> View for RAM<SIZE> {
    type V = Seq<u8>;

    /// The bytes of the bank, first to last.
    closed spec fn view(&self) -> Seq<u8> {
        self.bank@
    }
}

impl<const SIZE: usize> RAM<SIZE> {
    /// The first bus address of the bank.
    pub closed spec fn offset(&self) -> u16 {
        self.offset
    }

    /// The mask applied to an address's distance from `offset`.
    pub closed spec fn mask(&self) -> u16 {
        self.mask
    }

    /// A bank of `SIZE` zero bytes.
    pub fn new(offset: u16, mask: u16) -> (ram: Self)
        ensures
            ram.offset() == offset,
            ram.mask() == mask,
            ram@ == Seq::new(SIZE as nat, |i: int| 0u8),
    {
        let ram = RAM { bank: Box::new([0;SIZE]), offset, mask };
        assert(ram@ =~= Seq::new(SIZE as nat, |i: int| 0u8));
        ram
    }
}

impl<const SIZE: usize> MemoryDevice for RAM<SIZE> {
    closed spec fn base(&self) -> u16 {
        self.offset
    }

    closed spec fn mirror(&self) -> u16 {
        self.mask
    }

    fn normalize_address(&self, address: u16) -> (index: u16) {
        proof {
            lemma_masked(address.wrapping_sub(self.offset), self.mask);
        }
        address.wrapping_sub(self.offset) & self.mask
    }
}

impl<const SIZE: usize> BusDevice for RAM<SIZE> {
    /// Every masked index lies within the bank.
    open spec fn well_formed(&self) -> bool {
        self.mask() < SIZE
    }

    open spec fn peek(&self, address: u16) -> u8 {
        self@[bank_index(address, self.offset(), self.mask()) as int]
    }

    /// The byte at the selected index is replaced; nothing else changes.
    open spec fn poked(&self, address: u16, data: u8, after: &Self) -> bool {
        &&& after@ == self@.update(bank_index(address, self.offset(), self.mask()) as int, data)
        &&& after.offset() == self.offset()
        &&& after.mask() == self.mask()
    }

    fn read(&self, address: u16) -> (data: u8) {
        (*self.bank)[self.normalize_address(address) as usize]
    }

    fn write(self: &mut Self, address: u16, data: u8) {
        let index = self.normalize_address(address) as usize;
        self.bank[index] = data;
    }
}

/// A bank of read-only memory, mapped from bus address `offset` on and
/// mirrored as `mask` says. `SIZE` is the size of the window that the bank
/// fills on the bus.
pub struct ROM<const SIZE: usize> {
    pub bank: Vec<u8>,
    offset: u16,
    mask: u16,
}

impl<const SIZE: usize> View for ROM<SIZE> {
    type V = Seq<u8>;

    /// The bytes of the bank, first to last.
    closed spec fn view(&self) -> Seq<u8> {
        self.bank@
    }
}

impl<const SIZE: usize> ROM<SIZE> {
    /// The first bus address of the bank.
    pub closed spec fn offset(&self) -> u16 {
        self.offset
    }

    /// The mask applied to an address's distance from `offset`.
    pub closed spec fn mask(&self) -> u16 {
        self.mask
    }

    /// A bank that holds a copy of `data`.
    pub fn new(data: &[u8], offset: u16, mask: u16) -> (rom: Self)
        ensures
            rom.offset() == offset,
            rom.mask() == mask,
            rom@ == data@,
    {
        ROM { bank: slice_to_vec(data), offset, mask }
    }
}

impl<const SIZE: usize> MemoryDevice for ROM<SIZE> {
    closed spec fn base(&self) -> u16 {
        self.offset
    }

    closed spec fn mirror(&self) -> u16 {
        self.mask
    }

    fn normalize_address(&self, address: u16) -> (index: u16) {
        proof {
            lemma_masked(address.wrapping_sub(self.offset), self.mask);
        }
        address.wrapping_sub(self.offset) & self.mask
    }
}

impl<const SIZE: usize> BusDevice for ROM<SIZE> {
    /// Every masked index lies within the bank.
    open spec fn well_formed(&self) -> bool {
        self.mask() < self@.len()
    }

    open spec fn peek(&self, address: u16) -> u8 {
        self@[bank_index(address, self.offset(), self.mask()) as int]
    }

    /// A write to read-only memory is ignored.
    open spec fn poked(&self, address: u16, data: u8, after: &Self) -> bool {
        *after == *self
    }

    fn read(&self, address: u16) -> (data: u8) {
        self.bank[self.normalize_address(address) as usize]
    }

    fn write(self: &mut Self, address: u16, data: u8) {
    }
}

} // verus!
