//! The audio unit, reduced to its one status register.

use vstd::prelude::*;
use crate::bus::BusDevice;

verus! {

/// The address of the audio unit's status register.
pub const STATUS_REGISTER: u16 = 0x4015;

/// The audio processing unit of the 2A03. Only its status register is kept:
/// it holds the last byte written to it.
pub struct Alu2A03 {
    pub fake_status: u8,
}

impl BusDevice for Alu2A03 {
    open spec fn well_formed(&self) -> bool {
        true
    }

    /// The status register shows what was last written to it; every other
    /// address shows zero.
    open spec fn peek(&self, address: u16) -> u8 {
        if address == STATUS_REGISTER {
            self.fake_status
        } else {
            0
        }
    }

    /// A write to the status register is kept; a write anywhere else is lost.
    open spec fn poked(&self, address: u16, data: u8, after: &Self) -> bool {
        after.fake_status == if address == STATUS_REGISTER {
            data
        } else {
            self.fake_status
        }
    }

    fn read(&self, address: u16) -> (data: u8) {
        if address == STATUS_REGISTER {
            return self.fake_status;
        }
        return 0;
    }

    fn write(&mut self, address: u16, data: u8) {
        if address == STATUS_REGISTER {
            self.fake_status = data;
        }
    }
}

} // verus!
