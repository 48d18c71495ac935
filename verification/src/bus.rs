//! The interface that every device on the processor's bus offers.

use vstd::prelude::*;

verus! {

/// A device that answers reads and takes writes at 16-bit addresses.
///
/// A device is described by three predicates: whether it is in a state in
/// which it can serve the bus, what byte it shows at an address, and what a
/// write does to it. `read` and `write` are total on a well-formed device.
pub trait BusDevice {
    /// Whether the device can serve every address.
    spec fn well_formed(&self) -> bool;

    /// The byte that the device shows at `address`.
    spec fn peek(&self, address: u16) -> u8;

    /// Whether `after` is this device once `data` has been written to
    /// `address`.
    spec fn poked(&self, address: u16, data: u8, after: &Self) -> bool;

    fn read(self: &Self, address: u16) -> (data: u8)
        requires
            self.well_formed(),
        ensures
            data == self.peek(address),
    ;

    fn write(self: &mut Self, address: u16, data: u8)
        requires
            old(self).well_formed(),
        ensures
            final(self).well_formed(),
            old(self).poked(address, data, final(self)),
    ;
}

} // verus!
