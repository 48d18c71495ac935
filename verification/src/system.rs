//! The console: the devices that every cartridge finds on the bus, and the
//! processor that drives them.

use vstd::prelude::*;
use crate::apu::Alu2A03;
use crate::bus::BusDevice;
use crate::cpu::{cycled, Mos6502, RP2A03};
use crate::memory::RAM;
use crate::ppu::PPU;
use crate::roms::{Mapper, Mappers, RomImage, NROM};

verus! {

/// A console with a cartridge in it.
pub struct ConsoleSystem {
    pub cpu: Mos6502<NROM>,
}

/// The devices built into the console: two kilobytes of work memory, the
/// picture unit and the audio unit.
pub struct ConsoleDevices {
    pub ram: RAM<2048>,
    pub ppu: PPU,
    pub alu: Alu2A03,
}

impl ConsoleDevices {
    /// Whether each device can serve the bus.
    pub open spec fn well_formed(&self) -> bool {
        &&& self.ram.well_formed()
        &&& self.ppu.well_formed()
        &&& self.alu.well_formed()
    }
}

impl ConsoleSystem {
    /// A console at power-on with the cartridge of `image` in it.
    pub fn new(image: RomImage) -> (system: Self)
        requires
            image.header.mapper == 0,
            NROM::fits(&image),
        ensures
            system.cpu@ == Mos6502::<NROM>::power_on(),
            system.cpu.bus().well_formed(),
            system.cpu.bus().holds(&image, system.cpu.bus().devices()),
            system.cpu.bus().devices().ram@ == Seq::new(2048, |i: int| 0u8),
            system.cpu.bus().devices().ram.offset() == 0,
            system.cpu.bus().devices().ram.mask() == 0x7ff,
            system.cpu.bus().devices().ppu.is_power_on(),
            system.cpu.bus().devices().alu == (Alu2A03 { fake_status: 0 }),
    {
        let devices = ConsoleDevices {
            ram: RAM::<0x800>::new(0x0, 0x7FF),
            ppu: PPU::new(),
            alu: Alu2A03 { fake_status: 0x00 },
        };

        let mapper = Mappers::from(image, devices).expect("failed to create mapper");
        proof {
            mapper.lemma_holds_well_formed(&image, devices);
        }

        ConsoleSystem { cpu: Mos6502::new(mapper) }
    }

    /// Resets the processor.
    pub fn reset(self: &mut Self)
        ensures
            final(self).cpu@ == old(self).cpu@.reset(),
            final(self).cpu.bus() == old(self).cpu.bus(),
    {
        self.cpu.reset();
    }

    /// One cycle of the processor.
    pub fn cycle(self: &mut Self)
        requires
            old(self).cpu.can_cycle(),
        ensures
            cycled(old(self).cpu@, old(self).cpu.bus(), final(self).cpu@, final(self).cpu.bus()),
            final(self).cpu.bus().well_formed(),
    {
        self.cpu.cycle();
    }
}

} // verus!
