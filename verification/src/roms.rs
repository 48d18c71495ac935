//! Cartridge images in the iNES format, and the mappers that put a cartridge
//! on the bus.

use vstd::prelude::*;
use vstd::slice::{slice_subrange, slice_to_vec};
use crate::bus::BusDevice;
use crate::memory::{RAM, ROM};
use crate::ppu::PPU;
use crate::system::ConsoleDevices;

verus! {

/// The image ends before the header does.
pub const UNEXPECTED_END: &'static str = "failed to fill whole buffer";

/// The image does not begin with the four bytes `NES<EOF>`.
pub const INVALID_HEADER: &'static str = "Invalid NES image header";

/// The header's console type is none of the four known ones.
pub const UNKNOWN_CONSOLE_TYPE: &'static str = "Unknown console type";

/// The header is in the NES 2.0 format.
pub const NES2_NOT_SUPPORTED: &'static str = "NES 2.0 format not supported";

/// The header's television system is none of the two known ones.
pub const UNKNOWN_TV_SYSTEM: &'static str = "Unknown TV system type";

/// The eleventh byte of the header is not zero.
pub const NONZERO_RESERVED: &'static str =
    "I don't know why but I don't support non-zero values here";

/// The cartridge needs a mapper other than NROM.
pub const UNSUPPORTED_MAPPER: &'static str = "Unsupported mapper";

/// The length of the header of an image, in bytes.
pub const HEADER_SIZE: usize = 16;

/// The length of a trainer, in bytes.
pub const TRAINER_SIZE: usize = 0x200;

/// The length of one bank of program memory, in bytes.
pub const PROGRAM_BANK_SIZE: usize = 0x4000;

/// The length of one bank of character memory, in bytes.
pub const CHARACTER_BANK_SIZE: usize = 0x2000;

/// Bit 0 of the flags of an image.
pub const VERTICAL: u8 = 0x1;

/// Bit 1 of the flags of an image.
pub const BATTERY: u8 = 0x2;

/// Bit 2 of the flags of an image.
pub const TRAINER: u8 = 0x4;

/// Bit 3 of the flags of an image.
pub const FOUR_SCREEN: u8 = 0x8;

/// The mask of a flag finds the flag's bit.
proof fn lemma_flag_masks(bits: u8)
    by (bit_vector)
    ensures
        (bits & 0x1 != 0) == (bits % 2 == 1),
        (bits & 0x2 != 0) == ((bits / 2) % 2 == 1),
        (bits & 0x4 != 0) == ((bits / 4) % 2 == 1),
        (bits & 0x8 != 0) == ((bits / 8) % 2 == 1),
{
}

/// The low four bits of the header's sixth byte.
#[derive(Clone, Copy, PartialEq, Eq, Structural, Debug)]
pub struct RomFlags {
    /// Bit 0: the name tables are mirrored vertically.
    pub vertical: bool,
    /// Bit 1: the cartridge holds memory kept by a battery.
    pub battery: bool,
    /// Bit 2: a trainer stands before the program memory.
    pub trainer: bool,
    /// Bit 3: the cartridge offers four name tables.
    pub four_screen: bool,
}

impl RomFlags {
    /// The flags that a byte holds. Its high four bits are ignored.
    pub open spec fn spec_from_bits_truncate(bits: u8) -> RomFlags {
        RomFlags {
            vertical: bits % 2 == 1,
            battery: (bits / 2) % 2 == 1,
            trainer: (bits / 4) % 2 == 1,
            four_screen: (bits / 8) % 2 == 1,
        }
    }

    #[verifier::when_used_as_spec(spec_from_bits_truncate)]
    pub fn from_bits_truncate(bits: u8) -> (flags: RomFlags)
        ensures
            flags == RomFlags::spec_from_bits_truncate(bits),
    {
        proof {
            lemma_flag_masks(bits);
        }
        RomFlags {
            vertical: bits & VERTICAL != 0,
            battery: bits & BATTERY != 0,
            trainer: bits & TRAINER != 0,
            four_screen: bits & FOUR_SCREEN != 0,
        }
    }

    /// Whether the trainer flag is set and no other.
    pub open spec fn spec_is_trainer(&self) -> bool {
        self.trainer && !self.vertical && !self.battery && !self.four_screen
    }

    #[verifier::when_used_as_spec(spec_is_trainer)]
    pub fn is_trainer(&self) -> (only: bool)
        ensures
            only == self.spec_is_trainer(),
    {
        self.trainer && !self.vertical && !self.battery && !self.four_screen
    }
}

/// The television system that a cartridge was made for.
#[derive(Clone, Copy, PartialEq, Eq, Structural, Debug)]
pub enum TVSystem {
    NTSC,
    PAL,
}

impl TVSystem {
    /// The television system with the given number: 0 is NTSC and 1 is PAL.
    pub fn try_from(number: u8) -> (result: Result<TVSystem, RomError>)
        ensures
            result == match number {
                0 => Ok::<TVSystem, RomError>(TVSystem::NTSC),
                1 => Ok(TVSystem::PAL),
                _ => Err(RomError { message: UNKNOWN_TV_SYSTEM }),
            },
    {
        match number {
            0 => Ok(TVSystem::NTSC),
            1 => Ok(TVSystem::PAL),
            _ => Err(RomError::new(UNKNOWN_TV_SYSTEM)),
        }
    }
}

/// The console that a cartridge was made for.
#[derive(Clone, Copy, PartialEq, Eq, Structural, Debug)]
pub enum ConsoleType {
    NES,
    VsSystem,
    Playchoice,
    Extended,
}

impl ConsoleType {
    /// The console type with the given number, from 0 to 3 in the order of
    /// the variants.
    pub fn try_from(number: u8) -> (result: Result<ConsoleType, RomError>)
        ensures
            result == match number {
                0 => Ok::<ConsoleType, RomError>(ConsoleType::NES),
                1 => Ok(ConsoleType::VsSystem),
                2 => Ok(ConsoleType::Playchoice),
                3 => Ok(ConsoleType::Extended),
                _ => Err(RomError { message: UNKNOWN_CONSOLE_TYPE }),
            },
    {
        match number {
            0 => Ok(ConsoleType::NES),
            1 => Ok(ConsoleType::VsSystem),
            2 => Ok(ConsoleType::Playchoice),
            3 => Ok(ConsoleType::Extended),
            _ => Err(RomError::new(UNKNOWN_CONSOLE_TYPE)),
        }
    }
}

/// What the header of an image says of the cartridge.
#[derive(Clone, Copy, PartialEq, Eq, Structural, Debug)]
pub struct RomImageHeader {
    /// The number of 16 KiB banks of program memory.
    pub program_rom_size: u8,
    /// The number of 8 KiB banks of character memory.
    pub character_rom_size: u8,
    pub rom_flags: RomFlags,
    /// The number of the mapper.
    pub mapper: u16,
    pub console_type: ConsoleType,
    /// The number of 8 KiB banks of program RAM; zero stands for one.
    pub program_ram_size: u8,
    pub tv_system: TVSystem,
}

/// A cartridge image: its header and its three sections.
pub struct RomImage {
    pub header: RomImageHeader,
    pub trainer_data: Vec<u8>,
    pub program_rom_data: Vec<u8>,
    pub character_rom_data: Vec<u8>,
}

/// Why an image cannot be read, or a cartridge cannot be put on the bus.
#[derive(Debug)]
pub struct RomError {
    pub message: &'static str,
}

impl RomError {
    pub fn new(message: &'static str) -> (error: Self)
        ensures
            error == (RomError { message }),
    {
        Self { message: message }
    }
}

/// The two bits of the header's eighth byte that number the console type
/// give a number from 0 to 3.
proof fn lemma_console_type_bits(flags: u8)
    by (bit_vector)
    ensures
        flags & 0x3 <= 3,
{
}

/// The error in the header of an image, if there is one: the first that a
/// reader meets who takes the header byte by byte.
pub open spec fn header_error(bytes: Seq<u8>) -> Option<&'static str> {
    if bytes.len() < 4 {
        Some(UNEXPECTED_END)
    } else if !(bytes[0] == 0x4e && bytes[1] == 0x45 && bytes[2] == 0x53 && bytes[3] == 0x1a) {
        Some(INVALID_HEADER)
    } else if bytes.len() < 8 {
        Some(UNEXPECTED_END)
    } else if bytes[7] & 0xc == 0x8 {
        Some(NES2_NOT_SUPPORTED)
    } else if bytes.len() < 10 {
        Some(UNEXPECTED_END)
    } else if bytes[9] > 1 {
        Some(UNKNOWN_TV_SYSTEM)
    } else if bytes.len() < 11 {
        Some(UNEXPECTED_END)
    } else if bytes[10] != 0 {
        Some(NONZERO_RESERVED)
    } else {
        None
    }
}

/// The console type that the low two bits of a byte number.
pub open spec fn console_type_of(flags: u8) -> ConsoleType {
    if flags & 0x3 == 0 {
        ConsoleType::NES
    } else if flags & 0x3 == 1 {
        ConsoleType::VsSystem
    } else if flags & 0x3 == 2 {
        ConsoleType::Playchoice
    } else {
        ConsoleType::Extended
    }
}

/// What the header of an image says, where `header_error` finds no error.
/// The mapper's number has its low four bits in the high half of byte 6 and
/// its high four bits in the high half of byte 7.
pub open spec fn header_of(bytes: Seq<u8>) -> RomImageHeader {
    RomImageHeader {
        program_rom_size: bytes[4],
        character_rom_size: bytes[5],
        rom_flags: RomFlags::from_bits_truncate(bytes[6]),
        mapper: ((bytes[6] >> 4u8) | bytes[7] & 0xf0) as u16,
        console_type: console_type_of(bytes[7]),
        program_ram_size: bytes[8],
        tv_system: if bytes[9] == 0 {
            TVSystem::NTSC
        } else {
            TVSystem::PAL
        },
    }
}

/// The bytes of a section that starts at `start` and asks for `size` bytes:
/// as many of them as the image holds.
pub open spec fn section(bytes: Seq<u8>, start: int, size: int) -> Seq<u8> {
    if start >= bytes.len() {
        Seq::empty()
    } else if start + size >= bytes.len() {
        bytes.subrange(start, bytes.len() as int)
    } else {
        bytes.subrange(start, start + size)
    }
}

/// The trainer of an image: 512 bytes after the header, in an image whose
/// flags are the trainer flag alone.
pub open spec fn trainer_of(bytes: Seq<u8>) -> Seq<u8> {
    if header_of(bytes).rom_flags.is_trainer() {
        section(bytes, HEADER_SIZE as int, TRAINER_SIZE as int)
    } else {
        Seq::empty()
    }
}

/// The program memory of an image: the banks that follow the trainer.
pub open spec fn program_rom_of(bytes: Seq<u8>) -> Seq<u8> {
    section(
        bytes,
        HEADER_SIZE + trainer_of(bytes).len(),
        PROGRAM_BANK_SIZE * header_of(bytes).program_rom_size,
    )
}

/// The character memory of an image: the banks that follow the program
/// memory.
pub open spec fn character_rom_of(bytes: Seq<u8>) -> Seq<u8> {
    section(
        bytes,
        HEADER_SIZE + trainer_of(bytes).len() + program_rom_of(bytes).len(),
        CHARACTER_BANK_SIZE * header_of(bytes).character_rom_size,
    )
}

impl RomImage {
    /// Reads an image from its bytes.
    ///
    /// An image whose header is in order is always read: a section that the
    /// image ends in, or before, comes out short or empty.
    pub fn from(bytes: &[u8]) -> (result: Result<RomImage, RomError>)
        ensures
            match result {
                Ok(image) => {
                    &&& header_error(bytes@) is None
                    &&& image.header == header_of(bytes@)
                    &&& image.trainer_data@ == trainer_of(bytes@)
                    &&& image.program_rom_data@ == program_rom_of(bytes@)
                    &&& image.character_rom_data@ == character_rom_of(bytes@)
                },
                Err(error) => header_error(bytes@) == Some(error.message),
            },
    {
        let header = match Self::parse_header(bytes) {
            Ok(header) => header,
            Err(error) => {
                return Err(error);
            },
        };
        let trainer_data = if header.rom_flags.is_trainer() {
            Self::read_data(bytes, HEADER_SIZE, TRAINER_SIZE)
        } else {
            Vec::new()
        };
        let program_rom_start = HEADER_SIZE + trainer_data.len();
        let program_rom_data = Self::read_data(
            bytes,
            program_rom_start,
            PROGRAM_BANK_SIZE * header.program_rom_size as usize,
        );
        let character_rom_start = program_rom_start + program_rom_data.len();
        let character_rom_data = Self::read_data(
            bytes,
            character_rom_start,
            CHARACTER_BANK_SIZE * header.character_rom_size as usize,
        );
        Ok(RomImage { trainer_data, program_rom_data, character_rom_data, header })
    }

    /// Copies the section that starts at `start` and asks for `size` bytes.
    fn read_data(bytes: &[u8], start: usize, size: usize) -> (data: Vec<u8>)
        ensures
            data@ == section(bytes@, start as int, size as int),
    {
        if start >= bytes.len() {
            Vec::new()
        } else if size >= bytes.len() - start {
            slice_to_vec(slice_subrange(bytes, start, bytes.len()))
        } else {
            slice_to_vec(slice_subrange(bytes, start, start + size))
        }
    }

    /// Reads the sixteen bytes of the header. Only the first eleven are
    /// looked at, and an image may end after them.
    pub fn parse_header(bytes: &[u8]) -> (result: Result<RomImageHeader, RomError>)
        ensures
            match result {
                Ok(header) => header_error(bytes@) is None && header == header_of(bytes@),
                Err(error) => header_error(bytes@) == Some(error.message),
            },
    {
        if bytes.len() < 4 {
            return Err(RomError::new(UNEXPECTED_END));
        }
        if !(bytes[0] == 0x4e && bytes[1] == 0x45 && bytes[2] == 0x53 && bytes[3] == 0x1a) {
            return Err(RomError::new(INVALID_HEADER));
        }
        if bytes.len() < 8 {
            return Err(RomError::new(UNEXPECTED_END));
        }
        let program_rom_size = bytes[4];
        let character_rom_size = bytes[5];
        let rom_flags = bytes[6];
        let console_type_flags = bytes[7];
        proof {
            lemma_console_type_bits(console_type_flags);
        }
        let console_type = match ConsoleType::try_from(console_type_flags & 0x3) {
            Ok(console_type) => console_type,
            Err(error) => {
                return Err(error);
            },
        };

        if (console_type_flags & 0xc) == 0x8 {
            return Err(RomError::new(NES2_NOT_SUPPORTED));
        }
        if bytes.len() < 10 {
            return Err(RomError::new(UNEXPECTED_END));
        }
        let program_ram_size = bytes[8];
        let tv_system = match TVSystem::try_from(bytes[9]) {
            Ok(tv_system) => tv_system,
            Err(error) => {
                return Err(error);
            },
        };
        if bytes.len() < 11 {
            return Err(RomError::new(UNEXPECTED_END));
        }
        if bytes[10] != 0 {
            return Err(RomError::new(NONZERO_RESERVED));
        }
        Ok(
            RomImageHeader {
                program_rom_size: program_rom_size,
                character_rom_size,
                rom_flags: RomFlags::from_bits_truncate(rom_flags),
                mapper: ((rom_flags >> 4u8) | console_type_flags & 0xf0) as u16,
                console_type: console_type,
                program_ram_size: program_ram_size,
                tv_system: tv_system,
            },
        )
    }
}

/// The mappers that this crate knows.
pub struct Mappers;

impl Mappers {
    /// Whether `from` can put the cartridge of `image` on the bus: its
    /// mapper is NROM, or `from` will refuse it.
    pub open spec fn spec_supports(image: &RomImage) -> bool {
        image.header.mapper == 0 ==> NROM::fits(image)
    }

    #[verifier::when_used_as_spec(spec_supports)]
    pub fn supports(image: &RomImage) -> (supported: bool)
        ensures
            supported == Mappers::spec_supports(image),
    {
        image.header.mapper != 0 || (
            (image.header.program_rom_size == 1 || image.header.program_rom_size == 2)
            && image.program_rom_data.len() >= PROGRAM_BANK_SIZE
                * image.header.program_rom_size as usize
            && image.header.program_ram_size <= 1
        )
    }

    /// Puts a cartridge and the console's devices on one bus. Only the NROM
    /// mapper, number 0, is known.
    pub fn from(image: RomImage, devices: ConsoleDevices) -> (result: Result<NROM, RomError>)
        requires
            Mappers::supports(&image),
        ensures
            match result {
                Ok(mapper) => image.header.mapper == 0 && mapper.holds(&image, devices),
                Err(error) => image.header.mapper != 0 && error.message == UNSUPPORTED_MAPPER,
            },
    {
        match image.header.mapper {
            0 => Ok(NROM::new(image, devices)),
            _ => Err(RomError::new(UNSUPPORTED_MAPPER)),
        }
    }
}

/// What the processor finds on its bus: the console's devices and the
/// cartridge, each at its addresses.
///
/// As with a `BusDevice`, three predicates describe a mapper: whether it can
/// serve the bus, what byte it shows at an address, and what a write does to
/// it.
pub trait Mapper {
    /// Whether the mapper can serve every address.
    spec fn well_formed(&self) -> bool;

    /// The byte that the bus shows at `address`.
    spec fn peek(&self, address: u16) -> u8;

    /// Whether `after` is this mapper once `data` has been written to
    /// `address`.
    spec fn poked(&self, address: u16, data: u8, after: &Self) -> bool;

    /// The picture unit behind this mapper.
    spec fn ppu(&self) -> PPU;

    /// Whether `after` is this mapper with `ppu` in place of its picture
    /// unit.
    spec fn with_ppu(&self, ppu: PPU, after: &Self) -> bool;

    fn read(self: &Self, address: u16) -> (data: u8)
        requires
            self.well_formed(),
        ensures
            data == self.peek(address),
    ;

    fn write(self: &mut Self, address: u16, data: u8)
        requires
            old(self).well_formed(),
        ensures
            final(self).well_formed(),
            old(self).poked(address, data, final(self)),
    ;

    fn get_ppu(&mut self) -> (ppu: &mut PPU)
        ensures
            *ppu == old(self).ppu(),
            old(self).with_ppu(*final(ppu), final(self)),
            old(self).well_formed() ==> final(self).well_formed(),
    ;
}

/// The simplest cartridge: 16 or 32 KiB of program memory and 8 KiB of
/// program RAM, nothing to switch.
///
/// | addresses       | device                                  |
/// |-----------------|-----------------------------------------|
/// | `0000` - `1FFF` | work memory, 2 KiB, mirrored            |
/// | `2000` - `3FFF` | picture unit                            |
/// | `4000` - `5FFF` | audio unit                              |
/// | `6000` - `7FFF` | program RAM                             |
/// | `8000` - `BFFF` | first bank of program memory            |
/// | `C000` - `FFFF` | second bank, or the first once more     |
pub struct NROM {
    devices: ConsoleDevices,
    program_ram: RAM<0x2000>,
    program_rom_bank0: ROM<0x4000>,
    program_rom_bank1: ROM<0x4000>,
}

impl NROM {
    /// Whether the sections of `image` are what an NROM cartridge needs:
    /// one or two whole banks of program memory, and no more program RAM
    /// than one bank.
    pub open spec fn fits(image: &RomImage) -> bool {
        &&& image.header.program_rom_size == 1 || image.header.program_rom_size == 2
        &&& image.program_rom_data@.len() >= PROGRAM_BANK_SIZE * image.header.program_rom_size
        &&& image.header.program_ram_size <= 1
    }

    /// Whether this mapper is what `new` makes of `image` and `devices`.
    pub open spec fn holds(&self, image: &RomImage, devices: ConsoleDevices) -> bool {
        &&& self.devices() == devices
        &&& self.program_ram()@ == Seq::new(0x2000, |i: int| 0u8)
        &&& self.program_ram().offset() == 0x6000
        &&& self.program_ram().mask() == 0x1fff
        &&& self.program_rom_bank0()@ == image.program_rom_data@.subrange(0, 0x4000)
        &&& self.program_rom_bank0().offset() == 0x8000
        &&& self.program_rom_bank0().mask() == 0x3fff
        &&& self.program_rom_bank1()@ == if image.header.program_rom_size == 1 {
            image.program_rom_data@.subrange(0, 0x4000)
        } else {
            image.program_rom_data@.subrange(0x4000, 0x8000)
        }
        &&& self.program_rom_bank1().offset() == 0xc000
        &&& self.program_rom_bank1().mask() == 0x3fff
    }

    /// A mapper made by `new` serves the bus if the console's devices do.
    pub proof fn lemma_holds_well_formed(&self, image: &RomImage, devices: ConsoleDevices)
        requires
            self.holds(image, devices),
            NROM::fits(image),
            devices.well_formed(),
        ensures
            self.well_formed(),
    {
    }

    fn new(image: RomImage, devices: ConsoleDevices) -> (mapper: Self)
        requires
            NROM::fits(&image),
        ensures
            mapper.holds(&image, devices),
    {
        NROM {
            devices,
            program_ram: match image.header.program_ram_size {
                0 => RAM::<0x2000>::new(0x6000, 0x1fff),
                _ => RAM::<0x2000>::new(
                    0x6000,
                    (image.header.program_ram_size as u16 * 0x2000) - 1,
                ),
            },
            program_rom_bank0: ROM::<0x4000>::new(
                slice_subrange(image.program_rom_data.as_slice(), 0, 0x4000),
                0x8000,
                0x3fff,
            ),
            program_rom_bank1: match image.header.program_rom_size {
                1 => ROM::<0x4000>::new(
                    slice_subrange(image.program_rom_data.as_slice(), 0, 0x4000),
                    0xc000,
                    0x3fff,
                ),
                _ => ROM::<0x4000>::new(
                    slice_subrange(image.program_rom_data.as_slice(), 0x4000, 0x8000),
                    0xc000,
                    0x3fff,
                ),
            },
        }
    }

    pub closed spec fn devices(&self) -> ConsoleDevices {
        self.devices
    }

    pub closed spec fn program_ram(&self) -> RAM<0x2000> {
        self.program_ram
    }

    pub closed spec fn program_rom_bank0(&self) -> ROM<0x4000> {
        self.program_rom_bank0
    }

    pub closed spec fn program_rom_bank1(&self) -> ROM<0x4000> {
        self.program_rom_bank1
    }
}

impl Mapper for NROM {
    open spec fn well_formed(&self) -> bool {
        &&& self.devices().well_formed()
        &&& self.program_ram().well_formed()
        &&& self.program_rom_bank0().well_formed()
        &&& self.program_rom_bank1().well_formed()
    }

    open spec fn peek(&self, address: u16) -> u8 {
        let region = address / 0x2000;
        if region == 0 {
            self.devices().ram.peek(address)
        } else if region == 1 {
            self.devices().ppu.peek(address)
        } else if region == 2 {
            self.devices().alu.peek(address)
        } else if region == 3 {
            self.program_ram().peek(address)
        } else if region == 4 || region == 5 {
            self.program_rom_bank0().peek(address)
        } else {
            self.program_rom_bank1().peek(address)
        }
    }

    open spec fn poked(&self, address: u16, data: u8, after: &Self) -> bool {
        let region = address / 0x2000;
        &&& if region == 0 {
            self.devices().ram.poked(address, data, &after.devices().ram)
        } else {
            after.devices().ram == self.devices().ram
        }
        &&& if region == 1 {
            self.devices().ppu.poked(address, data, &after.devices().ppu)
        } else {
            after.devices().ppu == self.devices().ppu
        }
        &&& if region == 2 {
            self.devices().alu.poked(address, data, &after.devices().alu)
        } else {
            after.devices().alu == self.devices().alu
        }
        &&& if region == 3 {
            self.program_ram().poked(address, data, &after.program_ram())
        } else {
            after.program_ram() == self.program_ram()
        }
        &&& after.program_rom_bank0() == self.program_rom_bank0()
        &&& after.program_rom_bank1() == self.program_rom_bank1()
    }

    open spec fn ppu(&self) -> PPU {
        self.devices().ppu
    }

    open spec fn with_ppu(&self, ppu: PPU, after: &Self) -> bool {
        &&& after.devices() == (ConsoleDevices { ppu, ..self.devices() })
        &&& after.program_ram() == self.program_ram()
        &&& after.program_rom_bank0() == self.program_rom_bank0()
        &&& after.program_rom_bank1() == self.program_rom_bank1()
    }

    fn get_ppu(&mut self) -> (ppu: &mut PPU) {
        &mut self.devices.ppu
    }

    fn read(self: &Self, address: u16) -> (data: u8) {
        proof {
            lemma_region(address);
        }
        let data = match address >> 13 {
            0 => self.devices.ram.read(address),
            1 => self.devices.ppu.read(address),
            2 => self.devices.alu.read(address),
            3 => self.program_ram.read(address),
            4 | 5 => self.program_rom_bank0.read(address),
            _ => self.program_rom_bank1.read(address),
        };
        data
    }

    fn write(self: &mut Self, address: u16, data: u8) {
        proof {
            lemma_region(address);
        }
        match address >> 13 {
            0 => self.devices.ram.write(address, data),
            1 => self.devices.ppu.write(address, data),
            2 => self.devices.alu.write(address, data),
            3 => self.program_ram.write(address, data),
            4 | 5 => self.program_rom_bank0.write(address, data),
            _ => self.program_rom_bank1.write(address, data),
        }
    }
}

/// The top three bits of an address number its 8 KiB region.
proof fn lemma_region(address: u16)
    by (bit_vector)
    ensures
        address >> 13u16 == address / 0x2000,
{
}

} // verus!
