use nes::apu::Alu2A03;
use nes::memory::RAM;
use nes::ppu::PPU;
use nes::roms::{
    ConsoleType, Mapper, Mappers, RomFlags, RomImage, TVSystem, INVALID_HEADER,
    NES2_NOT_SUPPORTED, NONZERO_RESERVED, UNEXPECTED_END, UNKNOWN_CONSOLE_TYPE,
    UNKNOWN_TV_SYSTEM, UNSUPPORTED_MAPPER,
};
use nes::system::ConsoleDevices;

/// A header of sixteen bytes for the given sizes and flags.
fn header(program_banks: u8, character_banks: u8, flags6: u8, flags7: u8) -> Vec<u8> {
    let mut bytes = vec![0x4e, 0x45, 0x53, 0x1a, program_banks, character_banks, flags6, flags7];
    bytes.extend_from_slice(&[0; 8]);
    bytes
}

/// An image whose program memory counts its bytes in 16-bit steps of 7 and
/// whose character memory is all `0xcc`.
fn image_bytes(program_banks: u8, character_banks: u8, flags6: u8) -> Vec<u8> {
    let mut bytes = header(program_banks, character_banks, flags6, 0);
    if flags6 & 0x0f == 0x04 {
        bytes.extend(std::iter::repeat(0x77).take(0x200));
    }
    for i in 0..(0x4000 * program_banks as usize) {
        bytes.push((i * 7 % 251) as u8);
    }
    bytes.extend(std::iter::repeat(0xcc).take(0x2000 * character_banks as usize));
    bytes
}

fn devices() -> ConsoleDevices {
    ConsoleDevices { ram: RAM::new(0, 0x7ff), ppu: PPU::new(), alu: Alu2A03 { fake_status: 0 } }
}

fn message_of(bytes: &[u8]) -> &'static str {
    match RomImage::from(bytes) {
        Ok(_) => "",
        Err(error) => error.message,
    }
}

#[test]
fn basic_load_test_on_a_built_image() {
    let image = RomImage::from(&image_bytes(2, 1, 0)).unwrap();
    assert_eq!(image.header.program_rom_size, 2);
    assert_eq!(image.header.character_rom_size, 1);
    assert_eq!(image.header.mapper, 0);
    assert_eq!(image.header.console_type, ConsoleType::NES);
    assert_eq!(image.header.tv_system, TVSystem::NTSC);
    assert_eq!(image.header.program_ram_size, 0);
    assert_eq!(image.trainer_data.len(), 0);
    assert_eq!(image.program_rom_data.len(), 0x8000);
    assert_eq!(image.character_rom_data.len(), 0x2000);
    assert_eq!(image.program_rom_data[1], 7);
    assert_eq!(image.program_rom_data[0x7fff], (0x7fff * 7 % 251) as u8);
    assert!(image.character_rom_data.iter().all(|byte| *byte == 0xcc));
}

#[test]
fn image_that_ends_in_the_header() {
    assert_eq!(message_of(&[]), UNEXPECTED_END);
    assert_eq!(message_of(&[0x4e, 0x45, 0x53]), UNEXPECTED_END);
    assert_eq!(message_of(&header(1, 1, 0, 0)[..7]), UNEXPECTED_END);
    assert_eq!(message_of(&header(1, 1, 0, 0)[..8]), UNEXPECTED_END);
    assert_eq!(message_of(&header(1, 1, 0, 0)[..9]), UNEXPECTED_END);
    assert_eq!(message_of(&header(1, 1, 0, 0)[..10]), UNEXPECTED_END);
    assert_eq!(UNEXPECTED_END, "failed to fill whole buffer");
}

#[test]
fn header_of_eleven_bytes_is_enough() {
    let image = RomImage::from(&header(1, 1, 0, 0)[..11]).unwrap();
    assert_eq!(image.header.program_rom_size, 1);
    assert!(image.trainer_data.is_empty());
    assert!(image.program_rom_data.is_empty());
    assert!(image.character_rom_data.is_empty());
}

#[test]
fn wrong_magic() {
    let mut bytes = header(1, 1, 0, 0);
    bytes[3] = 0x1b;
    assert_eq!(message_of(&bytes), INVALID_HEADER);
    assert_eq!(message_of(b"NESTLED"), INVALID_HEADER);
    assert_eq!(INVALID_HEADER, "Invalid NES image header");
}

#[test]
fn nes_2_0_is_refused() {
    assert_eq!(message_of(&header(1, 1, 0, 0x08)), NES2_NOT_SUPPORTED);
    assert_eq!(message_of(&header(1, 1, 0, 0x08)[..8]), NES2_NOT_SUPPORTED);
    assert_eq!(NES2_NOT_SUPPORTED, "NES 2.0 format not supported");
    assert!(RomImage::from(&header(1, 1, 0, 0x04)).is_ok());
    assert!(RomImage::from(&header(1, 1, 0, 0x0c)).is_ok());
}

#[test]
fn unknown_tv_system() {
    let mut bytes = header(1, 1, 0, 0);
    bytes[9] = 2;
    assert_eq!(message_of(&bytes), UNKNOWN_TV_SYSTEM);
    assert_eq!(message_of(&bytes[..10]), UNKNOWN_TV_SYSTEM);
    assert_eq!(UNKNOWN_TV_SYSTEM, "Unknown TV system type");
    bytes[9] = 1;
    assert_eq!(RomImage::from(&bytes).unwrap().header.tv_system, TVSystem::PAL);
}

#[test]
fn nonzero_eleventh_byte() {
    let mut bytes = header(1, 1, 0, 0);
    bytes[10] = 1;
    assert_eq!(message_of(&bytes), NONZERO_RESERVED);
    assert_eq!(NONZERO_RESERVED, "I don't know why but I don't support non-zero values here");
}

#[test]
fn padding_is_not_looked_at() {
    let mut bytes = header(1, 0, 0, 0);
    for i in 11..16 {
        bytes[i] = 0xff;
    }
    assert!(RomImage::from(&bytes).is_ok());
}

#[test]
fn header_fields() {
    let mut bytes = header(3, 5, 0x1b, 0x21);
    bytes[8] = 4;
    let parsed = RomImage::parse_header(&bytes).unwrap();
    assert_eq!(parsed.program_rom_size, 3);
    assert_eq!(parsed.character_rom_size, 5);
    assert_eq!(parsed.mapper, 0x21);
    assert_eq!(parsed.console_type, ConsoleType::VsSystem);
    assert_eq!(parsed.program_ram_size, 4);
    assert_eq!(
        parsed.rom_flags,
        RomFlags { vertical: true, battery: true, trainer: false, four_screen: true }
    );
}

#[test]
fn rom_flags_keep_the_low_four_bits() {
    assert_eq!(
        RomFlags::from_bits_truncate(0xf4),
        RomFlags { vertical: false, battery: false, trainer: true, four_screen: false }
    );
    assert!(RomFlags::from_bits_truncate(0xf4).is_trainer());
    assert!(!RomFlags::from_bits_truncate(0x05).is_trainer());
    assert!(!RomFlags::from_bits_truncate(0x00).is_trainer());
}

#[test]
fn console_types_and_tv_systems_by_number() {
    assert_eq!(ConsoleType::try_from(0).unwrap(), ConsoleType::NES);
    assert_eq!(ConsoleType::try_from(1).unwrap(), ConsoleType::VsSystem);
    assert_eq!(ConsoleType::try_from(2).unwrap(), ConsoleType::Playchoice);
    assert_eq!(ConsoleType::try_from(3).unwrap(), ConsoleType::Extended);
    assert_eq!(ConsoleType::try_from(4).unwrap_err().message, UNKNOWN_CONSOLE_TYPE);
    assert_eq!(UNKNOWN_CONSOLE_TYPE, "Unknown console type");
    assert_eq!(TVSystem::try_from(0).unwrap(), TVSystem::NTSC);
    assert_eq!(TVSystem::try_from(1).unwrap(), TVSystem::PAL);
    assert_eq!(TVSystem::try_from(2).unwrap_err().message, UNKNOWN_TV_SYSTEM);
}

#[test]
fn trainer_is_read_when_it_is_the_only_flag() {
    let image = RomImage::from(&image_bytes(1, 0, 0x04)).unwrap();
    assert_eq!(image.trainer_data.len(), 0x200);
    assert!(image.trainer_data.iter().all(|byte| *byte == 0x77));
    assert_eq!(image.program_rom_data.len(), 0x4000);
    assert_eq!(image.program_rom_data[1], 7);

    let other = RomImage::from(&image_bytes(1, 0, 0x05)).unwrap();
    assert_eq!(other.trainer_data.len(), 0);
    assert_eq!(other.program_rom_data.len(), 0x4000);
}

#[test]
fn sections_come_out_short_when_the_image_ends() {
    let bytes = image_bytes(2, 1, 0);
    let image = RomImage::from(&bytes[..16 + 0x4000 + 5]).unwrap();
    assert_eq!(image.program_rom_data.len(), 0x4000 + 5);
    assert_eq!(image.character_rom_data.len(), 0);

    let image = RomImage::from(&bytes[..16 + 0x8000 + 5]).unwrap();
    assert_eq!(image.program_rom_data.len(), 0x8000);
    assert_eq!(image.character_rom_data, vec![0xcc; 5]);
}

#[test]
fn unsupported_mapper() {
    let image = RomImage::from(&header(1, 1, 0x10, 0)).unwrap();
    assert_eq!(image.header.mapper, 1);
    assert!(Mappers::supports(&image));
    let error = match Mappers::from(image, devices()) {
        Ok(_) => panic!("mapper 1 is not known"),
        Err(error) => error,
    };
    assert_eq!(error.message, UNSUPPORTED_MAPPER);
    assert_eq!(UNSUPPORTED_MAPPER, "Unsupported mapper");
}

#[test]
fn what_nrom_supports() {
    assert!(Mappers::supports(&RomImage::from(&image_bytes(1, 1, 0)).unwrap()));
    assert!(Mappers::supports(&RomImage::from(&image_bytes(2, 0, 0)).unwrap()));
    assert!(!Mappers::supports(&RomImage::from(&image_bytes(3, 0, 0)).unwrap()));
    assert!(!Mappers::supports(&RomImage::from(&header(0, 0, 0, 0)).unwrap()));
    assert!(!Mappers::supports(&RomImage::from(&image_bytes(2, 0, 0)[..0x8000]).unwrap()));
    let mut ram = image_bytes(1, 0, 0);
    ram[8] = 1;
    assert!(Mappers::supports(&RomImage::from(&ram).unwrap()));
    ram[8] = 2;
    assert!(!Mappers::supports(&RomImage::from(&ram).unwrap()));
}

#[test]
fn nrom_memory_map() {
    let image = RomImage::from(&image_bytes(2, 1, 0)).unwrap();
    let mut mapper = Mappers::from(image, devices()).unwrap();

    // work memory, mirrored every 2 KiB
    mapper.write(0x0001, 0x11);
    assert_eq!(mapper.read(0x0001), 0x11);
    assert_eq!(mapper.read(0x0801), 0x11);
    assert_eq!(mapper.read(0x1801), 0x11);
    mapper.write(0x1fff, 0x22);
    assert_eq!(mapper.read(0x07ff), 0x22);

    // picture unit: the status register, and nothing else
    assert_eq!(mapper.read(0x2002), 0xa0);
    assert_eq!(mapper.read(0x2000), 0x00);
    mapper.write(0x2002, 0xff);
    assert_eq!(mapper.read(0x2002), 0xa0);

    // audio unit: the status register holds what was written
    assert_eq!(mapper.read(0x4015), 0x00);
    mapper.write(0x4015, 0x1f);
    assert_eq!(mapper.read(0x4015), 0x1f);
    mapper.write(0x4000, 0x55);
    assert_eq!(mapper.read(0x4000), 0x00);

    // program RAM
    assert_eq!(mapper.read(0x6000), 0x00);
    mapper.write(0x6000, 0x80);
    mapper.write(0x7fff, 0x81);
    assert_eq!(mapper.read(0x6000), 0x80);
    assert_eq!(mapper.read(0x7fff), 0x81);
    assert_eq!(mapper.read(0x0000), 0x00);

    // program memory
    assert_eq!(mapper.read(0x8001), 7);
    assert_eq!(mapper.read(0xbfff), (0x3fff * 7 % 251) as u8);
    assert_eq!(mapper.read(0xc000), (0x4000 * 7 % 251) as u8);
    assert_eq!(mapper.read(0xffff), (0x7fff * 7 % 251) as u8);
    mapper.write(0x8001, 0xee);
    mapper.write(0xc000, 0xee);
    assert_eq!(mapper.read(0x8001), 7);
    assert_eq!(mapper.read(0xc000), (0x4000 * 7 % 251) as u8);
}

#[test]
fn nrom_mirrors_a_single_bank() {
    let image = RomImage::from(&image_bytes(1, 1, 0)).unwrap();
    let mapper = Mappers::from(image, devices()).unwrap();
    for offset in [0x0000u16, 0x0001, 0x1234, 0x3fff] {
        assert_eq!(mapper.read(0x8000 + offset), mapper.read(0xc000 + offset));
        assert_eq!(mapper.read(0x8000 + offset), (offset as usize * 7 % 251) as u8);
    }
}

#[test]
fn nrom_hands_out_the_picture_unit() {
    let image = RomImage::from(&image_bytes(1, 1, 0)).unwrap();
    let mut mapper = Mappers::from(image, devices()).unwrap();
    for _ in 0..256 {
        mapper.get_ppu().cycle();
    }
    assert_eq!(mapper.read(0x2002), 0x20);
}
