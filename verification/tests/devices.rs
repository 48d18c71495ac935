use nes::address::Address;
use nes::apu::Alu2A03;
use nes::bus::BusDevice;
use nes::memory::{RAM, ROM};
use nes::ppu::{Status, PPU, SPRITE0_HIT, SPRITE_OVERFLOW, VBLANK};

#[test]
fn address_bytes() {
    let mut address: u16 = 0x1234;
    assert_eq!(address.get_low(), 0x34);
    assert_eq!(address.get_high(), 0x12);
    address.set_low(0xff);
    assert_eq!(address, 0x12ff);
    address.set_high(0x00);
    assert_eq!(address, 0x00ff);
    assert_eq!(<u16 as Address>::from_high_low(0xab, 0xcd), 0xabcd);
    assert_eq!(<u16 as Address>::from_high_low(0x00, 0x00), 0x0000);
    assert_eq!(<u16 as Address>::from_high_low(0xff, 0xff), 0xffff);
}

#[test]
fn ram_starts_empty_and_keeps_writes() {
    let mut ram = RAM::<16>::new(0, 0x0f);
    for address in 0..16 {
        assert_eq!(ram.read(address), 0);
    }
    ram.write(3, 0x33);
    assert_eq!(ram.read(3), 0x33);
    assert_eq!(ram.read(4), 0);
    assert_eq!(ram.bank[3], 0x33);
}

#[test]
fn ram_mirrors_by_its_mask() {
    let mut ram = RAM::<2048>::new(0, 0x7ff);
    ram.write(0x0801, 0x5a);
    assert_eq!(ram.read(0x0001), 0x5a);
    assert_eq!(ram.read(0x1001), 0x5a);
    assert_eq!(ram.read(0xf801), 0x5a);
}

#[test]
fn ram_counts_from_its_offset() {
    let mut ram = RAM::<0x2000>::new(0x6000, 0x1fff);
    ram.write(0x6000, 1);
    ram.write(0x7fff, 2);
    assert_eq!(ram.bank[0], 1);
    assert_eq!(ram.bank[0x1fff], 2);
    assert_eq!(ram.read(0x6000), 1);
    // below the offset the distance is counted around the address space
    assert_eq!(ram.read(0x4000), 1);
}

#[test]
fn rom_reads_and_ignores_writes() {
    let data: Vec<u8> = (0..=255).collect();
    let mut rom = ROM::<256>::new(&data, 0x8000, 0xff);
    assert_eq!(rom.read(0x8000), 0);
    assert_eq!(rom.read(0x80ff), 255);
    assert_eq!(rom.read(0x8105), 5);
    rom.write(0x8000, 0x99);
    assert_eq!(rom.read(0x8000), 0);
    assert_eq!(rom.bank, data);
}

#[test]
fn audio_status_register() {
    let mut apu = Alu2A03 { fake_status: 0 };
    assert_eq!(apu.read(0x4015), 0);
    apu.write(0x4015, 0x0f);
    assert_eq!(apu.read(0x4015), 0x0f);
    assert_eq!(apu.fake_status, 0x0f);
    apu.write(0x4014, 0xff);
    assert_eq!(apu.read(0x4014), 0);
    assert_eq!(apu.read(0x4015), 0x0f);
}

#[test]
fn picture_unit_at_power_on() {
    let ppu = PPU::new();
    assert_eq!(ppu.status, Status { sprite_overflow: true, sprite0_hit: false, vblank: true });
    assert_eq!(ppu.status.bits(), VBLANK | SPRITE_OVERFLOW);
    assert_eq!(ppu.read(0x2002), 0xa0);
    assert_eq!(ppu.read(0x2000), 0);
    assert_eq!(ppu.read(0x2007), 0);
}

#[test]
fn picture_unit_status_bits() {
    let all = Status { sprite_overflow: true, sprite0_hit: true, vblank: true };
    assert_eq!(all.bits(), 0xe0);
    let none = Status { sprite_overflow: false, sprite0_hit: false, vblank: false };
    assert_eq!(none.bits(), 0x00);
    let hit = Status { sprite_overflow: false, sprite0_hit: true, vblank: false };
    assert_eq!(hit.bits(), SPRITE0_HIT);
}

#[test]
fn vertical_blank_turns_over_every_256_cycles() {
    let mut ppu = PPU::new();
    for _ in 0..255 {
        ppu.cycle();
        assert!(ppu.status.vblank);
    }
    ppu.cycle();
    assert!(!ppu.status.vblank);
    assert_eq!(ppu.read(0x2002), 0x20);
    for _ in 0..256 {
        ppu.cycle();
    }
    assert!(ppu.status.vblank);
    // the counter wraps after 65536 cycles and goes on
    for _ in 0..65536 {
        ppu.cycle();
    }
    assert!(ppu.status.vblank);
}

#[test]
fn picture_unit_reset_and_write_leave_the_status() {
    let mut ppu = PPU::new();
    ppu.write(0x2002, 0x00);
    ppu.write(0x2000, 0xff);
    ppu.reset();
    assert_eq!(ppu.read(0x2002), 0xa0);
}
