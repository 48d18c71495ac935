use nes::cpu::decoder::Instruction;
use nes::cpu::RP2A03;
use nes::roms::{Mapper, Mappers, RomImage};
use nes::system::ConsoleSystem;

/// An image of 32 KiB of program memory that holds `program` at `0x8000`,
/// with the reset vector pointing there and the interrupt vector at
/// `0x9000`.
fn image_with(program: &[u8]) -> RomImage {
    let mut bytes = vec![0x4e, 0x45, 0x53, 0x1a, 2, 0, 0, 0, 0, 0, 0, 0, 0, 0, 0, 0];
    let mut memory = vec![0xeau8; 0x8000];
    memory[..program.len()].copy_from_slice(program);
    memory[0x7ffc] = 0x00;
    memory[0x7ffd] = 0x80;
    memory[0x7ffe] = 0x00;
    memory[0x7fff] = 0x90;
    bytes.extend_from_slice(&memory);
    let image = RomImage::from(&bytes).unwrap();
    assert!(Mappers::supports(&image));
    assert_eq!(image.header.mapper, 0);
    image
}

/// A program that reports as the test programs of the `instr_test` suite
/// do: `0x80` at `0x6000` while it runs, then the marker `DE B0 61`, a
/// text, and the result at `0x6000`.
fn reporting_program() -> Vec<u8> {
    let mut program = vec![
        0xa9, 0x80, 0x8d, 0x00, 0x60, // LDA #$80; STA $6000
        0xa2, 0x05, // LDX #5
        0xca, // loop: DEX
        0xd0, 0xfd, // BNE loop
    ];
    let stores: [(u8, u16); 10] = [
        (0xde, 0x6001),
        (0xb0, 0x6002),
        (0x61, 0x6003),
        (b'P', 0x6004),
        (b'a', 0x6005),
        (b's', 0x6006),
        (b's', 0x6007),
        (b'\n', 0x6008),
        (0x00, 0x6009),
        (0x00, 0x6000),
    ];
    for (value, address) in stores {
        program.extend_from_slice(&[0xa9, value, 0x8d, address as u8, (address >> 8) as u8]);
    }
    let spin = 0x8000 + program.len() as u16;
    program.extend_from_slice(&[0x4c, spin as u8, (spin >> 8) as u8]); // JMP *
    program
}

#[test]
fn console_at_power_on() {
    let system = ConsoleSystem::new(image_with(&[]));
    assert_eq!(system.cpu.a, 0);
    assert_eq!(system.cpu.x, 0);
    assert_eq!(system.cpu.y, 0);
    assert_eq!(system.cpu.s, 0xfd);
    assert_eq!(system.cpu.p.pushed(), 0x34);
    assert_eq!(system.cpu.cycle, 0);
    assert_eq!(system.cpu.mapper.read(0x0000), 0);
    assert_eq!(system.cpu.mapper.read(0x2002), 0xa0);
    assert_eq!(system.cpu.mapper.read(0x4015), 0);
    assert_eq!(system.cpu.mapper.read(0xfffc), 0x00);
    assert_eq!(system.cpu.mapper.read(0xfffd), 0x80);
}

#[test]
fn console_reset_leads_to_the_program() {
    let mut system = ConsoleSystem::new(image_with(&[0xa9, 0x42]));
    system.reset();
    system.cycle();
    system.cycle();
    assert_eq!(system.cpu.pc, 0x8000);
    assert_eq!(system.cpu.cycle, 2);
    system.cycle();
    system.cycle();
    assert_eq!(system.cpu.a, 0x42);
    assert_eq!(system.cpu.pc, 0x8002);
}

#[test]
fn reporting_program_runs_to_its_result() {
    let mut system = ConsoleSystem::new(image_with(&reporting_program()));
    system.reset();

    let mut budget = 10_000;
    while system.cpu.mapper.read(0x6000) != 0x80 {
        system.cycle();
        budget -= 1;
        assert!(budget > 0);
    }
    while system.cpu.mapper.read(0x6000) == 0x80 {
        system.cycle();
        budget -= 1;
        assert!(budget > 0);
    }

    assert_eq!(system.cpu.mapper.read(0x6000), 0x00);
    assert_eq!(system.cpu.mapper.read(0x6001), 0xde);
    assert_eq!(system.cpu.mapper.read(0x6002), 0xb0);
    assert_eq!(system.cpu.mapper.read(0x6003), 0x61);
    let mut text = String::new();
    let mut address = 0x6004;
    while system.cpu.mapper.read(address) != 0 {
        text.push(system.cpu.mapper.read(address) as char);
        address += 1;
    }
    assert_eq!(text, "Pass\n");
    // reset 2, LDA 2, STA 4, LDX 2, five times DEX and BNE: 4 taken at 5
    // cycles and the last at 4, then ten times LDA and STA
    assert_eq!(system.cpu.cycle, 2 + 2 + 4 + 2 + 4 * 5 + 4 + 10 * 6);
}

#[test]
fn console_runs_on_the_stack_in_work_memory() {
    // LDA #$5A; PHA; LDA #$00; PLA; JSR $8010; ...; $8010: RTS
    let mut program = vec![0xa9, 0x5a, 0x48, 0xa9, 0x00, 0x68, 0x20, 0x10, 0x80, 0xea];
    program.resize(0x10, 0xea);
    program.push(0x60);
    let mut system = ConsoleSystem::new(image_with(&program));
    system.reset();
    for _ in 0..(2 + 2 + 3 + 2 + 4) {
        system.cycle();
    }
    assert_eq!(system.cpu.a, 0x5a);
    assert_eq!(system.cpu.s, 0xfd);
    assert_eq!(system.cpu.mapper.read(0x01fd), 0x5a);
    for _ in 0..6 {
        system.cycle();
    }
    assert_eq!(system.cpu.pc, 0x8010);
    assert_eq!(system.cpu.mapper.read(0x01fd), 0x80);
    assert_eq!(system.cpu.mapper.read(0x01fc), 0x08);
    for _ in 0..6 {
        system.cycle();
    }
    assert_eq!(system.cpu.pc, 0x8009);
    assert!(system.cpu.is_idle());
}

#[test]
fn console_sees_unrecognized_opcodes() {
    let mut system = ConsoleSystem::new(image_with(&[0x02, 0xa9, 0x01]));
    system.reset();
    for _ in 0..3 {
        system.cycle();
    }
    assert_eq!(system.cpu.opcode(), 0x02);
    assert_eq!(Instruction::decode(system.cpu.opcode()), Instruction::Unrecognized);
    for _ in 0..3 {
        system.cycle();
    }
    assert_eq!(system.cpu.a, 0x01);
}
