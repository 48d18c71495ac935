use nes::cpu::decoder::Instruction;
use nes::cpu::instructions::{IllegalOperations, Operations};
use nes::cpu::{Mos6502, Status, RP2A03};
use nes::ppu::PPU;
use nes::roms::Mapper;
use std::cell::RefCell;

/// One access, as the bus saw it.
#[derive(Debug, PartialEq, Clone, Copy)]
enum Seen {
    Read(u16),
    Write(u16, u8),
}

/// A bus of 64 KiB of plain memory that remembers every access.
struct Recorder {
    memory: Vec<u8>,
    ppu: PPU,
    seen: RefCell<Vec<Seen>>,
}

impl Recorder {
    fn new() -> Self {
        Recorder { memory: vec![0; 0x10000], ppu: PPU::new(), seen: RefCell::new(Vec::new()) }
    }

    fn load(&mut self, address: u16, bytes: &[u8]) {
        for (i, byte) in bytes.iter().enumerate() {
            self.memory[address as usize + i] = *byte;
        }
    }

    fn seen(&self) -> Vec<Seen> {
        self.seen.borrow().clone()
    }
}

impl Mapper for Recorder {
    fn well_formed(&self) -> bool {
        self.memory.len() == 0x10000
    }

    fn peek(&self, address: u16) -> u8 {
        self.memory[address as usize]
    }

    fn poked(&self, address: u16, data: u8, after: &Self) -> bool {
        after.memory[address as usize] == data
    }

    fn ppu(&self) -> PPU {
        PPU::new()
    }

    fn with_ppu(&self, _ppu: PPU, _after: &Self) -> bool {
        true
    }

    fn read(&self, address: u16) -> u8 {
        self.seen.borrow_mut().push(Seen::Read(address));
        self.memory[address as usize]
    }

    fn write(&mut self, address: u16, data: u8) {
        self.seen.borrow_mut().push(Seen::Write(address, data));
        self.memory[address as usize] = data;
    }

    fn get_ppu(&mut self) -> &mut PPU {
        &mut self.ppu
    }
}

/// A processor about to fetch the first byte of `program`, loaded at `origin`.
fn cpu_at(origin: u16, program: &[u8]) -> Mos6502<Recorder> {
    let mut bus = Recorder::new();
    bus.load(origin, program);
    let mut cpu = Mos6502::new(bus);
    cpu.pc = origin;
    cpu
}

fn cpu_with(program: &[u8]) -> Mos6502<Recorder> {
    cpu_at(0x8000, program)
}

/// Runs one instruction and counts its cycles.
fn run_instruction(cpu: &mut Mos6502<Recorder>) -> u32 {
    let before = cpu.cycle;
    cpu.cycle();
    while !cpu.is_idle() {
        cpu.cycle();
    }
    cpu.cycle - before
}

fn flags(bits: u8) -> Status {
    Status::from_bits_truncate(bits)
}

#[test]
fn power_on_state() {
    let cpu = Mos6502::new(Recorder::new());
    assert_eq!(cpu.p.pushed(), 0x34);
    assert_eq!(cpu.p.bits(), 0x24);
    assert_eq!(cpu.a, 0x00);
    assert_eq!(cpu.x, 0x00);
    assert_eq!(cpu.y, 0x00);
    assert_eq!(cpu.s, 0xFD);
    assert_eq!(cpu.pc, 0xFFFC);
    assert_eq!(cpu.cycle, 0);
    assert!(cpu.is_idle());
}

#[test]
fn reset_fetches_the_reset_vector() {
    let mut bus = Recorder::new();
    bus.load(0xfffc, &[0x34, 0x12]);
    let mut cpu = Mos6502::new(bus);
    cpu.s = 0x10;
    cpu.p.interrupt_disable = false;
    cpu.reset();
    assert_eq!(cpu.s, 0xfd);
    assert!(cpu.p.interrupt_disable);
    cpu.cycle();
    cpu.cycle();
    assert_eq!(cpu.pc, 0x1234);
    assert!(cpu.is_idle());
    assert_eq!(cpu.cycle, 2);
    assert_eq!(cpu.mapper.seen(), vec![Seen::Read(0xfffc), Seen::Read(0xfffd)]);
}

#[test]
fn every_cycle_is_one_bus_access() {
    let mut cpu = cpu_with(&[0xa9, 0x01, 0x8d, 0x00, 0x02, 0xee, 0x00, 0x02, 0x00]);
    for n in 1..=30 {
        cpu.cycle();
        assert_eq!(cpu.mapper.seen().len(), n);
        assert_eq!(cpu.cycle as usize, n);
    }
}

#[test]
fn inx_wraps_to_zero() {
    let mut cpu = cpu_with(&[0xe8]);
    cpu.x = 0xff;
    assert_eq!(run_instruction(&mut cpu), 2);
    assert_eq!(cpu.x, 0x00);
    assert!(cpu.p.zero);
    assert!(!cpu.p.negative);
}

#[test]
fn adc_carries_into_the_sign() {
    let mut cpu = cpu_with(&[0x69, 0x01]);
    cpu.a = 0x7f;
    cpu.p.carry = false;
    assert_eq!(run_instruction(&mut cpu), 2);
    assert_eq!(cpu.a, 0x80);
    assert!(cpu.p.negative);
    assert!(cpu.p.overflow);
    assert!(!cpu.p.carry);
}

#[test]
fn adc_signed_overflow() {
    let mut cpu = cpu_with(&[0xa9, 0x50, 0x69, 0x50, 0x00]);
    run_instruction(&mut cpu);
    run_instruction(&mut cpu);
    assert_eq!(cpu.a, 0xa0);
    assert!(cpu.p.negative);
    assert!(cpu.p.overflow);
    assert!(!cpu.p.carry);
    assert!(!cpu.p.zero);
}

#[test]
fn adc_adds_the_carry_and_carries_out() {
    let mut cpu = cpu_with(&[0x69, 0xff]);
    cpu.a = 0x01;
    cpu.p.carry = true;
    run_instruction(&mut cpu);
    assert_eq!(cpu.a, 0x01);
    assert!(cpu.p.carry);
    assert!(!cpu.p.overflow);
    assert!(!cpu.p.zero);
}

#[test]
fn sbc_borrows() {
    let mut cpu = cpu_with(&[0xe9, 0xf0]);
    cpu.a = 0x50;
    cpu.p.carry = true;
    run_instruction(&mut cpu);
    assert_eq!(cpu.a, 0x60);
    assert!(!cpu.p.carry);
    assert!(!cpu.p.overflow);
}

#[test]
fn sbc_overflows() {
    let mut cpu = cpu_with(&[0xe9, 0xb0]);
    cpu.a = 0x50;
    cpu.p.carry = true;
    run_instruction(&mut cpu);
    assert_eq!(cpu.a, 0xa0);
    assert!(!cpu.p.carry);
    assert!(cpu.p.overflow);
    assert!(cpu.p.negative);
}

#[test]
fn sbc_without_carry_takes_one_more() {
    let mut cpu = cpu_with(&[0xe9, 0x01]);
    cpu.a = 0x03;
    cpu.p.carry = false;
    run_instruction(&mut cpu);
    assert_eq!(cpu.a, 0x01);
    assert!(cpu.p.carry);
}

#[test]
fn undocumented_sbc_is_sbc() {
    let mut cpu = cpu_with(&[0xeb, 0x01]);
    cpu.a = 0x03;
    cpu.p.carry = true;
    assert_eq!(run_instruction(&mut cpu), 2);
    assert_eq!(cpu.a, 0x02);
    assert!(cpu.p.carry);
}

#[test]
fn jmp_indirect_wraps_in_page() {
    let mut cpu = cpu_with(&[0x6c, 0xff, 0x10]);
    cpu.mapper.load(0x10ff, &[0x34, 0x56]);
    cpu.mapper.load(0x1000, &[0x12]);
    assert_eq!(run_instruction(&mut cpu), 5);
    assert_eq!(cpu.pc, 0x1234);
    assert_eq!(
        cpu.mapper.seen(),
        vec![
            Seen::Read(0x8000),
            Seen::Read(0x8001),
            Seen::Read(0x8002),
            Seen::Read(0x10ff),
            Seen::Read(0x1000),
        ]
    );
}

#[test]
fn jmp_absolute() {
    let mut cpu = cpu_with(&[0x4c, 0x34, 0x12]);
    assert_eq!(run_instruction(&mut cpu), 3);
    assert_eq!(cpu.pc, 0x1234);
}

#[test]
fn branch_from_01f0_crosses_a_page() {
    let mut cpu = cpu_at(0x01f0, &[0xd0, 0x20]);
    cpu.p.zero = false;
    assert_eq!(run_instruction(&mut cpu), 4);
    assert_eq!(cpu.pc, 0x0212);
}

#[test]
fn branch_page_cross() {
    let mut taken = cpu_at(0x00f0, &[0xd0, 0x20]);
    taken.p.zero = false;
    assert_eq!(run_instruction(&mut taken), 4);
    assert_eq!(taken.pc, 0x0112);
    assert_eq!(
        taken.mapper.seen(),
        vec![Seen::Read(0x00f0), Seen::Read(0x00f1), Seen::Read(0x00f2), Seen::Read(0x0012)]
    );

    let mut not_taken = cpu_at(0x00f0, &[0xd0, 0x20]);
    not_taken.p.zero = true;
    assert_eq!(run_instruction(&mut not_taken), 2);
    assert_eq!(not_taken.pc, 0x00f2);
}

#[test]
fn branch_within_a_page_takes_three_cycles() {
    let mut cpu = cpu_with(&[0xf0, 0x10]);
    cpu.p.zero = true;
    assert_eq!(run_instruction(&mut cpu), 3);
    assert_eq!(cpu.pc, 0x8012);
}

#[test]
fn branch_backwards() {
    let mut cpu = cpu_at(0x8010, &[0x90, 0xfc]);
    cpu.p.carry = false;
    assert_eq!(run_instruction(&mut cpu), 3);
    assert_eq!(cpu.pc, 0x800e);
}

#[test]
fn branch_backwards_across_a_page() {
    let mut cpu = cpu_at(0x8000, &[0xb0, 0x80]);
    cpu.p.carry = true;
    assert_eq!(run_instruction(&mut cpu), 4);
    assert_eq!(cpu.pc, 0x7f82);
}

#[test]
fn each_branch_tests_its_flag() {
    // opcode, flags that take the branch, flags that do not
    let cases: [(u8, u8, u8); 8] = [
        (0x10, 0x00, 0x80),
        (0x30, 0x80, 0x00),
        (0x50, 0x00, 0x40),
        (0x70, 0x40, 0x00),
        (0x90, 0x00, 0x01),
        (0xb0, 0x01, 0x00),
        (0xd0, 0x00, 0x02),
        (0xf0, 0x02, 0x00),
    ];
    for (opcode, taken, not_taken) in cases {
        let mut cpu = cpu_with(&[opcode, 0x05]);
        cpu.p = flags(taken);
        assert_eq!(run_instruction(&mut cpu), 3);
        assert_eq!(cpu.pc, 0x8007);

        let mut cpu = cpu_with(&[opcode, 0x05]);
        cpu.p = flags(not_taken);
        assert_eq!(run_instruction(&mut cpu), 2);
        assert_eq!(cpu.pc, 0x8002);
    }
}

#[test]
fn zero_page_x_wraps() {
    let mut cpu = cpu_with(&[0xb5, 0xff]);
    cpu.x = 1;
    cpu.mapper.load(0x0000, &[0x42]);
    cpu.mapper.load(0x0100, &[0x99]);
    assert_eq!(run_instruction(&mut cpu), 4);
    assert_eq!(cpu.a, 0x42);
    assert_eq!(
        cpu.mapper.seen(),
        vec![Seen::Read(0x8000), Seen::Read(0x8001), Seen::Read(0x00ff), Seen::Read(0x0000)]
    );
}

#[test]
fn zero_page_y_wraps() {
    let mut cpu = cpu_with(&[0xb6, 0x80]);
    cpu.y = 0x90;
    cpu.mapper.load(0x0010, &[0x42]);
    assert_eq!(run_instruction(&mut cpu), 4);
    assert_eq!(cpu.x, 0x42);
}

#[test]
fn rmw_dummy_write() {
    let mut cpu = cpu_with(&[0xee, 0x07, 0x20]);
    cpu.mapper.load(0x2007, &[0x41]);
    assert_eq!(run_instruction(&mut cpu), 6);
    assert_eq!(
        cpu.mapper.seen()[3..],
        [Seen::Read(0x2007), Seen::Write(0x2007, 0x41), Seen::Write(0x2007, 0x42)]
    );
}

#[test]
fn indexed_read_pays_for_a_page_crossing() {
    let mut same_page = cpu_with(&[0xbd, 0xf0, 0x20]);
    same_page.x = 0x01;
    same_page.mapper.load(0x20f1, &[0x11]);
    assert_eq!(run_instruction(&mut same_page), 4);
    assert_eq!(same_page.a, 0x11);

    let mut next_page = cpu_with(&[0xbd, 0xf0, 0x20]);
    next_page.x = 0x20;
    next_page.mapper.load(0x2110, &[0x22]);
    assert_eq!(run_instruction(&mut next_page), 5);
    assert_eq!(next_page.a, 0x22);
    assert_eq!(next_page.mapper.seen()[3..], [Seen::Read(0x2010), Seen::Read(0x2110)]);
}

#[test]
fn indexed_write_always_takes_the_fix_up_cycle() {
    let mut same_page = cpu_with(&[0x9d, 0xf0, 0x20]);
    same_page.x = 0x01;
    same_page.a = 0x77;
    assert_eq!(run_instruction(&mut same_page), 5);
    assert_eq!(same_page.mapper.seen()[3..], [Seen::Read(0x20f1), Seen::Write(0x20f1, 0x77)]);

    let mut next_page = cpu_with(&[0x9d, 0xf0, 0x20]);
    next_page.x = 0x20;
    next_page.a = 0x77;
    assert_eq!(run_instruction(&mut next_page), 5);
    assert_eq!(next_page.mapper.seen()[3..], [Seen::Read(0x2010), Seen::Write(0x2110, 0x77)]);
}

#[test]
fn indexed_read_modify_write_always_takes_the_fix_up_cycle() {
    let mut same_page = cpu_with(&[0xfe, 0xf0, 0x20]);
    same_page.x = 0x01;
    same_page.mapper.load(0x20f1, &[0x0f]);
    assert_eq!(run_instruction(&mut same_page), 7);
    assert_eq!(
        same_page.mapper.seen()[3..],
        [
            Seen::Read(0x20f1),
            Seen::Read(0x20f1),
            Seen::Write(0x20f1, 0x0f),
            Seen::Write(0x20f1, 0x10),
        ]
    );

    let mut next_page = cpu_with(&[0xfe, 0xf0, 0x20]);
    next_page.x = 0x20;
    next_page.mapper.load(0x2110, &[0xff]);
    assert_eq!(run_instruction(&mut next_page), 7);
    assert_eq!(
        next_page.mapper.seen()[3..],
        [
            Seen::Read(0x2010),
            Seen::Read(0x2110),
            Seen::Write(0x2110, 0xff),
            Seen::Write(0x2110, 0x00),
        ]
    );
    assert!(next_page.p.zero);
}

#[test]
fn indexed_indirect_wraps_on_page_zero() {
    let mut cpu = cpu_with(&[0xa1, 0xfe]);
    cpu.x = 0x01;
    cpu.mapper.load(0x00ff, &[0x34]);
    cpu.mapper.load(0x0000, &[0x12]);
    cpu.mapper.load(0x1234, &[0x5a]);
    assert_eq!(run_instruction(&mut cpu), 6);
    assert_eq!(cpu.a, 0x5a);
    assert_eq!(
        cpu.mapper.seen()[2..],
        [Seen::Read(0x00fe), Seen::Read(0x00ff), Seen::Read(0x0000), Seen::Read(0x1234)]
    );
}

#[test]
fn indirect_indexed_read() {
    let mut same_page = cpu_with(&[0xb1, 0x10]);
    same_page.y = 0x01;
    same_page.mapper.load(0x0010, &[0xf0, 0x20]);
    same_page.mapper.load(0x20f1, &[0x11]);
    assert_eq!(run_instruction(&mut same_page), 5);
    assert_eq!(same_page.a, 0x11);

    let mut next_page = cpu_with(&[0xb1, 0x10]);
    next_page.y = 0x20;
    next_page.mapper.load(0x0010, &[0xf0, 0x20]);
    next_page.mapper.load(0x2110, &[0x22]);
    assert_eq!(run_instruction(&mut next_page), 6);
    assert_eq!(next_page.a, 0x22);
}

#[test]
fn indirect_indexed_write_always_takes_six_cycles() {
    for y in [0x01u8, 0x20] {
        let mut cpu = cpu_with(&[0x91, 0x10]);
        cpu.y = y;
        cpu.a = 0x33;
        cpu.mapper.load(0x0010, &[0xf0, 0x20]);
        assert_eq!(run_instruction(&mut cpu), 6);
        assert_eq!(cpu.mapper.peek(0x20f0 + y as u16), 0x33);
    }
}

#[test]
fn pha_pla_round_trip() {
    let mut cpu = cpu_with(&[0x48, 0xa9, 0x00, 0x68]);
    cpu.a = 0x9c;
    assert_eq!(run_instruction(&mut cpu), 3);
    assert_eq!(cpu.s, 0xfc);
    assert_eq!(cpu.mapper.peek(0x01fd), 0x9c);
    run_instruction(&mut cpu);
    assert_eq!(cpu.a, 0x00);
    assert_eq!(run_instruction(&mut cpu), 4);
    assert_eq!(cpu.a, 0x9c);
    assert_eq!(cpu.s, 0xfd);
    assert!(cpu.p.negative);
    assert!(!cpu.p.zero);
}

#[test]
fn php_pushes_bits_4_and_5() {
    for bits in [0x00u8, 0xff, 0xc3, 0x10, 0x20] {
        let mut cpu = cpu_with(&[0x08]);
        cpu.p = flags(bits);
        assert_eq!(run_instruction(&mut cpu), 3);
        let pushed = cpu.mapper.peek(0x01fd);
        assert_eq!(pushed & 0x20, 0x20);
        assert_eq!(pushed & 0x10, 0x10);
        assert_eq!(pushed, (bits & 0xcf) | 0x30);
    }
}

#[test]
fn php_plp_round_trip() {
    let mut cpu = cpu_with(&[0x08, 0x28]);
    cpu.p = flags(0xc3);
    let before = cpu.p;
    run_instruction(&mut cpu);
    cpu.p = flags(0x00);
    assert_eq!(run_instruction(&mut cpu), 4);
    assert_eq!(cpu.p, before);
    assert_eq!(cpu.s, 0xfd);
}

#[test]
fn plp_ignores_bits_4_and_5() {
    let mut cpu = cpu_with(&[0x28]);
    cpu.s = 0xfc;
    cpu.mapper.load(0x01fd, &[0x00]);
    run_instruction(&mut cpu);
    assert_eq!(cpu.p.bits(), 0x20);
    assert_eq!(cpu.p.pushed(), 0x30);
}

#[test]
fn stack_wraps_around_page_one() {
    let mut cpu = cpu_with(&[0x48, 0x68]);
    cpu.s = 0x00;
    cpu.a = 0x5a;
    run_instruction(&mut cpu);
    assert_eq!(cpu.s, 0xff);
    assert_eq!(cpu.mapper.peek(0x0100), 0x5a);
    cpu.a = 0;
    run_instruction(&mut cpu);
    assert_eq!(cpu.s, 0x00);
    assert_eq!(cpu.a, 0x5a);
    for seen in cpu.mapper.seen() {
        let address = match seen {
            Seen::Read(address) => address,
            Seen::Write(address, _) => address,
        };
        assert!(address >= 0x8000 || (0x0100..=0x01ff).contains(&address));
    }
}

#[test]
fn brk_pushes_and_takes_the_vector() {
    let mut cpu = cpu_with(&[0x00, 0xff]);
    cpu.mapper.load(0xfffe, &[0x00, 0x90]);
    cpu.p = flags(0x01);
    assert_eq!(run_instruction(&mut cpu), 7);
    assert_eq!(cpu.pc, 0x9000);
    assert_eq!(cpu.s, 0xfa);
    assert!(cpu.p.interrupt_disable);
    assert_eq!(
        cpu.mapper.seen(),
        vec![
            Seen::Read(0x8000),
            Seen::Read(0x8001),
            Seen::Write(0x01fd, 0x80),
            Seen::Write(0x01fc, 0x02),
            Seen::Write(0x01fb, 0x35),
            Seen::Read(0xfffe),
            Seen::Read(0xffff),
        ]
    );
}

#[test]
fn jsr_and_rts() {
    let mut cpu = cpu_with(&[0x20, 0x34, 0x12, 0xea]);
    cpu.mapper.load(0x1234, &[0x60]);
    assert_eq!(run_instruction(&mut cpu), 6);
    assert_eq!(cpu.pc, 0x1234);
    assert_eq!(cpu.s, 0xfb);
    assert_eq!(cpu.mapper.peek(0x01fd), 0x80);
    assert_eq!(cpu.mapper.peek(0x01fc), 0x02);
    assert_eq!(
        cpu.mapper.seen(),
        vec![
            Seen::Read(0x8000),
            Seen::Read(0x8001),
            Seen::Read(0x01fd),
            Seen::Write(0x01fd, 0x80),
            Seen::Write(0x01fc, 0x02),
            Seen::Read(0x8002),
        ]
    );
    assert_eq!(run_instruction(&mut cpu), 6);
    assert_eq!(cpu.pc, 0x8003);
    assert_eq!(cpu.s, 0xfd);
}

#[test]
fn rti_pulls_flags_and_address() {
    let mut cpu = cpu_with(&[0x40]);
    cpu.s = 0xfa;
    cpu.mapper.load(0x01fb, &[0xd3, 0x34, 0x12]);
    assert_eq!(run_instruction(&mut cpu), 6);
    assert_eq!(cpu.pc, 0x1234);
    assert_eq!(cpu.s, 0xfd);
    assert_eq!(cpu.p.bits(), 0xe3);
}

#[test]
fn loads_set_zero_and_negative() {
    let mut cpu = cpu_with(&[0xa9, 0x00, 0xa2, 0x80, 0xa0, 0x7f]);
    run_instruction(&mut cpu);
    assert_eq!(cpu.a, 0x00);
    assert!(cpu.p.zero && !cpu.p.negative);
    run_instruction(&mut cpu);
    assert_eq!(cpu.x, 0x80);
    assert!(!cpu.p.zero && cpu.p.negative);
    run_instruction(&mut cpu);
    assert_eq!(cpu.y, 0x7f);
    assert!(!cpu.p.zero && !cpu.p.negative);
}

#[test]
fn stores_write_their_register() {
    let mut cpu = cpu_with(&[0x85, 0x10, 0x86, 0x11, 0x84, 0x12]);
    cpu.a = 1;
    cpu.x = 2;
    cpu.y = 3;
    assert_eq!(run_instruction(&mut cpu), 3);
    assert_eq!(run_instruction(&mut cpu), 3);
    assert_eq!(run_instruction(&mut cpu), 3);
    assert_eq!(cpu.mapper.peek(0x10), 1);
    assert_eq!(cpu.mapper.peek(0x11), 2);
    assert_eq!(cpu.mapper.peek(0x12), 3);
}

#[test]
fn transfers() {
    let mut cpu = cpu_with(&[0xaa, 0xa8, 0x8a, 0x98, 0xba, 0x9a]);
    cpu.a = 0x80;
    run_instruction(&mut cpu);
    assert_eq!(cpu.x, 0x80);
    assert!(cpu.p.negative);
    cpu.a = 0x00;
    run_instruction(&mut cpu);
    assert_eq!(cpu.y, 0x00);
    assert!(cpu.p.zero && !cpu.p.negative);
    cpu.x = 0x01;
    run_instruction(&mut cpu);
    assert_eq!(cpu.a, 0x01);
    assert!(!cpu.p.zero);
    cpu.y = 0xff;
    run_instruction(&mut cpu);
    assert_eq!(cpu.a, 0xff);
    assert!(cpu.p.negative);
    cpu.s = 0x00;
    run_instruction(&mut cpu);
    assert_eq!(cpu.x, 0x00);
    assert!(cpu.p.zero);
}

#[test]
fn txs_leaves_the_flags() {
    let mut cpu = cpu_with(&[0x9a]);
    cpu.x = 0x00;
    cpu.p = flags(0x80);
    assert_eq!(run_instruction(&mut cpu), 2);
    assert_eq!(cpu.s, 0x00);
    assert_eq!(cpu.p, flags(0x80));
}

#[test]
fn tay_sets_the_flags() {
    let mut cpu = cpu_with(&[0xa8]);
    cpu.a = 0x80;
    run_instruction(&mut cpu);
    assert_eq!(cpu.y, 0x80);
    assert!(cpu.p.negative);
    assert!(!cpu.p.zero);
}

#[test]
fn register_increments_and_decrements() {
    let mut cpu = cpu_with(&[0xca, 0x88, 0xc8, 0xe8]);
    cpu.x = 0x00;
    cpu.y = 0x01;
    run_instruction(&mut cpu);
    assert_eq!(cpu.x, 0xff);
    assert!(cpu.p.negative);
    run_instruction(&mut cpu);
    assert_eq!(cpu.y, 0x00);
    assert!(cpu.p.zero);
    run_instruction(&mut cpu);
    assert_eq!(cpu.y, 0x01);
    run_instruction(&mut cpu);
    assert_eq!(cpu.x, 0x00);
    assert!(cpu.p.zero);
}

#[test]
fn inc_leaves_the_carry() {
    let mut cpu = cpu_with(&[0xe6, 0x10, 0xc6, 0x10]);
    cpu.mapper.load(0x10, &[0xff]);
    cpu.p.carry = true;
    assert_eq!(run_instruction(&mut cpu), 5);
    assert_eq!(cpu.mapper.peek(0x10), 0x00);
    assert!(cpu.p.zero);
    assert!(cpu.p.carry);
    assert_eq!(run_instruction(&mut cpu), 5);
    assert_eq!(cpu.mapper.peek(0x10), 0xff);
    assert!(cpu.p.negative);
    assert!(cpu.p.carry);
}

#[test]
fn logic_operations() {
    let mut cpu = cpu_with(&[0x29, 0x0f, 0x09, 0x80, 0x49, 0xff]);
    cpu.a = 0x3c;
    run_instruction(&mut cpu);
    assert_eq!(cpu.a, 0x0c);
    run_instruction(&mut cpu);
    assert_eq!(cpu.a, 0x8c);
    assert!(cpu.p.negative);
    run_instruction(&mut cpu);
    assert_eq!(cpu.a, 0x73);
    assert!(!cpu.p.negative);
}

#[test]
fn compare_sets_carry_zero_and_negative() {
    let mut cpu = cpu_with(&[0xc9, 0x20, 0xc9, 0x10, 0xe0, 0x01, 0xc0, 0xff]);
    cpu.a = 0x10;
    run_instruction(&mut cpu);
    assert!(!cpu.p.carry && !cpu.p.zero && cpu.p.negative);
    run_instruction(&mut cpu);
    assert!(cpu.p.carry && cpu.p.zero && !cpu.p.negative);
    cpu.x = 0x02;
    run_instruction(&mut cpu);
    assert!(cpu.p.carry && !cpu.p.zero && !cpu.p.negative);
    cpu.y = 0x00;
    run_instruction(&mut cpu);
    assert!(!cpu.p.carry && !cpu.p.zero && !cpu.p.negative);
    assert_eq!(cpu.a, 0x10);
}

#[test]
fn bit_copies_bits_7_and_6() {
    let mut cpu = cpu_with(&[0x24, 0x10, 0x2c, 0x00, 0x02]);
    cpu.a = 0x0f;
    cpu.mapper.load(0x10, &[0xc0]);
    cpu.mapper.load(0x0200, &[0x01]);
    assert_eq!(run_instruction(&mut cpu), 3);
    assert!(cpu.p.zero && cpu.p.negative && cpu.p.overflow);
    assert_eq!(run_instruction(&mut cpu), 4);
    assert!(!cpu.p.zero && !cpu.p.negative && !cpu.p.overflow);
    assert_eq!(cpu.a, 0x0f);
}

#[test]
fn shifts_on_the_accumulator() {
    let mut cpu = cpu_with(&[0x0a, 0x4a, 0x2a, 0x6a]);
    cpu.a = 0x40;
    assert_eq!(run_instruction(&mut cpu), 2);
    assert_eq!(cpu.a, 0x80);
    assert!(cpu.p.negative && !cpu.p.carry);
    cpu.a = 0x01;
    assert_eq!(run_instruction(&mut cpu), 2);
    assert_eq!(cpu.a, 0x00);
    assert!(cpu.p.zero && cpu.p.carry && !cpu.p.negative);
    cpu.a = 0x80;
    cpu.p.carry = false;
    run_instruction(&mut cpu);
    assert_eq!(cpu.a, 0x00);
    assert!(cpu.p.zero && cpu.p.carry);
    cpu.a = 0x01;
    cpu.p.carry = true;
    run_instruction(&mut cpu);
    assert_eq!(cpu.a, 0x80);
    assert!(cpu.p.negative && cpu.p.carry);
    assert_eq!(cpu.pc, 0x8004);
}

#[test]
fn lsr_sets_the_flags_from_the_result() {
    let mut cpu = cpu_with(&[0x46, 0x10]);
    cpu.a = 0x80;
    cpu.mapper.load(0x10, &[0x02]);
    assert_eq!(run_instruction(&mut cpu), 5);
    assert_eq!(cpu.mapper.peek(0x10), 0x01);
    assert!(!cpu.p.negative);
    assert!(!cpu.p.zero);
    assert!(!cpu.p.carry);
}

#[test]
fn rotates_in_memory() {
    let mut cpu = cpu_with(&[0x26, 0x10, 0x66, 0x10]);
    cpu.mapper.load(0x10, &[0x81]);
    cpu.p.carry = true;
    run_instruction(&mut cpu);
    assert_eq!(cpu.mapper.peek(0x10), 0x03);
    assert!(cpu.p.carry);
    run_instruction(&mut cpu);
    assert_eq!(cpu.mapper.peek(0x10), 0x81);
    assert!(cpu.p.carry && cpu.p.negative);
}

#[test]
fn flag_instructions() {
    let mut cpu = cpu_with(&[0x38, 0x18, 0xf8, 0xd8, 0x78, 0x58, 0xb8]);
    cpu.p = flags(0x40);
    run_instruction(&mut cpu);
    assert!(cpu.p.carry);
    run_instruction(&mut cpu);
    assert!(!cpu.p.carry);
    run_instruction(&mut cpu);
    assert!(cpu.p.decimal);
    run_instruction(&mut cpu);
    assert!(!cpu.p.decimal);
    run_instruction(&mut cpu);
    assert!(cpu.p.interrupt_disable);
    run_instruction(&mut cpu);
    assert!(!cpu.p.interrupt_disable);
    assert!(cpu.p.overflow);
    run_instruction(&mut cpu);
    assert!(!cpu.p.overflow);
    assert_eq!(cpu.cycle, 14);
}

#[test]
fn lax_loads_a_and_x() {
    let mut cpu = cpu_with(&[0xa7, 0x10]);
    cpu.mapper.load(0x10, &[0x80]);
    assert_eq!(run_instruction(&mut cpu), 3);
    assert_eq!(cpu.a, 0x80);
    assert_eq!(cpu.x, 0x80);
    assert!(cpu.p.negative);
}

#[test]
fn sax_stores_a_and_x() {
    let mut cpu = cpu_with(&[0x87, 0x10]);
    cpu.a = 0xf0;
    cpu.x = 0x3c;
    cpu.p = flags(0x00);
    assert_eq!(run_instruction(&mut cpu), 3);
    assert_eq!(cpu.mapper.peek(0x10), 0x30);
    assert_eq!(cpu.p, flags(0x00));
}

#[test]
fn slo_shifts_and_ors() {
    let mut cpu = cpu_with(&[0x07, 0x10]);
    cpu.a = 0x01;
    cpu.mapper.load(0x10, &[0x81]);
    assert_eq!(run_instruction(&mut cpu), 5);
    assert_eq!(cpu.mapper.peek(0x10), 0x02);
    assert_eq!(cpu.a, 0x03);
    assert!(cpu.p.carry);
}

#[test]
fn rla_rotates_and_ands() {
    let mut cpu = cpu_with(&[0x27, 0x10]);
    cpu.a = 0xff;
    cpu.p.carry = true;
    cpu.mapper.load(0x10, &[0x81]);
    run_instruction(&mut cpu);
    assert_eq!(cpu.mapper.peek(0x10), 0x03);
    assert_eq!(cpu.a, 0x03);
    assert!(cpu.p.carry);
}

#[test]
fn sre_shifts_and_eors() {
    let mut cpu = cpu_with(&[0x47, 0x10]);
    cpu.a = 0xff;
    cpu.mapper.load(0x10, &[0x03]);
    run_instruction(&mut cpu);
    assert_eq!(cpu.mapper.peek(0x10), 0x01);
    assert_eq!(cpu.a, 0xfe);
    assert!(cpu.p.carry && cpu.p.negative);
}

#[test]
fn rra_rotates_and_adds() {
    let mut cpu = cpu_with(&[0x67, 0x10]);
    cpu.a = 0x10;
    cpu.p.carry = false;
    cpu.mapper.load(0x10, &[0x03]);
    run_instruction(&mut cpu);
    assert_eq!(cpu.mapper.peek(0x10), 0x01);
    assert_eq!(cpu.a, 0x12);
    assert!(!cpu.p.carry);
}

#[test]
fn dcp_decrements_and_compares() {
    let mut cpu = cpu_with(&[0xc7, 0x10]);
    cpu.a = 0x0f;
    cpu.mapper.load(0x10, &[0x10]);
    run_instruction(&mut cpu);
    assert_eq!(cpu.mapper.peek(0x10), 0x0f);
    assert!(cpu.p.zero && cpu.p.carry);
    assert_eq!(cpu.a, 0x0f);
}

#[test]
fn isc_increments_and_subtracts() {
    let mut cpu = cpu_with(&[0xe7, 0x10]);
    cpu.a = 0x20;
    cpu.p.carry = true;
    cpu.mapper.load(0x10, &[0x0f]);
    run_instruction(&mut cpu);
    assert_eq!(cpu.mapper.peek(0x10), 0x10);
    assert_eq!(cpu.a, 0x10);
    assert!(cpu.p.carry);
}

#[test]
fn undocumented_read_modify_write_modes() {
    // (indirect),Y and absolute,Y exist only for the undocumented operations
    let mut cpu = cpu_with(&[0x13, 0x10, 0x1b, 0x00, 0x03]);
    cpu.y = 0x02;
    cpu.mapper.load(0x10, &[0x00, 0x02]);
    cpu.mapper.load(0x0202, &[0x01]);
    cpu.mapper.load(0x0302, &[0x02]);
    assert_eq!(run_instruction(&mut cpu), 8);
    assert_eq!(cpu.mapper.peek(0x0202), 0x02);
    assert_eq!(run_instruction(&mut cpu), 7);
    assert_eq!(cpu.mapper.peek(0x0302), 0x04);
    assert_eq!(cpu.a, 0x06);
}

#[test]
fn unrecognized_opcode_is_a_two_cycle_nop() {
    assert_eq!(Instruction::decode(0x02), Instruction::Unrecognized);
    let mut cpu = cpu_with(&[0x02, 0xea]);
    let before = (cpu.a, cpu.x, cpu.y, cpu.s, cpu.p);
    assert_eq!(run_instruction(&mut cpu), 2);
    assert_eq!(cpu.pc, 0x8001);
    assert_eq!(cpu.opcode(), 0x02);
    assert_eq!((cpu.a, cpu.x, cpu.y, cpu.s, cpu.p), before);
    assert_eq!(cpu.mapper.seen(), vec![Seen::Read(0x8000), Seen::Read(0x8001)]);
}

#[test]
fn nop_variants_take_their_bytes_and_cycles() {
    // opcode, bytes, cycles
    let cases: [(u8, u16, u32); 7] = [
        (0xea, 1, 2),
        (0x1a, 1, 2),
        (0x80, 2, 2),
        (0x04, 2, 3),
        (0x14, 2, 4),
        (0x0c, 3, 4),
        (0x1c, 3, 4),
    ];
    for (opcode, bytes, cycles) in cases {
        let mut cpu = cpu_with(&[opcode, 0x10, 0x20]);
        assert_eq!(run_instruction(&mut cpu), cycles);
        assert_eq!(cpu.pc, 0x8000 + bytes);
    }
}

const DOCUMENTED_CYCLES: [u32; 256] = [
    7, 6, 2, 8, 3, 3, 5, 5, 3, 2, 2, 2, 4, 4, 6, 6, //
    2, 5, 2, 8, 4, 4, 6, 6, 2, 4, 2, 7, 4, 4, 7, 7, //
    6, 6, 2, 8, 3, 3, 5, 5, 4, 2, 2, 2, 4, 4, 6, 6, //
    2, 5, 2, 8, 4, 4, 6, 6, 2, 4, 2, 7, 4, 4, 7, 7, //
    6, 6, 2, 8, 3, 3, 5, 5, 3, 2, 2, 2, 3, 4, 6, 6, //
    2, 5, 2, 8, 4, 4, 6, 6, 2, 4, 2, 7, 4, 4, 7, 7, //
    6, 6, 2, 8, 3, 3, 5, 5, 4, 2, 2, 2, 5, 4, 6, 6, //
    2, 5, 2, 8, 4, 4, 6, 6, 2, 4, 2, 7, 4, 4, 7, 7, //
    2, 6, 2, 6, 3, 3, 3, 3, 2, 2, 2, 2, 4, 4, 4, 4, //
    2, 6, 2, 6, 4, 4, 4, 4, 2, 5, 2, 5, 5, 5, 5, 5, //
    2, 6, 2, 6, 3, 3, 3, 3, 2, 2, 2, 2, 4, 4, 4, 4, //
    2, 5, 2, 5, 4, 4, 4, 4, 2, 4, 2, 4, 4, 4, 4, 4, //
    2, 6, 2, 8, 3, 3, 5, 5, 2, 2, 2, 2, 4, 4, 6, 6, //
    2, 5, 2, 8, 4, 4, 6, 6, 2, 4, 2, 7, 4, 4, 7, 7, //
    2, 6, 2, 8, 3, 3, 5, 5, 2, 2, 2, 2, 4, 4, 6, 6, //
    2, 5, 2, 8, 4, 4, 6, 6, 2, 4, 2, 7, 4, 4, 7, 7, //
];

#[test]
fn every_recognized_opcode_takes_its_documented_cycles() {
    for opcode in 0..=255u8 {
        if Instruction::decode(opcode) == Instruction::Unrecognized {
            continue;
        }
        let mut cpu = cpu_with(&[opcode, 0x10, 0x20]);
        // no branch is taken: each finds its flag the other way
        cpu.p = match opcode {
            0x10 | 0x50 | 0x90 | 0xd0 => flags(0xff),
            _ => flags(0x00),
        };
        assert_eq!(run_instruction(&mut cpu), DOCUMENTED_CYCLES[opcode as usize], "{:02x}", opcode);
    }
}

#[test]
fn recognized_opcodes_are_231() {
    let recognized = (0..=255u8)
        .filter(|opcode| Instruction::decode(*opcode) != Instruction::Unrecognized)
        .count();
    assert_eq!(recognized, 231);
}

#[test]
fn status_byte_round_trip() {
    for bits in 0..=255u8 {
        let status = Status::from_bits_truncate(bits);
        assert_eq!(status.bits(), (bits & 0xcf) | 0x20);
        assert_eq!(status.pushed(), bits | 0x30);
        assert_eq!(Status::from_bits_truncate(status.pushed()), status);
    }
}

#[test]
fn program_counter_wraps() {
    let mut cpu = cpu_at(0xffff, &[0xea]);
    assert_eq!(run_instruction(&mut cpu), 2);
    assert_eq!(cpu.pc, 0x0000);
}

#[test]
fn adc_adds_every_pair_of_bytes() {
    let mut cpu = cpu_with(&[]);
    for a in 0..=255u8 {
        for m in 0..=255u8 {
            for carry in [false, true] {
                cpu.a = a;
                cpu.p = flags(0x00);
                cpu.p.carry = carry;
                cpu.adc(m);
                let sum = a as u32 + m as u32 + carry as u32;
                let signed = a as i8 as i32 + m as i8 as i32 + carry as i32;
                assert_eq!(cpu.a as u32, sum % 256);
                assert_eq!(cpu.p.carry, sum > 255);
                assert_eq!(cpu.p.overflow, signed > 127 || signed < -128);
                assert_eq!(cpu.p.zero, cpu.a == 0);
                assert_eq!(cpu.p.negative, cpu.a >= 0x80);
            }
        }
    }
}

#[test]
fn sbc_subtracts_every_pair_of_bytes() {
    let mut cpu = cpu_with(&[]);
    for a in 0..=255u8 {
        for m in 0..=255u8 {
            for carry in [false, true] {
                cpu.a = a;
                cpu.p = flags(0x00);
                cpu.p.carry = carry;
                cpu.sbc(m);
                let difference = a as i32 - m as i32 - (1 - carry as i32);
                let signed = a as i8 as i32 - m as i8 as i32 - (1 - carry as i32);
                assert_eq!(cpu.a as i32, difference.rem_euclid(256));
                assert_eq!(cpu.p.carry, difference >= 0);
                assert_eq!(cpu.p.overflow, signed > 127 || signed < -128);
                assert_eq!(cpu.p.zero, cpu.a == 0);
                assert_eq!(cpu.p.negative, cpu.a >= 0x80);
            }
        }
    }
}

#[test]
fn shifts_and_rotations_of_every_byte() {
    let mut cpu = cpu_with(&[]);
    for data in 0..=255u8 {
        for carry in [false, true] {
            cpu.p = flags(carry as u8);
            assert_eq!(cpu.asl(data), data.wrapping_mul(2));
            assert_eq!(cpu.p.carry, data >= 0x80);

            cpu.p = flags(carry as u8);
            assert_eq!(cpu.lsr(data), data / 2);
            assert_eq!(cpu.p.carry, data % 2 == 1);
            assert!(!cpu.p.negative);
            assert_eq!(cpu.p.zero, data / 2 == 0);

            cpu.p = flags(carry as u8);
            let left = cpu.rol(data);
            assert_eq!(left, data.wrapping_mul(2) + carry as u8);
            assert_eq!(cpu.p.carry, data >= 0x80);
            assert_eq!(cpu.ror(left), data);
            assert_eq!(cpu.p.carry, carry);

            cpu.p = flags(carry as u8);
            let right = cpu.ror(data);
            assert_eq!(right, data / 2 + 0x80 * carry as u8);
            assert_eq!(cpu.p.carry, data % 2 == 1);
            assert_eq!(cpu.rol(right), data);
            assert_eq!(cpu.p.carry, carry);
        }
    }
}

#[test]
fn compare_of_every_pair_of_bytes() {
    let mut cpu = cpu_with(&[]);
    for a in 0..=255u8 {
        for m in 0..=255u8 {
            cpu.a = a;
            cpu.x = a;
            cpu.y = a;
            for which in 0..3 {
                cpu.p = flags(0x40);
                match which {
                    0 => cpu.cmp(m),
                    1 => cpu.cpx(m),
                    _ => cpu.cpy(m),
                }
                assert_eq!(cpu.p.carry, a >= m);
                assert_eq!(cpu.p.zero, a == m);
                assert_eq!(cpu.p.negative, a.wrapping_sub(m) >= 0x80);
                assert!(cpu.p.overflow);
            }
            assert_eq!((cpu.a, cpu.x, cpu.y), (a, a, a));
        }
    }
}

#[test]
fn undocumented_operations_join_two() {
    let mut cpu = cpu_with(&[]);
    let mut other = cpu_with(&[]);
    for data in [0x00u8, 0x01, 0x7f, 0x80, 0xaa, 0xff] {
        for a in [0x00u8, 0x0f, 0x80, 0xff] {
            for carry in [false, true] {
                let start = |cpu: &mut Mos6502<Recorder>| {
                    cpu.a = a;
                    cpu.p = flags(carry as u8);
                };

                start(&mut cpu);
                start(&mut other);
                let result = cpu.slo(data);
                assert_eq!(result, other.asl(data));
                other.ora(result);
                assert_eq!((cpu.a, cpu.p), (other.a, other.p));

                start(&mut cpu);
                start(&mut other);
                let result = cpu.rla(data);
                assert_eq!(result, other.rol(data));
                other.and(result);
                assert_eq!((cpu.a, cpu.p), (other.a, other.p));

                start(&mut cpu);
                start(&mut other);
                let result = cpu.sre(data);
                assert_eq!(result, other.lsr(data));
                other.eor(result);
                assert_eq!((cpu.a, cpu.p), (other.a, other.p));

                start(&mut cpu);
                start(&mut other);
                let result = cpu.rra(data);
                assert_eq!(result, other.ror(data));
                other.adc(result);
                assert_eq!((cpu.a, cpu.p), (other.a, other.p));

                start(&mut cpu);
                start(&mut other);
                let result = cpu.dcp(data);
                assert_eq!(result, other.dec(data));
                other.cmp(result);
                assert_eq!((cpu.a, cpu.p), (other.a, other.p));

                start(&mut cpu);
                start(&mut other);
                let result = cpu.isc(data);
                assert_eq!(result, other.inc(data));
                other.sbc(result);
                assert_eq!((cpu.a, cpu.p), (other.a, other.p));
            }
        }
    }
}

#[test]
fn the_processor_shows_its_state() {
    let mut cpu = cpu_with(&[0xa9, 0x80, 0xaa]);
    cpu.start_at(0x8000);
    run_instruction(&mut cpu);
    run_instruction(&mut cpu);
    let registers = cpu.registers();
    assert_eq!(registers.a, 0x80);
    assert_eq!(registers.x, 0x80);
    assert_eq!(registers.y, 0x00);
    assert_eq!(registers.s, 0xfd);
    assert_eq!(registers.p, cpu.p);
    assert!(registers.p.negative);
    assert_eq!(cpu.program_counter(), 0x8003);
    assert_eq!(cpu.cycles(), 4);
    cpu.start_at(0xc000);
    assert_eq!(cpu.pc, 0xc000);
}

#[test]
fn read_and_write_go_to_the_bus() {
    let mut cpu = cpu_with(&[]);
    cpu.write(0x1234, 0x56);
    assert_eq!(cpu.read(0x1234), 0x56);
    assert_eq!(cpu.mapper.seen(), vec![Seen::Write(0x1234, 0x56), Seen::Read(0x1234)]);
    assert_eq!(cpu.cycle, 0);
}
