use nes_cpu::bus::cpu_bus::CpuBus;
use nes_cpu::bus::ppu_bus::PpuBus;
use nes_cpu::cartridge::Cartridge;
use nes_cpu::cpu::CPU;
use nes_cpu::errors::AppError;
use nes_cpu::instructions::AddressingMode;
use nes_cpu::instructions::Instruction;
use nes_cpu::instructions::Opcode;
use nes_cpu::memory::Memory;
use nes_cpu::ppu::PPU;
use nes_cpu::status::Flag;
use nes_cpu::status::Status;
use std::rc::Rc;

fn new_bus() -> CpuBus {
    let mut bytes = vec![0u8; 16];
    bytes[0] = 0x4E;
    bytes[1] = 0x45;
    bytes[2] = 0x53;
    bytes[3] = 0x1A;
    bytes[4] = 2;
    bytes[5] = 1;
    bytes.extend(vec![0u8; 2 * 16384 + 8192]);
    assert!(Cartridge::holds_whole_image(&bytes));
    let cartridge = Rc::new(Cartridge::new(&bytes).unwrap());
    let ppu = PPU::new(PpuBus::new(cartridge.clone()));
    let bus = CpuBus::new(Memory::new(2048), ppu, cartridge);
    assert!(bus.is_complete());
    bus
}

/// A processor whose reset vector points at `start`, with `program` there.
fn cpu_at(start: u16, program: &[u8]) -> CPU {
    let mut bus = new_bus();
    for (i, byte) in program.iter().enumerate() {
        bus.write(start.wrapping_add(i as u16), *byte);
    }
    bus.write(0xFFFC, start as u8);
    bus.write(0xFFFD, (start >> 8) as u8);
    CPU::new(bus)
}

fn cpu_with(program: &[u8]) -> CPU {
    cpu_at(0x8000, program)
}

/// Runs one instruction to its last cycle and returns the number of ticks.
fn step(cpu: &mut CPU) -> u32 {
    assert_eq!(cpu.cycles, 0);
    cpu.clock().unwrap();
    let mut ticks = 1;
    while cpu.cycles > 0 {
        cpu.clock().unwrap();
        ticks += 1;
    }
    ticks
}

fn run(cpu: &mut CPU, instructions: usize) {
    for _ in 0..instructions {
        step(cpu);
    }
}

fn flag(cpu: &CPU, flag: Flag) -> bool {
    cpu.status.contains(flag)
}

// ------------------------------------------------------------------
// End-to-end programs
// ------------------------------------------------------------------

#[test]
fn multiplier_program() {
    let mut cpu = cpu_with(&[
        0xA2, 0x03, 0xA9, 0x00, 0x18, 0x69, 0x0A, 0xCA, 0xD0, 0xFA, 0x85, 0x50, 0x00,
    ]);
    // LDX, LDA, three rounds of CLC ADC DEX BNE, STA, BRK
    run(&mut cpu, 2 + 3 * 4 + 1 + 1);
    assert_eq!(cpu.bus.read(0x0050), 0x1E);
    assert_eq!(cpu.a, 0x1E);
    assert_eq!(cpu.x, 0);
    assert!(flag(&cpu, Flag::Zero));
    assert!(!flag(&cpu, Flag::Negative));
    assert!(flag(&cpu, Flag::Interrupt));
    assert_eq!(cpu.pc, 0x0000);
}

#[test]
fn indexed_store_program() {
    let mut cpu = cpu_with(&[
        0xA2, 0x0A, 0x8E, 0x00, 0x00, 0xA2, 0x03, 0x8E, 0x01, 0x00, 0xAC, 0x00, 0x00, 0xA9,
        0x00, 0x18, 0x6D, 0x01, 0x00, 0x88, 0xD0, 0xFA, 0x8D, 0x02, 0x00,
    ]);
    // seven instructions up to CLC, ten rounds of ADC DEY BNE, STA
    run(&mut cpu, 7 + 10 * 3 + 1);
    assert_eq!(cpu.bus.read(0x0000), 0x0A);
    assert_eq!(cpu.bus.read(0x0001), 0x03);
    assert_eq!(cpu.bus.read(0x0002), 0x1E);
    assert_eq!(cpu.y, 0);
    assert_eq!(cpu.pc, 0x8019);
}

#[test]
fn reset_vector_seeds_pc() {
    let mut bus = new_bus();
    bus.write(0xFFFC, 0x34);
    bus.write(0xFFFD, 0x12);
    let cpu = CPU::new(bus);
    assert_eq!(cpu.pc, 0x1234);
    assert_eq!(cpu.sp, 0xFD);
    assert!(flag(&cpu, Flag::Unused));
    assert!(flag(&cpu, Flag::Interrupt));
    assert_eq!(cpu.status.bits(), 0x24);
    assert_eq!((cpu.a, cpu.x, cpu.y), (0, 0, 0));
    assert_eq!(cpu.cycles, 0);
}

#[test]
fn indirect_jmp_page_wrap_bug() {
    let mut cpu = cpu_at(0x9000, &[0x6C, 0xFF, 0x02]);
    cpu.bus.write(0x02FF, 0x00);
    cpu.bus.write(0x0300, 0x40);
    cpu.bus.write(0x0200, 0x80);
    assert_eq!(step(&mut cpu), 5);
    assert_eq!(cpu.pc, 0x8000);
}

#[test]
fn indirect_jmp_inside_a_page() {
    let mut cpu = cpu_at(0x9000, &[0x6C, 0x10, 0x02]);
    cpu.bus.write(0x0210, 0xCD);
    cpu.bus.write(0x0211, 0xAB);
    step(&mut cpu);
    assert_eq!(cpu.pc, 0xABCD);
}

#[test]
fn stack_wrap() {
    let mut cpu = cpu_with(&[0x48, 0x68]);
    cpu.sp = 0x00;
    cpu.a = 0x42;
    assert_eq!(step(&mut cpu), 3);
    assert_eq!(cpu.bus.read(0x0100), 0x42);
    assert_eq!(cpu.sp, 0xFF);
    cpu.a = 0x00;
    assert_eq!(step(&mut cpu), 4);
    assert_eq!(cpu.a, 0x42);
    assert_eq!(cpu.sp, 0x00);
}

// ------------------------------------------------------------------
// The clock
// ------------------------------------------------------------------

#[test]
fn unknown_opcode_fails_the_tick() {
    let mut cpu = cpu_with(&[0x02]);
    assert_eq!(cpu.clock(), Err(AppError::InvalidOpcode));
    assert_eq!(cpu.pc, 0x8001);
    assert_eq!(cpu.cycles, 0);
    assert_eq!(cpu.a, 0);
    assert_eq!(cpu.sp, 0xFD);
    assert_eq!(cpu.status.bits(), 0x24);
}

#[test]
fn instruction_runs_on_the_opening_tick_and_then_stalls() {
    let mut cpu = cpu_with(&[0xA9, 0x77, 0xA9, 0x11]);
    assert_eq!(cpu.clock(), Ok(()));
    assert_eq!(cpu.a, 0x77);
    assert_eq!(cpu.pc, 0x8002);
    assert_eq!(cpu.cycles, 1);
    assert_eq!(cpu.clock(), Ok(()));
    assert_eq!(cpu.a, 0x77);
    assert_eq!(cpu.pc, 0x8002);
    assert_eq!(cpu.cycles, 0);
    assert_eq!(cpu.clock(), Ok(()));
    assert_eq!(cpu.a, 0x11);
    assert_eq!(cpu.pc, 0x8004);
}

#[test]
fn pc_moves_by_the_length_of_the_instruction() {
    // NOP; LDA #; LDA zp; LDA abs; LDA (zp,X); ASL A; STA abs,Y
    let mut cpu = cpu_with(&[
        0xEA, 0xA9, 0x00, 0xA5, 0x00, 0xAD, 0x00, 0x00, 0xA1, 0x00, 0x0A, 0x99, 0x00, 0x02,
    ]);
    let expected = [0x8001u16, 0x8003, 0x8005, 0x8008, 0x800A, 0x800B, 0x800E];
    for pc in expected {
        step(&mut cpu);
        assert_eq!(cpu.pc, pc);
    }
}

#[test]
fn every_documented_opcode_moves_pc_by_its_length_unless_it_jumps() {
    for byte in 0..=255u8 {
        let opcode = match Opcode::decode(byte) {
            Some(opcode) => opcode,
            None => continue,
        };
        let jumps = matches!(
            opcode.instruction,
            Instruction::JMP
                | Instruction::JSR
                | Instruction::RTS
                | Instruction::RTI
                | Instruction::BRK
        );
        if jumps {
            continue;
        }
        // operand bytes of zero: a branch, if taken, goes nowhere
        let mut cpu = cpu_with(&[byte, 0x00, 0x00]);
        cpu.clock().unwrap();
        let length = 1 + opcode.addressing_mode.operand_bytes();
        assert_eq!(cpu.pc, 0x8000 + length, "opcode {:#04x}", byte);
    }
}

#[test]
fn pc_wraps_at_the_end_of_memory() {
    let mut cpu = cpu_at(0xFFFF, &[0xEA]);
    assert_eq!(cpu.pc, 0xFFFF);
    step(&mut cpu);
    assert_eq!(cpu.pc, 0x0000);
}

#[test]
fn base_cycles_of_some_opcodes() {
    let cases: [(&[u8], u32); 8] = [
        (&[0xEA], 2),
        (&[0xA9, 0x00], 2),
        (&[0xA5, 0x00], 3),
        (&[0xAD, 0x00, 0x00], 4),
        (&[0x0E, 0x00, 0x00], 6),
        (&[0x1E, 0x00, 0x00], 7),
        (&[0x20, 0x00, 0x90], 6),
        (&[0x00], 7),
    ];
    for (program, cycles) in cases {
        let mut cpu = cpu_with(program);
        assert_eq!(step(&mut cpu), cycles, "program {:?}", program);
    }
}

// ------------------------------------------------------------------
// The opcode table
// ------------------------------------------------------------------

#[test]
fn table_has_151_documented_opcodes() {
    let known = (0..=255u8).filter(|byte| Opcode::decode(*byte).is_some()).count();
    assert_eq!(known, 151);
    for byte in 0..=255u8 {
        if let Some(opcode) = Opcode::decode(byte) {
            assert!(2 <= opcode.cycles && opcode.cycles <= 7);
        }
    }
}

#[test]
fn table_rows() {
    let row = |byte: u8| Opcode::decode(byte).unwrap();
    assert_eq!(row(0xA9), Opcode::new(Instruction::LDA, AddressingMode::Immediate, 2));
    assert_eq!(row(0xB1), Opcode::new(Instruction::LDA, AddressingMode::IndirectY, 5));
    assert_eq!(row(0x91), Opcode::new(Instruction::STA, AddressingMode::IndirectY, 6));
    assert_eq!(row(0x9D), Opcode::new(Instruction::STA, AddressingMode::AbsoluteX, 5));
    assert_eq!(row(0x6C), Opcode::new(Instruction::JMP, AddressingMode::Indirect, 5));
    assert_eq!(row(0x4C), Opcode::new(Instruction::JMP, AddressingMode::Absolute, 3));
    assert_eq!(row(0x00), Opcode::new(Instruction::BRK, AddressingMode::Implied, 7));
    assert_eq!(row(0x0A), Opcode::new(Instruction::ASL, AddressingMode::Accumulator, 2));
    assert_eq!(row(0xB6), Opcode::new(Instruction::LDX, AddressingMode::ZeroPageY, 4));
    assert_eq!(row(0xD0), Opcode::new(Instruction::BNE, AddressingMode::Relative, 2));
    assert_eq!(row(0xFE), Opcode::new(Instruction::INC, AddressingMode::AbsoluteX, 7));
    assert_eq!(row(0x68), Opcode::new(Instruction::PLA, AddressingMode::Implied, 4));
    for byte in [0x02u8, 0x03, 0x80, 0x1A, 0xFF, 0x9C, 0xEB] {
        assert!(Opcode::decode(byte).is_none(), "byte {:#04x}", byte);
    }
}

#[test]
fn operand_bytes_of_each_mode() {
    assert_eq!(AddressingMode::Implied.operand_bytes(), 0);
    assert_eq!(AddressingMode::Accumulator.operand_bytes(), 0);
    assert_eq!(AddressingMode::Immediate.operand_bytes(), 1);
    assert_eq!(AddressingMode::Relative.operand_bytes(), 1);
    assert_eq!(AddressingMode::ZeroPage.operand_bytes(), 1);
    assert_eq!(AddressingMode::ZeroPageX.operand_bytes(), 1);
    assert_eq!(AddressingMode::ZeroPageY.operand_bytes(), 1);
    assert_eq!(AddressingMode::IndirectX.operand_bytes(), 1);
    assert_eq!(AddressingMode::IndirectY.operand_bytes(), 1);
    assert_eq!(AddressingMode::Absolute.operand_bytes(), 2);
    assert_eq!(AddressingMode::AbsoluteX.operand_bytes(), 2);
    assert_eq!(AddressingMode::AbsoluteY.operand_bytes(), 2);
    assert_eq!(AddressingMode::Indirect.operand_bytes(), 2);
}

// ------------------------------------------------------------------
// Addressing modes
// ------------------------------------------------------------------

#[test]
fn each_mode_moves_pc_by_its_operand_bytes() {
    let modes = [
        (AddressingMode::Implied, 0u16),
        (AddressingMode::Accumulator, 0),
        (AddressingMode::Immediate, 1),
        (AddressingMode::Relative, 1),
        (AddressingMode::ZeroPage, 1),
        (AddressingMode::ZeroPageX, 1),
        (AddressingMode::ZeroPageY, 1),
        (AddressingMode::IndirectX, 1),
        (AddressingMode::IndirectY, 1),
        (AddressingMode::Absolute, 2),
        (AddressingMode::AbsoluteX, 2),
        (AddressingMode::AbsoluteY, 2),
        (AddressingMode::Indirect, 2),
    ];
    for (mode, bytes) in modes {
        let mut cpu = cpu_with(&[0x12, 0x34]);
        cpu.x = 0x56;
        cpu.y = 0x78;
        cpu.execute_addressing_mode(mode);
        assert_eq!(cpu.pc, 0x8000 + bytes, "mode {:?}", mode);
    }
}

#[test]
fn immediate_points_at_the_operand_byte() {
    let mut cpu = cpu_with(&[0x12]);
    cpu.execute_addressing_mode(AddressingMode::Immediate);
    assert_eq!(cpu.absolute_address, 0x8000);
}

#[test]
fn relative_reads_a_signed_distance() {
    for (byte, distance) in [(0x00u8, 0i16), (0x05, 5), (0x7F, 127), (0x80, -128), (0xFA, -6), (0xFF, -1)] {
        let mut cpu = cpu_with(&[byte]);
        cpu.execute_addressing_mode(AddressingMode::Relative);
        assert_eq!(cpu.relative_address, distance);
    }
}

#[test]
fn zero_page_indexing_stays_in_page_zero() {
    let mut cpu = cpu_with(&[0xFF]);
    cpu.x = 0x02;
    cpu.execute_addressing_mode(AddressingMode::ZeroPageX);
    assert_eq!(cpu.absolute_address, 0x0001);

    let mut cpu = cpu_with(&[0x80]);
    cpu.y = 0xFF;
    cpu.execute_addressing_mode(AddressingMode::ZeroPageY);
    assert_eq!(cpu.absolute_address, 0x007F);

    let mut cpu = cpu_with(&[0x10]);
    cpu.x = 0x05;
    cpu.execute_addressing_mode(AddressingMode::ZeroPageX);
    assert_eq!(cpu.absolute_address, 0x0015);

    let mut cpu = cpu_with(&[0x44]);
    cpu.execute_addressing_mode(AddressingMode::ZeroPage);
    assert_eq!(cpu.absolute_address, 0x0044);
}

#[test]
fn absolute_is_little_endian() {
    let mut cpu = cpu_with(&[0x34, 0x12]);
    cpu.execute_addressing_mode(AddressingMode::Absolute);
    assert_eq!(cpu.absolute_address, 0x1234);
    assert!(!cpu.page_crossed);
}

#[test]
fn absolute_indexing_wraps_in_sixteen_bits_and_notes_the_page() {
    let mut cpu = cpu_with(&[0xFF, 0xFF]);
    cpu.x = 0x02;
    cpu.execute_addressing_mode(AddressingMode::AbsoluteX);
    assert_eq!(cpu.absolute_address, 0x0001);
    assert!(cpu.page_crossed);

    let mut cpu = cpu_with(&[0xF0, 0x12]);
    cpu.y = 0x0F;
    cpu.execute_addressing_mode(AddressingMode::AbsoluteY);
    assert_eq!(cpu.absolute_address, 0x12FF);
    assert!(!cpu.page_crossed);

    let mut cpu = cpu_with(&[0xF0, 0x12]);
    cpu.y = 0x10;
    cpu.execute_addressing_mode(AddressingMode::AbsoluteY);
    assert_eq!(cpu.absolute_address, 0x1300);
    assert!(cpu.page_crossed);
}

#[test]
fn indexed_indirect_wraps_its_pointer_in_page_zero() {
    let mut cpu = cpu_with(&[0xFE]);
    cpu.x = 0x01;
    cpu.bus.write(0x00FF, 0x34);
    cpu.bus.write(0x0000, 0x12);
    cpu.bus.write(0x0100, 0x99);
    cpu.execute_addressing_mode(AddressingMode::IndirectX);
    assert_eq!(cpu.absolute_address, 0x1234);

    let mut cpu = cpu_with(&[0x20]);
    cpu.x = 0x04;
    cpu.bus.write(0x0024, 0x78);
    cpu.bus.write(0x0025, 0x56);
    cpu.execute_addressing_mode(AddressingMode::IndirectX);
    assert_eq!(cpu.absolute_address, 0x5678);
}

#[test]
fn indirect_indexed_adds_y_to_the_pointer() {
    let mut cpu = cpu_with(&[0x20]);
    cpu.y = 0x10;
    cpu.bus.write(0x0020, 0xF8);
    cpu.bus.write(0x0021, 0x12);
    cpu.execute_addressing_mode(AddressingMode::IndirectY);
    assert_eq!(cpu.absolute_address, 0x1308);
    assert!(cpu.page_crossed);

    let mut cpu = cpu_with(&[0xFF]);
    cpu.y = 0x01;
    cpu.bus.write(0x00FF, 0x00);
    cpu.bus.write(0x0000, 0x03);
    cpu.bus.write(0x0100, 0x77);
    cpu.execute_addressing_mode(AddressingMode::IndirectY);
    assert_eq!(cpu.absolute_address, 0x0301);
    assert!(!cpu.page_crossed);

    let mut cpu = cpu_with(&[0x40]);
    cpu.y = 0x01;
    cpu.bus.write(0x0040, 0xFF);
    cpu.bus.write(0x0041, 0xFF);
    cpu.execute_addressing_mode(AddressingMode::IndirectY);
    assert_eq!(cpu.absolute_address, 0x0000);
    assert!(cpu.page_crossed);
}

// ------------------------------------------------------------------
// Cycle refinements
// ------------------------------------------------------------------

#[test]
fn page_crossing_costs_a_read_one_cycle() {
    // LDA $00FF,X
    let mut cpu = cpu_with(&[0xBD, 0xFF, 0x00]);
    cpu.x = 1;
    assert_eq!(step(&mut cpu), 5);
    let mut cpu = cpu_with(&[0xBD, 0xFE, 0x00]);
    cpu.x = 1;
    assert_eq!(step(&mut cpu), 4);
    // LDA ($20),Y
    let mut cpu = cpu_with(&[0xB1, 0x20]);
    cpu.bus.write(0x0020, 0xFF);
    cpu.y = 1;
    assert_eq!(step(&mut cpu), 6);
    let mut cpu = cpu_with(&[0xB1, 0x20]);
    cpu.bus.write(0x0020, 0xFE);
    cpu.y = 1;
    assert_eq!(step(&mut cpu), 5);
    // CMP $00FF,Y
    let mut cpu = cpu_with(&[0xD9, 0xFF, 0x00]);
    cpu.y = 1;
    assert_eq!(step(&mut cpu), 5);
}

#[test]
fn page_crossing_costs_a_write_nothing() {
    // STA $00FF,X
    let mut cpu = cpu_with(&[0x9D, 0xFF, 0x00]);
    cpu.x = 1;
    assert_eq!(step(&mut cpu), 5);
    let mut cpu = cpu_with(&[0x9D, 0xFE, 0x00]);
    cpu.x = 1;
    assert_eq!(step(&mut cpu), 5);
    // INC $00FF,X
    let mut cpu = cpu_with(&[0xFE, 0xFF, 0x00]);
    cpu.x = 1;
    assert_eq!(step(&mut cpu), 7);
}

#[test]
fn taken_branch_costs_one_cycle() {
    let mut cpu = cpu_with(&[0xD0, 0x05]);
    assert_eq!(step(&mut cpu), 3);
    assert_eq!(cpu.pc, 0x8007);
    let mut cpu = cpu_with(&[0xF0, 0x05]);
    assert_eq!(step(&mut cpu), 2);
    assert_eq!(cpu.pc, 0x8002);
}

// ------------------------------------------------------------------
// Branches
// ------------------------------------------------------------------

#[test]
fn branch_adds_the_signed_distance_to_the_pc_behind_the_operand() {
    let mut cpu = cpu_at(0x8010, &[0xD0, 0xFA]);
    step(&mut cpu);
    assert_eq!(cpu.pc, 0x800C);
    let mut cpu = cpu_at(0x8010, &[0xD0, 0x7F]);
    step(&mut cpu);
    assert_eq!(cpu.pc, 0x8091);
    let mut cpu = cpu_at(0x8010, &[0xD0, 0x80]);
    step(&mut cpu);
    assert_eq!(cpu.pc, 0x7F92);
    let mut cpu = cpu_at(0x8010, &[0xD0, 0x00]);
    step(&mut cpu);
    assert_eq!(cpu.pc, 0x8012);
}

#[test]
fn each_branch_tests_its_flag() {
    let branches: [(u8, Flag, bool); 8] = [
        (0x90, Flag::Carry, false),
        (0xB0, Flag::Carry, true),
        (0xF0, Flag::Zero, true),
        (0xD0, Flag::Zero, false),
        (0x30, Flag::Negative, true),
        (0x10, Flag::Negative, false),
        (0x70, Flag::Overflow, true),
        (0x50, Flag::Overflow, false),
    ];
    for (byte, tested, wanted) in branches {
        for set in [false, true] {
            let mut cpu = cpu_with(&[byte, 0x10]);
            cpu.status = Status::from_bits_truncate(0x20);
            cpu.status.set(tested, set);
            step(&mut cpu);
            let target = if set == wanted { 0x8012 } else { 0x8002 };
            assert_eq!(cpu.pc, target, "opcode {:#04x} with flag {}", byte, set);
        }
    }
}

// ------------------------------------------------------------------
// Arithmetic
// ------------------------------------------------------------------

fn adc(a: u8, operand: u8, carry: bool) -> CPU {
    let mut cpu = cpu_with(&[0x69, operand]);
    cpu.a = a;
    cpu.status.set(Flag::Carry, carry);
    step(&mut cpu);
    cpu
}

fn sbc(a: u8, operand: u8, carry: bool) -> CPU {
    let mut cpu = cpu_with(&[0xE9, operand]);
    cpu.a = a;
    cpu.status.set(Flag::Carry, carry);
    step(&mut cpu);
    cpu
}

fn cznv(cpu: &CPU) -> (bool, bool, bool, bool) {
    (
        flag(cpu, Flag::Carry),
        flag(cpu, Flag::Zero),
        flag(cpu, Flag::Negative),
        flag(cpu, Flag::Overflow),
    )
}

#[test]
fn adc_results_and_flags() {
    let cpu = adc(0x50, 0x10, false);
    assert_eq!((cpu.a, cznv(&cpu)), (0x60, (false, false, false, false)));
    let cpu = adc(0x50, 0x50, false);
    assert_eq!((cpu.a, cznv(&cpu)), (0xA0, (false, false, true, true)));
    let cpu = adc(0x50, 0x90, false);
    assert_eq!((cpu.a, cznv(&cpu)), (0xE0, (false, false, true, false)));
    let cpu = adc(0x50, 0xD0, false);
    assert_eq!((cpu.a, cznv(&cpu)), (0x20, (true, false, false, false)));
    let cpu = adc(0xD0, 0x90, false);
    assert_eq!((cpu.a, cznv(&cpu)), (0x60, (true, false, false, true)));
    let cpu = adc(0xFF, 0x01, false);
    assert_eq!((cpu.a, cznv(&cpu)), (0x00, (true, true, false, false)));
    let cpu = adc(0xFF, 0xFF, true);
    assert_eq!((cpu.a, cznv(&cpu)), (0xFF, (true, false, true, false)));
    let cpu = adc(0x7F, 0x00, true);
    assert_eq!((cpu.a, cznv(&cpu)), (0x80, (false, false, true, true)));
    let cpu = adc(0x00, 0x00, false);
    assert_eq!((cpu.a, cznv(&cpu)), (0x00, (false, true, false, false)));
}

#[test]
fn sbc_results_and_flags() {
    let cpu = sbc(0x50, 0xF0, true);
    assert_eq!((cpu.a, cznv(&cpu)), (0x60, (false, false, false, false)));
    let cpu = sbc(0x50, 0xB0, true);
    assert_eq!((cpu.a, cznv(&cpu)), (0xA0, (false, false, true, true)));
    let cpu = sbc(0x50, 0x70, true);
    assert_eq!((cpu.a, cznv(&cpu)), (0xE0, (false, false, true, false)));
    let cpu = sbc(0x50, 0x30, true);
    assert_eq!((cpu.a, cznv(&cpu)), (0x20, (true, false, false, false)));
    let cpu = sbc(0xD0, 0x70, true);
    assert_eq!((cpu.a, cznv(&cpu)), (0x60, (true, false, false, true)));
    let cpu = sbc(0x50, 0x50, true);
    assert_eq!((cpu.a, cznv(&cpu)), (0x00, (true, true, false, false)));
    let cpu = sbc(0x50, 0x50, false);
    assert_eq!((cpu.a, cznv(&cpu)), (0xFF, (false, false, true, false)));
    let cpu = sbc(0x00, 0x00, false);
    assert_eq!((cpu.a, cznv(&cpu)), (0xFF, (false, false, true, false)));
    let cpu = sbc(0x80, 0x00, false);
    assert_eq!((cpu.a, cznv(&cpu)), (0x7F, (true, false, false, true)));
}

#[test]
fn decimal_flag_does_not_change_addition() {
    let mut cpu = cpu_with(&[0xF8, 0x69, 0x09]);
    cpu.a = 0x09;
    run(&mut cpu, 2);
    assert!(flag(&cpu, Flag::Decimal));
    assert_eq!(cpu.a, 0x12);
}

#[test]
fn adc_then_sbc_restores_a_when_one_carry_is_set() {
    // carry in set, no carry out
    let mut cpu = cpu_with(&[0x69, 0x03, 0xE9, 0x03]);
    cpu.a = 5;
    cpu.status.set(Flag::Carry, true);
    run(&mut cpu, 2);
    assert_eq!(cpu.a, 5);
    // carry in clear, carry out
    let mut cpu = cpu_with(&[0x69, 0xF0, 0xE9, 0xF0]);
    cpu.a = 0x20;
    run(&mut cpu, 2);
    assert_eq!(cpu.a, 0x20);
}

#[test]
fn adc_then_sbc_is_off_by_one_when_the_carries_agree() {
    // both clear: one too few
    let mut cpu = cpu_with(&[0x69, 0x03, 0xE9, 0x03]);
    cpu.a = 5;
    run(&mut cpu, 2);
    assert_eq!(cpu.a, 4);
    // both set: one too many
    let mut cpu = cpu_with(&[0x69, 0xF0, 0xE9, 0xF0]);
    cpu.a = 0x20;
    cpu.status.set(Flag::Carry, true);
    run(&mut cpu, 2);
    assert_eq!(cpu.a, 0x21);
}

#[test]
fn adc_then_sbc_for_all_operands() {
    for a in [0u8, 1, 5, 0x7F, 0x80, 0xFE, 0xFF] {
        for operand in [0u8, 1, 3, 0x7F, 0x80, 0xF0, 0xFF] {
            for carry in [false, true] {
                let mut cpu = cpu_with(&[0x69, operand, 0xE9, operand]);
                cpu.a = a;
                cpu.status.set(Flag::Carry, carry);
                step(&mut cpu);
                let carry_out = flag(&cpu, Flag::Carry);
                step(&mut cpu);
                let expected = (a as i32 + carry as i32 + carry_out as i32 - 1).rem_euclid(256);
                assert_eq!(cpu.a as i32, expected);
                assert_eq!(cpu.a == a, carry != carry_out);
            }
        }
    }
}

#[test]
fn compare_sets_carry_zero_negative() {
    let cases = [
        (0x10u8, 0x10u8, (true, true, false)),
        (0x10, 0x20, (false, false, true)),
        (0x20, 0x10, (true, false, false)),
        (0x00, 0xFF, (false, false, false)),
        (0xFF, 0x00, (true, false, true)),
        (0x80, 0x7F, (true, false, false)),
    ];
    for (register, operand, (c, z, n)) in cases {
        for (opcode, which) in [(0xC9u8, 0), (0xE0, 1), (0xC0, 2)] {
            let mut cpu = cpu_with(&[opcode, operand]);
            match which {
                0 => cpu.a = register,
                1 => cpu.x = register,
                _ => cpu.y = register,
            }
            step(&mut cpu);
            assert_eq!(
                (flag(&cpu, Flag::Carry), flag(&cpu, Flag::Zero), flag(&cpu, Flag::Negative)),
                (c, z, n),
                "{:#04x} against {:#04x}",
                register,
                operand
            );
            let expected = match which {
                0 => (register, 0, 0),
                1 => (0, register, 0),
                _ => (0, 0, register),
            };
            assert_eq!((cpu.a, cpu.x, cpu.y), expected);
        }
    }
}

#[test]
fn logic_instructions() {
    let mut cpu = cpu_with(&[0x29, 0x0F, 0x09, 0x80, 0x49, 0xFF]);
    cpu.a = 0x3C;
    step(&mut cpu);
    assert_eq!(cpu.a, 0x0C);
    assert!(!flag(&cpu, Flag::Zero) && !flag(&cpu, Flag::Negative));
    step(&mut cpu);
    assert_eq!(cpu.a, 0x8C);
    assert!(flag(&cpu, Flag::Negative));
    step(&mut cpu);
    assert_eq!(cpu.a, 0x73);
    assert!(!flag(&cpu, Flag::Negative));

    let mut cpu = cpu_with(&[0x29, 0x00]);
    cpu.a = 0xFF;
    step(&mut cpu);
    assert_eq!(cpu.a, 0);
    assert!(flag(&cpu, Flag::Zero));
}

#[test]
fn bit_test_takes_flags_from_the_operand() {
    let mut cpu = cpu_with(&[0x24, 0x10]);
    cpu.bus.write(0x0010, 0xC0);
    cpu.a = 0x01;
    assert_eq!(step(&mut cpu), 3);
    assert!(flag(&cpu, Flag::Zero));
    assert!(flag(&cpu, Flag::Negative));
    assert!(flag(&cpu, Flag::Overflow));
    assert_eq!(cpu.a, 0x01);

    let mut cpu = cpu_with(&[0x2C, 0x10, 0x00]);
    cpu.bus.write(0x0010, 0x3F);
    cpu.a = 0x01;
    cpu.status = Status::from_bits_truncate(0xE2);
    step(&mut cpu);
    assert!(!flag(&cpu, Flag::Zero));
    assert!(!flag(&cpu, Flag::Negative));
    assert!(!flag(&cpu, Flag::Overflow));
    assert_eq!(cpu.status.bits(), 0x20);
}

// ------------------------------------------------------------------
// Shifts and rotations
// ------------------------------------------------------------------

fn shift_a(opcode: u8, a: u8, carry: bool) -> (u8, bool, bool, bool) {
    let mut cpu = cpu_with(&[opcode]);
    cpu.a = a;
    cpu.status.set(Flag::Carry, carry);
    assert_eq!(step(&mut cpu), 2);
    (cpu.a, flag(&cpu, Flag::Carry), flag(&cpu, Flag::Zero), flag(&cpu, Flag::Negative))
}

#[test]
fn shifts_on_the_accumulator() {
    assert_eq!(shift_a(0x0A, 0x81, false), (0x02, true, false, false));
    assert_eq!(shift_a(0x0A, 0x40, true), (0x80, false, false, true));
    assert_eq!(shift_a(0x0A, 0x80, false), (0x00, true, true, false));
    assert_eq!(shift_a(0x4A, 0x01, false), (0x00, true, true, false));
    assert_eq!(shift_a(0x4A, 0x82, true), (0x41, false, false, false));
}

#[test]
fn rotations_on_the_accumulator() {
    assert_eq!(shift_a(0x2A, 0x80, true), (0x01, true, false, false));
    assert_eq!(shift_a(0x2A, 0x80, false), (0x00, true, true, false));
    assert_eq!(shift_a(0x2A, 0x40, true), (0x81, false, false, true));
    assert_eq!(shift_a(0x6A, 0x01, true), (0x80, true, false, true));
    assert_eq!(shift_a(0x6A, 0x01, false), (0x00, true, true, false));
    assert_eq!(shift_a(0x6A, 0x02, false), (0x01, false, false, false));
}

#[test]
fn shifts_on_memory_leave_the_accumulator() {
    let mut cpu = cpu_with(&[0x06, 0x10, 0x46, 0x10, 0x26, 0x10, 0x66, 0x10]);
    cpu.bus.write(0x0010, 0xC1);
    cpu.a = 0x55;
    assert_eq!(step(&mut cpu), 5);
    assert_eq!(cpu.bus.read(0x0010), 0x82);
    assert!(flag(&cpu, Flag::Carry));
    step(&mut cpu);
    assert_eq!(cpu.bus.read(0x0010), 0x41);
    assert!(!flag(&cpu, Flag::Carry));
    cpu.status.set(Flag::Carry, true);
    step(&mut cpu);
    assert_eq!(cpu.bus.read(0x0010), 0x83);
    assert!(!flag(&cpu, Flag::Carry));
    step(&mut cpu);
    assert_eq!(cpu.bus.read(0x0010), 0x41);
    assert!(flag(&cpu, Flag::Carry));
    assert_eq!(cpu.a, 0x55);
}

// ------------------------------------------------------------------
// Loads, stores, transfers, increments
// ------------------------------------------------------------------

#[test]
fn loads_set_zero_and_negative() {
    let mut cpu = cpu_with(&[0xA9, 0x00, 0xA2, 0x80, 0xA0, 0x7F]);
    step(&mut cpu);
    assert_eq!(cpu.a, 0x00);
    assert!(flag(&cpu, Flag::Zero) && !flag(&cpu, Flag::Negative));
    step(&mut cpu);
    assert_eq!(cpu.x, 0x80);
    assert!(!flag(&cpu, Flag::Zero) && flag(&cpu, Flag::Negative));
    step(&mut cpu);
    assert_eq!(cpu.y, 0x7F);
    assert!(!flag(&cpu, Flag::Zero) && !flag(&cpu, Flag::Negative));
}

#[test]
fn stores_leave_the_flags() {
    let mut cpu = cpu_with(&[0x85, 0x10, 0x86, 0x11, 0x84, 0x12]);
    cpu.a = 0x00;
    cpu.x = 0x80;
    cpu.y = 0x01;
    let before = cpu.status.bits();
    run(&mut cpu, 3);
    assert_eq!(cpu.bus.read(0x0010), 0x00);
    assert_eq!(cpu.bus.read(0x0011), 0x80);
    assert_eq!(cpu.bus.read(0x0012), 0x01);
    assert_eq!(cpu.status.bits(), before);
}

#[test]
fn transfers() {
    let mut cpu = cpu_with(&[0xAA, 0xA8, 0xBA, 0x8A, 0x98, 0x9A]);
    cpu.a = 0x80;
    step(&mut cpu);
    assert_eq!(cpu.x, 0x80);
    assert!(flag(&cpu, Flag::Negative));
    step(&mut cpu);
    assert_eq!(cpu.y, 0x80);
    cpu.sp = 0x00;
    step(&mut cpu);
    assert_eq!(cpu.x, 0x00);
    assert!(flag(&cpu, Flag::Zero) && !flag(&cpu, Flag::Negative));
    cpu.x = 0x33;
    step(&mut cpu);
    assert_eq!(cpu.a, 0x33);
    assert!(!flag(&cpu, Flag::Zero));
    cpu.y = 0x00;
    step(&mut cpu);
    assert_eq!(cpu.a, 0x00);
    assert!(flag(&cpu, Flag::Zero));
    cpu.x = 0x80;
    let before = cpu.status.bits();
    step(&mut cpu);
    assert_eq!(cpu.sp, 0x80);
    assert_eq!(cpu.status.bits(), before);
}

#[test]
fn register_increments_wrap() {
    let mut cpu = cpu_with(&[0xE8, 0xC8, 0xCA, 0xCA, 0x88, 0x88]);
    cpu.x = 0xFF;
    cpu.y = 0x7F;
    step(&mut cpu);
    assert_eq!(cpu.x, 0x00);
    assert!(flag(&cpu, Flag::Zero));
    step(&mut cpu);
    assert_eq!(cpu.y, 0x80);
    assert!(flag(&cpu, Flag::Negative) && !flag(&cpu, Flag::Zero));
    step(&mut cpu);
    assert_eq!(cpu.x, 0xFF);
    assert!(flag(&cpu, Flag::Negative));
    step(&mut cpu);
    assert_eq!(cpu.x, 0xFE);
    step(&mut cpu);
    assert_eq!(cpu.y, 0x7F);
    assert!(!flag(&cpu, Flag::Negative));
    step(&mut cpu);
    assert_eq!(cpu.y, 0x7E);
}

#[test]
fn memory_increments_wrap() {
    let mut cpu = cpu_with(&[0xE6, 0x10, 0xC6, 0x10, 0xC6, 0x10]);
    cpu.bus.write(0x0010, 0xFF);
    assert_eq!(step(&mut cpu), 5);
    assert_eq!(cpu.bus.read(0x0010), 0x00);
    assert!(flag(&cpu, Flag::Zero) && !flag(&cpu, Flag::Negative));
    step(&mut cpu);
    assert_eq!(cpu.bus.read(0x0010), 0xFF);
    assert!(!flag(&cpu, Flag::Zero) && flag(&cpu, Flag::Negative));
    step(&mut cpu);
    assert_eq!(cpu.bus.read(0x0010), 0xFE);
}

#[test]
fn flag_instructions() {
    let mut cpu = cpu_with(&[0x38, 0xF8, 0x78, 0x18, 0xD8, 0x58, 0xB8, 0xEA]);
    cpu.status = Status::from_bits_truncate(0x60);
    step(&mut cpu);
    assert_eq!(cpu.status.bits(), 0x61);
    step(&mut cpu);
    assert_eq!(cpu.status.bits(), 0x69);
    step(&mut cpu);
    assert_eq!(cpu.status.bits(), 0x6D);
    step(&mut cpu);
    assert_eq!(cpu.status.bits(), 0x6C);
    step(&mut cpu);
    assert_eq!(cpu.status.bits(), 0x64);
    step(&mut cpu);
    assert_eq!(cpu.status.bits(), 0x60);
    step(&mut cpu);
    assert_eq!(cpu.status.bits(), 0x20);
    step(&mut cpu);
    assert_eq!(cpu.status.bits(), 0x20);
    assert_eq!(cpu.pc, 0x8008);
}

// ------------------------------------------------------------------
// Stack, subroutines, interrupts
// ------------------------------------------------------------------

#[test]
fn push_writes_then_decrements_and_pull_increments_then_reads() {
    let mut cpu = cpu_with(&[]);
    assert_eq!(cpu.get_stack_address(), 0x01FD);
    cpu.write_to_stack(0xAA);
    assert_eq!(cpu.sp, 0xFC);
    assert_eq!(cpu.bus.read(0x01FD), 0xAA);
    cpu.write_to_stack(0xBB);
    assert_eq!(cpu.sp, 0xFB);
    assert_eq!(cpu.bus.read(0x01FC), 0xBB);
    assert_eq!(cpu.read_from_stack(), 0xBB);
    assert_eq!(cpu.sp, 0xFC);
    assert_eq!(cpu.read_from_stack(), 0xAA);
    assert_eq!(cpu.sp, 0xFD);
}

#[test]
fn stack_follows_ram_mirroring() {
    let mut cpu = cpu_with(&[]);
    cpu.write_to_stack(0x5A);
    assert_eq!(cpu.bus.read(0x09FD), 0x5A);
    assert_eq!(cpu.bus.read(0x19FD), 0x5A);
}

#[test]
fn stack_round_trip_across_the_wrap() {
    for count in [0usize, 1, 2, 3, 200, 255, 256] {
        let mut cpu = cpu_with(&[]);
        cpu.sp = 0x02;
        let values: Vec<u8> = (0..count).map(|i| (i * 7 + 1) as u8).collect();
        for value in &values {
            cpu.write_to_stack(*value);
        }
        assert_eq!(cpu.sp, 0x02u8.wrapping_sub(count as u8));
        let mut back = Vec::new();
        for _ in 0..count {
            back.push(cpu.read_from_stack());
        }
        let mut expected = values.clone();
        expected.reverse();
        assert_eq!(back, expected, "count {}", count);
        assert_eq!(cpu.sp, 0x02);
    }
}

#[test]
fn more_than_256_pushes_write_over_the_first() {
    let mut cpu = cpu_with(&[]);
    cpu.sp = 0x02;
    for i in 0..257u32 {
        cpu.write_to_stack((i % 256) as u8 ^ 0xFF);
    }
    let mut back = Vec::new();
    for _ in 0..257 {
        back.push(cpu.read_from_stack());
    }
    assert_eq!(cpu.sp, 0x02);
    // the last byte pushed stands where the first one stood
    assert_eq!(back[0], 0xFF);
    assert_eq!(back[256], 0xFF);
    assert_eq!(back[255], 0x01 ^ 0xFF);
}

#[test]
fn pha_and_pla() {
    let mut cpu = cpu_with(&[0x48, 0x68]);
    cpu.a = 0x80;
    let before = cpu.status.bits();
    step(&mut cpu);
    assert_eq!(cpu.bus.read(0x01FD), 0x80);
    assert_eq!(cpu.sp, 0xFC);
    assert_eq!(cpu.status.bits(), before);
    cpu.a = 0;
    step(&mut cpu);
    assert_eq!(cpu.a, 0x80);
    assert_eq!(cpu.sp, 0xFD);
    assert!(flag(&cpu, Flag::Negative) && !flag(&cpu, Flag::Zero));
}

#[test]
fn php_pushes_break_and_unused() {
    let mut cpu = cpu_with(&[0x08]);
    cpu.status = Status::from_bits_truncate(0x81);
    step(&mut cpu);
    assert_eq!(cpu.bus.read(0x01FD), 0xB1);
    assert_eq!(cpu.status.bits(), 0x81);
    assert_eq!(cpu.sp, 0xFC);
}

#[test]
fn plp_clears_break_and_sets_unused() {
    let mut cpu = cpu_with(&[0x28, 0x28]);
    cpu.sp = 0xFB;
    cpu.bus.write(0x01FC, 0xFF);
    cpu.bus.write(0x01FD, 0x00);
    step(&mut cpu);
    assert_eq!(cpu.status.bits(), 0xEF);
    step(&mut cpu);
    assert_eq!(cpu.status.bits(), 0x20);
    assert_eq!(cpu.sp, 0xFD);
}

#[test]
fn jsr_and_rts() {
    let mut cpu = cpu_with(&[0x20, 0x00, 0x90]);
    cpu.bus.write(0x9000, 0x60);
    assert_eq!(step(&mut cpu), 6);
    assert_eq!(cpu.pc, 0x9000);
    assert_eq!(cpu.bus.read(0x01FD), 0x80);
    assert_eq!(cpu.bus.read(0x01FC), 0x02);
    assert_eq!(cpu.sp, 0xFB);
    assert_eq!(step(&mut cpu), 6);
    assert_eq!(cpu.pc, 0x8003);
    assert_eq!(cpu.sp, 0xFD);
}

#[test]
fn jmp_absolute() {
    let mut cpu = cpu_with(&[0x4C, 0x34, 0x12]);
    assert_eq!(step(&mut cpu), 3);
    assert_eq!(cpu.pc, 0x1234);
    assert_eq!(cpu.sp, 0xFD);
}

#[test]
fn brk_and_rti() {
    let mut cpu = cpu_with(&[0x00]);
    cpu.bus.write(0xFFFE, 0x00);
    cpu.bus.write(0xFFFF, 0x90);
    cpu.bus.write(0x9000, 0x40);
    cpu.status = Status::from_bits_truncate(0x21);
    assert_eq!(step(&mut cpu), 7);
    assert_eq!(cpu.pc, 0x9000);
    assert_eq!(cpu.bus.read(0x01FD), 0x80);
    assert_eq!(cpu.bus.read(0x01FC), 0x02);
    assert_eq!(cpu.bus.read(0x01FB), 0x31);
    assert_eq!(cpu.sp, 0xFA);
    assert_eq!(cpu.status.bits(), 0x25);
    assert_eq!(step(&mut cpu), 6);
    assert_eq!(cpu.pc, 0x8002);
    assert_eq!(cpu.status.bits(), 0x21);
    assert_eq!(cpu.sp, 0xFD);
}

#[test]
fn irq_is_served_when_interrupts_are_enabled() {
    let mut cpu = cpu_at(0x8123, &[]);
    cpu.bus.write(0xFFFE, 0x00);
    cpu.bus.write(0xFFFF, 0x90);
    cpu.status = Status::from_bits_truncate(0x21);
    cpu.irq();
    assert_eq!(cpu.pc, 0x9000);
    assert_eq!(cpu.bus.read(0x01FD), 0x81);
    assert_eq!(cpu.bus.read(0x01FC), 0x23);
    assert_eq!(cpu.bus.read(0x01FB), 0x21);
    assert_eq!(cpu.sp, 0xFA);
    assert_eq!(cpu.status.bits(), 0x25);
    assert_eq!(cpu.cycles, 7);
}

#[test]
fn irq_is_ignored_when_interrupts_are_disabled() {
    let mut cpu = cpu_at(0x8123, &[]);
    cpu.bus.write(0xFFFE, 0x00);
    cpu.bus.write(0xFFFF, 0x90);
    assert!(flag(&cpu, Flag::Interrupt));
    cpu.irq();
    assert_eq!(cpu.pc, 0x8123);
    assert_eq!(cpu.sp, 0xFD);
    assert_eq!(cpu.cycles, 0);
    assert_eq!(cpu.status.bits(), 0x24);
    assert_eq!(cpu.bus.read(0x01FD), 0);
}

#[test]
fn nmi_is_always_served() {
    let mut cpu = cpu_at(0x8123, &[]);
    cpu.bus.write(0xFFFA, 0x00);
    cpu.bus.write(0xFFFB, 0xA0);
    cpu.status = Status::from_bits_truncate(0x05);
    cpu.nmi();
    assert_eq!(cpu.pc, 0xA000);
    assert_eq!(cpu.bus.read(0x01FD), 0x81);
    assert_eq!(cpu.bus.read(0x01FC), 0x23);
    assert_eq!(cpu.bus.read(0x01FB), 0x25);
    assert_eq!(cpu.sp, 0xFA);
    assert_eq!(cpu.status.bits(), 0x05);
    assert_eq!(cpu.cycles, 7);
}

#[test]
fn interrupt_stalls_before_the_next_fetch() {
    let mut cpu = cpu_at(0x8123, &[]);
    cpu.bus.write(0xFFFA, 0x00);
    cpu.bus.write(0xFFFB, 0xA0);
    cpu.bus.write(0xA000, 0xE8);
    cpu.nmi();
    for left in (0..7).rev() {
        cpu.clock().unwrap();
        assert_eq!(cpu.cycles, left);
        assert_eq!(cpu.x, 0);
    }
    cpu.clock().unwrap();
    assert_eq!(cpu.x, 1);
}

#[test]
fn reset_rereads_the_vector() {
    let mut cpu = cpu_with(&[0xA9, 0x55, 0xAA, 0xA8, 0x9A]);
    run(&mut cpu, 4);
    cpu.absolute_address = 0x1234;
    cpu.relative_address = -3;
    cpu.bus.write(0xFFFC, 0x78);
    cpu.bus.write(0xFFFD, 0x56);
    cpu.bus.write(0x0010, 0x99);
    cpu.reset();
    assert_eq!((cpu.a, cpu.x, cpu.y), (0, 0, 0));
    assert_eq!(cpu.sp, 0xFD);
    assert_eq!(cpu.pc, 0x5678);
    assert_eq!(cpu.status.bits(), 0x20);
    assert_eq!(cpu.cycles, 8);
    assert_eq!(cpu.absolute_address, 0);
    assert_eq!(cpu.relative_address, 0);
    assert_eq!(cpu.bus.read(0x0010), 0x99);
}

// ------------------------------------------------------------------
// Flags
// ------------------------------------------------------------------

#[test]
fn zero_and_negative_come_from_the_result() {
    for value in 0..=255u8 {
        let mut cpu = cpu_with(&[0xA9, value]);
        step(&mut cpu);
        assert_eq!(flag(&cpu, Flag::Zero), value == 0);
        assert_eq!(flag(&cpu, Flag::Negative), value & 0x80 != 0);

        let mut cpu = cpu_with(&[]);
        cpu.update_zero_negative_flags(value);
        assert_eq!(flag(&cpu, Flag::Zero), value == 0);
        assert_eq!(flag(&cpu, Flag::Negative), value & 0x80 != 0);
        assert_eq!(cpu.status.bits() & 0x7D, 0x24);
    }
}

#[test]
fn unused_bit_stays_set() {
    let mut cpu = cpu_with(&[
        0xA2, 0x03, 0xA9, 0x00, 0x18, 0x69, 0x0A, 0xCA, 0xD0, 0xFA, 0x08, 0x28, 0x85, 0x50,
        0x00,
    ]);
    for _ in 0..18 {
        step(&mut cpu);
        assert!(flag(&cpu, Flag::Unused));
    }
    cpu.nmi();
    assert!(flag(&cpu, Flag::Unused));
    cpu.reset();
    assert!(flag(&cpu, Flag::Unused));
}

#[test]
fn helper_predicates() {
    let cpu = cpu_with(&[]);
    assert!(cpu.is_zero(0) && !cpu.is_zero(1) && !cpu.is_zero(0x80));
    assert!(cpu.is_negative(0x80) && cpu.is_negative(0xFF) && !cpu.is_negative(0x7F));
    assert!(cpu.is_overflow(0x40) && cpu.is_overflow(0xFF) && !cpu.is_overflow(0xBF));
    assert!(cpu.is_bit0_set(0x01) && cpu.is_bit0_set(0xFF) && !cpu.is_bit0_set(0xFE));
    assert_eq!(cpu.get_bytes_to_address(0x12, 0x34), 0x1234);
    assert_eq!(cpu.get_bytes_to_address(0xFF, 0x00), 0xFF00);
    assert_eq!(cpu.get_bytes_to_address(0x00, 0xFF), 0x00FF);
}

#[test]
fn status_flag_accessors() {
    let mut cpu = cpu_with(&[]);
    assert!(!cpu.get_status_flag(Flag::Carry));
    cpu.set_status_flag(Flag::Carry, true);
    assert!(cpu.get_status_flag(Flag::Carry));
    assert_eq!(cpu.status.bits(), 0x25);
    cpu.set_status_flag(Flag::Interrupt, false);
    assert_eq!(cpu.status.bits(), 0x21);
    cpu.increment_pc();
    assert_eq!(cpu.pc, 0x8001);
}

#[test]
fn accumulator_or_memory_target() {
    let mut cpu = cpu_with(&[]);
    cpu.a = 0x11;
    cpu.absolute_address = 0x0040;
    cpu.bus.write(0x0040, 0x22);
    assert_eq!(cpu.read_a_or_absolute(AddressingMode::Accumulator), 0x11);
    assert_eq!(cpu.read_a_or_absolute(AddressingMode::ZeroPage), 0x22);
    cpu.write_a_or_absolute(AddressingMode::Accumulator, 0x33);
    assert_eq!((cpu.a, cpu.bus.read(0x0040)), (0x33, 0x22));
    cpu.write_a_or_absolute(AddressingMode::Absolute, 0x44);
    assert_eq!((cpu.a, cpu.bus.read(0x0040)), (0x33, 0x44));
}
