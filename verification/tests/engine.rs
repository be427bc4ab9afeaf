use gb_core::cartridge::{Cartridge, CartridgeError};
use gb_core::cpu::instruction::{AddressingMode, Instruction, Opcode};
use gb_core::cpu::{Cpu, Flag, Registers};
use gb_core::gb::Gb;
use gb_core::memory::Memory;

/// A minimal cartridge image: `len` bytes with the given cartridge-type,
/// ROM-size and RAM-size bytes at their header offsets.
fn image(type_byte: u8, rom_code: u8, ram_code: u8, len: usize) -> Vec<u8> {
    let mut bytes = vec![0u8; len];
    bytes[0x147] = type_byte;
    bytes[0x148] = rom_code;
    bytes[0x149] = ram_code;
    bytes
}

fn machine_with(bytes: Vec<u8>) -> Gb {
    let cartridge = Cartridge::new(bytes).unwrap();
    let mut gb = Gb::new();
    gb.load(cartridge);
    gb
}

#[test]
fn test_rlca_no_carry() {
    // init
    let mut cpu = Cpu::new();
    cpu.registers.af = 0x0100;

    // execute
    let mut mem = Memory::new();
    cpu.execute(&mut mem, 0x07).unwrap();

    // verify
    let a = Registers::get_upper(cpu.registers.af);
    assert_eq!(a, 0x01 << 1);
    assert_eq!(cpu.registers.is_carry(), false);
}

#[test]
fn test_rlca_carry() {
    // init
    let mut cpu = Cpu::new();
    cpu.registers.af = 0xFE00;

    // execute
    let mut mem = Memory::new();
    cpu.execute(&mut mem, 0x07).unwrap();

    // verify
    let a = Registers::get_upper(cpu.registers.af);
    assert_eq!(a, 0xFD);
    assert_eq!(cpu.registers.is_carry(), true);
}

#[test]
fn nop_changes_pc_alone() {
    // The whole image is zero, so the byte at pc names NOP.
    let mut gb = machine_with(image(0x00, 0x00, 0x00, 0x8000));
    let before = gb.cpu.registers;
    let probes = [0x0000u16, 0x0100, 0x4000, 0x8000, 0xC000, 0xFF80];
    let cells_before: Vec<_> = probes.iter().map(|a| gb.memory.read_byte(*a)).collect();

    let cycles = gb.step().unwrap();

    assert_eq!(cycles, 4);
    assert_eq!(gb.cpu.registers.pc, before.pc + 1);
    assert_eq!(gb.cpu.registers.af, before.af);
    assert_eq!(gb.cpu.registers.bc, before.bc);
    assert_eq!(gb.cpu.registers.de, before.de);
    assert_eq!(gb.cpu.registers.hl, before.hl);
    assert_eq!(gb.cpu.registers.sp, before.sp);
    let cells_after: Vec<_> = probes.iter().map(|a| gb.memory.read_byte(*a)).collect();
    assert_eq!(cells_before, cells_after);
}

#[test]
fn ld_bc_reads_word_low_byte_first() {
    let mut bytes = image(0x00, 0x00, 0x00, 0x8000);
    bytes[0x100] = 0x01;
    bytes[0x101] = 0x34;
    bytes[0x102] = 0x12;
    let mut gb = machine_with(bytes);

    let cycles = gb.step().unwrap();

    assert_eq!(cycles, 12);
    assert_eq!(gb.cpu.registers.bc, 0x1234);
    assert_eq!(gb.cpu.registers.pc, 0x0103);
}

#[test]
fn ld_b_immediate_sets_high_byte() {
    let mut bytes = image(0x00, 0x00, 0x00, 0x8000);
    bytes[0x100] = 0x06;
    bytes[0x101] = 0x7E;
    let mut gb = machine_with(bytes);
    gb.cpu.registers.bc = 0x0013;

    gb.step().unwrap();

    assert_eq!(gb.cpu.registers.bc, 0x7E13);
    assert_eq!(gb.cpu.registers.pc, 0x0102);
}

#[test]
fn ld_bc_indirect_stores_accumulator() {
    let mut bytes = image(0x00, 0x00, 0x00, 0x8000);
    bytes[0x100] = 0x02;
    let mut gb = machine_with(bytes);
    gb.cpu.registers.af = 0x5A00;
    gb.cpu.registers.bc = 0xC123;

    gb.step().unwrap();

    assert_eq!(gb.memory.read_byte(0xC123).unwrap(), 0x5A);
}

#[test]
fn ld_sp_indirect_stores_word_low_byte_first() {
    let mut bytes = image(0x00, 0x00, 0x00, 0x8000);
    bytes[0x100] = 0x08;
    bytes[0x101] = 0x00;
    bytes[0x102] = 0xC0;
    let mut gb = machine_with(bytes);
    gb.cpu.registers.sp = 0xBEEF;

    let cycles = gb.step().unwrap();

    assert_eq!(cycles, 20);
    assert_eq!(gb.memory.read_byte(0xC000).unwrap(), 0xEF);
    assert_eq!(gb.memory.read_byte(0xC001).unwrap(), 0xBE);
    assert_eq!(gb.memory.read_word(0xC000).unwrap(), 0xBEEF);
    assert_eq!(gb.cpu.registers.pc, 0x0103);
}

#[test]
fn inc_bc_wraps_the_pair() {
    let mut cpu = Cpu::new();
    let mut mem = Memory::new();
    cpu.registers.bc = 0xFFFF;
    cpu.execute(&mut mem, 0x03).unwrap();
    assert_eq!(cpu.registers.bc, 0x0000);
}

#[test]
fn inc_b_sets_zero_and_half_carry_on_wrap() {
    let mut cpu = Cpu::new();
    let mut mem = Memory::new();
    cpu.registers.bc = 0xFF42;
    cpu.registers.af = 0x0008;  // Carry held from before

    cpu.execute(&mut mem, 0x04).unwrap();

    assert_eq!(cpu.registers.bc, 0x0042);
    assert!(cpu.registers.get_flag(Flag::Zero));
    assert!(!cpu.registers.get_flag(Flag::Subtraction));
    assert!(cpu.registers.get_flag(Flag::HalfCarry));
    assert!(cpu.registers.get_flag(Flag::Carry));
}

#[test]
fn dec_b_sets_subtraction_and_borrow() {
    let mut cpu = Cpu::new();
    let mut mem = Memory::new();
    cpu.registers.bc = 0x1042;

    cpu.execute(&mut mem, 0x05).unwrap();

    assert_eq!(cpu.registers.bc, 0x0F42);
    assert!(!cpu.registers.get_flag(Flag::Zero));
    assert!(cpu.registers.get_flag(Flag::Subtraction));
    assert!(cpu.registers.get_flag(Flag::HalfCarry));
}

#[test]
fn add_hl_bc_sets_carry_flags() {
    let mut cpu = Cpu::new();
    let mut mem = Memory::new();
    cpu.registers.hl = 0x8800;
    cpu.registers.bc = 0x8800;
    cpu.registers.set_flag(Flag::Zero, true);

    let cycles = cpu.execute(&mut mem, 0x09).unwrap();

    assert_eq!(cycles, 8);
    assert_eq!(cpu.registers.hl, 0x1000);
    assert!(!cpu.registers.get_flag(Flag::Subtraction));
    assert!(cpu.registers.get_flag(Flag::HalfCarry));
    assert!(cpu.registers.get_flag(Flag::Carry));
    // Zero is untouched by this operation.
    assert!(cpu.registers.get_flag(Flag::Zero));
}

#[test]
fn unimplemented_opcode_faults_with_value_and_pc() {
    let mut bytes = image(0x00, 0x00, 0x00, 0x8000);
    bytes[0x100] = 0x0A;
    let mut gb = machine_with(bytes);

    let r = gb.step();

    assert_eq!(
        r,
        Err(CartridgeError::UnimplementedOpcode { opcode: 0x0A, pc: 0x0101 })
    );
}

#[test]
fn extended_table_is_reachable_and_faults() {
    let mut bytes = image(0x00, 0x00, 0x00, 0x8000);
    bytes[0x100] = 0xCB;
    bytes[0x101] = 0x7C;
    let mut gb = machine_with(bytes);

    let r = gb.step();

    assert_eq!(
        r,
        Err(CartridgeError::UnimplementedOpcode { opcode: 0x7C, pc: 0x0101 })
    );
}

#[test]
fn run_accumulates_cycles() {
    let cartridge = Cartridge::new(image(0x00, 0x00, 0x00, 0x8000)).unwrap();
    let mut gb = Gb::new();
    // Five NOPs at four cycles each.
    assert_eq!(gb.run(cartridge, 5), Ok(20));
}

#[test]
fn run_stops_at_the_first_fault() {
    let mut bytes = image(0x00, 0x00, 0x00, 0x8000);
    bytes[0x102] = 0xD3;
    let cartridge = Cartridge::new(bytes).unwrap();
    let mut gb = Gb::new();

    let r = gb.run(cartridge, 10);

    assert_eq!(
        r,
        Err(CartridgeError::UnimplementedOpcode { opcode: 0xD3, pc: 0x0103 })
    );
    assert_eq!(gb.cpu.registers.pc, 0x0103);
}

#[test]
fn decode_covers_the_defined_entries() {
    let nop = Instruction::decode(0x00).unwrap();
    assert_eq!(nop.opcode, Opcode::NOP);
    assert_eq!(nop.addressing_mode, AddressingMode::Implied);

    let ld = Instruction::decode(0x01).unwrap();
    assert_eq!(ld.opcode, Opcode::LD);
    assert_eq!(ld.addressing_mode, AddressingMode::ImmediateWord);

    let rlca = Instruction::decode(0x07).unwrap();
    assert_eq!(rlca.opcode, Opcode::RLCA);
    assert_eq!(rlca.addressing_mode, AddressingMode::Implied);

    assert_eq!(Instruction::decode(0x0A), None);
    assert_eq!(Instruction::decode(0xCB), None);
    assert_eq!(Instruction::decode(0xFF), None);

    assert_eq!(
        Instruction::new(Opcode::NOP, AddressingMode::Implied),
        Instruction::decode(0x00).unwrap()
    );
}
