use manaslu::bus::{CpuBus, MemoryIndexer};
use manaslu::cartridge::{Cartridge, CartridgeError, INesHeader, NametableMirroring};
use manaslu::cpu::instruction_set::{
    AddressingMode, CpuError, Instruction, InstructionSet, InstructionType, Operand,
};
use manaslu::cpu::registers::{Flag, Registers};
use manaslu::cpu::disassembly::{disassemble, Disassembly};
use manaslu::cpu::{CPU, RST_VECTOR};
use manaslu::manaslu::Manaslu;
use manaslu::ppu::ppu_bus::PpuBus;
use manaslu::ppu::registers::{PPURegisters, Registers as PpuRegisters};
use manaslu::ppu::Ppu;
use manaslu::utils::math::is_negative;
use manaslu::utils::testing::TestBus;

fn instruction(operation: InstructionType, mode: AddressingMode, operand: Option<Operand>) -> Instruction {
    Instruction {
        instruction_type: operation,
        opcode: 0,
        operand,
        addressing_mode: mode,
        operation,
    }
}

/// An NROM image with one 16 KiB PRG bank holding `program` at $8000 (and $C000) and the reset
/// vector pointing there, and one 8 KiB CHR bank.
fn rom_image(flags_6: u8, program: &[u8]) -> Vec<u8> {
    let mut rom = vec![0x4E, 0x45, 0x53, 0x1A, 1, 1, flags_6, 0, 0, 0, 0, 0, 0, 0, 0, 0];
    let mut prg = vec![0u8; 16384];
    prg[..program.len()].copy_from_slice(program);
    prg[0x3FFC] = 0x00;
    prg[0x3FFD] = 0x80;
    rom.extend_from_slice(&prg);
    rom.extend((0..8192).map(|i| (i % 251) as u8));
    rom
}

// ---- Registers ----

#[test]
fn setting_a_flag_to_its_value_changes_nothing() {
    let mut registers = Registers::new();
    registers.flags = 0b1010_0101;
    let before = registers;
    let carry = registers.get_flag(Flag::Carry);
    registers.set_flag(Flag::Carry, carry);
    assert_eq!(registers, before);
}

#[test]
fn setting_one_flag_keeps_the_others() {
    let mut registers = Registers::new();
    registers.flags = 0b1100_0011;
    registers.set_flag(Flag::Zero, false);
    assert_eq!(registers.flags, 0b1100_0001);
    assert!(registers.get_flag(Flag::Negative));
    assert!(registers.get_flag(Flag::Overflow));
    assert!(registers.get_flag(Flag::Carry));
}

#[test]
fn program_counter_and_stack_pointer_wrap() {
    let mut registers = Registers::new();
    registers.program_counter = 0xFFFF;
    registers.increment_program_counter(2);
    assert_eq!(registers.program_counter, 0x0001);
    registers.stack_pointer = 0x00;
    registers.decrement_stack_pointer(1);
    assert_eq!(registers.stack_pointer, 0xFF);
    registers.increment_stack_pointer(1);
    assert_eq!(registers.stack_pointer, 0x00);
}

#[test]
fn negative_is_bit_seven() {
    assert!(is_negative(0x80));
    assert!(is_negative(0xFF));
    assert!(!is_negative(0x7F));
    assert!(!is_negative(0x00));
}

// ---- Test bus ----

#[test]
fn test_bus_reads_back_what_was_written() {
    let mut bus = TestBus::new();
    bus.write_byte(0x1234, 0xAB);
    assert_eq!(bus.read_byte(0x1234), 0xAB);
    assert_eq!(bus.read_byte(0x1235), 0x00);
    bus.write_byte(0xFFFF, 0x11);
    assert_eq!(bus.read_byte(0xFFFF), 0x11);
}

#[test]
fn test_bus_words_round_trip_and_wrap() {
    let mut bus = TestBus::new();
    bus.write_word(0x4000, 0xBEEF);
    assert_eq!(bus.read_word(0x4000), 0xBEEF);
    assert_eq!(bus.read_byte(0x4000), 0xEF);
    assert_eq!(bus.read_byte(0x4001), 0xBE);
    bus.write_word(0xFFFF, 0x1234);
    assert_eq!(bus.read_byte(0xFFFF), 0x34);
    assert_eq!(bus.read_byte(0x0000), 0x12);
    assert_eq!(bus.read_word(0xFFFF), 0x1234);
}

// ---- Handlers ----

#[test]
fn handlers_report_a_missing_operand() {
    let mut registers = Registers::new();
    let mut bus = TestBus::new();
    let adc = instruction(InstructionType::ADC, AddressingMode::Immediate, None);
    assert_eq!(InstructionSet::adc(&adc, &mut registers, &mut bus), Err(CpuError::MissingOperand));
    assert_eq!(registers, Registers::new());
}

#[test]
fn stores_refuse_an_immediate_operand() {
    let mut registers = Registers::new();
    let mut bus = TestBus::new();
    let stx = instruction(InstructionType::STX, AddressingMode::Immediate, Some(Operand::Value(1)));
    assert_eq!(InstructionSet::stx(&stx, &mut registers, &mut bus), Err(CpuError::InvalidOperand));
}

#[test]
fn an_unknown_addressing_mode_fails_after_the_effect() {
    let mut registers = Registers::new();
    let mut bus = TestBus::new();
    registers.x = 0x42;
    let stx = instruction(
        InstructionType::STX,
        AddressingMode::ZeroPageIndexedY,
        Some(Operand::Address(0x0010)),
    );
    assert_eq!(
        InstructionSet::stx(&stx, &mut registers, &mut bus),
        Err(CpuError::InvalidAddressingMode)
    );
    assert_eq!(bus.read_byte(0x0010), 0x42);
}

#[test]
fn sbc_subtracts_with_borrow() {
    let mut registers = Registers::new();
    let mut bus = TestBus::new();
    registers.accumulator = 0x50;
    registers.set_flag(Flag::Carry, true);
    let sbc = instruction(InstructionType::SBC, AddressingMode::Immediate, Some(Operand::Value(0xF0)));
    assert_eq!(InstructionSet::sbc(&sbc, &mut registers, &mut bus), Ok(2));
    assert_eq!(registers.accumulator, 0x60);
    assert!(!registers.get_flag(Flag::Carry));
    assert!(!registers.get_flag(Flag::Overflow));
    assert!(!registers.get_flag(Flag::Negative));

    registers.accumulator = 0x50;
    registers.set_flag(Flag::Carry, true);
    let sbc = instruction(InstructionType::SBC, AddressingMode::Immediate, Some(Operand::Value(0xB0)));
    assert_eq!(InstructionSet::sbc(&sbc, &mut registers, &mut bus), Ok(2));
    assert_eq!(registers.accumulator, 0xA0);
    assert!(registers.get_flag(Flag::Overflow));
    assert!(registers.get_flag(Flag::Negative));
}

#[test]
fn rotations_move_the_carry_through() {
    let mut registers = Registers::new();
    let mut bus = TestBus::new();
    registers.set_flag(Flag::Carry, true);
    let rol = instruction(InstructionType::ROL, AddressingMode::Accumulator, Some(Operand::Value(0b1000_0001)));
    assert_eq!(InstructionSet::rol(&rol, &mut registers, &mut bus), Ok(2));
    assert_eq!(registers.accumulator, 0b0000_0011);
    assert!(registers.get_flag(Flag::Carry));

    bus.write_byte(0x0040, 0b0000_0010);
    registers.set_flag(Flag::Carry, true);
    let ror = instruction(InstructionType::ROR, AddressingMode::ZeroPage, Some(Operand::Address(0x0040)));
    assert_eq!(InstructionSet::ror(&ror, &mut registers, &mut bus), Ok(5));
    assert_eq!(bus.read_byte(0x0040), 0b1000_0001);
    assert!(!registers.get_flag(Flag::Carry));
    assert!(registers.get_flag(Flag::Negative));

    let lsr = instruction(InstructionType::LSR, AddressingMode::Accumulator, Some(Operand::Value(0b0000_0001)));
    assert_eq!(InstructionSet::lsr(&lsr, &mut registers, &mut bus), Ok(2));
    assert_eq!(registers.accumulator, 0);
    assert!(registers.get_flag(Flag::Carry));
    assert!(registers.get_flag(Flag::Zero));
}

#[test]
fn compare_sets_carry_zero_negative() {
    let mut registers = Registers::new();
    let mut bus = TestBus::new();
    registers.accumulator = 0x10;
    let cmp = instruction(InstructionType::CMP, AddressingMode::Immediate, Some(Operand::Value(0x20)));
    assert_eq!(InstructionSet::cmp(&cmp, &mut registers, &mut bus), Ok(2));
    assert!(!registers.get_flag(Flag::Carry));
    assert!(!registers.get_flag(Flag::Zero));
    assert!(registers.get_flag(Flag::Negative));
    registers.y = 0x20;
    let cpy = instruction(InstructionType::CPY, AddressingMode::Immediate, Some(Operand::Value(0x20)));
    assert_eq!(InstructionSet::cpy(&cpy, &mut registers, &mut bus), Ok(2));
    assert!(registers.get_flag(Flag::Carry));
    assert!(registers.get_flag(Flag::Zero));
}

#[test]
fn jsr_then_rts_returns_after_the_call() {
    let mut registers = Registers::new();
    let mut bus = TestBus::new();
    registers.program_counter = 0x8003;
    registers.stack_pointer = 0xFD;
    registers.accumulator = 0x33;
    let before = registers;
    let jsr = instruction(InstructionType::JSR, AddressingMode::Absolute, Some(Operand::Address(0x9000)));
    assert_eq!(InstructionSet::jsr(&jsr, &mut registers, &mut bus), Ok(6));
    assert_eq!(registers.program_counter, 0x9000);
    let rts = instruction(InstructionType::RTS, AddressingMode::Implicit, None);
    assert_eq!(InstructionSet::rts(&rts, &mut registers, &mut bus), Ok(6));
    assert_eq!(registers, Registers { program_counter: 0x8004, ..before });
}

#[test]
fn pha_then_pla_restores_the_accumulator() {
    let mut registers = Registers::new();
    let mut bus = TestBus::new();
    registers.stack_pointer = 0xFF;
    registers.accumulator = 0x9C;
    let pha = instruction(InstructionType::PHA, AddressingMode::Implicit, None);
    assert_eq!(InstructionSet::pha(&pha, &mut registers, &mut bus), Ok(3));
    registers.accumulator = 0;
    let pla = instruction(InstructionType::PLA, AddressingMode::Implicit, None);
    assert_eq!(InstructionSet::pla(&pla, &mut registers, &mut bus), Ok(4));
    assert_eq!(registers.accumulator, 0x9C);
    assert_eq!(registers.stack_pointer, 0xFF);
    assert!(registers.get_flag(Flag::Negative));
}

#[test]
fn php_then_plp_keeps_the_arithmetic_flags() {
    let mut registers = Registers::new();
    let mut bus = TestBus::new();
    registers.stack_pointer = 0xFF;
    registers.flags = 0b1100_0011;
    let php = instruction(InstructionType::PHP, AddressingMode::Implicit, None);
    assert_eq!(InstructionSet::php(&php, &mut registers, &mut bus), Ok(3));
    registers.flags = 0;
    let plp = instruction(InstructionType::PLP, AddressingMode::Implicit, None);
    assert_eq!(InstructionSet::plp(&plp, &mut registers, &mut bus), Ok(4));
    assert_eq!(registers.flags, 0b1100_1011);
    assert_eq!(registers.stack_pointer, 0xFF);
}

#[test]
fn the_stack_works_on_the_console_bus() {
    let cartridge = Cartridge::from_bytes(&rom_image(0, &[])).unwrap();
    let mut bus = CpuBus::new(cartridge);
    let mut registers = Registers::new();
    registers.program_counter = 0x8003;
    registers.stack_pointer = 0x00;
    registers.accumulator = 0x47;
    let before = registers;
    let jsr = instruction(InstructionType::JSR, AddressingMode::Absolute, Some(Operand::Address(0xC000)));
    assert_eq!(InstructionSet::jsr(&jsr, &mut registers, &mut bus), Ok(6));
    assert_eq!(bus.read_byte(0x0100), 0x80);
    assert_eq!(bus.read_byte(0x01FF), 0x03);
    let pha = instruction(InstructionType::PHA, AddressingMode::Implicit, None);
    assert_eq!(InstructionSet::pha(&pha, &mut registers, &mut bus), Ok(3));
    registers.accumulator = 0;
    let pla = instruction(InstructionType::PLA, AddressingMode::Implicit, None);
    assert_eq!(InstructionSet::pla(&pla, &mut registers, &mut bus), Ok(4));
    assert_eq!(registers.accumulator, 0x47);
    let rts = instruction(InstructionType::RTS, AddressingMode::Implicit, None);
    assert_eq!(InstructionSet::rts(&rts, &mut registers, &mut bus), Ok(6));
    assert_eq!(registers, Registers { program_counter: 0x8004, ..before });
}

#[test]
fn rti_pulls_status_and_return_address() {
    let mut registers = Registers::new();
    let mut bus = TestBus::new();
    registers.stack_pointer = 0xFC;
    bus.write_byte(0x01FD, 0xFF);
    bus.write_byte(0x01FE, 0x34);
    bus.write_byte(0x01FF, 0x12);
    let rti = instruction(InstructionType::RTI, AddressingMode::Implicit, None);
    assert_eq!(InstructionSet::rti(&rti, &mut registers, &mut bus), Ok(6));
    assert_eq!(registers.flags, 0b1100_1111);
    assert_eq!(registers.program_counter, 0x1234);
    assert_eq!(registers.stack_pointer, 0xFF);
}

#[test]
fn branches_take_three_cycles_when_taken() {
    let mut registers = Registers::new();
    let mut bus = TestBus::new();
    registers.program_counter = 0x1000;
    let beq = instruction(InstructionType::BEQ, AddressingMode::Relative, Some(Operand::Address(0x2000)));
    assert_eq!(InstructionSet::beq(&beq, &mut registers, &mut bus), Ok(2));
    assert_eq!(registers.program_counter, 0x1000);
    registers.set_flag(Flag::Zero, true);
    assert_eq!(InstructionSet::beq(&beq, &mut registers, &mut bus), Ok(3));
    assert_eq!(registers.program_counter, 0x2000);
    let bne = instruction(InstructionType::BNE, AddressingMode::Relative, Some(Operand::Value(3)));
    assert_eq!(InstructionSet::bne(&bne, &mut registers, &mut bus), Err(CpuError::InvalidOperand));
}

#[test]
fn transfers_and_flag_instructions() {
    let mut registers = Registers::new();
    let mut bus = TestBus::new();
    registers.accumulator = 0x80;
    let tay = instruction(InstructionType::TAY, AddressingMode::Implicit, None);
    assert_eq!(InstructionSet::tay(&tay, &mut registers, &mut bus), Ok(2));
    assert_eq!(registers.y, 0x80);
    assert!(registers.get_flag(Flag::Negative));
    let sec = instruction(InstructionType::SEC, AddressingMode::Implicit, None);
    assert_eq!(InstructionSet::sec(&sec, &mut registers, &mut bus), Ok(2));
    assert!(registers.get_flag(Flag::Carry));
    let clc = instruction(InstructionType::CLC, AddressingMode::Absolute, None);
    assert_eq!(InstructionSet::clc(&clc, &mut registers, &mut bus), Err(CpuError::InvalidAddressingMode));
    assert!(!registers.get_flag(Flag::Carry));
}

#[test]
fn execute_dispatches_on_the_operation() {
    let mut registers = Registers::new();
    let mut bus = TestBus::new();
    // The mnemonic says EOR, the handler is JMP: the handler decides.
    let jmp = Instruction {
        instruction_type: InstructionType::EOR,
        opcode: 0x4C,
        operand: Some(Operand::Address(0xC000)),
        addressing_mode: AddressingMode::Absolute,
        operation: InstructionType::JMP,
    };
    assert_eq!(InstructionSet::execute(&jmp, &mut registers, &mut bus), Ok(3));
    assert_eq!(registers.program_counter, 0xC000);
}

// ---- Decoding and fetching ----

#[test]
fn the_table_decodes_known_opcodes_and_refuses_others() {
    let set = InstructionSet::new();
    let lda = set.get_instruction(0xA9).unwrap();
    assert_eq!(lda.instruction_type, InstructionType::LDA);
    assert_eq!(lda.addressing_mode, AddressingMode::Immediate);
    assert_eq!(lda.operand, None);
    assert_eq!(set.get_instruction(0x02), None);
    assert_eq!(InstructionSet::decode(0x6C).unwrap().operation, InstructionType::JMP);
}

#[test]
fn step_reports_an_invalid_opcode() {
    let mut cpu = CPU::new();
    let mut bus = TestBus::new();
    cpu.registers.program_counter = 0x0300;
    bus.write_byte(0x0300, 0x02);
    assert_eq!(
        cpu.step(&mut bus),
        Err(CpuError::InvalidOpcode { opcode: 0x02, program_counter: 0x0300 })
    );
    assert_eq!(cpu.registers.program_counter, 0x0300);
}

#[test]
fn step_runs_a_small_program() {
    let mut cpu = CPU::new();
    let mut bus = TestBus::new();
    // LDA #$42 ; STA $0200 ; INX
    for (i, byte) in [0xA9u8, 0x42, 0x8D, 0x00, 0x02, 0xE8].iter().enumerate() {
        bus.write_byte(0x0600 + i as u16, *byte);
    }
    cpu.reset_at_address(0x0600);
    assert_eq!(cpu.step(&mut bus), Ok(2));
    assert_eq!(cpu.registers.accumulator, 0x42);
    assert_eq!(cpu.step(&mut bus), Ok(4));
    assert_eq!(bus.read_byte(0x0200), 0x42);
    assert_eq!(cpu.step(&mut bus), Ok(2));
    assert_eq!(cpu.registers.x, 1);
    assert_eq!(cpu.registers.program_counter, 0x0606);
}

#[test]
fn operands_move_the_program_counter_past_their_bytes() {
    let mut cpu = CPU::new();
    let mut bus = TestBus::new();
    cpu.registers.program_counter = 0x1000;
    cpu.fetch_operand(AddressingMode::Implicit, &mut bus);
    assert_eq!(cpu.registers.program_counter, 0x1000);
    cpu.fetch_operand(AddressingMode::ZeroPage, &mut bus);
    assert_eq!(cpu.registers.program_counter, 0x1001);
    cpu.fetch_operand(AddressingMode::Indirect, &mut bus);
    assert_eq!(cpu.registers.program_counter, 0x1003);
}

#[test]
fn zero_page_indexing_wraps_in_the_zero_page() {
    let mut cpu = CPU::new();
    let mut bus = TestBus::new();
    cpu.registers.program_counter = 0x1000;
    cpu.registers.x = 0x10;
    bus.write_byte(0x1000, 0xF8);
    assert_eq!(
        cpu.fetch_operand(AddressingMode::ZeroPageIndexedX, &mut bus),
        Some(Operand::Address(0x0008))
    );
}

#[test]
fn indirect_jump_does_not_cross_a_page() {
    let mut cpu = CPU::new();
    let mut bus = TestBus::new();
    cpu.registers.program_counter = 0x1000;
    bus.write_word(0x1000, 0x30FF);
    bus.write_byte(0x30FF, 0x80);
    bus.write_byte(0x3000, 0x50);
    bus.write_byte(0x3100, 0x40);
    assert_eq!(
        cpu.fetch_operand(AddressingMode::Indirect, &mut bus),
        Some(Operand::Address(0x5080))
    );
}

#[test]
fn reset_reads_the_reset_vector() {
    let mut cpu = CPU::new();
    let mut bus = TestBus::new();
    bus.write_word(RST_VECTOR, 0xC000);
    cpu.reset(&mut bus);
    assert_eq!(cpu.registers(), &Registers { program_counter: 0xC000, ..Registers::new() });
}

// ---- Cartridge ----

#[test]
fn header_is_parsed() {
    let bytes = [0x4E, 0x45, 0x53, 0x1A, 2, 1, 0b0100_0011, 0b0001_1100, 3, 0, 0, 0, 0, 0, 0, 0];
    let header = INesHeader::from_bytes(&bytes).unwrap();
    assert_eq!(header.prg_rom_size, 2);
    assert_eq!(header.chr_rom_size, 1);
    assert_eq!(header.nametable_mirroring, NametableMirroring::Vertical);
    assert!(header.contains_battery_pack);
    assert!(!header.has_trainer);
    assert_eq!(header.mapper_number, 0x14);
    assert!(header.is_nes_2_0);
    assert_eq!(header.prg_ram_size, 3);
}

#[test]
fn header_without_magic_is_refused() {
    let bytes = [0x4E, 0x45, 0x53, 0x00, 1, 1, 0, 0, 0, 0, 0, 0, 0, 0, 0, 0];
    assert_eq!(INesHeader::from_bytes(&bytes), Err(CartridgeError::InvalidHeader));
    assert_eq!(Cartridge::from_bytes(&bytes).err(), Some(CartridgeError::InvalidHeader));
}

#[test]
fn truncated_images_are_refused() {
    assert_eq!(Cartridge::from_bytes(&[0x4E, 0x45]).err(), Some(CartridgeError::UnexpectedEndOfFile));
    let mut rom = rom_image(0, &[]);
    rom.truncate(16 + 16384 + 100);
    assert_eq!(Cartridge::from_bytes(&rom).err(), Some(CartridgeError::UnexpectedEndOfFile));
}

#[test]
fn an_image_is_cut_into_its_parts() {
    let mut rom = rom_image(0b0000_0100, &[]);
    let trainer: Vec<u8> = (0..512).map(|i| (i % 7) as u8).collect();
    let tail = rom.split_off(16);
    rom.extend_from_slice(&trainer);
    rom.extend_from_slice(&tail);
    let cartridge = Cartridge::from_bytes(&rom).unwrap();
    assert_eq!(cartridge.trainer.as_deref(), Some(&trainer[..]));
    assert_eq!(cartridge.prg_rom.len(), 16384);
    assert_eq!(cartridge.chr_rom.as_ref().map(|c| c.len()), Some(8192));
    assert_eq!(cartridge.read_byte(0xFFFD), 0x80);
    assert_eq!(cartridge.read_byte(0xBFFD), 0x80);
    assert_eq!(cartridge.read_byte(0x0005), 5);
    assert_eq!(cartridge.read_byte(0x5000), 0);
}

#[test]
fn chr_ram_is_writable_and_chr_rom_is_not() {
    let mut rom = rom_image(0, &[]);
    rom[5] = 0;
    rom.truncate(16 + 16384);
    let mut cartridge = Cartridge::from_bytes(&rom).unwrap();
    cartridge.write_byte(0x0010, 0x77);
    assert_eq!(cartridge.read_byte(0x0010), 0x77);

    let mut cartridge = Cartridge::from_bytes(&rom_image(0, &[])).unwrap();
    cartridge.write_byte(0x0010, 0x77);
    assert_eq!(cartridge.read_byte(0x0010), 16);
}

// ---- CPU bus ----

#[test]
fn ram_is_mirrored_every_2k() {
    let cartridge = Cartridge::from_bytes(&rom_image(0, &[])).unwrap();
    let mut bus = CpuBus::new(cartridge);
    bus.write_byte(0x0001, 0x5A);
    assert_eq!(bus.read_byte(0x0801), 0x5A);
    assert_eq!(bus.read_byte(0x1801), 0x5A);
    bus.write_byte(0x1FFF, 0xA5);
    assert_eq!(bus.read_byte(0x07FF), 0xA5);
}

#[test]
fn ppu_registers_repeat_every_8_bytes() {
    let cartridge = Cartridge::from_bytes(&rom_image(0, &[])).unwrap();
    let mut bus = CpuBus::new(cartridge);
    bus.write_byte(0x2006, 0x21);
    bus.write_byte(0x3FFE, 0x08);
    assert_eq!(bus.ppu().registers().v, 0x2108);
    bus.write_byte(0x2001, 0x1E);
    assert_eq!(bus.read_byte(0x3FF9), 0x1E);
    bus.write_byte(0x4014, 0x02);
    assert_eq!(bus.peek(0x4014), 0x02);
    assert_eq!(bus.read_byte(0x4016), 0);
    assert_eq!(bus.read_byte(0xFFFC), 0x00);
    assert_eq!(bus.read_byte(0xFFFD), 0x80);
}

#[test]
fn reading_ppustatus_through_the_bus_resets_the_toggle() {
    let cartridge = Cartridge::from_bytes(&rom_image(0, &[])).unwrap();
    let mut bus = CpuBus::new(cartridge);
    bus.write_byte(0x2006, 0x21);
    assert!(bus.ppu().registers().w);
    assert_eq!(bus.peek(0x2002), 0);
    assert!(bus.ppu().registers().w);
    bus.read_byte(0x2002);
    assert!(!bus.ppu().registers().w);
}

// ---- PPU ----

#[test]
fn ppuscroll_two_writes() {
    let mut registers = PpuRegisters::new();
    registers.set_register(PPURegisters::PpuScroll, 0b01111_101);
    registers.set_register(PPURegisters::PpuScroll, 0b10110_011);
    assert_eq!(registers.t, 0b011_00_10110_01111);
    assert_eq!(registers.x, 0b101);
    assert!(!registers.w);
}

#[test]
fn coarse_x_wraps_and_switches_the_horizontal_nametable() {
    let mut registers = PpuRegisters::new();
    // coarse X = 31, coarse Y = 0, fine Y = 0
    registers.v = 0b000_00_00000_11111;
    registers.is_rendering = true;
    registers.get_register(PPURegisters::PpuData);
    // coarse X wraps to 0 and switches the horizontal nametable, fine Y goes 0 -> 1
    assert_eq!(registers.v, 0b001_01_00000_00000);
    registers.v = 0b000_00_00000_11111;
    registers.coarse_x_increment();
    assert_eq!(registers.v, 0b000_01_00000_00000);
}

#[test]
fn ppudata_writes_while_rendering_step_x_and_y() {
    let mut registers = PpuRegisters::new();
    registers.is_rendering = true;
    // coarse X = 3, fine Y = 7, coarse Y = 29: coarse X goes to 4, coarse Y wraps and the
    // vertical nametable switches
    registers.v = 0b111_00_11101_00011;
    registers.set_register(PPURegisters::PpuData, 0x01);
    assert_eq!(registers.v, 0b000_10_00000_00100);
    assert_eq!(registers.ppu_data, 0x01);
}

#[test]
fn coarse_y_wraps_at_row_29() {
    let mut registers = PpuRegisters::new();
    registers.v = 0b111_00_11101_00000;
    registers.coarse_y_increment();
    assert_eq!(registers.v, 0b000_10_00000_00000);
    registers.v = 0b111_00_11111_00000;
    registers.coarse_y_increment();
    assert_eq!(registers.v, 0b000_00_00000_00000);
}

#[test]
fn ppu_bus_mirrors_nametables_and_palettes() {
    let cartridge = Cartridge::from_bytes(&rom_image(1, &[])).unwrap();
    let mut bus = PpuBus::new(cartridge);
    bus.write_byte(0x2005, 0x11);
    assert_eq!(bus.read_byte(0x2805), 0x11);
    assert_eq!(bus.read_byte(0x3005), 0x11);
    assert_eq!(bus.read_byte(0x2405), 0x00);
    bus.write_byte(0x3F10, 0x2C);
    assert_eq!(bus.read_byte(0x3F00), 0x2C);
    assert_eq!(bus.read_byte(0x3F20), 0x2C);

    let cartridge = Cartridge::from_bytes(&rom_image(0, &[])).unwrap();
    let mut bus = PpuBus::new(cartridge);
    bus.write_byte(0x2005, 0x11);
    assert_eq!(bus.read_byte(0x2405), 0x11);
    assert_eq!(bus.read_byte(0x2805), 0x00);
    assert_eq!(bus.mirror_vram_address(0x2C05), 0x405);
    assert_eq!(PpuBus::mirror_palette_address(0x3F1C), 0x0C);
}

#[test]
fn ppu_counts_dots_and_frames() {
    let cartridge = Cartridge::from_bytes(&rom_image(0, &[])).unwrap();
    let mut ppu = Ppu::new(cartridge);
    for _ in 0..341 {
        ppu.step();
    }
    assert_eq!((ppu.current_scanline(), ppu.current_cycle()), (0, 0));
    for _ in 0..(241 * 341 + 2) {
        ppu.step();
    }
    assert_eq!((ppu.current_scanline(), ppu.current_cycle()), (241, 2));
    assert_eq!(ppu.registers().ppu_status & 0x80, 0x80);
    for _ in 0..(20 * 341) {
        ppu.step();
    }
    assert_eq!((ppu.current_scanline(), ppu.current_cycle()), (261, 2));
    assert_eq!(ppu.registers().ppu_status & 0x80, 0);
    // A frame is counted at cycle 0 of each pre-render line: at power-on and now.
    assert_eq!(ppu.current_frame, 2);
    // Row 0 was painted: the pixel at (1, 0).
    assert_eq!(ppu.pixel_buffer()[7], 255);
    assert_ne!(&ppu.pixel_buffer()[4..7], &[255u8, 255, 255][..]);
}

#[test]
fn a_visible_line_paints_its_whole_row_and_nothing_else() {
    let cartridge = Cartridge::from_bytes(&rom_image(0, &[])).unwrap();
    let mut ppu = Ppu::new(cartridge);
    ppu.current_scanline = 10;
    ppu.current_cycle = 1;
    ppu.current_frame = 3;
    for byte in ppu.pixel_buffer.iter_mut() {
        *byte = 0;
    }
    let (v, status) = (ppu.registers.v, ppu.registers.ppu_status);
    for _ in 0..256 {
        ppu.step();
    }
    assert_eq!((ppu.current_scanline(), ppu.current_cycle()), (10, 257));
    assert_eq!((ppu.registers.v, ppu.registers.ppu_status), (v, status));
    let row = 10 * 256 * 4..11 * 256 * 4;
    for (i, byte) in ppu.pixel_buffer().iter().enumerate() {
        if row.contains(&i) {
            if i % 4 == 3 {
                assert_eq!(*byte, 255);
            }
        } else {
            assert_eq!(*byte, 0);
        }
    }
    // The pixel at (5, 10) in frame 3
    let u = 5u8.wrapping_sub(128);
    let v = 10u8.wrapping_sub(120);
    let pattern = (u ^ v).wrapping_mul(4);
    let depth = (u.wrapping_mul(u).wrapping_add(v.wrapping_mul(v))) >> 5;
    let intensity = pattern.wrapping_sub(depth).wrapping_add(3u8.wrapping_mul(4));
    let i = (10 * 256 + 5) * 4;
    assert_eq!(
        &ppu.pixel_buffer()[i..i + 4],
        &[intensity, intensity.wrapping_mul(2), intensity.wrapping_add(128), 255][..]
    );
}

// ---- The console ----

#[test]
fn the_console_resets_and_runs() {
    // LDA #$42 ; STA $0200 ; JMP $8005
    let program = [0xA9, 0x42, 0x8D, 0x00, 0x02, 0x4C, 0x05, 0x80];
    let mut console = Manaslu::new(&rom_image(0, &program)).unwrap();
    assert_eq!(console.cpu().registers().program_counter, 0x8000);
    let lda = console.tick().unwrap();
    assert_eq!((lda.instruction_type, lda.addressing_mode), (InstructionType::LDA, AddressingMode::Immediate));
    assert_eq!((lda.opcode, lda.operand_length, lda.low), (0xA9, 1, 0x42));
    let sta = console.tick().unwrap();
    assert_eq!((sta.opcode, sta.operand_length, sta.base), (0x8D, 2, 0x0200));
    // The trace shows the byte at $0200 before the store
    assert_eq!((sta.effective, sta.value), (Some(0x0200), Some(0)));
    // The table's row for $4C names the mnemonic EOR (with the JMP handler), so the trace shows
    // the byte at the target, the opcode $4C itself
    let jmp = console.tick().unwrap();
    assert_eq!(jmp.instruction_type, InstructionType::EOR);
    assert_eq!((jmp.effective, jmp.value), (Some(0x8005), Some(0x4C)));
    assert_eq!(console.cpu().registers().accumulator, 0x42);
    assert_eq!(console.cpu_bus().peek(0x0200), 0x42);
    assert_eq!(console.cpu().registers().program_counter, 0x8005);
    // 2 + 4 + 3 CPU cycles, three PPU cycles each, from cycle 0 of the pre-render line.
    assert_eq!(console.cpu_bus().ppu().current_cycle(), 27);
    console.reset_at_address(0x8002);
    assert!(console.tick().is_ok());
    assert_eq!(console.cpu().registers().program_counter, 0x8005);
}

#[test]
fn the_console_reports_an_invalid_opcode() {
    let mut console = Manaslu::new(&rom_image(0, &[0x02])).unwrap();
    assert_eq!(
        console.tick(),
        Err(CpuError::InvalidOpcode { opcode: 0x02, program_counter: 0x8000 })
    );
    assert_eq!(console.cpu_bus().ppu().current_cycle(), 0);
    assert_eq!(Manaslu::new(&[0u8; 4]).err(), Some(CartridgeError::UnexpectedEndOfFile));
}

// ---- Disassembly ----

#[test]
fn disassembly_shows_operand_bytes_addresses_and_values() {
    let cartridge = Cartridge::from_bytes(&rom_image(0, &[])).unwrap();
    let mut bus = CpuBus::new(cartridge);
    let mut registers = Registers::new();
    registers.x = 0xF5;
    registers.y = 0x10;

    // LDA $10,X at $0200: the index wraps in the zero page, to $05
    bus.write_byte(0x0200, 0xB5);
    bus.write_byte(0x0201, 0x10);
    bus.write_byte(0x0005, 0x77);
    let lda = InstructionSet::decode(0xB5).unwrap();
    let d = disassemble(&lda, &registers, 0x0200, &mut bus);
    assert_eq!(
        d,
        Disassembly {
            instruction_type: InstructionType::LDA,
            addressing_mode: AddressingMode::ZeroPageIndexedX,
            opcode: 0xB5,
            operand_length: 1,
            low: 0x10,
            high: 0,
            base: 0x0010,
            pointer: None,
            effective: Some(0x0005),
            value: Some(0x77),
        }
    );

    // JSR $0634 shows no value
    bus.write_byte(0x0300, 0x20);
    bus.write_byte(0x0301, 0x34);
    bus.write_byte(0x0302, 0x06);
    let jsr = InstructionSet::decode(0x20).unwrap();
    let d = disassemble(&jsr, &registers, 0x0300, &mut bus);
    assert_eq!(d.operand_length, 2);
    assert_eq!(d.base, 0x0634);
    assert_eq!(d.effective, Some(0x0634));
    assert_eq!(d.value, None);

    // LDA ($40),Y: the pointer at $40 is $0123, plus Y is $0133
    bus.write_byte(0x0400, 0xB1);
    bus.write_byte(0x0401, 0x40);
    bus.write_byte(0x0040, 0x23);
    bus.write_byte(0x0041, 0x01);
    bus.write_byte(0x0133, 0x5E);
    let indexed = InstructionSet::decode(0xB1).unwrap();
    let d = disassemble(&indexed, &registers, 0x0400, &mut bus);
    assert_eq!(d.pointer, Some(0x0123));
    assert_eq!(d.effective, Some(0x0133));
    assert_eq!(d.value, Some(0x5E));

    // A branch back by 16 from $0500 lands on $04F2 when its target was not fetched; a fetched
    // target is shown as it is
    bus.write_byte(0x0500, 0xD0);
    bus.write_byte(0x0501, 0xF0);
    let mut bne = InstructionSet::decode(0xD0).unwrap();
    let d = disassemble(&bne, &registers, 0x0500, &mut bus);
    assert_eq!(d.effective, Some(0x04F2));
    assert_eq!(d.value, None);
    bne.operand = Some(Operand::Address(0x1234));
    assert_eq!(disassemble(&bne, &registers, 0x0500, &mut bus).effective, Some(0x1234));

    // An immediate shows the fetched value
    let mut immediate = InstructionSet::decode(0xA9).unwrap();
    immediate.operand = Some(Operand::Value(0x99));
    let d = disassemble(&immediate, &registers, 0x0600, &mut bus);
    assert_eq!((d.operand_length, d.low, d.base), (1, 0x99, 0x99));
}

#[test]
fn indirect_jump_traces_its_target() {
    // JMP ($02FF) at $0700, with the target's bytes at $02FF and $0200
    let cartridge = Cartridge::from_bytes(&rom_image(0, &[])).unwrap();
    let mut bus = CpuBus::new(cartridge);
    bus.write_byte(0x0700, 0x6C);
    bus.write_byte(0x0701, 0xFF);
    bus.write_byte(0x0702, 0x02);
    bus.write_byte(0x02FF, 0x77);
    bus.write_byte(0x0200, 0x88);
    let mut cpu = CPU::new();
    cpu.reset_at_address(0x0700);
    let (cycles, trace) = cpu.step_traced(&mut bus).unwrap();
    assert_eq!(cycles, 5);
    assert_eq!(trace.addressing_mode, AddressingMode::Indirect);
    assert_eq!((trace.base, trace.effective), (0x02FF, Some(0x8877)));
    assert_eq!(cpu.registers().program_counter, 0x8877);
}

#[test]
fn tracing_reads_the_operand_again_with_its_effect() {
    // LDA $2002 at $0300: the fetch reads nothing at $2002, the trace reads PPUSTATUS and so
    // resets the write toggle, and the execution reads it once more
    let cartridge = Cartridge::from_bytes(&rom_image(0, &[])).unwrap();
    let mut bus = CpuBus::new(cartridge);
    bus.write_byte(0x0300, 0xAD);
    bus.write_byte(0x0301, 0x02);
    bus.write_byte(0x0302, 0x20);
    let lda = InstructionSet::decode(0xAD).unwrap();
    bus.write_byte(0x2006, 0x21);
    assert!(bus.ppu().registers.w);
    let d = disassemble(&lda, &Registers::new(), 0x0300, &mut bus);
    assert_eq!(d.effective, Some(0x2002));
    assert!(!bus.ppu().registers.w);

    // LDA $2007 at $0400: the trace and the execution each move v by one
    bus.write_byte(0x0400, 0xAD);
    bus.write_byte(0x0401, 0x07);
    bus.write_byte(0x0402, 0x20);
    bus.write_byte(0x2006, 0x21);
    bus.write_byte(0x2006, 0x00);
    assert_eq!(bus.ppu().registers.v, 0x2100);
    let mut cpu = CPU::new();
    cpu.reset_at_address(0x0400);
    assert_eq!(cpu.step(&mut bus), Ok(4));
    assert_eq!(bus.ppu().registers.v, 0x2102);
}
