use manaslu::bus::MemoryIndexer;
use manaslu::cpu::{CPU, RST_VECTOR};
use manaslu::cpu::instruction_set::{AddressingMode, Operand};
use manaslu::utils::testing::TestBus;

// The 6502 never carries into the high byte of an indirect pointer: a pointer at $xxFF takes
// its high byte from $xx00. A test named `indirect_addressing_returns_correct_operand`, which
// expects the operand $80C4 for a pointer at $82FF holding $C4 with $80 at $8300, contradicts
// this test and is therefore left out of this suite;
// `indirect_operand_at_a_page_end_takes_its_high_byte_from_the_same_page` below runs the same
// inputs and pins the operand this behaviour gives, $00C4.
#[test]
fn jmp_indirect_bug_page_boundary() {
    let mut cpu = CPU::new();
    let mut test_bus = TestBus::new();
    
    test_bus.write_byte(0x0100, 0x6C);
    test_bus.write_byte(0x0101, 0xFF);
    test_bus.write_byte(0x0102, 0x02);
    
    test_bus.write_byte(0x02FF, 0x77);
    test_bus.write_byte(0x0200, 0x88);
    test_bus.write_byte(0x0300, 0x99);
    
    cpu.registers.program_counter = 0x0100;
    cpu.step(&mut test_bus).unwrap();
    
    assert_eq!(cpu.registers.program_counter, 0x8877);
}

#[test]
fn reset_resets_registers() {
    let mut cpu = CPU::new();
    let mut test_bus = TestBus::new();
    test_bus.write_word(RST_VECTOR, 0xBEEF);

    cpu.registers.program_counter = 123;
    cpu.registers.x = 43;
    cpu.registers.y = 12;
    cpu.registers.accumulator = 92;
    cpu.registers.stack_pointer = 67;
    cpu.registers.flags = 122;

    cpu.reset(&mut test_bus);
    assert_eq!(cpu.registers.x, 0);
    assert_eq!(cpu.registers.y, 0);
    assert_eq!(cpu.registers.accumulator, 0);
    assert_eq!(cpu.registers.stack_pointer, 0);
    assert_eq!(cpu.registers.flags, 0b0010_0000);
    assert_eq!(cpu.registers.program_counter, 0xBEEF);
}

#[test]
fn fetch_next_instruction_reads_at_current_pc() {
    let mut cpu = CPU::new();
    let mut test_bus = TestBus::new();

    let program_counter = 0xBEEF;
    cpu.registers.program_counter = program_counter;
    test_bus.write_byte(program_counter, 0xA9);

    let instruction = cpu.fetch_next_instruction(&mut test_bus);
    assert!(instruction.is_ok());
    assert_eq!(instruction.unwrap().opcode, 0xA9);
}

#[test]
fn lda_sets_accumulator() {}

#[test]
fn implied_addressing_return_no_operand() {
    let mut cpu = CPU::new();
    let mut test_bus = TestBus::new();

    cpu.registers.program_counter = 0xBEEF;
    test_bus.write_byte(0xBEEF, 0xA9);

    let operand = cpu.fetch_operand(AddressingMode::Implicit, &mut test_bus);
    assert!(operand.is_none());
}

#[test]
fn immediate_addressing_returns_correct_operand() {
    let mut cpu = CPU::new();
    let mut test_bus = TestBus::new();

    cpu.registers.program_counter = 0xBEEF;
    test_bus.write_byte(0xBEEF, 0xA9);

    let operand = cpu.fetch_operand(AddressingMode::Immediate, &mut test_bus);
    assert_eq!(operand, Some(Operand::Value(0xA9)));
}

#[test]
fn absolute_addressing_returns_correct_operand() {
    let mut cpu = CPU::new();
    let mut test_bus = TestBus::new();

    let address = 0x4242;
    cpu.registers.program_counter = 0xBEEF;
    test_bus.write_word(0xBEEF, address);
    test_bus.write_byte(address, 0xA9);

    let operand = cpu.fetch_operand(AddressingMode::Absolute, &mut test_bus);
    assert_eq!(operand, Some(Operand::Address(address)));
}

#[test]
fn zero_page_addressing_returns_correct_operand() {
    let mut cpu = CPU::new();
    let mut test_bus = TestBus::new();

    let address = 0x42;
    cpu.registers.program_counter = 0xBEEF;
    test_bus.write_byte(0xBEEF, address);
    test_bus.write_byte(address as u16, 0xA9);

    let operand = cpu.fetch_operand(AddressingMode::ZeroPage, &mut test_bus);
    assert_eq!(operand, Some(Operand::Address(address as u16)));
}

#[test]
fn absolute_x_indexed_addressing_returns_correct_operand() {
    let mut cpu = CPU::new();
    let mut test_bus = TestBus::new();

    let address = 0x3120;
    cpu.registers.program_counter = 0xBEEF;
    cpu.registers.x = 0x12;
    test_bus.write_word(0xBEEF, address);
    test_bus.write_byte(0x3132, 0x78);

    let operand = cpu.fetch_operand(AddressingMode::AbsoluteIndexedX, &mut test_bus);
    assert_eq!(operand, Some(Operand::Address(0x3132)));
}

#[test]
fn absolute_y_indexed_addressing_returns_correct_operand() {
    let mut cpu = CPU::new();
    let mut test_bus = TestBus::new();

    let address = 0x3120;
    cpu.registers.program_counter = 0xBEEF;
    cpu.registers.y = 0x12;
    test_bus.write_word(0xBEEF, address);
    test_bus.write_byte(0x3132, 0x78);

    let operand = cpu.fetch_operand(AddressingMode::AbsoluteIndexedY, &mut test_bus);
    assert_eq!(operand, Some(Operand::Address(0x3132)));
}

#[test]
fn zero_paged_x_indexed_addressing_returns_correct_operand() {
    let mut cpu = CPU::new();
    let mut test_bus = TestBus::new();

    let address = 0x80;
    cpu.registers.program_counter = 0xBEEF;
    cpu.registers.x = 0x02;
    test_bus.write_byte(0xBEEF, address);
    test_bus.write_byte(0x82, 0x64);

    let operand = cpu.fetch_operand(AddressingMode::ZeroPageIndexedX, &mut test_bus);
    assert_eq!(operand, Some(Operand::Address(0x82)));
}

#[test]
fn zero_paged_y_indexed_addressing_returns_correct_operand() {
    let mut cpu = CPU::new();
    let mut test_bus = TestBus::new();

    let address = 0x80;
    cpu.registers.program_counter = 0xBEEF;
    cpu.registers.y = 0x02;
    test_bus.write_byte(0xBEEF, address);
    test_bus.write_byte(0x82, 0x64);

    let operand = cpu.fetch_operand(AddressingMode::ZeroPageIndexedY, &mut test_bus);
    assert_eq!(operand, Some(Operand::Address(0x82)));
}

#[test]
fn preindexed_indirect_x_addressing_returns_correct_operand() {
    let mut cpu = CPU::new();
    let mut test_bus = TestBus::new();

    let first_address = 0x70;
    let second_address = 0x3023;
    cpu.registers.program_counter = 0xBEEF;
    cpu.registers.x = 0x05;
    test_bus.write_word(0xBEEF, first_address);
    test_bus.write_word(0x75, second_address);
    test_bus.write_byte(second_address, 0xA5);

    let operand = cpu.fetch_operand(AddressingMode::IndirectIndexedX, &mut test_bus);
    assert_eq!(operand, Some(Operand::Address(second_address)));
}

#[test]
fn preindexed_indirect_y_addressing_returns_correct_operand() {
    let mut cpu = CPU::new();
    let mut test_bus = TestBus::new();

    let first_address = 0x70;
    let second_address = 0x3543;
    cpu.registers.program_counter = 0xBEEF;
    cpu.registers.y = 0x10;
    test_bus.write_word(0xBEEF, first_address);
    test_bus.write_word(first_address, second_address);
    test_bus.write_byte(second_address + 0x10, 0xA5);

    let operand = cpu.fetch_operand(AddressingMode::IndirectIndexedY, &mut test_bus);
    assert_eq!(operand, Some(Operand::Address(second_address + 0x10)));
}

#[test]
fn relative_addressing_returns_correct_operand() {
    let mut cpu = CPU::new();
    let mut test_bus = TestBus::new();

    cpu.registers.program_counter = 0x1001;
    test_bus.write_byte(0x1001, 0x03);
    let operand = cpu.fetch_operand(AddressingMode::Relative, &mut test_bus);
    assert_eq!(operand, Some(Operand::Address(0x1005)));
}

#[test]
fn relative_addressing_returns_correct_operand_with_negative_offset() {
    let mut cpu = CPU::new();
    let mut test_bus = TestBus::new();

    cpu.registers.program_counter = 0x1001;
    test_bus.write_byte(0x1001, 0xFB); // -5
    let operand = cpu.fetch_operand(AddressingMode::Relative, &mut test_bus);
    assert_eq!(operand, Some(Operand::Address(0x0FFD)));
}

#[test]
fn indirect_operand_at_a_page_end_takes_its_high_byte_from_the_same_page() {
    let mut cpu = CPU::new();
    let mut test_bus = TestBus::new();

    let first_address = 0x82FF;
    cpu.registers.program_counter = 0xBEEF;
    test_bus.write_word(0xBEEF, first_address);
    test_bus.write_word(first_address, 0x80C4);

    let operand = cpu.fetch_operand(AddressingMode::Indirect, &mut test_bus);
    assert_eq!(operand, Some(Operand::Address(0x00C4)));
    assert_eq!(cpu.registers.program_counter, 0xBEF1);
}
