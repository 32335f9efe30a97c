use manaslu::bus::MemoryIndexer;
use manaslu::cpu::IRQ_VECTOR;
use manaslu::cpu::instruction_set::{AddressingMode, Instruction, InstructionSet, InstructionType, Operand};
use manaslu::cpu::registers::{Flag, Registers};
use manaslu::utils::testing::TestBus;

#[test]
fn ldy_loads_non_zero_value_immediate() {
    // Arrange
    let mut registers = Registers::new();
    let mut test_bus = TestBus::new();

    let instruction = Instruction {
        instruction_type: InstructionType::LDY,
        opcode: 0xA9,
        operand: Some(Operand::Value(0x25)),
        addressing_mode: AddressingMode::Immediate,
        operation: InstructionType::LDY,
    };

    // Act
    let result = InstructionSet::ldy(&instruction, &mut registers, &mut test_bus);

    // Assert
    assert_eq!(result, Ok(2));
    assert_eq!(registers.y, 0x25);
    assert_eq!(registers.get_flag(Flag::Zero), false);
    assert_eq!(registers.get_flag(Flag::Negative), false);
}

#[test]
fn ldy_loads_zero_value_immediate() {
    // Arrange
    let mut registers = Registers::new();
    let mut test_bus = TestBus::new();

    let instruction = Instruction {
        instruction_type: InstructionType::LDY,
        opcode: 0xA9,
        operand: Some(Operand::Value(0x00)),
        addressing_mode: AddressingMode::Immediate,
        operation: InstructionType::LDY,
    };

    registers.y = 0x25;

    // Act
    let result = InstructionSet::ldy(&instruction, &mut registers, &mut test_bus);

    // Assert
    assert_eq!(result, Ok(2));
    assert_eq!(registers.y, 0x00);
    assert_eq!(registers.get_flag(Flag::Zero), true);
    assert_eq!(registers.get_flag(Flag::Negative), false);
}

#[test]
fn ldy_loads_negative_value_immediate() {
    // Arrange
    let mut registers = Registers::new();
    let mut test_bus = TestBus::new();

    let instruction = Instruction {
        instruction_type: InstructionType::LDY,
        opcode: 0xA9,
        operand: Some(Operand::Value(0xFF)),
        addressing_mode: AddressingMode::Immediate,
        operation: InstructionType::LDY,
    };

    // Act
    let result = InstructionSet::ldy(&instruction, &mut registers, &mut test_bus);

    // Assert
    assert_eq!(result, Ok(2));
    assert_eq!(registers.y, 0xFF);
    assert_eq!(registers.get_flag(Flag::Zero), false);
    assert_eq!(registers.get_flag(Flag::Negative), true);
}

#[test]
fn ldy_loads_value_from_address() {
    // Arrange
    let mut registers = Registers::new();
    let mut test_bus = TestBus::new();

    let instruction = Instruction {
        instruction_type: InstructionType::LDY,
        opcode: 0xA9,
        operand: Some(Operand::Address(0xBEEF)),
        addressing_mode: AddressingMode::Absolute,
        operation: InstructionType::LDY,
    };

    test_bus.write_byte(0xBEEF, 0x25);

    // Act
    let result = InstructionSet::ldy(&instruction, &mut registers, &mut test_bus);

    // Assert
    assert_eq!(result, Ok(4));
    assert_eq!(registers.y, 0x25);
    assert_eq!(registers.get_flag(Flag::Zero), false);
    assert_eq!(registers.get_flag(Flag::Negative), false);
}

#[test]
fn bit_instruction_zero() {
    // Arrange
    let mut registers = Registers::new();
    let mut test_bus = TestBus::new();

    let instruction = Instruction {
        instruction_type: InstructionType::BIT,
        opcode: 0x2C,
        operand: Some(Operand::Address(0xBEEF)),
        addressing_mode: AddressingMode::Absolute,
        operation: InstructionType::BIT,
    };

    // Act
    let result = InstructionSet::bit(&instruction, &mut registers, &mut test_bus);

    // Assert
    assert_eq!(result, Ok(4));
    assert_eq!(registers.get_flag(Flag::Zero), true);
    assert_eq!(registers.get_flag(Flag::Negative), false);
    assert_eq!(registers.get_flag(Flag::Overflow), false);
}

#[test]
fn bit_instruction_negative() {
    // Arrange
    let mut registers = Registers::new();
    let mut test_bus = TestBus::new();

    let instruction = Instruction {
        instruction_type: InstructionType::BIT,
        opcode: 0x2C,
        operand: Some(Operand::Address(0xBEEF)),
        addressing_mode: AddressingMode::Absolute,
        operation: InstructionType::BIT,
    };

    registers.accumulator = 0b10000000;
    test_bus.write_byte(0xBEEF, 0b10000000);

    // Act
    let result = InstructionSet::bit(&instruction, &mut registers, &mut test_bus);

    // Assert
    assert_eq!(result, Ok(4));
    assert_eq!(registers.get_flag(Flag::Zero), false);
    assert_eq!(registers.get_flag(Flag::Negative), true);
    assert_eq!(registers.get_flag(Flag::Overflow), false);
}

#[test]
fn ora_instruction_overflow() {
    // Arrange
    let mut registers = Registers::new();
    let mut test_bus = TestBus::new();

    let instruction = Instruction {
        instruction_type: InstructionType::BIT,
        opcode: 0x2C,
        operand: Some(Operand::Address(0xBEEF)),
        addressing_mode: AddressingMode::Absolute,
        operation: InstructionType::BIT,
    };

    registers.accumulator = 0b01000000;
    test_bus.write_byte(0xBEEF, 0b01000000);

    // Act
    let result = InstructionSet::bit(&instruction, &mut registers, &mut test_bus);

    // Assert
    assert_eq!(result, Ok(4));
    assert_eq!(registers.get_flag(Flag::Zero), false);
    assert_eq!(registers.get_flag(Flag::Negative), false);
    assert_eq!(registers.get_flag(Flag::Overflow), true);
}

#[test]
fn eor_instruction_positive() {
    // Arrange
    let mut registers = Registers::new();
    let mut test_bus = TestBus::new();

    let instruction = Instruction {
        instruction_type: InstructionType::EOR,
        opcode: 0x49,
        operand: Some(Operand::Value(0b00001111)),
        addressing_mode: AddressingMode::Immediate,
        operation: InstructionType::EOR,
    };

    registers.accumulator = 0b0000011;

    // Act
    let result = InstructionSet::eor(&instruction, &mut registers, &mut test_bus);

    // Assert
    assert_eq!(result, Ok(2));
    assert_eq!(registers.accumulator, 0b00001100);
    assert_eq!(registers.get_flag(Flag::Zero), false);
    assert_eq!(registers.get_flag(Flag::Negative), false);
}

#[test]
fn eor_instruction_negative() {
    // Arrange
    let mut registers = Registers::new();
    let mut test_bus = TestBus::new();

    let instruction = Instruction {
        instruction_type: InstructionType::EOR,
        opcode: 0x49,
        operand: Some(Operand::Value(0b1110_0000)),
        addressing_mode: AddressingMode::Immediate,
        operation: InstructionType::EOR,
    };

    registers.accumulator = 0b0100_0000;

    // Act
    let result = InstructionSet::eor(&instruction, &mut registers, &mut test_bus);

    // Assert
    assert_eq!(result, Ok(2));
    assert_eq!(registers.accumulator, 0b1010_0000);
    assert_eq!(registers.get_flag(Flag::Zero), false);
    assert_eq!(registers.get_flag(Flag::Negative), true);
}

#[test]
fn eor_instruction_zero() {
    // Arrange
    let mut registers = Registers::new();
    let mut test_bus = TestBus::new();

    let instruction = Instruction {
        instruction_type: InstructionType::EOR,
        opcode: 0x49,
        operand: Some(Operand::Value(0b0000_0000)),
        addressing_mode: AddressingMode::Immediate,
        operation: InstructionType::EOR,
    };

    // Act
    let result = InstructionSet::eor(&instruction, &mut registers, &mut test_bus);

    // Assert
    assert_eq!(result, Ok(2));
    assert_eq!(registers.accumulator, 0b0000_0000);
    assert_eq!(registers.get_flag(Flag::Zero), true);
    assert_eq!(registers.get_flag(Flag::Negative), false);
}

#[test]
fn cpx_instruction_carry() {
    // Arrange
    let mut registers = Registers::new();
    let mut test_bus = TestBus::new();

    let instruction = Instruction {
        instruction_type: InstructionType::CPX,
        opcode: 0xE0,
        operand: Some(Operand::Value(1)),
        addressing_mode: AddressingMode::Immediate,
        operation: InstructionType::CPX,
    };

    registers.x = 10;

    // Act
    let result = InstructionSet::cpx(&instruction, &mut registers, &mut test_bus);

    // Assert
    assert_eq!(result, Ok(2));
    assert_eq!(registers.get_flag(Flag::Carry), true);
    assert_eq!(registers.get_flag(Flag::Zero), false);
    assert_eq!(registers.get_flag(Flag::Negative), false);
}

#[test]
fn cpx_instruction_zero() {
    // Arrange
    let mut registers = Registers::new();
    let mut test_bus = TestBus::new();

    let instruction = Instruction {
        instruction_type: InstructionType::CPX,
        opcode: 0xE0,
        operand: Some(Operand::Value(1)),
        addressing_mode: AddressingMode::Immediate,
        operation: InstructionType::CPX,
    };

    registers.x = 1;

    // Act
    let result = InstructionSet::cpx(&instruction, &mut registers, &mut test_bus);

    // Assert
    assert_eq!(result, Ok(2));
    assert_eq!(registers.get_flag(Flag::Carry), true);
    assert_eq!(registers.get_flag(Flag::Zero), true);
    assert_eq!(registers.get_flag(Flag::Negative), false);
}

#[test]
fn cpx_instruction_negative() {
    // Arrange
    let mut registers = Registers::new();
    let mut test_bus = TestBus::new();

    let instruction = Instruction {
        instruction_type: InstructionType::CPX,
        opcode: 0xE0,
        operand: Some(Operand::Address(0xBEEF)),
        addressing_mode: AddressingMode::Absolute,
        operation: InstructionType::CPX,
    };

    test_bus.write_byte(0xBEEF, 10);
    registers.x = 1;

    // Act
    let result = InstructionSet::cpx(&instruction, &mut registers, &mut test_bus);

    // Assert
    assert_eq!(result, Ok(4));
    assert_eq!(registers.get_flag(Flag::Carry), false);
    assert_eq!(registers.get_flag(Flag::Zero), false);
    assert_eq!(registers.get_flag(Flag::Negative), true);
}

#[test]
fn sei_instruction() {
    // Arrange
    let mut registers = Registers::new();
    let mut test_bus = TestBus::new();

    let instruction = Instruction {
        instruction_type: InstructionType::SEI,
        opcode: 0x78,
        operand: None,
        addressing_mode: AddressingMode::Implicit,
        operation: InstructionType::SEI,
    };

    // Act
    let result = InstructionSet::sei(&instruction, &mut registers, &mut test_bus);

    // Assert
    assert_eq!(result, Ok(2));
    assert_eq!(registers.get_flag(Flag::InterruptDisable), true);
}

#[test]
fn nop_returns_2_cycles() {
    // Arrange
    let mut registers = Registers::new();
    let mut test_bus = TestBus::new();

    let instruction = Instruction {
        instruction_type: InstructionType::NOP,
        opcode: 0x00,
        operand: None,
        addressing_mode: AddressingMode::Implicit,
        operation: InstructionType::NOP,
    };

    // Act
    let cycles = InstructionSet::nop(&instruction, &mut registers, &mut test_bus).unwrap();

    // Assert
    assert_eq!(cycles, 2);
}

#[test]
fn asl_instruction_no_carry_positive_to_accumulator() {
    // Arrange
    let mut registers = Registers::new();
    let mut test_bus = TestBus::new();

    let instruction = Instruction {
        instruction_type: InstructionType::ASL,
        opcode: 0x0A,
        operand: Some(Operand::Value(0b00000001)),
        addressing_mode: AddressingMode::Accumulator,
        operation: InstructionType::ASL,
    };

    // Act
    let result = InstructionSet::asl(&instruction, &mut registers, &mut test_bus);

    // Assert
    assert_eq!(result, Ok(2));
    assert_eq!(registers.accumulator, 0b00000010);
    assert_eq!(registers.get_flag(Flag::Carry), false);
    assert_eq!(registers.get_flag(Flag::Zero), false);
    assert_eq!(registers.get_flag(Flag::Negative), false);
}

#[test]
fn asl_instruction_with_carry_zero_to_address() {
    // Arrange
    let mut registers = Registers::new();
    let mut test_bus = TestBus::new();

    let instruction = Instruction {
        instruction_type: InstructionType::ASL,
        opcode: 0x0E,
        operand: Some(Operand::Address(0xBEEF)),
        addressing_mode: AddressingMode::Absolute,
        operation: InstructionType::ASL,
    };

    test_bus.write_byte(0xBEEF, 0b1000_0000);

    // Act
    let result = InstructionSet::asl(&instruction, &mut registers, &mut test_bus);

    // Assert
    assert_eq!(result, Ok(6));
    assert_eq!(test_bus.read_byte(0xBEEF), 0);
    assert_eq!(registers.get_flag(Flag::Carry), true);
    assert_eq!(registers.get_flag(Flag::Zero), true);
    assert_eq!(registers.get_flag(Flag::Negative), false);
}

#[test]
fn asl_instruction_no_carry_negative_to_address() {
    // Arrange
    let mut registers = Registers::new();
    let mut test_bus = TestBus::new();

    let instruction = Instruction {
        instruction_type: InstructionType::ASL,
        opcode: 0x0E,
        operand: Some(Operand::Address(0xBEEF)),
        addressing_mode: AddressingMode::Absolute,
        operation: InstructionType::ASL,
    };

    test_bus.write_byte(0xBEEF, 0b0100_0000);

    // Act
    let result = InstructionSet::asl(&instruction, &mut registers, &mut test_bus);

    // Assert
    assert_eq!(result, Ok(6));
    assert_eq!(test_bus.read_byte(0xBEEF), 0b1000_0000);
    assert_eq!(registers.get_flag(Flag::Carry), false);
    assert_eq!(registers.get_flag(Flag::Zero), false);
    assert_eq!(registers.get_flag(Flag::Negative), true);
}

#[test]
fn php_instruction_no_flag() {
    // Arrange
    let mut registers = Registers::new();
    let mut test_bus = TestBus::new();

    let instruction = Instruction {
        instruction_type: InstructionType::PHP,
        opcode: 0x08,
        operand: None,
        addressing_mode: AddressingMode::Implicit,
        operation: InstructionType::PHP,
    };

    registers.stack_pointer = 0xFF;
    registers.flags = 0b0000_0000;

    // Act
    let result = InstructionSet::php(&instruction, &mut registers, &mut test_bus);

    // Assert
    assert_eq!(result, Ok(3));
    assert_eq!(registers.stack_pointer, 0xFE);
    assert_eq!(test_bus.read_byte(0x0100 + 0xFFu16), 0b0011_000);
}

#[test]
fn php_php_instruction_all_flags() {
    // Arrange
    let mut registers = Registers::new();
    let mut test_bus = TestBus::new();

    let instruction = Instruction {
        instruction_type: InstructionType::PHP,
        opcode: 0x08,
        operand: None,
        addressing_mode: AddressingMode::Implicit,
        operation: InstructionType::PHP,
    };

    registers.stack_pointer = 0xFF;
    registers.flags = 0xFF;

    // Act
    let result = InstructionSet::php(&instruction, &mut registers, &mut test_bus);

    // Assert
    assert_eq!(result, Ok(3));
    assert_eq!(registers.stack_pointer, 0xFE);
    assert_eq!(test_bus.read_byte(0x0100 + 0xFFu16), 0xFF);
}

#[test]
fn tsx_instruction_no_flag() {
    // Arrange
    let mut registers = Registers::new();
    let mut test_bus = TestBus::new();

    let instruction = Instruction {
        instruction_type: InstructionType::TSX,
        opcode: 0xBA,
        operand: None,
        addressing_mode: AddressingMode::Implicit,
        operation: InstructionType::TSX,
    };

    registers.stack_pointer = 0xB6;

    // Act
    let result = InstructionSet::tsx(&instruction, &mut registers, &mut test_bus);

    // Assert
    assert_eq!(result, Ok(2));
    assert_eq!(registers.x, 0xB6);
    assert_eq!(registers.get_flag(Flag::Negative), true);
    assert_eq!(registers.get_flag(Flag::Zero), false);
}

#[test]
fn txs_instruction_no_flag() {
    // Arrange
    let mut registers = Registers::new();
    let mut test_bus = TestBus::new();

    let instruction = Instruction {
        instruction_type: InstructionType::TXS,
        opcode: 0x9A,
        operand: None,
        addressing_mode: AddressingMode::Implicit,
        operation: InstructionType::TXS,
    };

    registers.x = 0xB6;

    // Act
    let result = InstructionSet::txs(&instruction, &mut registers, &mut test_bus);

    // Assert
    assert_eq!(result, Ok(2));
    assert_eq!(registers.stack_pointer, 0xB6);
}

#[test]
fn tax_instruction_positive() {
    // Arrange
    let mut registers = Registers::new();
    let mut test_bus = TestBus::new();

    let instruction = Instruction {
        instruction_type: InstructionType::TXA,
        opcode: 0x8A,
        operand: None,
        addressing_mode: AddressingMode::Implicit,
        operation: InstructionType::TXA,
    };

    registers.x = 0x55;

    // Act
    let result = InstructionSet::txa(&instruction, &mut registers, &mut test_bus);

    // Assert
    assert_eq!(result, Ok(2));
    assert_eq!(registers.x, 0x55);
    assert_eq!(registers.accumulator, 0x55);
    assert_eq!(registers.get_flag(Flag::Zero), false);
    assert_eq!(registers.get_flag(Flag::Negative), false);
}

#[test]
fn tax_instruction_negative() {
    // Arrange
    let mut registers = Registers::new();
    let mut test_bus = TestBus::new();

    let instruction = Instruction {
        instruction_type: InstructionType::TXA,
        opcode: 0x8A,
        operand: None,
        addressing_mode: AddressingMode::Implicit,
        operation: InstructionType::TXA,
    };

    registers.x = 0xFF;

    // Act
    let result = InstructionSet::txa(&instruction, &mut registers, &mut test_bus);

    // Assert
    assert_eq!(result, Ok(2));
    assert_eq!(registers.x, 0xFF);
    assert_eq!(registers.accumulator, 0xFF);
    assert_eq!(registers.get_flag(Flag::Zero), false);
    assert_eq!(registers.get_flag(Flag::Negative), true);
}

#[test]
fn tax_instruction_zero() {
    // Arrange
    let mut registers = Registers::new();
    let mut test_bus = TestBus::new();

    let instruction = Instruction {
        instruction_type: InstructionType::TXA,
        opcode: 0x8A,
        operand: None,
        addressing_mode: AddressingMode::Implicit,
        operation: InstructionType::TXA,
    };

    // Act
    let result = InstructionSet::txa(&instruction, &mut registers, &mut test_bus);

    // Assert
    assert_eq!(result, Ok(2));
    assert_eq!(registers.x, 0);
    assert_eq!(registers.accumulator, 0);
    assert_eq!(registers.get_flag(Flag::Zero), true);
    assert_eq!(registers.get_flag(Flag::Negative), false);
}

#[test]
fn instruction_set_adc_sets_no_flags() {
    // Arrange
    let mut registers = Registers::new();
    let mut test_bus = TestBus::new();

    let instruction = Instruction{
        instruction_type: InstructionType::ADC,
        opcode: 0x69,
        operand: Some(Operand::Value(0x01)),
        addressing_mode: AddressingMode::Immediate,
        operation: InstructionType::ADC,
    };

    registers.accumulator = 0x01;
    registers.set_flag(Flag::Carry, true);

    // Act
    let result = InstructionSet::adc(&instruction, &mut registers, &mut test_bus);

    // Assert
    assert_eq!(result, Ok(2));
    assert_eq!(registers.accumulator, 0x03);
    assert_eq!(registers.get_flag(Flag::Carry), false);
    assert_eq!(registers.get_flag(Flag::Zero), false);
    assert_eq!(registers.get_flag(Flag::Negative), false);
    assert_eq!(registers.get_flag(Flag::Overflow), false);
}

#[test]
fn instruction_set_adc_sets_carry_flag_zero_result() {
    // Arrange
    let mut registers = Registers::new();
    let mut test_bus = TestBus::new();

    let instruction = Instruction{
        instruction_type: InstructionType::ADC,
        opcode: 0x69,
        operand: Some(Operand::Value(0x01)),
        addressing_mode: AddressingMode::Immediate,
        operation: InstructionType::ADC,
    };

    registers.accumulator = 0xFF;
    registers.set_flag(Flag::Carry, false);

    // Act
    let result = InstructionSet::adc(&instruction, &mut registers, &mut test_bus);

    // Assert
    assert_eq!(result, Ok(2));
    assert_eq!(registers.accumulator, 0x00);
    assert_eq!(registers.get_flag(Flag::Carry), true);
    assert_eq!(registers.get_flag(Flag::Zero), true);
    assert_eq!(registers.get_flag(Flag::Negative), false);
    assert_eq!(registers.get_flag(Flag::Overflow), false);
}

#[test]
fn instruction_set_adc_sets_overflow_flag_negative_result() {
    // Arrange
    let mut registers = Registers::new();
    let mut test_bus = TestBus::new();

    let instruction = Instruction{
        instruction_type: InstructionType::ADC,
        opcode: 0x69,
        operand: Some(Operand::Value(0x01)),
        addressing_mode: AddressingMode::Immediate,
        operation: InstructionType::ADC,
    };

    registers.accumulator = 0x7F;

    // Act
    let result = InstructionSet::adc(&instruction, &mut registers, &mut test_bus);

    // Assert
    assert_eq!(result, Ok(2));
    assert_eq!(registers.accumulator, 0x80);
    assert_eq!(registers.get_flag(Flag::Overflow), true);
    assert_eq!(registers.get_flag(Flag::Carry), false);
    assert_eq!(registers.get_flag(Flag::Negative), true);
    assert_eq!(registers.get_flag(Flag::Zero), false);
}

#[test]
fn instruction_set_adc_sets_overflow_flag_positive_result() {
    // Arrange
    let mut registers = Registers::new();
    let mut test_bus = TestBus::new();

    let instruction = Instruction{
        instruction_type: InstructionType::ADC,
        opcode: 0x69,
        operand: Some(Operand::Value(0xFF)),
        addressing_mode: AddressingMode::Immediate,
        operation: InstructionType::ADC,
    };

    registers.accumulator = 0x80;

    // Act
    let result = InstructionSet::adc(&instruction, &mut registers, &mut test_bus);

    // Assert
    assert_eq!(result, Ok(2));
    assert_eq!(registers.accumulator, 0x7F);
    assert_eq!(registers.get_flag(Flag::Overflow), true);
    assert_eq!(registers.get_flag(Flag::Carry), true);
    assert_eq!(registers.get_flag(Flag::Negative), false);
    assert_eq!(registers.get_flag(Flag::Zero), false);
}

#[test]
fn instruction_set_and_instruction_positive() {
    // Arrange
    let mut registers = Registers::new();
    let mut test_bus = TestBus::new();

    let instruction = Instruction{
        instruction_type: InstructionType::AND,
        opcode: 0x29,
        operand: Some(Operand::Value(0b10101011)),
        addressing_mode: AddressingMode::Immediate,
        operation: InstructionType::AND,
    };

    registers.accumulator = 0b00001001;

    // Act
    let result = InstructionSet::and(&instruction, &mut registers, &mut test_bus);

    // Assert
    assert_eq!(result, Ok(2));
    assert_eq!(registers.accumulator, 0b00001001);
    assert_eq!(registers.get_flag(Flag::Zero), false);
    assert_eq!(registers.get_flag(Flag::Negative), false);
}

#[test]
fn instruction_set_and_instruction_negative() {
    // Arrange
    let mut registers = Registers::new();
    let mut test_bus = TestBus::new();

    let instruction = Instruction{
        instruction_type: InstructionType::AND,
        opcode: 0x29,
        operand: Some(Operand::Value(0b10101011)),
        addressing_mode: AddressingMode::Immediate,
        operation: InstructionType::AND,
    };

    registers.accumulator = 0b10001001;

    // Act
    let result = InstructionSet::and(&instruction, &mut registers, &mut test_bus);

    // Assert
    assert_eq!(result, Ok(2));
    assert_eq!(registers.accumulator, 0b10001001);
    assert_eq!(registers.get_flag(Flag::Zero), false);
    assert_eq!(registers.get_flag(Flag::Negative), true);
}

#[test]
fn stx_stores_value() {
    // Arrange
    let mut registers = Registers::new();
    let mut test_bus = TestBus::new();

    let instruction = Instruction {
        instruction_type: InstructionType::STX,
        opcode: 0x8E,
        operand: Some(Operand::Address(0xBEEF)),
        addressing_mode: AddressingMode::Absolute,
        operation: InstructionType::STX,
    };

    registers.x = 0x12;

    // Act
    let result = InstructionSet::stx(&instruction, &mut registers, &mut test_bus);

    // Assert
    assert_eq!(result, Ok(4));
    assert_eq!(test_bus.read_byte(0xBEEF), 0x12);
}

#[test]
fn adc_adc_sets_no_flags() {
    // Arrange
    let mut registers = Registers::new();
    let mut test_bus = TestBus::new();

    let instruction = Instruction{
        instruction_type: InstructionType::ADC,
        opcode: 0x69,
        operand: Some(Operand::Value(0x01)),
        addressing_mode: AddressingMode::Immediate,
        operation: InstructionType::ADC,
    };

    registers.accumulator = 0x01;
    registers.set_flag(Flag::Carry, true);

    // Act
    let result = InstructionSet::adc(&instruction, &mut registers, &mut test_bus);

    // Assert
    assert_eq!(result, Ok(2));
    assert_eq!(registers.accumulator, 0x03);
    assert_eq!(registers.get_flag(Flag::Carry), false);
    assert_eq!(registers.get_flag(Flag::Zero), false);
    assert_eq!(registers.get_flag(Flag::Negative), false);
    assert_eq!(registers.get_flag(Flag::Overflow), false);
}

#[test]
fn adc_adc_sets_carry_flag_zero_result() {
    // Arrange
    let mut registers = Registers::new();
    let mut test_bus = TestBus::new();

    let instruction = Instruction{
        instruction_type: InstructionType::ADC,
        opcode: 0x69,
        operand: Some(Operand::Value(0x01)),
        addressing_mode: AddressingMode::Immediate,
        operation: InstructionType::ADC,
    };

    registers.accumulator = 0xFF;
    registers.set_flag(Flag::Carry, false);

    // Act
    let result = InstructionSet::adc(&instruction, &mut registers, &mut test_bus);

    // Assert
    assert_eq!(result, Ok(2));
    assert_eq!(registers.accumulator, 0x00);
    assert_eq!(registers.get_flag(Flag::Carry), true);
    assert_eq!(registers.get_flag(Flag::Zero), true);
    assert_eq!(registers.get_flag(Flag::Negative), false);
    assert_eq!(registers.get_flag(Flag::Overflow), false);
}

#[test]
fn adc_adc_sets_overflow_flag_negative_result() {
    // Arrange
    let mut registers = Registers::new();
    let mut test_bus = TestBus::new();

    let instruction = Instruction{
        instruction_type: InstructionType::ADC,
        opcode: 0x69,
        operand: Some(Operand::Value(0x01)),
        addressing_mode: AddressingMode::Immediate,
        operation: InstructionType::ADC,
    };

    registers.accumulator = 0x7F;

    // Act
    let result = InstructionSet::adc(&instruction, &mut registers, &mut test_bus);

    // Assert
    assert_eq!(result, Ok(2));
    assert_eq!(registers.accumulator, 0x80);
    assert_eq!(registers.get_flag(Flag::Overflow), true);
    assert_eq!(registers.get_flag(Flag::Carry), false);
    assert_eq!(registers.get_flag(Flag::Negative), true);
    assert_eq!(registers.get_flag(Flag::Zero), false);
}

#[test]
fn adc_adc_sets_overflow_flag_positive_result() {
    // Arrange
    let mut registers = Registers::new();
    let mut test_bus = TestBus::new();

    let instruction = Instruction{
        instruction_type: InstructionType::ADC,
        opcode: 0x69,
        operand: Some(Operand::Value(0xFF)),
        addressing_mode: AddressingMode::Immediate,
        operation: InstructionType::ADC,
    };

    registers.accumulator = 0x80;

    // Act
    let result = InstructionSet::adc(&instruction, &mut registers, &mut test_bus);

    // Assert
    assert_eq!(result, Ok(2));
    assert_eq!(registers.accumulator, 0x7F);
    assert_eq!(registers.get_flag(Flag::Overflow), true);
    assert_eq!(registers.get_flag(Flag::Carry), true);
    assert_eq!(registers.get_flag(Flag::Negative), false);
    assert_eq!(registers.get_flag(Flag::Zero), false);
}

#[test]
fn dec_instruction_positive() {
    // Arrange
    let mut registers = Registers::new();
    let mut test_bus = TestBus::new();

    let instruction = Instruction {
        instruction_type: InstructionType::DEC,
        opcode: 0xCE,
        operand: Some(Operand::Address(0xBEEF)),
        addressing_mode: AddressingMode::Absolute,
        operation: InstructionType::DEC,
    };

    test_bus.write_byte(0xBEEF, 0x02);

    // Act
    let result = InstructionSet::dec(&instruction, &mut registers, &mut test_bus);

    // Assert
    assert_eq!(result, Ok(6));
    assert_eq!(test_bus.read_byte(0xBEEF), 0x01);
    assert_eq!(registers.get_flag(Flag::Zero), false);
    assert_eq!(registers.get_flag(Flag::Negative), false);
}

#[test]
fn dec_instruction_negative() {
    // Arrange
    let mut registers = Registers::new();
    let mut test_bus = TestBus::new();

    let instruction = Instruction {
        instruction_type: InstructionType::DEC,
        opcode: 0xCE,
        operand: Some(Operand::Address(0xBEEF)),
        addressing_mode: AddressingMode::Absolute,
        operation: InstructionType::DEC,
    };

    test_bus.write_byte(0xBEEF, 0x00);

    // Act
    let result = InstructionSet::dec(&instruction, &mut registers, &mut test_bus);

    // Assert
    assert_eq!(result, Ok(6));
    assert_eq!(test_bus.read_byte(0xBEEF), 0xFF);
    assert_eq!(registers.get_flag(Flag::Zero), false);
    assert_eq!(registers.get_flag(Flag::Negative), true);
}

#[test]
fn dec_instruction_zero() {
    // Arrange
    let mut registers = Registers::new();
    let mut test_bus = TestBus::new();

    let instruction = Instruction {
        instruction_type: InstructionType::DEC,
        opcode: 0xCE,
        operand: Some(Operand::Address(0xBEEF)),
        addressing_mode: AddressingMode::Absolute,
        operation: InstructionType::DEC,
    };

    test_bus.write_byte(0xBEEF, 0x01);

    // Act
    let result = InstructionSet::dec(&instruction, &mut registers, &mut test_bus);

    // Assert
    assert_eq!(result, Ok(6));
    assert_eq!(test_bus.read_byte(0xBEEF), 0);
    assert_eq!(registers.get_flag(Flag::Zero), true);
    assert_eq!(registers.get_flag(Flag::Negative), false);
}

#[test]
fn dey_instruction_positive() {
    // Arrange
    let mut registers = Registers::new();
    let mut test_bus = TestBus::new();

    let instruction = Instruction{
        instruction_type: InstructionType::DEY,
        opcode: 0x88,
        operand: None,
        addressing_mode: AddressingMode::Implicit,
        operation: InstructionType::DEY,
    };

    registers.y = 0x02;

    // Act
    let result = InstructionSet::dey(&instruction, &mut registers, &mut test_bus);

    // Assert
    assert_eq!(result, Ok(2));
    assert_eq!(registers.y, 0x01);
    assert_eq!(registers.get_flag(Flag::Zero), false);
    assert_eq!(registers.get_flag(Flag::Negative), false);
}

#[test]
fn dey_instruction_negative() {
    // Arrange
    let mut registers = Registers::new();
    let mut test_bus = TestBus::new();

    let instruction = Instruction{
        instruction_type: InstructionType::DEY,
        opcode: 0x88,
        operand: None,
        addressing_mode: AddressingMode::Implicit,
        operation: InstructionType::DEY,
    };

    registers.y = 0x00;

    // Act
    let result = InstructionSet::dey(&instruction, &mut registers, &mut test_bus);

    // Assert
    assert_eq!(result, Ok(2));
    assert_eq!(registers.y, 0xFF);
    assert_eq!(registers.get_flag(Flag::Zero), false);
    assert_eq!(registers.get_flag(Flag::Negative), true);
}

#[test]
fn dey_instruction_zero() {
    // Arrange
    let mut registers = Registers::new();
    let mut test_bus = TestBus::new();

    let instruction = Instruction{
        instruction_type: InstructionType::DEY,
        opcode: 0x88,
        operand: None,
        addressing_mode: AddressingMode::Implicit,
        operation: InstructionType::DEY,
    };

    registers.y = 0x01;

    // Act
    let result = InstructionSet::dey(&instruction, &mut registers, &mut test_bus);

    // Assert
    assert_eq!(result, Ok(2));
    assert_eq!(registers.y, 0);
    assert_eq!(registers.get_flag(Flag::Zero), true);
    assert_eq!(registers.get_flag(Flag::Negative), false);
}

#[test]
fn iny_instruction_positive() {
    // Arrange
    let mut registers = Registers::new();
    let mut test_bus = TestBus::new();

    let instruction = Instruction{
        instruction_type: InstructionType::INY,
        opcode: 0xC8,
        operand: None,
        addressing_mode: AddressingMode::Implicit,
        operation: InstructionType::INY,
    };

    // Act
    let result = InstructionSet::iny(&instruction, &mut registers, &mut test_bus);

    // Assert
    assert_eq!(result, Ok(2));
    assert_eq!(registers.y, 0x01);
    assert_eq!(registers.get_flag(Flag::Zero), false);
    assert_eq!(registers.get_flag(Flag::Negative), false);
}

#[test]
fn iny_instruction_negative() {
    // Arrange
    let mut registers = Registers::new();
    let mut test_bus = TestBus::new();

    let instruction = Instruction{
        instruction_type: InstructionType::INY,
        opcode: 0xC8,
        operand: None,
        addressing_mode: AddressingMode::Implicit,
        operation: InstructionType::INY,
    };

    registers.y = 0x7F;

    // Act
    let result = InstructionSet::iny(&instruction, &mut registers, &mut test_bus);

    // Assert
    assert_eq!(result, Ok(2));
    assert_eq!(registers.y, 0x80);
    assert_eq!(registers.get_flag(Flag::Zero), false);
    assert_eq!(registers.get_flag(Flag::Negative), true);
}

#[test]
fn iny_instruction_zero() {
    // Arrange
    let mut registers = Registers::new();
    let mut test_bus = TestBus::new();

    let instruction = Instruction{
        instruction_type: InstructionType::INY,
        opcode: 0xC8,
        operand: None,
        addressing_mode: AddressingMode::Implicit,
        operation: InstructionType::INY,
    };

    registers.y = 0xFF;

    // Act
    let result = InstructionSet::iny(&instruction, &mut registers, &mut test_bus);

    // Assert
    assert_eq!(result, Ok(2));
    assert_eq!(registers.x, 0);
    assert_eq!(registers.get_flag(Flag::Zero), true);
    assert_eq!(registers.get_flag(Flag::Negative), false);
}

#[test]
fn and_and_instruction_positive() {
    // Arrange
    let mut registers = Registers::new();
    let mut test_bus = TestBus::new();

    let instruction = Instruction {
        instruction_type: InstructionType::AND,
        opcode: 0x29,
        operand: Some(Operand::Value(0b10101011)),
        addressing_mode: AddressingMode::Immediate,
        operation: InstructionType::AND,
    };

    registers.accumulator = 0b00001001;

    // Act
    let result = InstructionSet::and(&instruction, &mut registers, &mut test_bus);

    // Assert
    assert_eq!(result, Ok(2));
    assert_eq!(registers.accumulator, 0b00001001);
    assert_eq!(registers.get_flag(Flag::Zero), false);
    assert_eq!(registers.get_flag(Flag::Negative), false);
}

#[test]
fn and_and_instruction_negative() {
    // Arrange
    let mut registers = Registers::new();
    let mut test_bus = TestBus::new();

    let instruction = Instruction {
        instruction_type: InstructionType::AND,
        opcode: 0x29,
        operand: Some(Operand::Value(0b10101011)),
        addressing_mode: AddressingMode::Immediate,
        operation: InstructionType::AND,
    };

    registers.accumulator = 0b10001001;

    // Act
    let result = InstructionSet::and(&instruction, &mut registers, &mut test_bus);

    // Assert
    assert_eq!(result, Ok(2));
    assert_eq!(registers.accumulator, 0b10001001);
    assert_eq!(registers.get_flag(Flag::Zero), false);
    assert_eq!(registers.get_flag(Flag::Negative), true);
}

#[test]
fn bcc_carry_set() {
    let mut registers = Registers::new();
    let mut test_bus = TestBus::new();

    let instruction = Instruction{
        instruction_type: InstructionType::BCC,
        opcode: 0x90,
        operand: Some(Operand::Address(0xBEEF)),
        addressing_mode: AddressingMode::Relative,
        operation: InstructionType::BCC,
    };

    registers.program_counter = 0xDEAD;
    registers.set_flag(Flag::Carry, true);

    let result = InstructionSet::bcc(&instruction, &mut registers, &mut test_bus);

    assert_eq!(result, Ok(3));
    assert_eq!(registers.program_counter, 0xBEEF);
}

#[test]
fn bcc_carry_not_set() {
    let mut registers = Registers::new();
    let mut test_bus = TestBus::new();

    let instruction = Instruction{
        instruction_type: InstructionType::BCC,
        opcode: 0x90,
        operand: Some(Operand::Address(0xBEEF)),
        addressing_mode: AddressingMode::Relative,
        operation: InstructionType::BCC,
    };

    registers.program_counter = 0xDEAD;
    registers.set_flag(Flag::Carry, false);

    let result = InstructionSet::bcc(&instruction, &mut registers, &mut test_bus);

    assert_eq!(result, Ok(2));
    assert_eq!(registers.program_counter, 0xDEAD);
}

#[test]
fn brk_instruction() {
    // Arrange
    let mut registers = Registers::new();
    let mut test_bus = TestBus::new();

    let instruction = Instruction {
        instruction_type: InstructionType::BRK,
        opcode: 0x00,
        operand: None,
        addressing_mode: AddressingMode::Implicit,
        operation: InstructionType::BRK,
    };

    registers.program_counter = 0xDEAD;
    registers.stack_pointer = 0xFF;

    registers.flags = 0xFF;

    // Act
    let result = InstructionSet::brk(&instruction, &mut registers, &mut test_bus);

    // Assert 
    assert_eq!(result, Ok(7));
    assert_eq!(registers.program_counter, IRQ_VECTOR);
    assert_eq!(registers.stack_pointer, 0xFC);
    assert_eq!(test_bus.read_byte(0xFF + 0x0100), 0xDE);
    assert_eq!(test_bus.read_byte(0xFE + 0x0100), 0xAD);
    assert_eq!(test_bus.read_byte(0xFD + 0x0100), 0xFF);
}

#[test]
fn jmp_jsr_instruction() {
    // Arrange
    let mut registers = Registers::new();
    let mut test_bus = TestBus::new();

    let instruction = Instruction {
        instruction_type: InstructionType::JSR,
        opcode: 0x20,
        operand: Some(Operand::Address(0xBEEF)),
        addressing_mode: AddressingMode::Absolute,
        operation: InstructionType::JSR,
    };

    registers.program_counter = 0xDEAD;

    // Act
    let result = InstructionSet::jsr(&instruction, &mut registers, &mut test_bus);

    // Assert 
    assert_eq!(result, Ok(6));
    assert_eq!(registers.program_counter, 0xBEEF);
}

#[test]
fn jsr_jsr_instruction() {
    // Arrange
    let mut registers = Registers::new();
    let mut test_bus = TestBus::new();

    let instruction = Instruction {
        instruction_type: InstructionType::JSR,
        opcode: 0x20,
        operand: Some(Operand::Address(0xBEEF)),
        addressing_mode: AddressingMode::Absolute,
        operation: InstructionType::JSR,
    };

    registers.program_counter = 0xDEAD;
    registers.stack_pointer = 0xFF;

    // Act
    let result = InstructionSet::jsr(&instruction, &mut registers, &mut test_bus);

    // Assert
    assert_eq!(result, Ok(6));
    assert_eq!(registers.program_counter, 0xBEEF);
    assert_eq!(registers.stack_pointer, 0xFD);
    assert_eq!(test_bus.read_byte(0xFF + 0x0100), 0xDE);
    assert_eq!(test_bus.read_byte(0xFE + 0x0100), 0xAD);
}

#[test]
fn rts_instruction() {
    // Arrange
    let mut registers = Registers::new();
    let mut test_bus = TestBus::new();

    let instruction = Instruction {
        instruction_type: InstructionType::RTS,
        opcode: 0x60,
        operand: None,
        addressing_mode: AddressingMode::Implicit,
        operation: InstructionType::RTS,
    };

    registers.program_counter = 0xDEAD;
    registers.stack_pointer = 0xFD;

    test_bus.write_byte(registers.stack_pointer as u16 + 0x101, 0xEF);
    test_bus.write_byte(registers.stack_pointer as u16 + 0x102, 0xBE);

    // Act
    let result = InstructionSet::rts(&instruction, &mut registers, &mut test_bus);

    // Assert
    assert_eq!(result, Ok(6));
    assert_eq!(registers.program_counter, 0xBEF0);
    assert_eq!(registers.stack_pointer, 0xFF);
}

#[test]
fn pla_instruction() {
    // Arrange
    let mut registers = Registers::new();
    let mut test_bus = TestBus::new();

    let instruction = Instruction {
        instruction_type: InstructionType::PLA,
        opcode: 0x68,
        operand: None,
        addressing_mode: AddressingMode::Implicit,
        operation: InstructionType::PLA,
    };

    test_bus.write_byte(0x0101, 0x55);

    // Act
    let result = InstructionSet::pla(&instruction, &mut registers, &mut test_bus);

    // Assert
    assert_eq!(result, Ok(4));
    assert_eq!(registers.stack_pointer, 0x01);
    assert_eq!(registers.accumulator, 0x55);
    assert_eq!(registers.get_flag(Flag::Zero), false);
    assert_eq!(registers.get_flag(Flag::Negative), false);
}

#[test]
fn plp_instruction_no_flag() {
    // Arrange
    let mut registers = Registers::new();
    let mut test_bus = TestBus::new();

    let instruction = Instruction {
        instruction_type: InstructionType::PLP,
        opcode: 0x08,
        operand: None,
        addressing_mode: AddressingMode::Implicit,
        operation: InstructionType::PLP,
    };

    registers.flags = 0xFF;

    // Act
    let result = InstructionSet::plp(&instruction, &mut registers, &mut test_bus);

    // Assert
    assert_eq!(result, Ok(4));
    assert_eq!(registers.stack_pointer, 0x01);
    assert_eq!(registers.flags, 0x00);
}

#[test]
fn plp_php_instruction_all_flags() {
    // Arrange
    let mut registers = Registers::new();
    let mut test_bus = TestBus::new();

    let instruction = Instruction {
        instruction_type: InstructionType::PLP,
        opcode: 0x28,
        operand: None,
        addressing_mode: AddressingMode::Implicit,
        operation: InstructionType::PLP,
    };

    test_bus.write_byte(0x0100 + 0x01, 0xFF);

    // Act
    let result = InstructionSet::plp(&instruction, &mut registers, &mut test_bus);

    // Assert
    assert_eq!(result, Ok(4));
    assert_eq!(registers.stack_pointer, 0x01);
    assert_eq!(registers.flags, 0b1100_1111);
}
