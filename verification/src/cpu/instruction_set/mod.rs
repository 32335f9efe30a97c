use vstd::prelude::*;
use crate::bus::MemoryIndexer;
use crate::cpu::registers::{Flag, Registers};
use crate::utils::math::negative;
use access::{Target, load_spec, store_spec};
use arithmetic::{adc_spec, sbc_spec, step_memory_spec, register_step_spec};
use bitwise::{and_spec, logic_spec, bit_spec};
use branch::branch_spec;
use compare::compare_spec;
use flags::flag_spec;
use jump::{jmp_spec, jsr_spec, rts_spec, brk_spec, rti_spec};
use shift::{Shift, shift_spec};
use stack::{pha_spec, pla_spec, php_spec, plp_spec, txs_spec, tsx_spec};
use transfer::transfer_spec;

pub mod arithmetic;
pub mod bitwise;
pub mod access;
pub mod shift;
pub mod compare;
pub mod branch;
pub mod jump;
pub mod stack;
pub mod flags;
pub mod transfer;
pub mod opcode_map;
pub mod semantics;

verus! {

#[derive(Clone, Copy, Debug, PartialEq, Eq, Structural)]
pub enum AddressingMode {
    ZeroPageIndexedX,
    ZeroPageIndexedY,
    AbsoluteIndexedX,
    AbsoluteIndexedY,
    IndirectIndexedX,
    IndirectIndexedY,
    Implicit,
    Accumulator,
    Immediate,
    ZeroPage,
    Absolute,
    Relative,
    Indirect,
}

#[derive(Clone, Copy, Debug, PartialEq, Eq, Structural)]
pub enum InstructionType {
    // Access
    LDA,
    STA,
    LDX,
    STX,
    LDY,
    STY,
    // Transfer
    TAX,
    TXA,
    TAY,
    TYA,
    // Arithmetic
    ADC,
    SBC,
    INC,
    DEC,
    INX,
    DEX,
    INY,
    DEY,
    // Shift
    ASL,
    LSR,
    ROL,
    ROR,
    // Bitwise
    AND,
    ORA,
    EOR,
    BIT,
    // Compare
    CMP,
    CPX,
    CPY,
    // Branch
    BCC,
    BCS,
    BEQ,
    BNE,
    BPL,
    BMI,
    BVC,
    BVS,
    // Jump
    JMP,
    JSR,
    RTS,
    BRK,
    RTI,
    // Stack
    PHA,
    PLA,
    PHP,
    PLP,
    TXS,
    TSX,
    // Flags
    CLC,
    SEC,
    CLI,
    SEI,
    CLD,
    SED,
    CLV,
    // Other
    NOP,
}

/// What an addressing mode resolved to: an immediate byte or an effective address.
#[derive(Clone, Copy, Debug, PartialEq, Eq, Structural)]
pub enum Operand {
    Value(u8),
    Address(u16),
}

/// One decoded instruction. `instruction_type` names the mnemonic shown for it, and
/// `operation` names the handler that executes it.
#[derive(Clone, Copy, Debug, PartialEq, Eq, Structural)]
pub struct Instruction {
    pub instruction_type: InstructionType,
    pub opcode: u8,
    pub operand: Option<Operand>,
    pub addressing_mode: AddressingMode,
    pub operation: InstructionType,
}

/// Why an instruction could not be fetched or executed.
#[derive(Clone, Copy, Debug, PartialEq, Eq, Structural)]
pub enum CpuError {
    /// The instruction needs an operand and has none.
    MissingOperand,
    /// The instruction needs an address and was given an immediate value.
    InvalidOperand,
    /// The handler has no cycle count for the instruction's addressing mode.
    InvalidAddressingMode,
    /// No instruction is decoded from `opcode`, read at `program_counter`.
    InvalidOpcode { opcode: u8, program_counter: u16 },
}

/// The registers, the bus and the result after a handler ran.
pub struct Execution<T> {
    pub registers: Registers,
    pub bus: T,
    pub result: Result<u8, CpuError>,
}

/// The outcome of a handler that stops at once for want of an operand.
pub open spec fn missing_operand<T>(registers: Registers, bus: T) -> Execution<T> {
    Execution { registers, bus, result: Err(CpuError::MissingOperand) }
}

/// The outcome of a handler that stops at once because it was given a value, not an address.
pub open spec fn invalid_operand<T>(registers: Registers, bus: T) -> Execution<T> {
    Execution { registers, bus, result: Err(CpuError::InvalidOperand) }
}

/// The byte an operand stands for and the bus after it was fetched: an immediate value is
/// itself, an address is read.
pub open spec fn operand_byte<T: MemoryIndexer>(operand: Operand, bus: T) -> (u8, T) {
    match operand {
        Operand::Value(value) => (value, bus),
        Operand::Address(address) => (bus.read_value(address), bus.after_read(address)),
    }
}

/// The registers with the zero and negative flags set from `value`, zero first.
pub open spec fn with_zero_negative(registers: Registers, value: u8) -> Registers {
    registers.with_flag(Flag::Zero, value == 0).with_flag(Flag::Negative, negative(value))
}

/// The address in the stack page that the stack pointer `sp` designates.
pub open spec fn stack_address(sp: u8) -> u16 {
    (0x0100 + sp) as u16
}

/// `sp` moved one byte down, as a push does.
pub open spec fn sp_pushed(sp: u8) -> u8 {
    ((sp - 1) % 0x100) as u8
}

/// `sp` moved one byte up, as a pull does.
pub open spec fn sp_pulled(sp: u8) -> u8 {
    ((sp + 1) % 0x100) as u8
}

/// Cycles of the read instructions that take every indexed and indirect mode (ADC, AND, EOR,
/// LDA, CMP, SBC).
pub open spec fn read_cycles(mode: AddressingMode) -> Result<u8, CpuError> {
    match mode {
        AddressingMode::Immediate => Ok(2),
        AddressingMode::ZeroPage => Ok(3),
        AddressingMode::ZeroPageIndexedX => Ok(4),
        AddressingMode::Absolute => Ok(4),
        AddressingMode::AbsoluteIndexedX => Ok(4),
        AddressingMode::AbsoluteIndexedY => Ok(4),
        AddressingMode::IndirectIndexedX => Ok(6),
        AddressingMode::IndirectIndexedY => Ok(5),
        _ => Err(CpuError::InvalidAddressingMode),
    }
}

/// Cycles of the read-modify-write instructions on memory (DEC, INC).
pub open spec fn modify_cycles(mode: AddressingMode) -> Result<u8, CpuError> {
    match mode {
        AddressingMode::ZeroPage => Ok(5),
        AddressingMode::ZeroPageIndexedX => Ok(6),
        AddressingMode::Absolute => Ok(6),
        AddressingMode::AbsoluteIndexedX => Ok(7),
        _ => Err(CpuError::InvalidAddressingMode),
    }
}

/// Cycles of the shifts and rotations, which also work on the accumulator.
pub open spec fn shift_cycles(mode: AddressingMode) -> Result<u8, CpuError> {
    match mode {
        AddressingMode::Accumulator => Ok(2),
        _ => modify_cycles(mode),
    }
}

/// Cycles of an instruction that takes only the implicit mode.
pub open spec fn implicit_cycles(mode: AddressingMode, cycles: u8) -> Result<u8, CpuError> {
    match mode {
        AddressingMode::Implicit => Ok(cycles),
        _ => Err(CpuError::InvalidAddressingMode),
    }
}

/// Fetches the byte an operand stands for.
pub fn operand_value<T: MemoryIndexer>(operand: Operand, bus: &mut T) -> (value: u8)
    requires
        old(bus).inv(),
    ensures
        final(bus).inv(),
        (value, *final(bus)) == operand_byte(operand, *old(bus)),
{
    match operand {
        Operand::Value(value) => value,
        Operand::Address(address) => bus.read_byte(address),
    }
}

pub fn read_cycle_count(mode: AddressingMode) -> (r: Result<u8, CpuError>)
    ensures
        r == read_cycles(mode),
{
    match mode {
        AddressingMode::Immediate => Ok(2),
        AddressingMode::ZeroPage => Ok(3),
        AddressingMode::ZeroPageIndexedX => Ok(4),
        AddressingMode::Absolute => Ok(4),
        AddressingMode::AbsoluteIndexedX => Ok(4),
        AddressingMode::AbsoluteIndexedY => Ok(4),
        AddressingMode::IndirectIndexedX => Ok(6),
        AddressingMode::IndirectIndexedY => Ok(5),
        _ => Err(CpuError::InvalidAddressingMode),
    }
}

pub fn modify_cycle_count(mode: AddressingMode) -> (r: Result<u8, CpuError>)
    ensures
        r == modify_cycles(mode),
{
    match mode {
        AddressingMode::ZeroPage => Ok(5),
        AddressingMode::ZeroPageIndexedX => Ok(6),
        AddressingMode::Absolute => Ok(6),
        AddressingMode::AbsoluteIndexedX => Ok(7),
        _ => Err(CpuError::InvalidAddressingMode),
    }
}

pub fn shift_cycle_count(mode: AddressingMode) -> (r: Result<u8, CpuError>)
    ensures
        r == shift_cycles(mode),
{
    match mode {
        AddressingMode::Accumulator => Ok(2),
        _ => modify_cycle_count(mode),
    }
}

pub fn implicit_cycle_count(mode: AddressingMode, cycles: u8) -> (r: Result<u8, CpuError>)
    ensures
        r == implicit_cycles(mode, cycles),
{
    match mode {
        AddressingMode::Implicit => Ok(cycles),
        _ => Err(CpuError::InvalidAddressingMode),
    }
}

/// The instruction handlers and the opcode table.
pub struct InstructionSet {
    instructions: Vec<Option<Instruction>>,
}


/// What the handler named `operation` does with the instruction `i`, the registers `r` and the
/// bus.
pub open spec fn operation_spec<T: MemoryIndexer>(
    operation: InstructionType,
    i: Instruction,
    r: Registers,
    bus: T,
) -> Execution<T> {
    match operation {
        InstructionType::LDA => load_spec(i, r, bus, Target::Accumulator),
        InstructionType::STA => store_spec(i, r, bus, Target::Accumulator),
        InstructionType::LDX => load_spec(i, r, bus, Target::X),
        InstructionType::STX => store_spec(i, r, bus, Target::X),
        InstructionType::LDY => load_spec(i, r, bus, Target::Y),
        InstructionType::STY => store_spec(i, r, bus, Target::Y),
        InstructionType::TAX => transfer_spec(i, r, bus, Target::Accumulator, Target::X),
        InstructionType::TXA => transfer_spec(i, r, bus, Target::X, Target::Accumulator),
        InstructionType::TAY => transfer_spec(i, r, bus, Target::Accumulator, Target::Y),
        InstructionType::TYA => transfer_spec(i, r, bus, Target::Y, Target::Accumulator),
        InstructionType::ADC => adc_spec(i, r, bus),
        InstructionType::SBC => sbc_spec(i, r, bus),
        InstructionType::INC => step_memory_spec(i, r, bus, 1),
        InstructionType::DEC => step_memory_spec(i, r, bus, -1),
        InstructionType::INX => register_step_spec(r, bus, Target::X, 1),
        InstructionType::DEX => register_step_spec(r, bus, Target::X, -1),
        InstructionType::INY => register_step_spec(r, bus, Target::Y, 1),
        InstructionType::DEY => register_step_spec(r, bus, Target::Y, -1),
        InstructionType::ASL => shift_spec(i, r, bus, Shift::Left),
        InstructionType::LSR => shift_spec(i, r, bus, Shift::Right),
        InstructionType::ROL => shift_spec(i, r, bus, Shift::RotateLeft),
        InstructionType::ROR => shift_spec(i, r, bus, Shift::RotateRight),
        InstructionType::AND => and_spec(i, r, bus),
        InstructionType::ORA => logic_spec(i, r, bus, false),
        InstructionType::EOR => logic_spec(i, r, bus, true),
        InstructionType::BIT => bit_spec(i, r, bus),
        InstructionType::CMP => compare_spec(i, r, bus, Target::Accumulator),
        InstructionType::CPX => compare_spec(i, r, bus, Target::X),
        InstructionType::CPY => compare_spec(i, r, bus, Target::Y),
        InstructionType::BCC => branch_spec(i, r, bus, Flag::Carry, true),
        InstructionType::BCS => branch_spec(i, r, bus, Flag::Carry, true),
        InstructionType::BEQ => branch_spec(i, r, bus, Flag::Zero, true),
        InstructionType::BNE => branch_spec(i, r, bus, Flag::Zero, false),
        InstructionType::BPL => branch_spec(i, r, bus, Flag::Negative, false),
        InstructionType::BMI => branch_spec(i, r, bus, Flag::Negative, true),
        InstructionType::BVC => branch_spec(i, r, bus, Flag::Overflow, false),
        InstructionType::BVS => branch_spec(i, r, bus, Flag::Overflow, true),
        InstructionType::JMP => jmp_spec(i, r, bus),
        InstructionType::JSR => jsr_spec(i, r, bus),
        InstructionType::RTS => rts_spec(i, r, bus),
        InstructionType::BRK => brk_spec(i, r, bus),
        InstructionType::RTI => rti_spec(i, r, bus),
        InstructionType::PHA => pha_spec(i, r, bus),
        InstructionType::PLA => pla_spec(i, r, bus),
        InstructionType::PHP => php_spec(i, r, bus),
        InstructionType::PLP => plp_spec(i, r, bus),
        InstructionType::TXS => txs_spec(i, r, bus),
        InstructionType::TSX => tsx_spec(i, r, bus),
        InstructionType::CLC => flag_spec(i, r, bus, Flag::Carry, false),
        InstructionType::SEC => flag_spec(i, r, bus, Flag::Carry, true),
        InstructionType::CLI => flag_spec(i, r, bus, Flag::InterruptDisable, false),
        InstructionType::SEI => flag_spec(i, r, bus, Flag::InterruptDisable, true),
        InstructionType::CLD => flag_spec(i, r, bus, Flag::DecimalMode, false),
        InstructionType::SED => flag_spec(i, r, bus, Flag::DecimalMode, true),
        InstructionType::CLV => flag_spec(i, r, bus, Flag::Overflow, false),
        InstructionType::NOP => Execution { registers: r, bus, result: Ok(2) },
    }
}

/// An entry of the opcode table; the operand is filled in when the instruction is fetched.
pub open spec fn table_entry(
    instruction_type: InstructionType,
    opcode: u8,
    addressing_mode: AddressingMode,
    operation: InstructionType,
) -> Instruction {
    Instruction { instruction_type, opcode, operand: None, addressing_mode, operation }
}

/// The instruction that each opcode decodes to, or `None` for the opcodes that the table leaves
/// out.
pub open spec fn opcode_table(opcode: u8) -> Option<Instruction> {
    match opcode {
        0x00 => Some(table_entry(InstructionType::BRK, 0x00, AddressingMode::Immediate, InstructionType::BRK)),
        0x01 => Some(table_entry(InstructionType::AND, 0x01, AddressingMode::IndirectIndexedX, InstructionType::AND)),
        0x05 => Some(table_entry(InstructionType::AND, 0x05, AddressingMode::ZeroPage, InstructionType::AND)),
        0x06 => Some(table_entry(InstructionType::ASL, 0x06, AddressingMode::ZeroPage, InstructionType::ASL)),
        0x08 => Some(table_entry(InstructionType::PHP, 0x08, AddressingMode::Implicit, InstructionType::PHP)),
        0x09 => Some(table_entry(InstructionType::AND, 0x09, AddressingMode::Immediate, InstructionType::AND)),
        0x0A => Some(table_entry(InstructionType::ASL, 0x0A, AddressingMode::Accumulator, InstructionType::ASL)),
        0x0D => Some(table_entry(InstructionType::AND, 0x0D, AddressingMode::Absolute, InstructionType::AND)),
        0x0E => Some(table_entry(InstructionType::ASL, 0x0E, AddressingMode::Absolute, InstructionType::ASL)),
        0x10 => Some(table_entry(InstructionType::AND, 0x11, AddressingMode::Relative, InstructionType::BPL)),
        0x11 => Some(table_entry(InstructionType::AND, 0x11, AddressingMode::IndirectIndexedY, InstructionType::AND)),
        0x15 => Some(table_entry(InstructionType::AND, 0x15, AddressingMode::ZeroPageIndexedX, InstructionType::AND)),
        0x16 => Some(table_entry(InstructionType::ASL, 0x16, AddressingMode::ZeroPageIndexedX, InstructionType::ASL)),
        0x18 => Some(table_entry(InstructionType::CLC, 0x18, AddressingMode::Implicit, InstructionType::CLC)),
        0x19 => Some(table_entry(InstructionType::AND, 0x19, AddressingMode::AbsoluteIndexedY, InstructionType::AND)),
        0x1D => Some(table_entry(InstructionType::AND, 0x1D, AddressingMode::AbsoluteIndexedX, InstructionType::AND)),
        0x1E => Some(table_entry(InstructionType::ASL, 0x1E, AddressingMode::AbsoluteIndexedX, InstructionType::ASL)),
        0x20 => Some(table_entry(InstructionType::JSR, 0x20, AddressingMode::Absolute, InstructionType::JSR)),
        0x21 => Some(table_entry(InstructionType::AND, 0x21, AddressingMode::IndirectIndexedX, InstructionType::AND)),
        0x24 => Some(table_entry(InstructionType::BIT, 0x24, AddressingMode::ZeroPage, InstructionType::BIT)),
        0x25 => Some(table_entry(InstructionType::AND, 0x25, AddressingMode::ZeroPage, InstructionType::AND)),
        0x26 => Some(table_entry(InstructionType::ROL, 0x26, AddressingMode::ZeroPage, InstructionType::ROL)),
        0x28 => Some(table_entry(InstructionType::PLP, 0x28, AddressingMode::Implicit, InstructionType::PLP)),
        0x29 => Some(table_entry(InstructionType::AND, 0x29, AddressingMode::Immediate, InstructionType::AND)),
        0x2A => Some(table_entry(InstructionType::ROL, 0x2A, AddressingMode::Accumulator, InstructionType::ROL)),
        0x2C => Some(table_entry(InstructionType::BIT, 0x2C, AddressingMode::Absolute, InstructionType::BIT)),
        0x2D => Some(table_entry(InstructionType::AND, 0x2D, AddressingMode::Absolute, InstructionType::AND)),
        0x2E => Some(table_entry(InstructionType::ROL, 0x2E, AddressingMode::Absolute, InstructionType::ROL)),
        0x30 => Some(table_entry(InstructionType::BMI, 0x30, AddressingMode::Relative, InstructionType::BMI)),
        0x31 => Some(table_entry(InstructionType::AND, 0x31, AddressingMode::IndirectIndexedY, InstructionType::AND)),
        0x35 => Some(table_entry(InstructionType::AND, 0x35, AddressingMode::ZeroPageIndexedX, InstructionType::AND)),
        0x36 => Some(table_entry(InstructionType::ROL, 0x36, AddressingMode::ZeroPageIndexedX, InstructionType::ROL)),
        0x38 => Some(table_entry(InstructionType::SEC, 0x38, AddressingMode::Implicit, InstructionType::SEC)),
        0x39 => Some(table_entry(InstructionType::AND, 0x39, AddressingMode::AbsoluteIndexedY, InstructionType::AND)),
        0x3D => Some(table_entry(InstructionType::AND, 0x3D, AddressingMode::AbsoluteIndexedX, InstructionType::AND)),
        0x3E => Some(table_entry(InstructionType::ROL, 0x3E, AddressingMode::AbsoluteIndexedX, InstructionType::ROL)),
        0x40 => Some(table_entry(InstructionType::RTI, 0x40, AddressingMode::Implicit, InstructionType::RTI)),
        0x41 => Some(table_entry(InstructionType::EOR, 0x41, AddressingMode::IndirectIndexedX, InstructionType::EOR)),
        0x45 => Some(table_entry(InstructionType::EOR, 0x45, AddressingMode::ZeroPage, InstructionType::EOR)),
        0x46 => Some(table_entry(InstructionType::LSR, 0x46, AddressingMode::ZeroPage, InstructionType::LSR)),
        0x48 => Some(table_entry(InstructionType::PHA, 0x48, AddressingMode::Implicit, InstructionType::PHA)),
        0x49 => Some(table_entry(InstructionType::EOR, 0x49, AddressingMode::Immediate, InstructionType::EOR)),
        0x4A => Some(table_entry(InstructionType::LSR, 0x4A, AddressingMode::Accumulator, InstructionType::LSR)),
        0x4C => Some(table_entry(InstructionType::EOR, 0x4D, AddressingMode::Absolute, InstructionType::JMP)),
        0x4D => Some(table_entry(InstructionType::EOR, 0x4D, AddressingMode::Absolute, InstructionType::EOR)),
        0x4E => Some(table_entry(InstructionType::LSR, 0x4E, AddressingMode::Absolute, InstructionType::LSR)),
        0x50 => Some(table_entry(InstructionType::BVC, 0x51, AddressingMode::Relative, InstructionType::BVC)),
        0x51 => Some(table_entry(InstructionType::EOR, 0x51, AddressingMode::IndirectIndexedY, InstructionType::EOR)),
        0x55 => Some(table_entry(InstructionType::EOR, 0x55, AddressingMode::ZeroPageIndexedX, InstructionType::EOR)),
        0x56 => Some(table_entry(InstructionType::LSR, 0x56, AddressingMode::ZeroPageIndexedX, InstructionType::LSR)),
        0x58 => Some(table_entry(InstructionType::CLI, 0x58, AddressingMode::Implicit, InstructionType::CLI)),
        0x59 => Some(table_entry(InstructionType::EOR, 0x59, AddressingMode::AbsoluteIndexedY, InstructionType::EOR)),
        0x5D => Some(table_entry(InstructionType::EOR, 0x5D, AddressingMode::AbsoluteIndexedX, InstructionType::EOR)),
        0x5E => Some(table_entry(InstructionType::LSR, 0x5E, AddressingMode::AbsoluteIndexedX, InstructionType::LSR)),
        0x60 => Some(table_entry(InstructionType::RTS, 0x60, AddressingMode::Implicit, InstructionType::RTS)),
        0x61 => Some(table_entry(InstructionType::ADC, 0x61, AddressingMode::IndirectIndexedX, InstructionType::ADC)),
        0x65 => Some(table_entry(InstructionType::ADC, 0x65, AddressingMode::ZeroPage, InstructionType::ADC)),
        0x66 => Some(table_entry(InstructionType::ROR, 0x66, AddressingMode::ZeroPage, InstructionType::ROR)),
        0x68 => Some(table_entry(InstructionType::PLA, 0x68, AddressingMode::Implicit, InstructionType::PLA)),
        0x69 => Some(table_entry(InstructionType::ADC, 0x69, AddressingMode::Immediate, InstructionType::ADC)),
        0x6A => Some(table_entry(InstructionType::ROR, 0x6A, AddressingMode::Accumulator, InstructionType::ROR)),
        0x6C => Some(table_entry(InstructionType::EOR, 0x6D, AddressingMode::Indirect, InstructionType::JMP)),
        0x6D => Some(table_entry(InstructionType::ADC, 0x6D, AddressingMode::Absolute, InstructionType::ADC)),
        0x6E => Some(table_entry(InstructionType::ROR, 0x6E, AddressingMode::Absolute, InstructionType::ROR)),
        0x70 => Some(table_entry(InstructionType::BVS, 0x70, AddressingMode::Relative, InstructionType::BVS)),
        0x71 => Some(table_entry(InstructionType::ADC, 0x71, AddressingMode::IndirectIndexedY, InstructionType::ADC)),
        0x75 => Some(table_entry(InstructionType::ADC, 0x75, AddressingMode::ZeroPageIndexedX, InstructionType::ADC)),
        0x76 => Some(table_entry(InstructionType::ROR, 0x76, AddressingMode::ZeroPageIndexedX, InstructionType::ROR)),
        0x78 => Some(table_entry(InstructionType::SEI, 0x78, AddressingMode::Implicit, InstructionType::SEI)),
        0x79 => Some(table_entry(InstructionType::ADC, 0x79, AddressingMode::AbsoluteIndexedY, InstructionType::ADC)),
        0x7D => Some(table_entry(InstructionType::ADC, 0x7D, AddressingMode::AbsoluteIndexedX, InstructionType::ADC)),
        0x7E => Some(table_entry(InstructionType::ROR, 0x7E, AddressingMode::AbsoluteIndexedX, InstructionType::ROR)),
        0x81 => Some(table_entry(InstructionType::STA, 0x81, AddressingMode::IndirectIndexedX, InstructionType::STA)),
        0x84 => Some(table_entry(InstructionType::STY, 0x84, AddressingMode::ZeroPage, InstructionType::STY)),
        0x85 => Some(table_entry(InstructionType::STA, 0x85, AddressingMode::ZeroPage, InstructionType::STA)),
        0x86 => Some(table_entry(InstructionType::STX, 0x86, AddressingMode::ZeroPage, InstructionType::STX)),
        0x88 => Some(table_entry(InstructionType::DEY, 0x88, AddressingMode::Implicit, InstructionType::DEY)),
        0x8A => Some(table_entry(InstructionType::TXA, 0x8A, AddressingMode::Implicit, InstructionType::TXA)),
        0x8C => Some(table_entry(InstructionType::STY, 0x8C, AddressingMode::Absolute, InstructionType::STY)),
        0x8D => Some(table_entry(InstructionType::STA, 0x8D, AddressingMode::Absolute, InstructionType::STA)),
        0x8E => Some(table_entry(InstructionType::STX, 0x8E, AddressingMode::Absolute, InstructionType::STX)),
        0x90 => Some(table_entry(InstructionType::BCC, 0x90, AddressingMode::Relative, InstructionType::BCC)),
        0x91 => Some(table_entry(InstructionType::STA, 0x91, AddressingMode::IndirectIndexedY, InstructionType::STA)),
        0x94 => Some(table_entry(InstructionType::STY, 0x94, AddressingMode::ZeroPageIndexedX, InstructionType::STY)),
        0x95 => Some(table_entry(InstructionType::STA, 0x95, AddressingMode::ZeroPageIndexedX, InstructionType::STA)),
        0x96 => Some(table_entry(InstructionType::STX, 0x96, AddressingMode::ZeroPageIndexedY, InstructionType::STX)),
        0x98 => Some(table_entry(InstructionType::TYA, 0x98, AddressingMode::Implicit, InstructionType::TYA)),
        0x99 => Some(table_entry(InstructionType::STA, 0x99, AddressingMode::AbsoluteIndexedY, InstructionType::STA)),
        0x9A => Some(table_entry(InstructionType::TXS, 0x9A, AddressingMode::Implicit, InstructionType::TXS)),
        0x9D => Some(table_entry(InstructionType::STA, 0x9D, AddressingMode::AbsoluteIndexedY, InstructionType::STA)),
        0xA0 => Some(table_entry(InstructionType::LDY, 0xA0, AddressingMode::Immediate, InstructionType::LDY)),
        0xA1 => Some(table_entry(InstructionType::LDA, 0xA1, AddressingMode::IndirectIndexedX, InstructionType::LDA)),
        0xA2 => Some(table_entry(InstructionType::LDX, 0xA2, AddressingMode::Immediate, InstructionType::LDX)),
        0xA4 => Some(table_entry(InstructionType::LDY, 0xA4, AddressingMode::ZeroPage, InstructionType::LDY)),
        0xA5 => Some(table_entry(InstructionType::LDA, 0xA5, AddressingMode::ZeroPage, InstructionType::LDA)),
        0xA6 => Some(table_entry(InstructionType::LDX, 0xA6, AddressingMode::ZeroPage, InstructionType::LDX)),
        0xA8 => Some(table_entry(InstructionType::TAY, 0xA8, AddressingMode::Implicit, InstructionType::TAY)),
        0xA9 => Some(table_entry(InstructionType::LDA, 0xA9, AddressingMode::Immediate, InstructionType::LDA)),
        0xAA => Some(table_entry(InstructionType::TAX, 0xAA, AddressingMode::Implicit, InstructionType::TAX)),
        0xAC => Some(table_entry(InstructionType::LDY, 0xAC, AddressingMode::Absolute, InstructionType::LDY)),
        0xAD => Some(table_entry(InstructionType::LDA, 0xAD, AddressingMode::Absolute, InstructionType::LDA)),
        0xAE => Some(table_entry(InstructionType::LDX, 0xAE, AddressingMode::Absolute, InstructionType::LDX)),
        0xB0 => Some(table_entry(InstructionType::BCS, 0xB0, AddressingMode::Relative, InstructionType::BCS)),
        0xB1 => Some(table_entry(InstructionType::LDA, 0xB1, AddressingMode::IndirectIndexedY, InstructionType::LDA)),
        0xB4 => Some(table_entry(InstructionType::LDY, 0xB4, AddressingMode::ZeroPageIndexedX, InstructionType::LDY)),
        0xB5 => Some(table_entry(InstructionType::LDA, 0xB5, AddressingMode::ZeroPageIndexedX, InstructionType::LDA)),
        0xB6 => Some(table_entry(InstructionType::LDX, 0xB6, AddressingMode::ZeroPageIndexedY, InstructionType::LDX)),
        0xB8 => Some(table_entry(InstructionType::CLV, 0xB8, AddressingMode::Implicit, InstructionType::CLV)),
        0xB9 => Some(table_entry(InstructionType::LDA, 0xB9, AddressingMode::AbsoluteIndexedY, InstructionType::LDA)),
        0xBA => Some(table_entry(InstructionType::TSX, 0xBA, AddressingMode::Implicit, InstructionType::TSX)),
        0xBC => Some(table_entry(InstructionType::LDY, 0xBC, AddressingMode::AbsoluteIndexedX, InstructionType::LDY)),
        0xBD => Some(table_entry(InstructionType::LDA, 0xBD, AddressingMode::AbsoluteIndexedX, InstructionType::LDA)),
        0xBE => Some(table_entry(InstructionType::LDX, 0xBE, AddressingMode::AbsoluteIndexedY, InstructionType::LDX)),
        0xC0 => Some(table_entry(InstructionType::CPY, 0xC0, AddressingMode::Immediate, InstructionType::CPY)),
        0xC1 => Some(table_entry(InstructionType::CMP, 0xC1, AddressingMode::IndirectIndexedX, InstructionType::CMP)),
        0xC4 => Some(table_entry(InstructionType::CPY, 0xC4, AddressingMode::ZeroPage, InstructionType::CPY)),
        0xC5 => Some(table_entry(InstructionType::CMP, 0xC5, AddressingMode::ZeroPage, InstructionType::CMP)),
        0xC6 => Some(table_entry(InstructionType::DEC, 0xAD, AddressingMode::ZeroPage, InstructionType::DEC)),
        0xC9 => Some(table_entry(InstructionType::CMP, 0xC9, AddressingMode::Immediate, InstructionType::CMP)),
        0xCA => Some(table_entry(InstructionType::DEX, 0xCA, AddressingMode::Implicit, InstructionType::DEX)),
        0xCC => Some(table_entry(InstructionType::CPY, 0xCC, AddressingMode::Absolute, InstructionType::CPY)),
        0xCD => Some(table_entry(InstructionType::CMP, 0xCD, AddressingMode::Absolute, InstructionType::CMP)),
        0xCE => Some(table_entry(InstructionType::DEC, 0xCE, AddressingMode::Absolute, InstructionType::DEC)),
        0xD0 => Some(table_entry(InstructionType::BNE, 0xD0, AddressingMode::Relative, InstructionType::BNE)),
        0xD1 => Some(table_entry(InstructionType::CMP, 0xD1, AddressingMode::IndirectIndexedY, InstructionType::CMP)),
        0xD5 => Some(table_entry(InstructionType::CMP, 0xD5, AddressingMode::ZeroPageIndexedX, InstructionType::CMP)),
        0xD6 => Some(table_entry(InstructionType::DEC, 0xD6, AddressingMode::ZeroPageIndexedX, InstructionType::DEC)),
        0xD8 => Some(table_entry(InstructionType::CLD, 0xD8, AddressingMode::Implicit, InstructionType::CLD)),
        0xD9 => Some(table_entry(InstructionType::CMP, 0xD9, AddressingMode::AbsoluteIndexedY, InstructionType::CMP)),
        0xDD => Some(table_entry(InstructionType::CMP, 0xDD, AddressingMode::AbsoluteIndexedX, InstructionType::CMP)),
        0xDE => Some(table_entry(InstructionType::DEC, 0xDE, AddressingMode::AbsoluteIndexedX, InstructionType::DEC)),
        0xE0 => Some(table_entry(InstructionType::CPX, 0xE0, AddressingMode::Immediate, InstructionType::CPX)),
        0xE1 => Some(table_entry(InstructionType::SBC, 0xE1, AddressingMode::IndirectIndexedX, InstructionType::SBC)),
        0xE4 => Some(table_entry(InstructionType::CPX, 0xE4, AddressingMode::ZeroPage, InstructionType::CPX)),
        0xE5 => Some(table_entry(InstructionType::SBC, 0xE5, AddressingMode::ZeroPage, InstructionType::SBC)),
        0xE6 => Some(table_entry(InstructionType::INC, 0xE6, AddressingMode::ZeroPage, InstructionType::INC)),
        0xE8 => Some(table_entry(InstructionType::INX, 0xE8, AddressingMode::Implicit, InstructionType::INX)),
        0xE9 => Some(table_entry(InstructionType::SBC, 0xE9, AddressingMode::Immediate, InstructionType::SBC)),
        0xEA => Some(table_entry(InstructionType::NOP, 0xEA, AddressingMode::Implicit, InstructionType::NOP)),
        0xEC => Some(table_entry(InstructionType::CPX, 0xEC, AddressingMode::Absolute, InstructionType::CPX)),
        0xED => Some(table_entry(InstructionType::SBC, 0xED, AddressingMode::Absolute, InstructionType::SBC)),
        0xEE => Some(table_entry(InstructionType::INC, 0xEE, AddressingMode::Absolute, InstructionType::INC)),
        0xF1 => Some(table_entry(InstructionType::SBC, 0xF1, AddressingMode::IndirectIndexedY, InstructionType::SBC)),
        0xF5 => Some(table_entry(InstructionType::BEQ, 0xF5, AddressingMode::ZeroPageIndexedX, InstructionType::SBC)),
        0xF6 => Some(table_entry(InstructionType::INC, 0xF6, AddressingMode::ZeroPageIndexedX, InstructionType::INC)),
        0xF8 => Some(table_entry(InstructionType::SED, 0xF8, AddressingMode::Implicit, InstructionType::SED)),
        0xF9 => Some(table_entry(InstructionType::SBC, 0xF9, AddressingMode::AbsoluteIndexedY, InstructionType::SBC)),
        0xFD => Some(table_entry(InstructionType::SBC, 0xFD, AddressingMode::AbsoluteIndexedX, InstructionType::SBC)),
        0xFE => Some(table_entry(InstructionType::INC, 0xFE, AddressingMode::AbsoluteIndexedX, InstructionType::INC)),
        _ => None,
    }
}

impl InstructionSet {
    /// Runs the handler that `instruction.operation` names.
    pub fn execute<T: MemoryIndexer>(
        instruction: &Instruction,
        registers: &mut Registers,
        bus: &mut T,
    ) -> (result: Result<u8, CpuError>)
        requires
            old(bus).inv(),
        ensures
            final(bus).inv(),
            (Execution { registers: *final(registers), bus: *final(bus), result })
                == operation_spec(instruction.operation, *instruction, *old(registers), *old(bus)),
    {
        match instruction.operation {
            InstructionType::LDA => Self::lda(instruction, registers, bus),
            InstructionType::STA => Self::sta(instruction, registers, bus),
            InstructionType::LDX => Self::ldx(instruction, registers, bus),
            InstructionType::STX => Self::stx(instruction, registers, bus),
            InstructionType::LDY => Self::ldy(instruction, registers, bus),
            InstructionType::STY => Self::sty(instruction, registers, bus),
            InstructionType::TAX => Self::tax(instruction, registers, bus),
            InstructionType::TXA => Self::txa(instruction, registers, bus),
            InstructionType::TAY => Self::tay(instruction, registers, bus),
            InstructionType::TYA => Self::tya(instruction, registers, bus),
            InstructionType::ADC => Self::adc(instruction, registers, bus),
            InstructionType::SBC => Self::sbc(instruction, registers, bus),
            InstructionType::INC => Self::inc(instruction, registers, bus),
            InstructionType::DEC => Self::dec(instruction, registers, bus),
            InstructionType::INX => Self::inx(instruction, registers, bus),
            InstructionType::DEX => Self::dex(instruction, registers, bus),
            InstructionType::INY => Self::iny(instruction, registers, bus),
            InstructionType::DEY => Self::dey(instruction, registers, bus),
            InstructionType::ASL => Self::asl(instruction, registers, bus),
            InstructionType::LSR => Self::lsr(instruction, registers, bus),
            InstructionType::ROL => Self::rol(instruction, registers, bus),
            InstructionType::ROR => Self::ror(instruction, registers, bus),
            InstructionType::AND => Self::and(instruction, registers, bus),
            InstructionType::ORA => Self::ora(instruction, registers, bus),
            InstructionType::EOR => Self::eor(instruction, registers, bus),
            InstructionType::BIT => Self::bit(instruction, registers, bus),
            InstructionType::CMP => Self::cmp(instruction, registers, bus),
            InstructionType::CPX => Self::cpx(instruction, registers, bus),
            InstructionType::CPY => Self::cpy(instruction, registers, bus),
            InstructionType::BCC => Self::bcc(instruction, registers, bus),
            InstructionType::BCS => Self::bcs(instruction, registers, bus),
            InstructionType::BEQ => Self::beq(instruction, registers, bus),
            InstructionType::BNE => Self::bne(instruction, registers, bus),
            InstructionType::BPL => Self::bpl(instruction, registers, bus),
            InstructionType::BMI => Self::bmi(instruction, registers, bus),
            InstructionType::BVC => Self::bvc(instruction, registers, bus),
            InstructionType::BVS => Self::bvs(instruction, registers, bus),
            InstructionType::JMP => Self::jmp(instruction, registers, bus),
            InstructionType::JSR => Self::jsr(instruction, registers, bus),
            InstructionType::RTS => Self::rts(instruction, registers, bus),
            InstructionType::BRK => Self::brk(instruction, registers, bus),
            InstructionType::RTI => Self::rti(instruction, registers, bus),
            InstructionType::PHA => Self::pha(instruction, registers, bus),
            InstructionType::PLA => Self::pla(instruction, registers, bus),
            InstructionType::PHP => Self::php(instruction, registers, bus),
            InstructionType::PLP => Self::plp(instruction, registers, bus),
            InstructionType::TXS => Self::txs(instruction, registers, bus),
            InstructionType::TSX => Self::tsx(instruction, registers, bus),
            InstructionType::CLC => Self::clc(instruction, registers, bus),
            InstructionType::SEC => Self::sec(instruction, registers, bus),
            InstructionType::CLI => Self::cli(instruction, registers, bus),
            InstructionType::SEI => Self::sei(instruction, registers, bus),
            InstructionType::CLD => Self::cld(instruction, registers, bus),
            InstructionType::SED => Self::sed(instruction, registers, bus),
            InstructionType::CLV => Self::clv(instruction, registers, bus),
            InstructionType::NOP => Self::nop(instruction, registers, bus),
        }
    }

    fn entry(
        instruction_type: InstructionType,
        opcode: u8,
        addressing_mode: AddressingMode,
        operation: InstructionType,
    ) -> (r: Instruction)
        ensures
            r == table_entry(instruction_type, opcode, addressing_mode, operation),
    {
        Instruction { instruction_type, opcode, operand: None, addressing_mode, operation }
    }

    /// Decodes one opcode.
    pub fn decode(opcode: u8) -> (r: Option<Instruction>)
        ensures
            r == opcode_table(opcode),
    {
        match opcode {
            0x00 => Some(Self::entry(InstructionType::BRK, 0x00, AddressingMode::Immediate, InstructionType::BRK)),
            0x01 => Some(Self::entry(InstructionType::AND, 0x01, AddressingMode::IndirectIndexedX, InstructionType::AND)),
            0x05 => Some(Self::entry(InstructionType::AND, 0x05, AddressingMode::ZeroPage, InstructionType::AND)),
            0x06 => Some(Self::entry(InstructionType::ASL, 0x06, AddressingMode::ZeroPage, InstructionType::ASL)),
            0x08 => Some(Self::entry(InstructionType::PHP, 0x08, AddressingMode::Implicit, InstructionType::PHP)),
            0x09 => Some(Self::entry(InstructionType::AND, 0x09, AddressingMode::Immediate, InstructionType::AND)),
            0x0A => Some(Self::entry(InstructionType::ASL, 0x0A, AddressingMode::Accumulator, InstructionType::ASL)),
            0x0D => Some(Self::entry(InstructionType::AND, 0x0D, AddressingMode::Absolute, InstructionType::AND)),
            0x0E => Some(Self::entry(InstructionType::ASL, 0x0E, AddressingMode::Absolute, InstructionType::ASL)),
            0x10 => Some(Self::entry(InstructionType::AND, 0x11, AddressingMode::Relative, InstructionType::BPL)),
            0x11 => Some(Self::entry(InstructionType::AND, 0x11, AddressingMode::IndirectIndexedY, InstructionType::AND)),
            0x15 => Some(Self::entry(InstructionType::AND, 0x15, AddressingMode::ZeroPageIndexedX, InstructionType::AND)),
            0x16 => Some(Self::entry(InstructionType::ASL, 0x16, AddressingMode::ZeroPageIndexedX, InstructionType::ASL)),
            0x18 => Some(Self::entry(InstructionType::CLC, 0x18, AddressingMode::Implicit, InstructionType::CLC)),
            0x19 => Some(Self::entry(InstructionType::AND, 0x19, AddressingMode::AbsoluteIndexedY, InstructionType::AND)),
            0x1D => Some(Self::entry(InstructionType::AND, 0x1D, AddressingMode::AbsoluteIndexedX, InstructionType::AND)),
            0x1E => Some(Self::entry(InstructionType::ASL, 0x1E, AddressingMode::AbsoluteIndexedX, InstructionType::ASL)),
            0x20 => Some(Self::entry(InstructionType::JSR, 0x20, AddressingMode::Absolute, InstructionType::JSR)),
            0x21 => Some(Self::entry(InstructionType::AND, 0x21, AddressingMode::IndirectIndexedX, InstructionType::AND)),
            0x24 => Some(Self::entry(InstructionType::BIT, 0x24, AddressingMode::ZeroPage, InstructionType::BIT)),
            0x25 => Some(Self::entry(InstructionType::AND, 0x25, AddressingMode::ZeroPage, InstructionType::AND)),
            0x26 => Some(Self::entry(InstructionType::ROL, 0x26, AddressingMode::ZeroPage, InstructionType::ROL)),
            0x28 => Some(Self::entry(InstructionType::PLP, 0x28, AddressingMode::Implicit, InstructionType::PLP)),
            0x29 => Some(Self::entry(InstructionType::AND, 0x29, AddressingMode::Immediate, InstructionType::AND)),
            0x2A => Some(Self::entry(InstructionType::ROL, 0x2A, AddressingMode::Accumulator, InstructionType::ROL)),
            0x2C => Some(Self::entry(InstructionType::BIT, 0x2C, AddressingMode::Absolute, InstructionType::BIT)),
            0x2D => Some(Self::entry(InstructionType::AND, 0x2D, AddressingMode::Absolute, InstructionType::AND)),
            0x2E => Some(Self::entry(InstructionType::ROL, 0x2E, AddressingMode::Absolute, InstructionType::ROL)),
            0x30 => Some(Self::entry(InstructionType::BMI, 0x30, AddressingMode::Relative, InstructionType::BMI)),
            0x31 => Some(Self::entry(InstructionType::AND, 0x31, AddressingMode::IndirectIndexedY, InstructionType::AND)),
            0x35 => Some(Self::entry(InstructionType::AND, 0x35, AddressingMode::ZeroPageIndexedX, InstructionType::AND)),
            0x36 => Some(Self::entry(InstructionType::ROL, 0x36, AddressingMode::ZeroPageIndexedX, InstructionType::ROL)),
            0x38 => Some(Self::entry(InstructionType::SEC, 0x38, AddressingMode::Implicit, InstructionType::SEC)),
            0x39 => Some(Self::entry(InstructionType::AND, 0x39, AddressingMode::AbsoluteIndexedY, InstructionType::AND)),
            0x3D => Some(Self::entry(InstructionType::AND, 0x3D, AddressingMode::AbsoluteIndexedX, InstructionType::AND)),
            0x3E => Some(Self::entry(InstructionType::ROL, 0x3E, AddressingMode::AbsoluteIndexedX, InstructionType::ROL)),
            0x40 => Some(Self::entry(InstructionType::RTI, 0x40, AddressingMode::Implicit, InstructionType::RTI)),
            0x41 => Some(Self::entry(InstructionType::EOR, 0x41, AddressingMode::IndirectIndexedX, InstructionType::EOR)),
            0x45 => Some(Self::entry(InstructionType::EOR, 0x45, AddressingMode::ZeroPage, InstructionType::EOR)),
            0x46 => Some(Self::entry(InstructionType::LSR, 0x46, AddressingMode::ZeroPage, InstructionType::LSR)),
            0x48 => Some(Self::entry(InstructionType::PHA, 0x48, AddressingMode::Implicit, InstructionType::PHA)),
            0x49 => Some(Self::entry(InstructionType::EOR, 0x49, AddressingMode::Immediate, InstructionType::EOR)),
            0x4A => Some(Self::entry(InstructionType::LSR, 0x4A, AddressingMode::Accumulator, InstructionType::LSR)),
            0x4C => Some(Self::entry(InstructionType::EOR, 0x4D, AddressingMode::Absolute, InstructionType::JMP)),
            0x4D => Some(Self::entry(InstructionType::EOR, 0x4D, AddressingMode::Absolute, InstructionType::EOR)),
            0x4E => Some(Self::entry(InstructionType::LSR, 0x4E, AddressingMode::Absolute, InstructionType::LSR)),
            0x50 => Some(Self::entry(InstructionType::BVC, 0x51, AddressingMode::Relative, InstructionType::BVC)),
            0x51 => Some(Self::entry(InstructionType::EOR, 0x51, AddressingMode::IndirectIndexedY, InstructionType::EOR)),
            0x55 => Some(Self::entry(InstructionType::EOR, 0x55, AddressingMode::ZeroPageIndexedX, InstructionType::EOR)),
            0x56 => Some(Self::entry(InstructionType::LSR, 0x56, AddressingMode::ZeroPageIndexedX, InstructionType::LSR)),
            0x58 => Some(Self::entry(InstructionType::CLI, 0x58, AddressingMode::Implicit, InstructionType::CLI)),
            0x59 => Some(Self::entry(InstructionType::EOR, 0x59, AddressingMode::AbsoluteIndexedY, InstructionType::EOR)),
            0x5D => Some(Self::entry(InstructionType::EOR, 0x5D, AddressingMode::AbsoluteIndexedX, InstructionType::EOR)),
            0x5E => Some(Self::entry(InstructionType::LSR, 0x5E, AddressingMode::AbsoluteIndexedX, InstructionType::LSR)),
            0x60 => Some(Self::entry(InstructionType::RTS, 0x60, AddressingMode::Implicit, InstructionType::RTS)),
            0x61 => Some(Self::entry(InstructionType::ADC, 0x61, AddressingMode::IndirectIndexedX, InstructionType::ADC)),
            0x65 => Some(Self::entry(InstructionType::ADC, 0x65, AddressingMode::ZeroPage, InstructionType::ADC)),
            0x66 => Some(Self::entry(InstructionType::ROR, 0x66, AddressingMode::ZeroPage, InstructionType::ROR)),
            0x68 => Some(Self::entry(InstructionType::PLA, 0x68, AddressingMode::Implicit, InstructionType::PLA)),
            0x69 => Some(Self::entry(InstructionType::ADC, 0x69, AddressingMode::Immediate, InstructionType::ADC)),
            0x6A => Some(Self::entry(InstructionType::ROR, 0x6A, AddressingMode::Accumulator, InstructionType::ROR)),
            0x6C => Some(Self::entry(InstructionType::EOR, 0x6D, AddressingMode::Indirect, InstructionType::JMP)),
            0x6D => Some(Self::entry(InstructionType::ADC, 0x6D, AddressingMode::Absolute, InstructionType::ADC)),
            0x6E => Some(Self::entry(InstructionType::ROR, 0x6E, AddressingMode::Absolute, InstructionType::ROR)),
            0x70 => Some(Self::entry(InstructionType::BVS, 0x70, AddressingMode::Relative, InstructionType::BVS)),
            0x71 => Some(Self::entry(InstructionType::ADC, 0x71, AddressingMode::IndirectIndexedY, InstructionType::ADC)),
            0x75 => Some(Self::entry(InstructionType::ADC, 0x75, AddressingMode::ZeroPageIndexedX, InstructionType::ADC)),
            0x76 => Some(Self::entry(InstructionType::ROR, 0x76, AddressingMode::ZeroPageIndexedX, InstructionType::ROR)),
            0x78 => Some(Self::entry(InstructionType::SEI, 0x78, AddressingMode::Implicit, InstructionType::SEI)),
            0x79 => Some(Self::entry(InstructionType::ADC, 0x79, AddressingMode::AbsoluteIndexedY, InstructionType::ADC)),
            0x7D => Some(Self::entry(InstructionType::ADC, 0x7D, AddressingMode::AbsoluteIndexedX, InstructionType::ADC)),
            0x7E => Some(Self::entry(InstructionType::ROR, 0x7E, AddressingMode::AbsoluteIndexedX, InstructionType::ROR)),
            0x81 => Some(Self::entry(InstructionType::STA, 0x81, AddressingMode::IndirectIndexedX, InstructionType::STA)),
            0x84 => Some(Self::entry(InstructionType::STY, 0x84, AddressingMode::ZeroPage, InstructionType::STY)),
            0x85 => Some(Self::entry(InstructionType::STA, 0x85, AddressingMode::ZeroPage, InstructionType::STA)),
            0x86 => Some(Self::entry(InstructionType::STX, 0x86, AddressingMode::ZeroPage, InstructionType::STX)),
            0x88 => Some(Self::entry(InstructionType::DEY, 0x88, AddressingMode::Implicit, InstructionType::DEY)),
            0x8A => Some(Self::entry(InstructionType::TXA, 0x8A, AddressingMode::Implicit, InstructionType::TXA)),
            0x8C => Some(Self::entry(InstructionType::STY, 0x8C, AddressingMode::Absolute, InstructionType::STY)),
            0x8D => Some(Self::entry(InstructionType::STA, 0x8D, AddressingMode::Absolute, InstructionType::STA)),
            0x8E => Some(Self::entry(InstructionType::STX, 0x8E, AddressingMode::Absolute, InstructionType::STX)),
            0x90 => Some(Self::entry(InstructionType::BCC, 0x90, AddressingMode::Relative, InstructionType::BCC)),
            0x91 => Some(Self::entry(InstructionType::STA, 0x91, AddressingMode::IndirectIndexedY, InstructionType::STA)),
            0x94 => Some(Self::entry(InstructionType::STY, 0x94, AddressingMode::ZeroPageIndexedX, InstructionType::STY)),
            0x95 => Some(Self::entry(InstructionType::STA, 0x95, AddressingMode::ZeroPageIndexedX, InstructionType::STA)),
            0x96 => Some(Self::entry(InstructionType::STX, 0x96, AddressingMode::ZeroPageIndexedY, InstructionType::STX)),
            0x98 => Some(Self::entry(InstructionType::TYA, 0x98, AddressingMode::Implicit, InstructionType::TYA)),
            0x99 => Some(Self::entry(InstructionType::STA, 0x99, AddressingMode::AbsoluteIndexedY, InstructionType::STA)),
            0x9A => Some(Self::entry(InstructionType::TXS, 0x9A, AddressingMode::Implicit, InstructionType::TXS)),
            0x9D => Some(Self::entry(InstructionType::STA, 0x9D, AddressingMode::AbsoluteIndexedY, InstructionType::STA)),
            0xA0 => Some(Self::entry(InstructionType::LDY, 0xA0, AddressingMode::Immediate, InstructionType::LDY)),
            0xA1 => Some(Self::entry(InstructionType::LDA, 0xA1, AddressingMode::IndirectIndexedX, InstructionType::LDA)),
            0xA2 => Some(Self::entry(InstructionType::LDX, 0xA2, AddressingMode::Immediate, InstructionType::LDX)),
            0xA4 => Some(Self::entry(InstructionType::LDY, 0xA4, AddressingMode::ZeroPage, InstructionType::LDY)),
            0xA5 => Some(Self::entry(InstructionType::LDA, 0xA5, AddressingMode::ZeroPage, InstructionType::LDA)),
            0xA6 => Some(Self::entry(InstructionType::LDX, 0xA6, AddressingMode::ZeroPage, InstructionType::LDX)),
            0xA8 => Some(Self::entry(InstructionType::TAY, 0xA8, AddressingMode::Implicit, InstructionType::TAY)),
            0xA9 => Some(Self::entry(InstructionType::LDA, 0xA9, AddressingMode::Immediate, InstructionType::LDA)),
            0xAA => Some(Self::entry(InstructionType::TAX, 0xAA, AddressingMode::Implicit, InstructionType::TAX)),
            0xAC => Some(Self::entry(InstructionType::LDY, 0xAC, AddressingMode::Absolute, InstructionType::LDY)),
            0xAD => Some(Self::entry(InstructionType::LDA, 0xAD, AddressingMode::Absolute, InstructionType::LDA)),
            0xAE => Some(Self::entry(InstructionType::LDX, 0xAE, AddressingMode::Absolute, InstructionType::LDX)),
            0xB0 => Some(Self::entry(InstructionType::BCS, 0xB0, AddressingMode::Relative, InstructionType::BCS)),
            0xB1 => Some(Self::entry(InstructionType::LDA, 0xB1, AddressingMode::IndirectIndexedY, InstructionType::LDA)),
            0xB4 => Some(Self::entry(InstructionType::LDY, 0xB4, AddressingMode::ZeroPageIndexedX, InstructionType::LDY)),
            0xB5 => Some(Self::entry(InstructionType::LDA, 0xB5, AddressingMode::ZeroPageIndexedX, InstructionType::LDA)),
            0xB6 => Some(Self::entry(InstructionType::LDX, 0xB6, AddressingMode::ZeroPageIndexedY, InstructionType::LDX)),
            0xB8 => Some(Self::entry(InstructionType::CLV, 0xB8, AddressingMode::Implicit, InstructionType::CLV)),
            0xB9 => Some(Self::entry(InstructionType::LDA, 0xB9, AddressingMode::AbsoluteIndexedY, InstructionType::LDA)),
            0xBA => Some(Self::entry(InstructionType::TSX, 0xBA, AddressingMode::Implicit, InstructionType::TSX)),
            0xBC => Some(Self::entry(InstructionType::LDY, 0xBC, AddressingMode::AbsoluteIndexedX, InstructionType::LDY)),
            0xBD => Some(Self::entry(InstructionType::LDA, 0xBD, AddressingMode::AbsoluteIndexedX, InstructionType::LDA)),
            0xBE => Some(Self::entry(InstructionType::LDX, 0xBE, AddressingMode::AbsoluteIndexedY, InstructionType::LDX)),
            0xC0 => Some(Self::entry(InstructionType::CPY, 0xC0, AddressingMode::Immediate, InstructionType::CPY)),
            0xC1 => Some(Self::entry(InstructionType::CMP, 0xC1, AddressingMode::IndirectIndexedX, InstructionType::CMP)),
            0xC4 => Some(Self::entry(InstructionType::CPY, 0xC4, AddressingMode::ZeroPage, InstructionType::CPY)),
            0xC5 => Some(Self::entry(InstructionType::CMP, 0xC5, AddressingMode::ZeroPage, InstructionType::CMP)),
            0xC6 => Some(Self::entry(InstructionType::DEC, 0xAD, AddressingMode::ZeroPage, InstructionType::DEC)),
            0xC9 => Some(Self::entry(InstructionType::CMP, 0xC9, AddressingMode::Immediate, InstructionType::CMP)),
            0xCA => Some(Self::entry(InstructionType::DEX, 0xCA, AddressingMode::Implicit, InstructionType::DEX)),
            0xCC => Some(Self::entry(InstructionType::CPY, 0xCC, AddressingMode::Absolute, InstructionType::CPY)),
            0xCD => Some(Self::entry(InstructionType::CMP, 0xCD, AddressingMode::Absolute, InstructionType::CMP)),
            0xCE => Some(Self::entry(InstructionType::DEC, 0xCE, AddressingMode::Absolute, InstructionType::DEC)),
            0xD0 => Some(Self::entry(InstructionType::BNE, 0xD0, AddressingMode::Relative, InstructionType::BNE)),
            0xD1 => Some(Self::entry(InstructionType::CMP, 0xD1, AddressingMode::IndirectIndexedY, InstructionType::CMP)),
            0xD5 => Some(Self::entry(InstructionType::CMP, 0xD5, AddressingMode::ZeroPageIndexedX, InstructionType::CMP)),
            0xD6 => Some(Self::entry(InstructionType::DEC, 0xD6, AddressingMode::ZeroPageIndexedX, InstructionType::DEC)),
            0xD8 => Some(Self::entry(InstructionType::CLD, 0xD8, AddressingMode::Implicit, InstructionType::CLD)),
            0xD9 => Some(Self::entry(InstructionType::CMP, 0xD9, AddressingMode::AbsoluteIndexedY, InstructionType::CMP)),
            0xDD => Some(Self::entry(InstructionType::CMP, 0xDD, AddressingMode::AbsoluteIndexedX, InstructionType::CMP)),
            0xDE => Some(Self::entry(InstructionType::DEC, 0xDE, AddressingMode::AbsoluteIndexedX, InstructionType::DEC)),
            0xE0 => Some(Self::entry(InstructionType::CPX, 0xE0, AddressingMode::Immediate, InstructionType::CPX)),
            0xE1 => Some(Self::entry(InstructionType::SBC, 0xE1, AddressingMode::IndirectIndexedX, InstructionType::SBC)),
            0xE4 => Some(Self::entry(InstructionType::CPX, 0xE4, AddressingMode::ZeroPage, InstructionType::CPX)),
            0xE5 => Some(Self::entry(InstructionType::SBC, 0xE5, AddressingMode::ZeroPage, InstructionType::SBC)),
            0xE6 => Some(Self::entry(InstructionType::INC, 0xE6, AddressingMode::ZeroPage, InstructionType::INC)),
            0xE8 => Some(Self::entry(InstructionType::INX, 0xE8, AddressingMode::Implicit, InstructionType::INX)),
            0xE9 => Some(Self::entry(InstructionType::SBC, 0xE9, AddressingMode::Immediate, InstructionType::SBC)),
            0xEA => Some(Self::entry(InstructionType::NOP, 0xEA, AddressingMode::Implicit, InstructionType::NOP)),
            0xEC => Some(Self::entry(InstructionType::CPX, 0xEC, AddressingMode::Absolute, InstructionType::CPX)),
            0xED => Some(Self::entry(InstructionType::SBC, 0xED, AddressingMode::Absolute, InstructionType::SBC)),
            0xEE => Some(Self::entry(InstructionType::INC, 0xEE, AddressingMode::Absolute, InstructionType::INC)),
            0xF1 => Some(Self::entry(InstructionType::SBC, 0xF1, AddressingMode::IndirectIndexedY, InstructionType::SBC)),
            0xF5 => Some(Self::entry(InstructionType::BEQ, 0xF5, AddressingMode::ZeroPageIndexedX, InstructionType::SBC)),
            0xF6 => Some(Self::entry(InstructionType::INC, 0xF6, AddressingMode::ZeroPageIndexedX, InstructionType::INC)),
            0xF8 => Some(Self::entry(InstructionType::SED, 0xF8, AddressingMode::Implicit, InstructionType::SED)),
            0xF9 => Some(Self::entry(InstructionType::SBC, 0xF9, AddressingMode::AbsoluteIndexedY, InstructionType::SBC)),
            0xFD => Some(Self::entry(InstructionType::SBC, 0xFD, AddressingMode::AbsoluteIndexedX, InstructionType::SBC)),
            0xFE => Some(Self::entry(InstructionType::INC, 0xFE, AddressingMode::AbsoluteIndexedX, InstructionType::INC)),
            _ => None,
        }
    }
}


impl InstructionSet {
    /// Every opcode's entry of the table is where the opcode indexes.
    #[verifier::type_invariant]
    spec fn holds_opcode_table(self) -> bool {
        &&& self.instructions.len() == 256
        &&& forall|i: int| 0 <= i < 256 ==> #[trigger] self.instructions@[i] == opcode_table(i as u8)
    }

    /// The entry of `opcode`.
    pub closed spec fn entry_of(self, opcode: u8) -> Option<Instruction> {
        self.instructions@[opcode as int]
    }

    /// Builds the opcode table.
    pub fn new() -> (set: InstructionSet)
        ensures
            forall|opcode: u8| #[trigger] set.entry_of(opcode) == opcode_table(opcode),
    {
        let mut instructions: Vec<Option<Instruction>> = Vec::new();
        let mut opcode: u16 = 0;
        while opcode < 256
            invariant
                opcode <= 256,
                instructions.len() == opcode,
                forall|i: int| 0 <= i < opcode ==> #[trigger] instructions@[i] == opcode_table(i as u8),
            decreases 256 - opcode,
        {
            instructions.push(Self::decode(opcode as u8));
            opcode = opcode + 1;
        }
        InstructionSet { instructions }
    }

    /// The instruction that `opcode` decodes to, if the table has one.
    pub fn get_instruction(&self, opcode: u8) -> (instruction: Option<Instruction>)
        ensures
            instruction == opcode_table(opcode),
    {
        proof {
            use_type_invariant(self);
        }
        self.instructions[opcode as usize]
    }
}

impl Default for InstructionSet {
    fn default() -> (set: InstructionSet)
        ensures
            forall|opcode: u8| #[trigger] set.entry_of(opcode) == opcode_table(opcode),
    {
        Self::new()
    }
}

} // verus!
