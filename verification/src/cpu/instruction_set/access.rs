use vstd::prelude::*;
use crate::bus::MemoryIndexer;
use crate::cpu::registers::{Flag, Registers};
use crate::utils::math::is_negative;
use super::{
    AddressingMode, CpuError, Execution, Instruction, InstructionSet, Operand, missing_operand,
    invalid_operand, operand_byte, operand_value, read_cycles, read_cycle_count,
    with_zero_negative,
};

verus! {

/// The registers of the 6502 that a load or a store names.
#[derive(Clone, Copy, Debug, PartialEq, Eq, Structural)]
pub enum Target {
    Accumulator,
    X,
    Y,
}

/// The value of the register `target`.
pub open spec fn register_value(r: Registers, target: Target) -> u8 {
    match target {
        Target::Accumulator => r.accumulator,
        Target::X => r.x,
        Target::Y => r.y,
    }
}

/// The registers with `target` set to `value`.
pub open spec fn with_register(r: Registers, target: Target, value: u8) -> Registers {
    match target {
        Target::Accumulator => Registers { accumulator: value, ..r },
        Target::X => Registers { x: value, ..r },
        Target::Y => Registers { y: value, ..r },
    }
}

/// Cycles of LDX.
pub open spec fn ldx_cycles(mode: AddressingMode) -> Result<u8, CpuError> {
    match mode {
        AddressingMode::Immediate => Ok(2),
        AddressingMode::ZeroPage => Ok(3),
        AddressingMode::ZeroPageIndexedY => Ok(4),
        AddressingMode::Absolute => Ok(4),
        AddressingMode::AbsoluteIndexedY => Ok(4),
        _ => Err(CpuError::InvalidAddressingMode),
    }
}

/// Cycles of LDY.
pub open spec fn ldy_cycles(mode: AddressingMode) -> Result<u8, CpuError> {
    match mode {
        AddressingMode::Immediate => Ok(2),
        AddressingMode::ZeroPage => Ok(3),
        AddressingMode::ZeroPageIndexedX => Ok(4),
        AddressingMode::Absolute => Ok(4),
        AddressingMode::AbsoluteIndexedX => Ok(4),
        _ => Err(CpuError::InvalidAddressingMode),
    }
}

/// Cycles of LDA, LDX or LDY.
pub open spec fn load_cycles(target: Target, mode: AddressingMode) -> Result<u8, CpuError> {
    match target {
        Target::Accumulator => read_cycles(mode),
        Target::X => ldx_cycles(mode),
        Target::Y => ldy_cycles(mode),
    }
}

/// Cycles of STA.
pub open spec fn sta_cycles(mode: AddressingMode) -> Result<u8, CpuError> {
    match mode {
        AddressingMode::ZeroPage => Ok(3),
        AddressingMode::ZeroPageIndexedX => Ok(4),
        AddressingMode::Absolute => Ok(4),
        AddressingMode::AbsoluteIndexedX => Ok(5),
        AddressingMode::AbsoluteIndexedY => Ok(5),
        AddressingMode::IndirectIndexedX => Ok(6),
        AddressingMode::IndirectIndexedY => Ok(6),
        _ => Err(CpuError::InvalidAddressingMode),
    }
}

/// Cycles of STX and STY.
pub open spec fn index_store_cycles(mode: AddressingMode) -> Result<u8, CpuError> {
    match mode {
        AddressingMode::ZeroPage => Ok(3),
        AddressingMode::ZeroPageIndexedX => Ok(4),
        AddressingMode::Absolute => Ok(4),
        _ => Err(CpuError::InvalidAddressingMode),
    }
}

/// Cycles of STA, STX or STY.
pub open spec fn store_cycles(target: Target, mode: AddressingMode) -> Result<u8, CpuError> {
    match target {
        Target::Accumulator => sta_cycles(mode),
        _ => index_store_cycles(mode),
    }
}

/// LDA, LDX, LDY: the register takes the operand's byte; the zero and negative flags follow it.
pub open spec fn load_spec<T: MemoryIndexer>(
    i: Instruction,
    r: Registers,
    bus: T,
    target: Target,
) -> Execution<T> {
    match i.operand {
        None => missing_operand(r, bus),
        Some(operand) => {
            let (value, bus) = operand_byte(operand, bus);
            Execution {
                registers: with_register(with_zero_negative(r, value), target, value),
                bus,
                result: load_cycles(target, i.addressing_mode),
            }
        },
    }
}

/// STA, STX, STY: the register is written at the operand's address.
pub open spec fn store_spec<T: MemoryIndexer>(
    i: Instruction,
    r: Registers,
    bus: T,
    target: Target,
) -> Execution<T> {
    match i.operand {
        None => missing_operand(r, bus),
        Some(Operand::Value(_)) => invalid_operand(r, bus),
        Some(Operand::Address(address)) => Execution {
            registers: r,
            bus: bus.after_write(address, register_value(r, target)),
            result: store_cycles(target, i.addressing_mode),
        },
    }
}

impl InstructionSet {
    pub fn lda<T: MemoryIndexer>(
        instruction: &Instruction,
        registers: &mut Registers,
        bus: &mut T,
    ) -> (result: Result<u8, CpuError>)
        requires
            old(bus).inv(),
        ensures
            final(bus).inv(),
            (Execution { registers: *final(registers), bus: *final(bus), result }) == load_spec(
                *instruction,
                *old(registers),
                *old(bus),
                Target::Accumulator,
            ),
    {
        let operand = match instruction.operand {
            Some(operand) => operand,
            None => return Err(CpuError::MissingOperand),
        };
        let operand_value = operand_value(operand, bus);

        registers.set_flag(Flag::Zero, operand_value == 0);
        registers.set_flag(Flag::Negative, is_negative(operand_value));

        registers.accumulator = operand_value;

        read_cycle_count(instruction.addressing_mode)
    }

    pub fn ldx<T: MemoryIndexer>(
        instruction: &Instruction,
        registers: &mut Registers,
        bus: &mut T,
    ) -> (result: Result<u8, CpuError>)
        requires
            old(bus).inv(),
        ensures
            final(bus).inv(),
            (Execution { registers: *final(registers), bus: *final(bus), result }) == load_spec(
                *instruction,
                *old(registers),
                *old(bus),
                Target::X,
            ),
    {
        let operand = match instruction.operand {
            Some(operand) => operand,
            None => return Err(CpuError::MissingOperand),
        };
        let operand_value = operand_value(operand, bus);

        registers.set_flag(Flag::Zero, operand_value == 0);
        registers.set_flag(Flag::Negative, is_negative(operand_value));

        registers.x = operand_value;

        match instruction.addressing_mode {
            AddressingMode::Immediate => Ok(2),
            AddressingMode::ZeroPage => Ok(3),
            AddressingMode::ZeroPageIndexedY => Ok(4),
            AddressingMode::Absolute => Ok(4),
            AddressingMode::AbsoluteIndexedY => Ok(4),
            _ => Err(CpuError::InvalidAddressingMode),
        }
    }

    pub fn ldy<T: MemoryIndexer>(
        instruction: &Instruction,
        registers: &mut Registers,
        bus: &mut T,
    ) -> (result: Result<u8, CpuError>)
        requires
            old(bus).inv(),
        ensures
            final(bus).inv(),
            (Execution { registers: *final(registers), bus: *final(bus), result }) == load_spec(
                *instruction,
                *old(registers),
                *old(bus),
                Target::Y,
            ),
    {
        let operand = match instruction.operand {
            Some(operand) => operand,
            None => return Err(CpuError::MissingOperand),
        };
        let operand_value = operand_value(operand, bus);

        registers.set_flag(Flag::Zero, operand_value == 0);
        registers.set_flag(Flag::Negative, is_negative(operand_value));

        registers.y = operand_value;

        match instruction.addressing_mode {
            AddressingMode::Immediate => Ok(2),
            AddressingMode::ZeroPage => Ok(3),
            AddressingMode::ZeroPageIndexedX => Ok(4),
            AddressingMode::Absolute => Ok(4),
            AddressingMode::AbsoluteIndexedX => Ok(4),
            _ => Err(CpuError::InvalidAddressingMode),
        }
    }

    pub fn sta<T: MemoryIndexer>(
        instruction: &Instruction,
        registers: &mut Registers,
        bus: &mut T,
    ) -> (result: Result<u8, CpuError>)
        requires
            old(bus).inv(),
        ensures
            final(bus).inv(),
            (Execution { registers: *final(registers), bus: *final(bus), result }) == store_spec(
                *instruction,
                *old(registers),
                *old(bus),
                Target::Accumulator,
            ),
    {
        let address = match instruction.operand {
            Some(Operand::Address(address)) => address,
            Some(Operand::Value(_)) => return Err(CpuError::InvalidOperand),
            None => return Err(CpuError::MissingOperand),
        };

        bus.write_byte(address, registers.accumulator);

        match instruction.addressing_mode {
            AddressingMode::ZeroPage => Ok(3),
            AddressingMode::ZeroPageIndexedX => Ok(4),
            AddressingMode::Absolute => Ok(4),
            AddressingMode::AbsoluteIndexedX => Ok(5),
            AddressingMode::AbsoluteIndexedY => Ok(5),
            AddressingMode::IndirectIndexedX => Ok(6),
            AddressingMode::IndirectIndexedY => Ok(6),
            _ => Err(CpuError::InvalidAddressingMode),
        }
    }

    pub fn stx<T: MemoryIndexer>(
        instruction: &Instruction,
        registers: &mut Registers,
        bus: &mut T,
    ) -> (result: Result<u8, CpuError>)
        requires
            old(bus).inv(),
        ensures
            final(bus).inv(),
            (Execution { registers: *final(registers), bus: *final(bus), result }) == store_spec(
                *instruction,
                *old(registers),
                *old(bus),
                Target::X,
            ),
    {
        let address = match instruction.operand {
            Some(Operand::Address(address)) => address,
            Some(Operand::Value(_)) => return Err(CpuError::InvalidOperand),
            None => return Err(CpuError::MissingOperand),
        };

        bus.write_byte(address, registers.x);

        match instruction.addressing_mode {
            AddressingMode::ZeroPage => Ok(3),
            AddressingMode::ZeroPageIndexedX => Ok(4),
            AddressingMode::Absolute => Ok(4),
            _ => Err(CpuError::InvalidAddressingMode),
        }
    }

    pub fn sty<T: MemoryIndexer>(
        instruction: &Instruction,
        registers: &mut Registers,
        bus: &mut T,
    ) -> (result: Result<u8, CpuError>)
        requires
            old(bus).inv(),
        ensures
            final(bus).inv(),
            (Execution { registers: *final(registers), bus: *final(bus), result }) == store_spec(
                *instruction,
                *old(registers),
                *old(bus),
                Target::Y,
            ),
    {
        let address = match instruction.operand {
            Some(Operand::Address(address)) => address,
            Some(Operand::Value(_)) => return Err(CpuError::InvalidOperand),
            None => return Err(CpuError::MissingOperand),
        };

        bus.write_byte(address, registers.y);

        match instruction.addressing_mode {
            AddressingMode::ZeroPage => Ok(3),
            AddressingMode::ZeroPageIndexedX => Ok(4),
            AddressingMode::Absolute => Ok(4),
            _ => Err(CpuError::InvalidAddressingMode),
        }
    }
}

} // verus!
