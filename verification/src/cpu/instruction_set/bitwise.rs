use vstd::prelude::*;
use crate::bus::MemoryIndexer;
use crate::cpu::registers::{Flag, Registers};
use crate::utils::math::{is_negative, negative};
use super::{
    AddressingMode, CpuError, Execution, Instruction, InstructionSet, Operand, missing_operand,
    invalid_operand, operand_byte, operand_value, read_cycles, read_cycle_count,
    with_zero_negative,
};

verus! {

/// AND: the accumulator becomes its conjunction with the operand. The zero flag is cleared
/// whatever the result, and the negative flag follows the result.
pub open spec fn and_spec<T: MemoryIndexer>(i: Instruction, r: Registers, bus: T) -> Execution<T> {
    match i.operand {
        None => missing_operand(r, bus),
        Some(operand) => {
            let (value, bus) = operand_byte(operand, bus);
            let result = r.accumulator & value;
            let updated = Registers { accumulator: result, ..r };
            Execution {
                registers: updated.with_flag(Flag::Zero, false).with_flag(
                    Flag::Negative,
                    negative(result),
                ),
                bus,
                result: read_cycles(i.addressing_mode),
            }
        },
    }
}

/// EOR and ORA: the accumulator becomes its exclusive (EOR) or inclusive (ORA) disjunction
/// with the operand; the zero and negative flags follow the result.
pub open spec fn logic_spec<T: MemoryIndexer>(
    i: Instruction,
    r: Registers,
    bus: T,
    exclusive: bool,
) -> Execution<T> {
    match i.operand {
        None => missing_operand(r, bus),
        Some(operand) => {
            let (value, bus) = operand_byte(operand, bus);
            let result = if exclusive {
                r.accumulator ^ value
            } else {
                r.accumulator | value
            };
            Execution {
                registers: with_zero_negative(Registers { accumulator: result, ..r }, result),
                bus,
                result: read_cycles(i.addressing_mode),
            }
        },
    }
}

/// Cycles of BIT.
pub open spec fn bit_cycles(mode: AddressingMode) -> Result<u8, CpuError> {
    match mode {
        AddressingMode::ZeroPage => Ok(3),
        AddressingMode::Absolute => Ok(4),
        _ => Err(CpuError::InvalidAddressingMode),
    }
}

/// BIT: tests the byte at the operand's address against the accumulator. The zero flag says
/// whether they share no bit; the negative and overflow flags copy bits 7 and 6 of the byte.
pub open spec fn bit_spec<T: MemoryIndexer>(i: Instruction, r: Registers, bus: T) -> Execution<T> {
    match i.operand {
        None => missing_operand(r, bus),
        Some(Operand::Value(_)) => invalid_operand(r, bus),
        Some(Operand::Address(address)) => {
            let value = bus.read_value(address);
            Execution {
                registers: r.with_flag(Flag::Zero, r.accumulator & value == 0).with_flag(
                    Flag::Negative,
                    negative(value),
                ).with_flag(Flag::Overflow, value & 0b0100_0000 != 0),
                bus: bus.after_read(address),
                result: bit_cycles(i.addressing_mode),
            }
        },
    }
}

impl InstructionSet {
    pub fn and<T: MemoryIndexer>(
        instruction: &Instruction,
        registers: &mut Registers,
        bus: &mut T,
    ) -> (result: Result<u8, CpuError>)
        requires
            old(bus).inv(),
        ensures
            final(bus).inv(),
            (Execution { registers: *final(registers), bus: *final(bus), result }) == and_spec(
                *instruction,
                *old(registers),
                *old(bus),
            ),
    {
        let operand = match instruction.operand {
            Some(operand) => operand,
            None => return Err(CpuError::MissingOperand),
        };
        let value = operand_value(operand, bus);

        registers.accumulator = registers.accumulator & value;

        registers.set_flag(Flag::Zero, false);
        registers.set_flag(Flag::Negative, is_negative(registers.accumulator));

        read_cycle_count(instruction.addressing_mode)
    }

    pub fn eor<T: MemoryIndexer>(
        instruction: &Instruction,
        registers: &mut Registers,
        bus: &mut T,
    ) -> (result: Result<u8, CpuError>)
        requires
            old(bus).inv(),
        ensures
            final(bus).inv(),
            (Execution { registers: *final(registers), bus: *final(bus), result }) == logic_spec(
                *instruction,
                *old(registers),
                *old(bus),
                true,
            ),
    {
        let operand = match instruction.operand {
            Some(operand) => operand,
            None => return Err(CpuError::MissingOperand),
        };
        let value = operand_value(operand, bus);

        registers.accumulator = registers.accumulator ^ value;

        registers.set_flag(Flag::Zero, registers.accumulator == 0);
        registers.set_flag(Flag::Negative, is_negative(registers.accumulator));

        read_cycle_count(instruction.addressing_mode)
    }

    pub fn ora<T: MemoryIndexer>(
        instruction: &Instruction,
        registers: &mut Registers,
        bus: &mut T,
    ) -> (result: Result<u8, CpuError>)
        requires
            old(bus).inv(),
        ensures
            final(bus).inv(),
            (Execution { registers: *final(registers), bus: *final(bus), result }) == logic_spec(
                *instruction,
                *old(registers),
                *old(bus),
                false,
            ),
    {
        let operand = match instruction.operand {
            Some(operand) => operand,
            None => return Err(CpuError::MissingOperand),
        };
        let value = operand_value(operand, bus);

        registers.accumulator = registers.accumulator | value;

        registers.set_flag(Flag::Zero, registers.accumulator == 0);
        registers.set_flag(Flag::Negative, is_negative(registers.accumulator));

        read_cycle_count(instruction.addressing_mode)
    }

    pub fn bit<T: MemoryIndexer>(
        instruction: &Instruction,
        registers: &mut Registers,
        bus: &mut T,
    ) -> (result: Result<u8, CpuError>)
        requires
            old(bus).inv(),
        ensures
            final(bus).inv(),
            (Execution { registers: *final(registers), bus: *final(bus), result }) == bit_spec(
                *instruction,
                *old(registers),
                *old(bus),
            ),
    {
        let operand = match instruction.operand {
            Some(Operand::Address(address)) => bus.read_byte(address),
            Some(Operand::Value(_)) => return Err(CpuError::InvalidOperand),
            None => return Err(CpuError::MissingOperand),
        };

        let result = registers.accumulator & operand;

        registers.set_flag(Flag::Zero, result == 0);
        registers.set_flag(Flag::Negative, is_negative(operand));
        registers.set_flag(Flag::Overflow, operand & 0b0100_0000 != 0);

        match instruction.addressing_mode {
            AddressingMode::ZeroPage => Ok(3),
            AddressingMode::Absolute => Ok(4),
            _ => Err(CpuError::InvalidAddressingMode),
        }
    }
}

} // verus!
