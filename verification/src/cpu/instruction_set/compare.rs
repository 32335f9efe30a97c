use vstd::prelude::*;
use crate::bus::MemoryIndexer;
use crate::cpu::registers::{Flag, Registers};
use crate::utils::math::{is_negative, negative};
use super::access::{Target, register_value};
use super::{
    AddressingMode, CpuError, Execution, Instruction, InstructionSet, missing_operand,
    operand_byte, operand_value, read_cycles, read_cycle_count,
};

verus! {

/// Cycles of CPX, which also accepts the implicit mode.
pub open spec fn cpx_cycles(mode: AddressingMode) -> Result<u8, CpuError> {
    match mode {
        AddressingMode::Implicit => Ok(2),
        _ => read_cycles(mode),
    }
}

/// Cycles of CPY.
pub open spec fn cpy_cycles(mode: AddressingMode) -> Result<u8, CpuError> {
    match mode {
        AddressingMode::Immediate => Ok(2),
        AddressingMode::ZeroPage => Ok(3),
        AddressingMode::Absolute => Ok(4),
        _ => Err(CpuError::InvalidAddressingMode),
    }
}

/// Cycles of CMP, CPX or CPY.
pub open spec fn compare_cycles(target: Target, mode: AddressingMode) -> Result<u8, CpuError> {
    match target {
        Target::Accumulator => read_cycles(mode),
        Target::X => cpx_cycles(mode),
        Target::Y => cpy_cycles(mode),
    }
}

/// CMP, CPX, CPY: compare a register with the operand's byte. The carry says the register is
/// not below it; zero and negative follow the difference modulo 256.
pub open spec fn compare_spec<T: MemoryIndexer>(
    i: Instruction,
    r: Registers,
    bus: T,
    target: Target,
) -> Execution<T> {
    match i.operand {
        None => missing_operand(r, bus),
        Some(operand) => {
            let (value, bus) = operand_byte(operand, bus);
            let register = register_value(r, target);
            let difference = ((register - value) % 256) as u8;
            Execution {
                registers: r.with_flag(Flag::Carry, register >= value).with_flag(
                    Flag::Zero,
                    difference == 0,
                ).with_flag(Flag::Negative, negative(difference)),
                bus,
                result: compare_cycles(target, i.addressing_mode),
            }
        },
    }
}

impl InstructionSet {
    /// Sets the flags of a comparison of `register` with `value`.
    fn set_compare_flags(registers: &mut Registers, register: u8, value: u8)
        ensures
            *final(registers) == old(registers).with_flag(Flag::Carry, register >= value).with_flag(
                Flag::Zero,
                ((register - value) % 256) as u8 == 0,
            ).with_flag(Flag::Negative, negative(((register - value) % 256) as u8)),
    {
        let result = register.wrapping_sub(value);

        registers.set_flag(Flag::Carry, register >= value);
        registers.set_flag(Flag::Zero, result == 0);
        registers.set_flag(Flag::Negative, is_negative(result));
    }

    pub fn cmp<T: MemoryIndexer>(
        instruction: &Instruction,
        registers: &mut Registers,
        bus: &mut T,
    ) -> (result: Result<u8, CpuError>)
        requires
            old(bus).inv(),
        ensures
            final(bus).inv(),
            (Execution { registers: *final(registers), bus: *final(bus), result })
                == compare_spec(*instruction, *old(registers), *old(bus), Target::Accumulator),
    {
        let operand = match instruction.operand {
            Some(operand) => operand,
            None => return Err(CpuError::MissingOperand),
        };
        let operand_value = operand_value(operand, bus);
        let accumulator = registers.accumulator;
        Self::set_compare_flags(registers, accumulator, operand_value);

        read_cycle_count(instruction.addressing_mode)
    }

    pub fn cpx<T: MemoryIndexer>(
        instruction: &Instruction,
        registers: &mut Registers,
        bus: &mut T,
    ) -> (result: Result<u8, CpuError>)
        requires
            old(bus).inv(),
        ensures
            final(bus).inv(),
            (Execution { registers: *final(registers), bus: *final(bus), result })
                == compare_spec(*instruction, *old(registers), *old(bus), Target::X),
    {
        let operand = match instruction.operand {
            Some(operand) => operand,
            None => return Err(CpuError::MissingOperand),
        };
        let operand_value = operand_value(operand, bus);
        let x = registers.x;
        Self::set_compare_flags(registers, x, operand_value);

        match instruction.addressing_mode {
            AddressingMode::Implicit => Ok(2),
            _ => read_cycle_count(instruction.addressing_mode),
        }
    }

    pub fn cpy<T: MemoryIndexer>(
        instruction: &Instruction,
        registers: &mut Registers,
        bus: &mut T,
    ) -> (result: Result<u8, CpuError>)
        requires
            old(bus).inv(),
        ensures
            final(bus).inv(),
            (Execution { registers: *final(registers), bus: *final(bus), result })
                == compare_spec(*instruction, *old(registers), *old(bus), Target::Y),
    {
        let operand = match instruction.operand {
            Some(operand) => operand,
            None => return Err(CpuError::MissingOperand),
        };
        let operand_value = operand_value(operand, bus);
        let y = registers.y;
        Self::set_compare_flags(registers, y, operand_value);

        match instruction.addressing_mode {
            AddressingMode::Immediate => Ok(2),
            AddressingMode::ZeroPage => Ok(3),
            AddressingMode::Absolute => Ok(4),
            _ => Err(CpuError::InvalidAddressingMode),
        }
    }
}

} // verus!
