use vstd::prelude::*;
use crate::bus::MemoryIndexer;
use crate::cpu::registers::{Flag, Registers};
use crate::utils::math::is_negative;
use super::access::{Target, register_value, with_register};
use super::{
    CpuError, Execution, Instruction, InstructionSet, implicit_cycles, implicit_cycle_count,
    with_zero_negative,
};

verus! {

/// TAX, TAY, TXA, TYA: `to` takes the value of `from`; zero and negative follow it.
pub open spec fn transfer_spec<T>(i: Instruction, r: Registers, bus: T, from: Target, to: Target) -> Execution<T> {
    let value = register_value(r, from);
    Execution {
        registers: with_zero_negative(with_register(r, to, value), value),
        bus,
        result: implicit_cycles(i.addressing_mode, 2),
    }
}

impl InstructionSet {
    /// TAX: X takes the accumulator.
    pub fn tax<T: MemoryIndexer>(instruction: &Instruction, registers: &mut Registers, bus: &mut T) -> (result: Result<u8, CpuError>)
        requires
            old(bus).inv(),
        ensures
            final(bus).inv(),
            (Execution { registers: *final(registers), bus: *final(bus), result })
                == transfer_spec(*instruction, *old(registers), *old(bus), Target::Accumulator, Target::X),
    {
        registers.x = registers.accumulator;

        registers.set_flag(Flag::Zero, registers.x == 0);
        registers.set_flag(Flag::Negative, is_negative(registers.x));

        implicit_cycle_count(instruction.addressing_mode, 2)
    }

    /// TAY: Y takes the accumulator.
    pub fn tay<T: MemoryIndexer>(instruction: &Instruction, registers: &mut Registers, bus: &mut T) -> (result: Result<u8, CpuError>)
        requires
            old(bus).inv(),
        ensures
            final(bus).inv(),
            (Execution { registers: *final(registers), bus: *final(bus), result })
                == transfer_spec(*instruction, *old(registers), *old(bus), Target::Accumulator, Target::Y),
    {
        registers.y = registers.accumulator;

        registers.set_flag(Flag::Zero, registers.y == 0);
        registers.set_flag(Flag::Negative, is_negative(registers.y));

        implicit_cycle_count(instruction.addressing_mode, 2)
    }

    /// TXA: the accumulator takes X.
    pub fn txa<T: MemoryIndexer>(instruction: &Instruction, registers: &mut Registers, bus: &mut T) -> (result: Result<u8, CpuError>)
        requires
            old(bus).inv(),
        ensures
            final(bus).inv(),
            (Execution { registers: *final(registers), bus: *final(bus), result })
                == transfer_spec(*instruction, *old(registers), *old(bus), Target::X, Target::Accumulator),
    {
        registers.accumulator = registers.x;

        registers.set_flag(Flag::Zero, registers.accumulator == 0);
        registers.set_flag(Flag::Negative, is_negative(registers.accumulator));

        implicit_cycle_count(instruction.addressing_mode, 2)
    }

    /// TYA: the accumulator takes Y.
    pub fn tya<T: MemoryIndexer>(instruction: &Instruction, registers: &mut Registers, bus: &mut T) -> (result: Result<u8, CpuError>)
        requires
            old(bus).inv(),
        ensures
            final(bus).inv(),
            (Execution { registers: *final(registers), bus: *final(bus), result })
                == transfer_spec(*instruction, *old(registers), *old(bus), Target::Y, Target::Accumulator),
    {
        registers.accumulator = registers.y;

        registers.set_flag(Flag::Zero, registers.accumulator == 0);
        registers.set_flag(Flag::Negative, is_negative(registers.accumulator));

        implicit_cycle_count(instruction.addressing_mode, 2)
    }

    /// NOP: does nothing, in 2 cycles.
    pub fn nop<T: MemoryIndexer>(instruction: &Instruction, registers: &mut Registers, bus: &mut T) -> (result: Result<u8, CpuError>)
        requires
            old(bus).inv(),
        ensures
            final(bus).inv(),
            *final(registers) == *old(registers),
            *final(bus) == *old(bus),
            result == Ok::<u8, CpuError>(2),
    {
        Ok(2)
    }
}

} // verus!
