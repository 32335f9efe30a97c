use vstd::prelude::*;
use crate::bus::MemoryIndexer;
use crate::cpu::registers::{Flag, Registers};
use super::{CpuError, Execution, Instruction, InstructionSet, implicit_cycles, implicit_cycle_count};

verus! {

/// CLC, SEC, CLI, SEI, CLD, SED, CLV: set `flag` to `value`.
pub open spec fn flag_spec<T>(i: Instruction, r: Registers, bus: T, flag: Flag, value: bool) -> Execution<T> {
    Execution {
        registers: r.with_flag(flag, value),
        bus,
        result: implicit_cycles(i.addressing_mode, 2),
    }
}

impl InstructionSet {
    /// The shared body of the flag instructions.
    fn change_flag<T: MemoryIndexer>(
        instruction: &Instruction,
        registers: &mut Registers,
        bus: &mut T,
        flag: Flag,
        value: bool,
    ) -> (result: Result<u8, CpuError>)
        requires
            old(bus).inv(),
        ensures
            final(bus).inv(),
            (Execution { registers: *final(registers), bus: *final(bus), result })
                == flag_spec(*instruction, *old(registers), *old(bus), flag, value),
    {
        registers.set_flag(flag, value);

        implicit_cycle_count(instruction.addressing_mode, 2)
    }

    /// CLC: clears the carry.
    pub fn clc<T: MemoryIndexer>(instruction: &Instruction, registers: &mut Registers, bus: &mut T) -> (result: Result<u8, CpuError>)
        requires
            old(bus).inv(),
        ensures
            final(bus).inv(),
            (Execution { registers: *final(registers), bus: *final(bus), result })
                == flag_spec(*instruction, *old(registers), *old(bus), Flag::Carry, false),
    {
        Self::change_flag(instruction, registers, bus, Flag::Carry, false)
    }

    /// SEC: sets the carry.
    pub fn sec<T: MemoryIndexer>(instruction: &Instruction, registers: &mut Registers, bus: &mut T) -> (result: Result<u8, CpuError>)
        requires
            old(bus).inv(),
        ensures
            final(bus).inv(),
            (Execution { registers: *final(registers), bus: *final(bus), result })
                == flag_spec(*instruction, *old(registers), *old(bus), Flag::Carry, true),
    {
        Self::change_flag(instruction, registers, bus, Flag::Carry, true)
    }

    /// CLI: clears the interrupt disable flag.
    pub fn cli<T: MemoryIndexer>(instruction: &Instruction, registers: &mut Registers, bus: &mut T) -> (result: Result<u8, CpuError>)
        requires
            old(bus).inv(),
        ensures
            final(bus).inv(),
            (Execution { registers: *final(registers), bus: *final(bus), result })
                == flag_spec(*instruction, *old(registers), *old(bus), Flag::InterruptDisable, false),
    {
        Self::change_flag(instruction, registers, bus, Flag::InterruptDisable, false)
    }

    /// SEI: sets the interrupt disable flag.
    pub fn sei<T: MemoryIndexer>(instruction: &Instruction, registers: &mut Registers, bus: &mut T) -> (result: Result<u8, CpuError>)
        requires
            old(bus).inv(),
        ensures
            final(bus).inv(),
            (Execution { registers: *final(registers), bus: *final(bus), result })
                == flag_spec(*instruction, *old(registers), *old(bus), Flag::InterruptDisable, true),
    {
        Self::change_flag(instruction, registers, bus, Flag::InterruptDisable, true)
    }

    /// CLD: clears the decimal mode flag.
    pub fn cld<T: MemoryIndexer>(instruction: &Instruction, registers: &mut Registers, bus: &mut T) -> (result: Result<u8, CpuError>)
        requires
            old(bus).inv(),
        ensures
            final(bus).inv(),
            (Execution { registers: *final(registers), bus: *final(bus), result })
                == flag_spec(*instruction, *old(registers), *old(bus), Flag::DecimalMode, false),
    {
        Self::change_flag(instruction, registers, bus, Flag::DecimalMode, false)
    }

    /// SED: sets the decimal mode flag.
    pub fn sed<T: MemoryIndexer>(instruction: &Instruction, registers: &mut Registers, bus: &mut T) -> (result: Result<u8, CpuError>)
        requires
            old(bus).inv(),
        ensures
            final(bus).inv(),
            (Execution { registers: *final(registers), bus: *final(bus), result })
                == flag_spec(*instruction, *old(registers), *old(bus), Flag::DecimalMode, true),
    {
        Self::change_flag(instruction, registers, bus, Flag::DecimalMode, true)
    }

    /// CLV: clears the overflow flag.
    pub fn clv<T: MemoryIndexer>(instruction: &Instruction, registers: &mut Registers, bus: &mut T) -> (result: Result<u8, CpuError>)
        requires
            old(bus).inv(),
        ensures
            final(bus).inv(),
            (Execution { registers: *final(registers), bus: *final(bus), result })
                == flag_spec(*instruction, *old(registers), *old(bus), Flag::Overflow, false),
    {
        Self::change_flag(instruction, registers, bus, Flag::Overflow, false)
    }
}

} // verus!
