use vstd::prelude::*;
use crate::bus::MemoryIndexer;
use crate::cpu::registers::{Flag, Registers};
use super::{CpuError, Execution, Instruction, InstructionSet, Operand, missing_operand, invalid_operand};

verus! {

/// A conditional branch: BCC, BCS, BEQ, BNE, BMI, BPL, BVC, BVS. It jumps to the operand's
/// address when `flag` has the value `when`, and takes 2 cycles, 3 when it jumps.
pub open spec fn branch_spec<T>(i: Instruction, r: Registers, bus: T, flag: Flag, when: bool) -> Execution<T> {
    match i.operand {
        None => missing_operand(r, bus),
        Some(Operand::Value(_)) => invalid_operand(r, bus),
        Some(Operand::Address(target)) => {
            let taken = r.flag(flag) == when;
            Execution {
                registers: if taken { Registers { program_counter: target, ..r } } else { r },
                bus,
                result: Ok(if taken { 3 } else { 2 }),
            }
        },
    }
}

impl InstructionSet {
    /// The shared body of the conditional branches.
    fn branch<T: MemoryIndexer>(
        instruction: &Instruction,
        registers: &mut Registers,
        bus: &mut T,
        flag: Flag,
        when: bool,
    ) -> (result: Result<u8, CpuError>)
        requires
            old(bus).inv(),
        ensures
            final(bus).inv(),
            (Execution { registers: *final(registers), bus: *final(bus), result }) == branch_spec(
                *instruction,
                *old(registers),
                *old(bus),
                flag,
                when,
            ),
    {
        let branch_address = match instruction.operand {
            Some(Operand::Address(address)) => address,
            Some(Operand::Value(_)) => return Err(CpuError::InvalidOperand),
            None => return Err(CpuError::MissingOperand),
        };

        let taken = registers.get_flag(flag) == when;
        if taken {
            registers.program_counter = branch_address;
        }

        Ok(2 + if taken { 1 } else { 0 })
    }

    /// BCC: branches when the carry is set, as this emulator has always done (a 6502 takes
    /// BCC when the carry is clear).
    pub fn bcc<T: MemoryIndexer>(instruction: &Instruction, registers: &mut Registers, bus: &mut T) -> (result: Result<u8, CpuError>)
        requires
            old(bus).inv(),
        ensures
            final(bus).inv(),
            (Execution { registers: *final(registers), bus: *final(bus), result })
                == branch_spec(*instruction, *old(registers), *old(bus), Flag::Carry, true),
    {
        Self::branch(instruction, registers, bus, Flag::Carry, true)
    }

    /// BCS: branch when the carry is set.
    pub fn bcs<T: MemoryIndexer>(instruction: &Instruction, registers: &mut Registers, bus: &mut T) -> (result: Result<u8, CpuError>)
        requires
            old(bus).inv(),
        ensures
            final(bus).inv(),
            (Execution { registers: *final(registers), bus: *final(bus), result })
                == branch_spec(*instruction, *old(registers), *old(bus), Flag::Carry, true),
    {
        Self::branch(instruction, registers, bus, Flag::Carry, true)
    }

    /// BEQ: branch when the zero flag is set.
    pub fn beq<T: MemoryIndexer>(instruction: &Instruction, registers: &mut Registers, bus: &mut T) -> (result: Result<u8, CpuError>)
        requires
            old(bus).inv(),
        ensures
            final(bus).inv(),
            (Execution { registers: *final(registers), bus: *final(bus), result })
                == branch_spec(*instruction, *old(registers), *old(bus), Flag::Zero, true),
    {
        Self::branch(instruction, registers, bus, Flag::Zero, true)
    }

    /// BNE: branch when the zero flag is clear.
    pub fn bne<T: MemoryIndexer>(instruction: &Instruction, registers: &mut Registers, bus: &mut T) -> (result: Result<u8, CpuError>)
        requires
            old(bus).inv(),
        ensures
            final(bus).inv(),
            (Execution { registers: *final(registers), bus: *final(bus), result })
                == branch_spec(*instruction, *old(registers), *old(bus), Flag::Zero, false),
    {
        Self::branch(instruction, registers, bus, Flag::Zero, false)
    }

    /// BMI: branch when the negative flag is set.
    pub fn bmi<T: MemoryIndexer>(instruction: &Instruction, registers: &mut Registers, bus: &mut T) -> (result: Result<u8, CpuError>)
        requires
            old(bus).inv(),
        ensures
            final(bus).inv(),
            (Execution { registers: *final(registers), bus: *final(bus), result })
                == branch_spec(*instruction, *old(registers), *old(bus), Flag::Negative, true),
    {
        Self::branch(instruction, registers, bus, Flag::Negative, true)
    }

    /// BPL: branch when the negative flag is clear.
    pub fn bpl<T: MemoryIndexer>(instruction: &Instruction, registers: &mut Registers, bus: &mut T) -> (result: Result<u8, CpuError>)
        requires
            old(bus).inv(),
        ensures
            final(bus).inv(),
            (Execution { registers: *final(registers), bus: *final(bus), result })
                == branch_spec(*instruction, *old(registers), *old(bus), Flag::Negative, false),
    {
        Self::branch(instruction, registers, bus, Flag::Negative, false)
    }

    /// BVC: branch when the overflow flag is clear.
    pub fn bvc<T: MemoryIndexer>(instruction: &Instruction, registers: &mut Registers, bus: &mut T) -> (result: Result<u8, CpuError>)
        requires
            old(bus).inv(),
        ensures
            final(bus).inv(),
            (Execution { registers: *final(registers), bus: *final(bus), result })
                == branch_spec(*instruction, *old(registers), *old(bus), Flag::Overflow, false),
    {
        Self::branch(instruction, registers, bus, Flag::Overflow, false)
    }

    /// BVS: branch when the overflow flag is set.
    pub fn bvs<T: MemoryIndexer>(instruction: &Instruction, registers: &mut Registers, bus: &mut T) -> (result: Result<u8, CpuError>)
        requires
            old(bus).inv(),
        ensures
            final(bus).inv(),
            (Execution { registers: *final(registers), bus: *final(bus), result })
                == branch_spec(*instruction, *old(registers), *old(bus), Flag::Overflow, true),
    {
        Self::branch(instruction, registers, bus, Flag::Overflow, true)
    }
}

} // verus!
