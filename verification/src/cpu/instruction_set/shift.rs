use vstd::prelude::*;
use crate::bus::MemoryIndexer;
use crate::cpu::registers::{Flag, Registers};
use crate::utils::math::negative;
use super::{
    CpuError, Execution, Instruction, InstructionSet, Operand, missing_operand, operand_byte,
    operand_value, shift_cycles, shift_cycle_count,
};

verus! {

/// The four shifts and rotations.
#[derive(Clone, Copy, Debug, PartialEq, Eq, Structural)]
pub enum Shift {
    /// ASL: shift left, bit 0 becomes 0.
    Left,
    /// LSR: shift right, bit 7 becomes 0.
    Right,
    /// ROL: shift left, bit 0 takes the carry.
    RotateLeft,
    /// ROR: shift right, bit 7 takes the carry.
    RotateRight,
}

/// The byte after the shift, given the carry before it.
pub open spec fn shifted(kind: Shift, value: u8, carry: bool) -> u8 {
    let c: int = if carry { 1 } else { 0 };
    match kind {
        Shift::Left => ((2 * value) % 256) as u8,
        Shift::Right => (value / 2) as u8,
        Shift::RotateLeft => ((2 * value) % 256 + c) as u8,
        Shift::RotateRight => (value / 2 + 128 * c) as u8,
    }
}

/// The bit that a shift moves out into the carry.
pub open spec fn shifted_out(kind: Shift, value: u8) -> bool {
    match kind {
        Shift::Left | Shift::RotateLeft => value >= 0x80,
        Shift::Right | Shift::RotateRight => value % 2 == 1,
    }
}

/// ASL, LSR, ROL, ROR: shift the operand's byte; the carry takes the bit shifted out, the zero
/// and negative flags follow the result, which goes back to the accumulator for an immediate
/// operand and to memory for an address.
pub open spec fn shift_spec<T: MemoryIndexer>(
    i: Instruction,
    r: Registers,
    bus: T,
    kind: Shift,
) -> Execution<T> {
    match i.operand {
        None => missing_operand(r, bus),
        Some(operand) => {
            let (value, read_bus) = operand_byte(operand, bus);
            let result = shifted(kind, value, r.flag(Flag::Carry));
            let flagged = r.with_flag(Flag::Carry, shifted_out(kind, value)).with_flag(
                Flag::Zero,
                result == 0,
            ).with_flag(Flag::Negative, negative(result));
            match operand {
                Operand::Value(_) => Execution {
                    registers: Registers { accumulator: result, ..flagged },
                    bus: read_bus,
                    result: shift_cycles(i.addressing_mode),
                },
                Operand::Address(address) => Execution {
                    registers: flagged,
                    bus: read_bus.after_write(address, result),
                    result: shift_cycles(i.addressing_mode),
                },
            }
        },
    }
}

/// Computes a shift with its carry out.
fn shift_byte(kind: Shift, value: u8, carry: bool) -> (r: (u8, bool))
    ensures
        r.0 == shifted(kind, value, carry),
        r.1 == shifted_out(kind, value),
{
    let c: u8 = if carry { 1 } else { 0 };
    assert(value & 0x80 != 0 <==> value >= 0x80) by (bit_vector);
    assert(value & 1 != 0 <==> value % 2 == 1) by (bit_vector);
    match kind {
        Shift::Left => {
            assert(value << 1u8 == (2 * value) % 256) by (bit_vector);
            (value << 1u8, value & 0x80 != 0)
        },
        Shift::Right => {
            assert(value >> 1u8 == value / 2) by (bit_vector);
            (value >> 1u8, value & 1 != 0)
        },
        Shift::RotateLeft => {
            assert(c <= 1 ==> (value << 1u8) | c == (2 * value) % 256 + c) by (bit_vector);
            ((value << 1u8) | c, value & 0x80 != 0)
        },
        Shift::RotateRight => {
            assert(c <= 1 ==> (value >> 1u8) | (c << 7u8) == value / 2 + 128 * c) by (bit_vector);
            ((value >> 1u8) | (c << 7u8), value & 1 != 0)
        },
    }
}

impl InstructionSet {
    /// The shared body of ASL, LSR, ROL and ROR.
    fn shift<T: MemoryIndexer>(
        instruction: &Instruction,
        registers: &mut Registers,
        bus: &mut T,
        kind: Shift,
    ) -> (result: Result<u8, CpuError>)
        requires
            old(bus).inv(),
        ensures
            final(bus).inv(),
            (Execution { registers: *final(registers), bus: *final(bus), result }) == shift_spec(
                *instruction,
                *old(registers),
                *old(bus),
                kind,
            ),
    {
        let operand = match instruction.operand {
            Some(operand) => operand,
            None => return Err(CpuError::MissingOperand),
        };
        let operand_value = operand_value(operand, bus);

        let (result, carry) = shift_byte(kind, operand_value, registers.get_flag(Flag::Carry));

        registers.set_flag(Flag::Carry, carry);
        registers.set_flag(Flag::Zero, result == 0);
        registers.set_flag(Flag::Negative, result & 0x80 != 0);
        assert(result & 0x80 != 0 <==> result >= 0x80) by (bit_vector);

        match operand {
            Operand::Value(_) => registers.accumulator = result,
            Operand::Address(address) => bus.write_byte(address, result),
        }

        shift_cycle_count(instruction.addressing_mode)
    }

    pub fn asl<T: MemoryIndexer>(
        instruction: &Instruction,
        registers: &mut Registers,
        bus: &mut T,
    ) -> (result: Result<u8, CpuError>)
        requires
            old(bus).inv(),
        ensures
            final(bus).inv(),
            (Execution { registers: *final(registers), bus: *final(bus), result }) == shift_spec(
                *instruction,
                *old(registers),
                *old(bus),
                Shift::Left,
            ),
    {
        Self::shift(instruction, registers, bus, Shift::Left)
    }

    pub fn lsr<T: MemoryIndexer>(
        instruction: &Instruction,
        registers: &mut Registers,
        bus: &mut T,
    ) -> (result: Result<u8, CpuError>)
        requires
            old(bus).inv(),
        ensures
            final(bus).inv(),
            (Execution { registers: *final(registers), bus: *final(bus), result }) == shift_spec(
                *instruction,
                *old(registers),
                *old(bus),
                Shift::Right,
            ),
    {
        Self::shift(instruction, registers, bus, Shift::Right)
    }

    pub fn rol<T: MemoryIndexer>(
        instruction: &Instruction,
        registers: &mut Registers,
        bus: &mut T,
    ) -> (result: Result<u8, CpuError>)
        requires
            old(bus).inv(),
        ensures
            final(bus).inv(),
            (Execution { registers: *final(registers), bus: *final(bus), result }) == shift_spec(
                *instruction,
                *old(registers),
                *old(bus),
                Shift::RotateLeft,
            ),
    {
        Self::shift(instruction, registers, bus, Shift::RotateLeft)
    }

    pub fn ror<T: MemoryIndexer>(
        instruction: &Instruction,
        registers: &mut Registers,
        bus: &mut T,
    ) -> (result: Result<u8, CpuError>)
        requires
            old(bus).inv(),
        ensures
            final(bus).inv(),
            (Execution { registers: *final(registers), bus: *final(bus), result }) == shift_spec(
                *instruction,
                *old(registers),
                *old(bus),
                Shift::RotateRight,
            ),
    {
        Self::shift(instruction, registers, bus, Shift::RotateRight)
    }
}

} // verus!
