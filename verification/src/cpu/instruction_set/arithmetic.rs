use vstd::prelude::*;
use crate::bus::MemoryIndexer;
use crate::cpu::registers::{Flag, Registers, lemma_set_flag_then_get};
use crate::cpu::signed;
use crate::utils::math::{is_negative, negative};
use super::access::{Target, register_value, with_register};
use super::{
    CpuError, Execution, Instruction, InstructionSet, Operand, missing_operand, invalid_operand,
    operand_byte, operand_value, read_cycles, read_cycle_count, with_zero_negative,
    modify_cycles, modify_cycle_count,
};

verus! {

/// ADC: adds the operand and the carry to the accumulator.
pub open spec fn adc_spec<T: MemoryIndexer>(i: Instruction, r: Registers, bus: T) -> Execution<T> {
    match i.operand {
        None => missing_operand(r, bus),
        Some(operand) => {
            let (value, bus) = operand_byte(operand, bus);
            let sum = r.accumulator + value + (if r.flag(Flag::Carry) { 1int } else { 0int });
            let result = (sum % 256) as u8;
            let flagged = r.with_flag(Flag::Carry, sum > 0xFF).with_flag(Flag::Zero, result == 0)
                .with_flag(Flag::Negative, negative(result)).with_flag(
                Flag::Overflow,
                (result ^ r.accumulator) & (result ^ value) & 0x80 != 0,
            );
            Execution {
                registers: Registers { accumulator: result, ..flagged },
                bus,
                result: read_cycles(i.addressing_mode),
            }
        },
    }
}

impl InstructionSet {
    pub fn adc<T: MemoryIndexer>(
        instruction: &Instruction,
        registers: &mut Registers,
        bus: &mut T,
    ) -> (result: Result<u8, CpuError>)
        requires
            old(bus).inv(),
        ensures
            final(bus).inv(),
            (Execution { registers: *final(registers), bus: *final(bus), result }) == adc_spec(
                *instruction,
                *old(registers),
                *old(bus),
            ),
    {
        let operand = match instruction.operand {
            Some(operand) => operand,
            None => return Err(CpuError::MissingOperand),
        };
        let value = operand_value(operand, bus);

        let a = registers.accumulator as u16;
        let carry_in: u16 = if registers.get_flag(Flag::Carry) { 1 } else { 0 };
        let sum = a + value as u16 + carry_in;
        let carry = sum > 0xFF;
        let result = (sum % 256) as u8;

        registers.set_flag(Flag::Carry, carry);
        registers.set_flag(Flag::Zero, result == 0);
        registers.set_flag(Flag::Negative, is_negative(result));
        registers.set_flag(Flag::Overflow, (result ^ (a as u8)) & (result ^ value) & 0x80 != 0);
        registers.accumulator = result;

        read_cycle_count(instruction.addressing_mode)
    }
}


/// SBC: subtracts the operand and the borrow (the clear carry) from the accumulator, which is
/// ADC with the operand's bits inverted.
pub open spec fn sbc_spec<T: MemoryIndexer>(i: Instruction, r: Registers, bus: T) -> Execution<T> {
    match i.operand {
        None => missing_operand(r, bus),
        Some(operand) => {
            let (value, bus) = operand_byte(operand, bus);
            let inverted = (255 - value) as u8;
            let sum = r.accumulator + inverted + (if r.flag(Flag::Carry) { 1int } else { 0int });
            let result = (sum % 256) as u8;
            let flagged = r.with_flag(Flag::Carry, sum > 0xFF).with_flag(Flag::Zero, result == 0)
                .with_flag(Flag::Negative, negative(result)).with_flag(
                Flag::Overflow,
                (result ^ r.accumulator) & (result ^ inverted) & 0x80 != 0,
            );
            Execution {
                registers: Registers { accumulator: result, ..flagged },
                bus,
                result: read_cycles(i.addressing_mode),
            }
        },
    }
}

/// DEC and INC: read the byte at the operand's address, add `delta` modulo 256, set the zero
/// and negative flags from the result and write it back.
pub open spec fn step_memory_spec<T: MemoryIndexer>(
    i: Instruction,
    r: Registers,
    bus: T,
    delta: int,
) -> Execution<T> {
    match i.operand {
        None => missing_operand(r, bus),
        Some(Operand::Value(_)) => invalid_operand(r, bus),
        Some(Operand::Address(address)) => {
            let result = ((bus.read_value(address) + delta) % 256) as u8;
            Execution {
                registers: with_zero_negative(r, result),
                bus: bus.after_read(address).after_write(address, result),
                result: modify_cycles(i.addressing_mode),
            }
        },
    }
}

/// INX, DEX, INY, DEY: the register after adding `delta` modulo 256.
pub open spec fn stepped(value: u8, delta: int) -> u8 {
    ((value + delta) % 256) as u8
}

/// INX, DEX, INY, DEY: `target` steps by `delta` modulo 256, the zero and negative flags
/// follow it, and the instruction takes 2 cycles whatever its addressing mode.
pub open spec fn register_step_spec<T>(r: Registers, bus: T, target: Target, delta: int) -> Execution<T> {
    let value = stepped(register_value(r, target), delta);
    Execution {
        registers: with_register(with_zero_negative(r, value), target, value),
        bus,
        result: Ok(2),
    }
}

impl InstructionSet {
    pub fn sbc<T: MemoryIndexer>(
        instruction: &Instruction,
        registers: &mut Registers,
        bus: &mut T,
    ) -> (result: Result<u8, CpuError>)
        requires
            old(bus).inv(),
        ensures
            final(bus).inv(),
            (Execution { registers: *final(registers), bus: *final(bus), result }) == sbc_spec(
                *instruction,
                *old(registers),
                *old(bus),
            ),
    {
        let operand = match instruction.operand {
            Some(operand) => operand,
            None => return Err(CpuError::MissingOperand),
        };
        let value = operand_value(operand, bus);
        let inverted = 255 - value;

        let a = registers.accumulator as u16;
        let carry_in: u16 = if registers.get_flag(Flag::Carry) { 1 } else { 0 };
        let sum = a + inverted as u16 + carry_in;
        let carry = sum > 0xFF;
        let result = (sum % 256) as u8;

        registers.set_flag(Flag::Carry, carry);
        registers.set_flag(Flag::Zero, result == 0);
        registers.set_flag(Flag::Negative, is_negative(result));
        registers.set_flag(Flag::Overflow, (result ^ (a as u8)) & (result ^ inverted) & 0x80 != 0);
        registers.accumulator = result;

        read_cycle_count(instruction.addressing_mode)
    }

    pub fn dec<T: MemoryIndexer>(
        instruction: &Instruction,
        registers: &mut Registers,
        bus: &mut T,
    ) -> (result: Result<u8, CpuError>)
        requires
            old(bus).inv(),
        ensures
            final(bus).inv(),
            (Execution { registers: *final(registers), bus: *final(bus), result })
                == step_memory_spec(*instruction, *old(registers), *old(bus), -1),
    {
        let operand = match instruction.operand {
            Some(operand) => operand,
            None => return Err(CpuError::MissingOperand),
        };
        let (address, operand_value) = match operand {
            Operand::Address(address) => (address, bus.read_byte(address)),
            Operand::Value(_) => return Err(CpuError::InvalidOperand),
        };

        let result = operand_value.wrapping_sub(1);

        registers.set_flag(Flag::Zero, result == 0);
        registers.set_flag(Flag::Negative, is_negative(result));

        bus.write_byte(address, result);

        modify_cycle_count(instruction.addressing_mode)
    }

    pub fn inc<T: MemoryIndexer>(
        instruction: &Instruction,
        registers: &mut Registers,
        bus: &mut T,
    ) -> (result: Result<u8, CpuError>)
        requires
            old(bus).inv(),
        ensures
            final(bus).inv(),
            (Execution { registers: *final(registers), bus: *final(bus), result })
                == step_memory_spec(*instruction, *old(registers), *old(bus), 1),
    {
        let operand = match instruction.operand {
            Some(operand) => operand,
            None => return Err(CpuError::MissingOperand),
        };
        let (address, operand_value) = match operand {
            Operand::Address(address) => (address, bus.read_byte(address)),
            Operand::Value(_) => return Err(CpuError::InvalidOperand),
        };

        let result = operand_value.wrapping_add(1);

        registers.set_flag(Flag::Zero, result == 0);
        registers.set_flag(Flag::Negative, is_negative(result));

        bus.write_byte(address, result);

        modify_cycle_count(instruction.addressing_mode)
    }

    /// DEY: decrements Y; it takes 2 cycles whatever the addressing mode.
    pub fn dey<T: MemoryIndexer>(
        instruction: &Instruction,
        registers: &mut Registers,
        bus: &mut T,
    ) -> (result: Result<u8, CpuError>)
        requires
            old(bus).inv(),
        ensures
            final(bus).inv(),
            (Execution { registers: *final(registers), bus: *final(bus), result })
                == register_step_spec(*old(registers), *old(bus), Target::Y, -1),
    {
        let result = registers.y.wrapping_sub(1);

        registers.set_flag(Flag::Zero, result == 0);
        registers.set_flag(Flag::Negative, is_negative(result));

        registers.y = result;

        Ok(2)
    }

    /// INY: increments Y; it takes 2 cycles whatever the addressing mode.
    pub fn iny<T: MemoryIndexer>(
        instruction: &Instruction,
        registers: &mut Registers,
        bus: &mut T,
    ) -> (result: Result<u8, CpuError>)
        requires
            old(bus).inv(),
        ensures
            final(bus).inv(),
            (Execution { registers: *final(registers), bus: *final(bus), result })
                == register_step_spec(*old(registers), *old(bus), Target::Y, 1),
    {
        let result = registers.y.wrapping_add(1);

        registers.set_flag(Flag::Zero, result == 0);
        registers.set_flag(Flag::Negative, is_negative(result));

        registers.y = result;

        Ok(2)
    }

    /// DEX: decrements X; it takes 2 cycles whatever the addressing mode.
    pub fn dex<T: MemoryIndexer>(
        instruction: &Instruction,
        registers: &mut Registers,
        bus: &mut T,
    ) -> (result: Result<u8, CpuError>)
        requires
            old(bus).inv(),
        ensures
            final(bus).inv(),
            (Execution { registers: *final(registers), bus: *final(bus), result })
                == register_step_spec(*old(registers), *old(bus), Target::X, -1),
    {
        let result = registers.x.wrapping_sub(1);

        registers.set_flag(Flag::Zero, result == 0);
        registers.set_flag(Flag::Negative, is_negative(result));

        registers.x = result;

        Ok(2)
    }

    /// INX: increments X; it takes 2 cycles whatever the addressing mode.
    pub fn inx<T: MemoryIndexer>(
        instruction: &Instruction,
        registers: &mut Registers,
        bus: &mut T,
    ) -> (result: Result<u8, CpuError>)
        requires
            old(bus).inv(),
        ensures
            final(bus).inv(),
            (Execution { registers: *final(registers), bus: *final(bus), result })
                == register_step_spec(*old(registers), *old(bus), Target::X, 1),
    {
        let result = registers.x.wrapping_add(1);

        registers.set_flag(Flag::Zero, result == 0);
        registers.set_flag(Flag::Negative, is_negative(result));

        registers.x = result;

        Ok(2)
    }
}

/// The byte that an operand gives: the value itself, or the byte read at its address.
pub open spec fn operand_given<T: MemoryIndexer>(operand: Operand, bus: T) -> u8 {
    match operand {
        Operand::Value(value) => value,
        Operand::Address(address) => bus.read_value(address),
    }
}

/// The 8-bit sum `a + m + c` leaves the signed byte range exactly when the sign bit of the
/// result differs from that of both addends.
proof fn lemma_signed_overflow(a: u8, m: u8, c: u8)
    requires
        c <= 1,
    ensures
        ({
            let result = ((a + m + c) % 256) as u8;
            ((result ^ a) & (result ^ m) & 0x80 != 0) == !(-128 <= signed(a) + signed(m) + c
                <= 127)
        }),
{
    let result = ((a + m + c) % 256) as u8;
    assert(((result ^ a) & (result ^ m) & 0x80 != 0) == ((a < 128 && m < 128 && a + m + c >= 128)
        || (a >= 128 && m >= 128 && a + m + c < 384))) by (bit_vector)
        requires
            c <= 1,
            result == ((a + m + c) % 256) as u8,
    ;
}

/// The four flags that an addition sets, read back after the chain of updates.
proof fn lemma_sum_flags(r: Registers, carry: bool, zero: bool, negative: bool, overflow: bool)
    ensures
        ({
            let f = r.with_flag(Flag::Carry, carry).with_flag(Flag::Zero, zero).with_flag(
                Flag::Negative,
                negative,
            ).with_flag(Flag::Overflow, overflow);
            &&& f.flag(Flag::Carry) == carry
            &&& f.flag(Flag::Zero) == zero
            &&& f.flag(Flag::Negative) == negative
            &&& f.flag(Flag::Overflow) == overflow
        }),
{
    let r1 = r.with_flag(Flag::Carry, carry);
    let r2 = r1.with_flag(Flag::Zero, zero);
    let r3 = r2.with_flag(Flag::Negative, negative);
    lemma_set_flag_then_get(r, Flag::Carry, carry, Flag::Carry);
    lemma_set_flag_then_get(r1, Flag::Zero, zero, Flag::Carry);
    lemma_set_flag_then_get(r1, Flag::Zero, zero, Flag::Zero);
    lemma_set_flag_then_get(r2, Flag::Negative, negative, Flag::Carry);
    lemma_set_flag_then_get(r2, Flag::Negative, negative, Flag::Zero);
    lemma_set_flag_then_get(r2, Flag::Negative, negative, Flag::Negative);
    lemma_set_flag_then_get(r3, Flag::Overflow, overflow, Flag::Carry);
    lemma_set_flag_then_get(r3, Flag::Overflow, overflow, Flag::Zero);
    lemma_set_flag_then_get(r3, Flag::Overflow, overflow, Flag::Negative);
    lemma_set_flag_then_get(r3, Flag::Overflow, overflow, Flag::Overflow);
}

/// ADC adds the operand's byte and the carry to the accumulator, modulo 256; the carry is set
/// exactly when the unsigned sum passes 255, the overflow exactly when the signed sum leaves
/// -128..127, and zero and negative follow the result.
pub proof fn lemma_adc_adds_with_carry<T: MemoryIndexer>(i: Instruction, r: Registers, bus: T)
    requires
        i.operand is Some,
    ensures
        ({
            let m = operand_given(i.operand.unwrap(), bus);
            let c: int = if r.flag(Flag::Carry) { 1 } else { 0 };
            let after = adc_spec(i, r, bus).registers;
            &&& after.accumulator == (r.accumulator + m + c) % 256
            &&& after.flag(Flag::Carry) == (r.accumulator + m + c > 255)
            &&& after.flag(Flag::Overflow) == !(-128 <= signed(r.accumulator) + signed(m) + c
                <= 127)
            &&& after.flag(Flag::Zero) == (after.accumulator == 0)
            &&& after.flag(Flag::Negative) == (after.accumulator >= 128)
            &&& after.x == r.x && after.y == r.y && after.stack_pointer == r.stack_pointer
            &&& after.program_counter == r.program_counter
        }),
{
    let m = operand_given(i.operand.unwrap(), bus);
    let c: u8 = if r.flag(Flag::Carry) { 1 } else { 0 };
    let a = r.accumulator;
    let sum = a + m + c;
    let result = (sum % 256) as u8;
    lemma_signed_overflow(a, m, c);
    lemma_sum_flags(
        r,
        sum > 0xFF,
        result == 0,
        negative(result),
        (result ^ a) & (result ^ m) & 0x80 != 0,
    );
}

/// SBC subtracts the operand's byte and the borrow (the clear carry) from the accumulator,
/// modulo 256; the carry is set exactly when no borrow was needed, the overflow exactly when the
/// signed difference leaves -128..127, and zero and negative follow the result.
pub proof fn lemma_sbc_subtracts_with_borrow<T: MemoryIndexer>(
    i: Instruction,
    r: Registers,
    bus: T,
)
    requires
        i.operand is Some,
    ensures
        ({
            let m = operand_given(i.operand.unwrap(), bus);
            let borrow: int = if r.flag(Flag::Carry) { 0 } else { 1 };
            let difference = r.accumulator - m - borrow;
            let after = sbc_spec(i, r, bus).registers;
            &&& after.accumulator == difference % 256
            &&& after.flag(Flag::Carry) == (difference >= 0)
            &&& after.flag(Flag::Overflow) == !(-128 <= signed(r.accumulator) - signed(m) - borrow
                <= 127)
            &&& after.flag(Flag::Zero) == (after.accumulator == 0)
            &&& after.flag(Flag::Negative) == (after.accumulator >= 128)
            &&& after.x == r.x && after.y == r.y && after.stack_pointer == r.stack_pointer
            &&& after.program_counter == r.program_counter
        }),
{
    let m = operand_given(i.operand.unwrap(), bus);
    let inverted = (255 - m) as u8;
    let c: u8 = if r.flag(Flag::Carry) { 1 } else { 0 };
    let a = r.accumulator;
    let sum = a + inverted + c;
    let result = (sum % 256) as u8;
    lemma_signed_overflow(a, inverted, c);
    assert(signed(inverted) == -signed(m) - 1);
    assert((a - m - (1 - c)) % 256 == sum % 256);
    lemma_sum_flags(
        r,
        sum > 0xFF,
        result == 0,
        negative(result),
        (result ^ a) & (result ^ inverted) & 0x80 != 0,
    );
}

} // verus!
