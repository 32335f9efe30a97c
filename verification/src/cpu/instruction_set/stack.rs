use vstd::prelude::*;
use crate::bus::MemoryIndexer;
use crate::cpu::registers::{Flag, Registers};
use crate::utils::math::is_negative;
use crate::utils::math::negative;
use crate::utils::testing::TestBus;
use crate::cpu::cpu_bus::CpuBus;
use super::{
    CpuError, Execution, Instruction, InstructionSet, stack_address, sp_pushed, sp_pulled,
    implicit_cycles, implicit_cycle_count, with_zero_negative,
};

verus! {

/// PHA: pushes the accumulator.
pub open spec fn pha_spec<T: MemoryIndexer>(i: Instruction, r: Registers, bus: T) -> Execution<T> {
    Execution {
        registers: Registers { stack_pointer: sp_pushed(r.stack_pointer), ..r },
        bus: bus.after_write(stack_address(r.stack_pointer), r.accumulator),
        result: implicit_cycles(i.addressing_mode, 3),
    }
}

/// PHP: pushes the status byte with bits 3 and 4 set.
pub open spec fn php_spec<T: MemoryIndexer>(i: Instruction, r: Registers, bus: T) -> Execution<T> {
    Execution {
        registers: Registers { stack_pointer: sp_pushed(r.stack_pointer), ..r },
        bus: bus.after_write(stack_address(r.stack_pointer), r.flags | 0b0001_1000),
        result: implicit_cycles(i.addressing_mode, 3),
    }
}

/// PLA: pulls the accumulator; zero and negative follow it.
pub open spec fn pla_spec<T: MemoryIndexer>(i: Instruction, r: Registers, bus: T) -> Execution<T> {
    let sp = sp_pulled(r.stack_pointer);
    let value = bus.read_value(stack_address(sp));
    Execution {
        registers: with_zero_negative(Registers { stack_pointer: sp, accumulator: value, ..r }, value),
        bus: bus.after_read(stack_address(sp)),
        result: implicit_cycles(i.addressing_mode, 4),
    }
}

/// PLP: pulls the status byte, bits 4 and 5 cleared.
pub open spec fn plp_spec<T: MemoryIndexer>(i: Instruction, r: Registers, bus: T) -> Execution<T> {
    let sp = sp_pulled(r.stack_pointer);
    Execution {
        registers: Registers {
            stack_pointer: sp,
            flags: bus.read_value(stack_address(sp)) & 0b1100_1111,
            ..r
        },
        bus: bus.after_read(stack_address(sp)),
        result: implicit_cycles(i.addressing_mode, 4),
    }
}

/// TSX: X takes the stack pointer; the negative flag follows it, then the zero flag.
pub open spec fn tsx_spec<T>(i: Instruction, r: Registers, bus: T) -> Execution<T> {
    Execution {
        registers: Registers { x: r.stack_pointer, ..r }.with_flag(
            Flag::Negative,
            negative(r.stack_pointer),
        ).with_flag(Flag::Zero, r.stack_pointer == 0),
        bus,
        result: implicit_cycles(i.addressing_mode, 2),
    }
}

/// TXS: the stack pointer takes X; no flag changes.
pub open spec fn txs_spec<T>(i: Instruction, r: Registers, bus: T) -> Execution<T> {
    Execution {
        registers: Registers { stack_pointer: r.x, ..r },
        bus,
        result: implicit_cycles(i.addressing_mode, 2),
    }
}

impl InstructionSet {
    pub fn pha<T: MemoryIndexer>(
        instruction: &Instruction,
        registers: &mut Registers,
        bus: &mut T,
    ) -> (result: Result<u8, CpuError>)
        requires
            old(bus).inv(),
        ensures
            final(bus).inv(),
            (Execution { registers: *final(registers), bus: *final(bus), result }) == pha_spec(
                *instruction,
                *old(registers),
                *old(bus),
            ),
    {
        let accumulator = registers.accumulator;
        Self::push(registers, bus, accumulator);

        implicit_cycle_count(instruction.addressing_mode, 3)
    }

    pub fn php<T: MemoryIndexer>(
        instruction: &Instruction,
        registers: &mut Registers,
        bus: &mut T,
    ) -> (result: Result<u8, CpuError>)
        requires
            old(bus).inv(),
        ensures
            final(bus).inv(),
            (Execution { registers: *final(registers), bus: *final(bus), result }) == php_spec(
                *instruction,
                *old(registers),
                *old(bus),
            ),
    {
        let flags = registers.flags | 0b0001_1000;
        Self::push(registers, bus, flags);

        implicit_cycle_count(instruction.addressing_mode, 3)
    }

    pub fn pla<T: MemoryIndexer>(
        instruction: &Instruction,
        registers: &mut Registers,
        bus: &mut T,
    ) -> (result: Result<u8, CpuError>)
        requires
            old(bus).inv(),
        ensures
            final(bus).inv(),
            (Execution { registers: *final(registers), bus: *final(bus), result }) == pla_spec(
                *instruction,
                *old(registers),
                *old(bus),
            ),
    {
        registers.accumulator = Self::pull(registers, bus);

        registers.set_flag(Flag::Zero, registers.accumulator == 0);
        registers.set_flag(Flag::Negative, is_negative(registers.accumulator));

        implicit_cycle_count(instruction.addressing_mode, 4)
    }

    pub fn plp<T: MemoryIndexer>(
        instruction: &Instruction,
        registers: &mut Registers,
        bus: &mut T,
    ) -> (result: Result<u8, CpuError>)
        requires
            old(bus).inv(),
        ensures
            final(bus).inv(),
            (Execution { registers: *final(registers), bus: *final(bus), result }) == plp_spec(
                *instruction,
                *old(registers),
                *old(bus),
            ),
    {
        let value = Self::pull(registers, bus);

        registers.flags = value & 0b1100_1111;

        implicit_cycle_count(instruction.addressing_mode, 4)
    }

    pub fn tsx<T: MemoryIndexer>(
        instruction: &Instruction,
        registers: &mut Registers,
        bus: &mut T,
    ) -> (result: Result<u8, CpuError>)
        requires
            old(bus).inv(),
        ensures
            final(bus).inv(),
            (Execution { registers: *final(registers), bus: *final(bus), result }) == tsx_spec(
                *instruction,
                *old(registers),
                *old(bus),
            ),
    {
        registers.x = registers.stack_pointer;

        registers.set_flag(Flag::Negative, is_negative(registers.x));
        registers.set_flag(Flag::Zero, registers.stack_pointer == 0);

        implicit_cycle_count(instruction.addressing_mode, 2)
    }

    pub fn txs<T: MemoryIndexer>(
        instruction: &Instruction,
        registers: &mut Registers,
        bus: &mut T,
    ) -> (result: Result<u8, CpuError>)
        requires
            old(bus).inv(),
        ensures
            final(bus).inv(),
            (Execution { registers: *final(registers), bus: *final(bus), result }) == txs_spec(
                *instruction,
                *old(registers),
                *old(bus),
            ),
    {
        registers.stack_pointer = registers.x;

        implicit_cycle_count(instruction.addressing_mode, 2)
    }
}


/// On a plain memory, PLA after PHA gives the accumulator back and leaves the stack pointer
/// where it was.
pub proof fn lemma_pha_then_pla(r: Registers, bus: TestBus, push: Instruction, pull: Instruction)
    ensures
        ({
            let pushed = pha_spec(push, r, bus);
            let pulled = pla_spec(pull, pushed.registers, pushed.bus);
            &&& pulled.registers.accumulator == r.accumulator
            &&& pulled.registers.stack_pointer == r.stack_pointer
            &&& pulled.registers.x == r.x
            &&& pulled.registers.y == r.y
            &&& pulled.registers.program_counter == r.program_counter
        }),
{
    assert(sp_pulled(sp_pushed(r.stack_pointer)) == r.stack_pointer);
}

/// On a plain memory, PLP after PHP gives back the status byte with bits 4 and 5 cleared and
/// bit 3 set (PHP pushes bits 3 and 4 set, PLP drops bits 4 and 5), and leaves the stack pointer
/// where it was.
pub proof fn lemma_php_then_plp(r: Registers, bus: TestBus, push: Instruction, pull: Instruction)
    ensures
        ({
            let pushed = php_spec(push, r, bus);
            let pulled = plp_spec(pull, pushed.registers, pushed.bus);
            &&& pulled.registers.flags == (r.flags & 0b1100_0111) | 0b0000_1000
            &&& pulled.registers.stack_pointer == r.stack_pointer
            &&& pulled.registers.accumulator == r.accumulator
        }),
{
    assert(sp_pulled(sp_pushed(r.stack_pointer)) == r.stack_pointer);
    let f = r.flags;
    assert((f | 0b0001_1000) & 0b1100_1111 == (f & 0b1100_0111) | 0b0000_1000) by (bit_vector);
}

/// On the console's bus, whose stack page is RAM, PLA after PHA gives the accumulator back and
/// leaves the stack pointer where it was.
pub proof fn lemma_pha_then_pla_on_cpu_bus(
    r: Registers,
    bus: CpuBus,
    push: Instruction,
    pull: Instruction,
)
    ensures
        ({
            let pushed = pha_spec(push, r, bus);
            let pulled = pla_spec(pull, pushed.registers, pushed.bus);
            &&& pulled.registers.accumulator == r.accumulator
            &&& pulled.registers.stack_pointer == r.stack_pointer
            &&& pulled.registers.x == r.x
            &&& pulled.registers.y == r.y
            &&& pulled.registers.program_counter == r.program_counter
        }),
{
    assert(sp_pulled(sp_pushed(r.stack_pointer)) == r.stack_pointer);
}

/// On the console's bus, PLP after PHP gives back the status byte with bits 4 and 5 cleared
/// and bit 3 set, and leaves the stack pointer where it was.
pub proof fn lemma_php_then_plp_on_cpu_bus(
    r: Registers,
    bus: CpuBus,
    push: Instruction,
    pull: Instruction,
)
    ensures
        ({
            let pushed = php_spec(push, r, bus);
            let pulled = plp_spec(pull, pushed.registers, pushed.bus);
            &&& pulled.registers.flags == (r.flags & 0b1100_0111) | 0b0000_1000
            &&& pulled.registers.stack_pointer == r.stack_pointer
            &&& pulled.registers.accumulator == r.accumulator
        }),
{
    assert(sp_pulled(sp_pushed(r.stack_pointer)) == r.stack_pointer);
    let f = r.flags;
    assert((f | 0b0001_1000) & 0b1100_1111 == (f & 0b1100_0111) | 0b0000_1000) by (bit_vector);
}

} // verus!
