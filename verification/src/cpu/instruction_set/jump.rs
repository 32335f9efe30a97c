use vstd::prelude::*;
use crate::cpu::cpu_bus::CpuBus;
use crate::bus::MemoryIndexer;
use crate::cpu::IRQ_VECTOR;
use crate::cpu::registers::Registers;
use crate::utils::testing::TestBus;
use super::{
    AddressingMode, CpuError, Execution, Instruction, InstructionSet, Operand, missing_operand,
    invalid_operand, stack_address, sp_pushed, sp_pulled, implicit_cycles, implicit_cycle_count,
};

verus! {

/// The low byte of a word.
pub open spec fn low_byte(word: u16) -> u8 {
    (word % 256) as u8
}

/// The high byte of a word.
pub open spec fn high_byte(word: u16) -> u8 {
    (word / 256) as u8
}

/// The word made of two bytes.
pub open spec fn word(low: u8, high: u8) -> u16 {
    (high * 256 + low) as u16
}

/// The bus after the program counter was pushed, high byte first, at the stack pointer `sp`.
pub open spec fn push_word<T: MemoryIndexer>(bus: T, sp: u8, value: u16) -> T {
    bus.after_write(stack_address(sp), high_byte(value)).after_write(
        stack_address(sp_pushed(sp)),
        low_byte(value),
    )
}

/// Cycles of JMP.
pub open spec fn jmp_cycles(mode: AddressingMode) -> Result<u8, CpuError> {
    match mode {
        AddressingMode::Absolute => Ok(3),
        AddressingMode::Indirect => Ok(5),
        _ => Err(CpuError::InvalidAddressingMode),
    }
}

/// Cycles of JSR.
pub open spec fn jsr_cycles(mode: AddressingMode) -> Result<u8, CpuError> {
    match mode {
        AddressingMode::Absolute => Ok(6),
        _ => Err(CpuError::InvalidAddressingMode),
    }
}

/// Cycles of BRK.
pub open spec fn brk_cycles(mode: AddressingMode) -> Result<u8, CpuError> {
    match mode {
        AddressingMode::Implicit => Ok(7),
        AddressingMode::Immediate => Ok(7),
        _ => Err(CpuError::InvalidAddressingMode),
    }
}

/// JMP: the program counter takes the operand's address.
pub open spec fn jmp_spec<T>(i: Instruction, r: Registers, bus: T) -> Execution<T> {
    match i.operand {
        None => missing_operand(r, bus),
        Some(Operand::Value(_)) => invalid_operand(r, bus),
        Some(Operand::Address(target)) => Execution {
            registers: Registers { program_counter: target, ..r },
            bus,
            result: jmp_cycles(i.addressing_mode),
        },
    }
}

/// JSR: pushes the program counter, high byte first, and jumps to the operand's address.
pub open spec fn jsr_spec<T: MemoryIndexer>(i: Instruction, r: Registers, bus: T) -> Execution<T> {
    match i.operand {
        None => missing_operand(r, bus),
        Some(Operand::Value(_)) => invalid_operand(r, bus),
        Some(Operand::Address(target)) => Execution {
            registers: Registers {
                program_counter: target,
                stack_pointer: sp_pushed(sp_pushed(r.stack_pointer)),
                ..r
            },
            bus: push_word(bus, r.stack_pointer, r.program_counter),
            result: jsr_cycles(i.addressing_mode),
        },
    }
}

/// RTS: pulls the low and then the high byte of the return address, and continues one byte
/// after it.
pub open spec fn rts_spec<T: MemoryIndexer>(i: Instruction, r: Registers, bus: T) -> Execution<T> {
    let sp1 = sp_pulled(r.stack_pointer);
    let low = bus.read_value(stack_address(sp1));
    let bus1 = bus.after_read(stack_address(sp1));
    let sp2 = sp_pulled(sp1);
    let high = bus1.read_value(stack_address(sp2));
    Execution {
        registers: Registers {
            program_counter: ((word(low, high) + 1) % 0x10000) as u16,
            stack_pointer: sp2,
            ..r
        },
        bus: bus1.after_read(stack_address(sp2)),
        result: implicit_cycles(i.addressing_mode, 6),
    }
}

/// BRK: pushes the program counter (high byte first) and the status byte with bits 4 and 5
/// set, and jumps to the interrupt vector's address.
pub open spec fn brk_spec<T: MemoryIndexer>(i: Instruction, r: Registers, bus: T) -> Execution<T> {
    let sp = r.stack_pointer;
    Execution {
        registers: Registers {
            program_counter: IRQ_VECTOR,
            stack_pointer: sp_pushed(sp_pushed(sp_pushed(sp))),
            ..r
        },
        bus: push_word(bus, sp, r.program_counter).after_write(
            stack_address(sp_pushed(sp_pushed(sp))),
            r.flags | 0b0011_0000,
        ),
        result: brk_cycles(i.addressing_mode),
    }
}

/// RTI: pulls the status byte (bits 4 and 5 cleared), then the low and the high byte of the
/// program counter.
pub open spec fn rti_spec<T: MemoryIndexer>(i: Instruction, r: Registers, bus: T) -> Execution<T> {
    let sp1 = sp_pulled(r.stack_pointer);
    let flags = bus.read_value(stack_address(sp1));
    let bus1 = bus.after_read(stack_address(sp1));
    let sp2 = sp_pulled(sp1);
    let low = bus1.read_value(stack_address(sp2));
    let bus2 = bus1.after_read(stack_address(sp2));
    let sp3 = sp_pulled(sp2);
    let high = bus2.read_value(stack_address(sp3));
    Execution {
        registers: Registers {
            flags: flags & 0b1100_1111,
            program_counter: word(low, high),
            stack_pointer: sp3,
            ..r
        },
        bus: bus2.after_read(stack_address(sp3)),
        result: implicit_cycles(i.addressing_mode, 6),
    }
}

impl InstructionSet {
    /// Pushes one byte at the stack pointer and moves it down.
    pub(crate) fn push<T: MemoryIndexer>(registers: &mut Registers, bus: &mut T, value: u8)
        requires
            old(bus).inv(),
        ensures
            final(bus).inv(),
            *final(bus) == old(bus).after_write(stack_address(old(registers).stack_pointer), value),
            *final(registers) == (Registers {
                stack_pointer: sp_pushed(old(registers).stack_pointer),
                ..*old(registers)
            }),
    {
        bus.write_byte(registers.stack_pointer as u16 + 0x0100, value);
        registers.decrement_stack_pointer(1);
    }

    /// Moves the stack pointer up and reads the byte it then designates.
    pub(crate) fn pull<T: MemoryIndexer>(registers: &mut Registers, bus: &mut T) -> (value: u8)
        requires
            old(bus).inv(),
        ensures
            final(bus).inv(),
            value == old(bus).read_value(stack_address(sp_pulled(old(registers).stack_pointer))),
            *final(bus) == old(bus).after_read(stack_address(sp_pulled(old(registers).stack_pointer))),
            *final(registers) == (Registers {
                stack_pointer: sp_pulled(old(registers).stack_pointer),
                ..*old(registers)
            }),
    {
        registers.increment_stack_pointer(1);
        bus.read_byte(registers.stack_pointer as u16 + 0x0100)
    }

    pub fn jmp<T: MemoryIndexer>(
        instruction: &Instruction,
        registers: &mut Registers,
        bus: &mut T,
    ) -> (result: Result<u8, CpuError>)
        requires
            old(bus).inv(),
        ensures
            final(bus).inv(),
            (Execution { registers: *final(registers), bus: *final(bus), result }) == jmp_spec(
                *instruction,
                *old(registers),
                *old(bus),
            ),
    {
        let operand_value = match instruction.operand {
            Some(Operand::Address(address)) => address,
            Some(Operand::Value(_)) => return Err(CpuError::InvalidOperand),
            None => return Err(CpuError::MissingOperand),
        };

        registers.program_counter = operand_value;

        match instruction.addressing_mode {
            AddressingMode::Absolute => Ok(3),
            AddressingMode::Indirect => Ok(5),
            _ => Err(CpuError::InvalidAddressingMode),
        }
    }

    pub fn jsr<T: MemoryIndexer>(
        instruction: &Instruction,
        registers: &mut Registers,
        bus: &mut T,
    ) -> (result: Result<u8, CpuError>)
        requires
            old(bus).inv(),
        ensures
            final(bus).inv(),
            (Execution { registers: *final(registers), bus: *final(bus), result }) == jsr_spec(
                *instruction,
                *old(registers),
                *old(bus),
            ),
    {
        let operand_value = match instruction.operand {
            Some(Operand::Address(address)) => address,
            Some(Operand::Value(_)) => return Err(CpuError::InvalidOperand),
            None => return Err(CpuError::MissingOperand),
        };

        let program_counter_low = (registers.program_counter % 256) as u8;
        let program_counter_high = (registers.program_counter / 256) as u8;
        Self::push(registers, bus, program_counter_high);
        Self::push(registers, bus, program_counter_low);

        registers.program_counter = operand_value;

        match instruction.addressing_mode {
            AddressingMode::Absolute => Ok(6),
            _ => Err(CpuError::InvalidAddressingMode),
        }
    }

    pub fn rts<T: MemoryIndexer>(
        instruction: &Instruction,
        registers: &mut Registers,
        bus: &mut T,
    ) -> (result: Result<u8, CpuError>)
        requires
            old(bus).inv(),
        ensures
            final(bus).inv(),
            (Execution { registers: *final(registers), bus: *final(bus), result }) == rts_spec(
                *instruction,
                *old(registers),
                *old(bus),
            ),
    {
        let program_counter_low = Self::pull(registers, bus);
        let program_counter_high = Self::pull(registers, bus);

        let target = (program_counter_high as u16) * 256 + program_counter_low as u16;
        registers.program_counter = target.wrapping_add(1);

        implicit_cycle_count(instruction.addressing_mode, 6)
    }

    pub fn brk<T: MemoryIndexer>(
        instruction: &Instruction,
        registers: &mut Registers,
        bus: &mut T,
    ) -> (result: Result<u8, CpuError>)
        requires
            old(bus).inv(),
        ensures
            final(bus).inv(),
            (Execution { registers: *final(registers), bus: *final(bus), result }) == brk_spec(
                *instruction,
                *old(registers),
                *old(bus),
            ),
    {
        let program_counter_low = (registers.program_counter % 256) as u8;
        let program_counter_high = (registers.program_counter / 256) as u8;
        Self::push(registers, bus, program_counter_high);
        Self::push(registers, bus, program_counter_low);
        let flags = registers.flags | 0b0011_0000;
        Self::push(registers, bus, flags);

        registers.program_counter = IRQ_VECTOR;

        match instruction.addressing_mode {
            AddressingMode::Implicit => Ok(7),
            AddressingMode::Immediate => Ok(7),
            _ => Err(CpuError::InvalidAddressingMode),
        }
    }

    pub fn rti<T: MemoryIndexer>(
        instruction: &Instruction,
        registers: &mut Registers,
        bus: &mut T,
    ) -> (result: Result<u8, CpuError>)
        requires
            old(bus).inv(),
        ensures
            final(bus).inv(),
            (Execution { registers: *final(registers), bus: *final(bus), result }) == rti_spec(
                *instruction,
                *old(registers),
                *old(bus),
            ),
    {
        let flags = Self::pull(registers, bus);
        registers.flags = flags & 0b1100_1111;
        let program_counter_low = Self::pull(registers, bus);
        let program_counter_high = Self::pull(registers, bus);

        registers.program_counter = (program_counter_high as u16) * 256 + program_counter_low as u16;

        implicit_cycle_count(instruction.addressing_mode, 6)
    }
}


/// On a plain memory, RTS after JSR comes back to the address after the one JSR pushed, with
/// the stack pointer and every other register as before the call.
pub proof fn lemma_jsr_then_rts(
    r: Registers,
    bus: TestBus,
    target: u16,
    call: Instruction,
    ret: Instruction,
)
    requires
        call.operand == Some(Operand::Address(target)),
        call.addressing_mode == AddressingMode::Absolute,
        ret.addressing_mode == AddressingMode::Implicit,
    ensures
        ({
            let called = jsr_spec(call, r, bus);
            let returned = rts_spec(ret, called.registers, called.bus);
            &&& called.registers.program_counter == target
            &&& called.result == Ok::<u8, CpuError>(6)
            &&& returned.result == Ok::<u8, CpuError>(6)
            &&& returned.registers == (Registers {
                program_counter: ((r.program_counter + 1) % 0x10000) as u16,
                ..r
            })
        }),
{
    let sp = r.stack_pointer;
    let sp1 = sp_pushed(sp);
    let sp2 = sp_pushed(sp1);
    assert(sp_pulled(sp2) == sp1);
    assert(sp_pulled(sp1) == sp);
    assert(stack_address(sp) != stack_address(sp1));
    let pc = r.program_counter;
    assert(word(low_byte(pc), high_byte(pc)) == pc);
}

/// On the console's bus, whose stack page is RAM, RTS after JSR comes back to the address after
/// the one JSR pushed, with the stack pointer and every other register as before the call.
#[verifier::spinoff_prover]
#[verifier::rlimit(30)]
pub proof fn lemma_jsr_then_rts_on_cpu_bus(
    r: Registers,
    bus: CpuBus,
    target: u16,
    call: Instruction,
    ret: Instruction,
)
    requires
        call.operand == Some(Operand::Address(target)),
        call.addressing_mode == AddressingMode::Absolute,
        ret.addressing_mode == AddressingMode::Implicit,
    ensures
        ({
            let called = jsr_spec(call, r, bus);
            let returned = rts_spec(ret, called.registers, called.bus);
            &&& called.registers.program_counter == target
            &&& called.result == Ok::<u8, CpuError>(6)
            &&& returned.result == Ok::<u8, CpuError>(6)
            &&& returned.registers == (Registers {
                program_counter: ((r.program_counter + 1) % 0x10000) as u16,
                ..r
            })
        }),
{
    let sp = r.stack_pointer;
    let sp1 = sp_pushed(sp);
    let sp2 = sp_pushed(sp1);
    assert(sp_pulled(sp2) == sp1);
    assert(sp_pulled(sp1) == sp);
    let pc = r.program_counter;
    let high_at = stack_address(sp);
    let low_at = stack_address(sp1);
    assert(0x0100 <= high_at <= 0x01FF && 0x0100 <= low_at <= 0x01FF);
    assert(high_at % 0x800 == high_at && low_at % 0x800 == low_at);
    assert(high_at != low_at);
    let pushed = push_word(bus, sp, pc);
    let first = bus.after_write(high_at, high_byte(pc));
    assert(first.ram@[high_at as int] == high_byte(pc));
    assert(pushed.ram@[low_at as int] == low_byte(pc));
    assert(pushed.ram@[high_at as int] == high_byte(pc));
    assert(pushed.read_value(low_at) == low_byte(pc));
    assert(pushed.after_read(low_at) == pushed);
    assert(pushed.read_value(high_at) == high_byte(pc));
    assert(word(low_byte(pc), high_byte(pc)) == pc);
}

/// On a plain memory, RTI after BRK returns to the address that BRK pushed, with the status
/// byte as it was but for bits 4 and 5 (which come back cleared) and the stack pointer as it
/// was; BRK itself goes to the interrupt vector's address with three bytes pushed.
#[verifier::spinoff_prover]
#[verifier::rlimit(30)]
pub proof fn lemma_brk_then_rti(r: Registers, bus: TestBus, brk: Instruction, rti: Instruction)
    requires
        rti.addressing_mode == AddressingMode::Implicit,
    ensures
        ({
            let broke = brk_spec(brk, r, bus);
            let back = rti_spec(rti, broke.registers, broke.bus);
            &&& broke.registers.program_counter == 0xFFFE
            &&& broke.registers.stack_pointer == (r.stack_pointer + 253) % 256
            &&& back.registers.program_counter == r.program_counter
            &&& back.registers.flags == r.flags & 0b1100_1111
            &&& back.registers.stack_pointer == r.stack_pointer
            &&& back.registers.accumulator == r.accumulator
            &&& back.registers.x == r.x && back.registers.y == r.y
            &&& back.result == Ok::<u8, CpuError>(6)
        }),
{
    let sp = r.stack_pointer;
    let sp1 = sp_pushed(sp);
    let sp2 = sp_pushed(sp1);
    let sp3 = sp_pushed(sp2);
    assert(sp_pulled(sp3) == sp2);
    assert(sp_pulled(sp2) == sp1);
    assert(sp_pulled(sp1) == sp);
    assert(stack_address(sp) != stack_address(sp1));
    assert(stack_address(sp) != stack_address(sp2));
    assert(stack_address(sp1) != stack_address(sp2));
    let f = r.flags;
    assert((f | 0b0011_0000) & 0b1100_1111 == f & 0b1100_1111) by (bit_vector);
    let pc = r.program_counter;
    assert(word(low_byte(pc), high_byte(pc)) == pc);
}

} // verus!
