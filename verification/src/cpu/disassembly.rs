use vstd::prelude::*;
use crate::bus::MemoryIndexer;
use crate::cpu::instruction_set::{AddressingMode, Instruction, InstructionType, Operand};
use crate::cpu::registers::Registers;
use crate::cpu::{after_word_read, signed, word_at};

verus! {

/// What a trace line shows of a fetched instruction about to run: its bytes, and the addresses
/// and the value that its operand designates.
#[derive(Clone, Copy, Debug, PartialEq, Eq, Structural)]
pub struct Disassembly {
    /// The mnemonic.
    pub instruction_type: InstructionType,
    /// The addressing mode.
    pub addressing_mode: AddressingMode,
    /// The opcode.
    pub opcode: u8,
    /// How many operand bytes follow the opcode: 0, 1 or 2.
    pub operand_length: u8,
    /// The first operand byte (0 when there is none).
    pub low: u8,
    /// The second operand byte (0 when there is none).
    pub high: u8,
    /// The number the operand bytes spell: the byte itself, or the little-endian word.
    pub base: u16,
    /// The intermediate address of an indirect mode: where `(zp,X)` reads its pointer, or the
    /// pointer that `(zp),Y` reads at the zero-page byte.
    pub pointer: Option<u16>,
    /// The address that the instruction reaches (a branch's target included).
    pub effective: Option<u16>,
    /// The byte at the effective address, where the trace shows it.
    pub value: Option<u8>,
}

/// A disassembly of `i` with no operand bytes.
pub open spec fn bare(i: Instruction) -> Disassembly {
    Disassembly {
        instruction_type: i.instruction_type,
        addressing_mode: i.addressing_mode,
        opcode: i.opcode,
        operand_length: 0,
        low: 0,
        high: 0,
        base: 0,
        pointer: None,
        effective: None,
        value: None,
    }
}

/// One operand byte, reaching `effective` (with the byte there) or nothing.
pub open spec fn one_byte(i: Instruction, low: u8, effective: Option<u16>, value: Option<u8>) -> Disassembly {
    Disassembly { operand_length: 1, low, base: low as u16, effective, value, ..bare(i) }
}

/// Two operand bytes, reaching `effective` (with the byte there) or nothing.
pub open spec fn two_bytes(
    i: Instruction,
    low: u8,
    high: u8,
    effective: Option<u16>,
    value: Option<u8>,
) -> Disassembly {
    Disassembly {
        operand_length: 2,
        low,
        high,
        base: (high * 256 + low) as u16,
        effective,
        value,
        ..bare(i)
    }
}

/// The address `n` bytes after `pc`, wrapping around the address space.
pub open spec fn after_pc(pc: u16, n: int) -> u16 {
    ((pc + n) % 0x10000) as u16
}

/// The address that a fetched operand holds, if it holds one.
pub open spec fn operand_target(i: Instruction) -> Option<u16> {
    match i.operand {
        Some(Operand::Address(target)) => Some(target),
        _ => None,
    }
}

/// What the trace shows of the fetched instruction `i`, whose opcode is at `pc`, and the bus
/// after the reads that the trace makes. The operand bytes are read again after the opcode, then
/// the bytes that the operand designates: an immediate shows the fetched value without a read,
/// jumps to an absolute address (JSR, JMP) read and show no value, JMP's indirect operand and a
/// branch show the fetched target.
pub open spec fn trace_spec<T: MemoryIndexer>(i: Instruction, r: Registers, pc: u16, bus: T) -> (
    Disassembly,
    T,
) {
    let a1 = after_pc(pc, 1);
    let a2 = after_pc(pc, 2);
    let low = bus.read_value(a1);
    let b1 = bus.after_read(a1);
    let high = b1.read_value(a2);
    let b2 = b1.after_read(a2);
    let word = (high * 256 + low) as u16;
    match i.addressing_mode {
        AddressingMode::Implicit | AddressingMode::Accumulator => (bare(i), bus),
        AddressingMode::Immediate => match i.operand {
            Some(Operand::Value(value)) => (one_byte(i, value, None, None), bus),
            _ => (one_byte(i, low, None, None), b1),
        },
        AddressingMode::ZeroPage => (
            one_byte(i, low, Some(low as u16), Some(b1.read_value(low as u16))),
            b1.after_read(low as u16),
        ),
        AddressingMode::ZeroPageIndexedX => {
            let e = ((low + r.x) % 256) as u16;
            (one_byte(i, low, Some(e), Some(b1.read_value(e))), b1.after_read(e))
        },
        AddressingMode::ZeroPageIndexedY => {
            let e = ((low + r.y) % 256) as u16;
            (one_byte(i, low, Some(e), Some(b1.read_value(e))), b1.after_read(e))
        },
        AddressingMode::Absolute => if i.instruction_type == InstructionType::JSR
            || i.instruction_type == InstructionType::JMP {
            (two_bytes(i, low, high, Some(word), None), b2)
        } else {
            (
                two_bytes(i, low, high, Some(word), Some(b2.read_value(word))),
                b2.after_read(word),
            )
        },
        AddressingMode::AbsoluteIndexedX => {
            let e = ((word + r.x) % 0x10000) as u16;
            (two_bytes(i, low, high, Some(e), Some(b2.read_value(e))), b2.after_read(e))
        },
        AddressingMode::AbsoluteIndexedY => {
            let e = ((word + r.y) % 0x10000) as u16;
            (two_bytes(i, low, high, Some(e), Some(b2.read_value(e))), b2.after_read(e))
        },
        AddressingMode::Indirect => (two_bytes(i, low, high, operand_target(i), None), b2),
        AddressingMode::IndirectIndexedX => {
            let lookup = ((low + r.x) % 256) as u16;
            let e = word_at(b1, lookup);
            let b3 = after_word_read(b1, lookup);
            (
                Disassembly {
                    pointer: Some(lookup),
                    ..one_byte(i, low, Some(e), Some(b3.read_value(e)))
                },
                b3.after_read(e),
            )
        },
        AddressingMode::IndirectIndexedY => {
            let p = word_at(b1, low as u16);
            let b3 = after_word_read(b1, low as u16);
            let e = ((p + r.y) % 0x10000) as u16;
            (
                Disassembly {
                    pointer: Some(p),
                    ..one_byte(i, low, Some(e), Some(b3.read_value(e)))
                },
                b3.after_read(e),
            )
        },
        AddressingMode::Relative => {
            let target = match operand_target(i) {
                Some(target) => target,
                None => ((after_pc(pc, 2) + signed(low)) % 0x10000) as u16,
            };
            (one_byte(i, low, Some(target), None), b1)
        },
    }
}

/// Disassembles the fetched `instruction`, whose opcode is at `starting_pc`, reading its operand
/// bytes and the bytes its operand designates from the bus.
pub fn disassemble<T: MemoryIndexer>(
    instruction: &Instruction,
    registers: &Registers,
    starting_pc: u16,
    bus: &mut T,
) -> (d: Disassembly)
    requires
        old(bus).inv(),
    ensures
        final(bus).inv(),
        (d, *final(bus)) == trace_spec(*instruction, *registers, starting_pc, *old(bus)),
{
    let bare = Disassembly {
        instruction_type: instruction.instruction_type,
        addressing_mode: instruction.addressing_mode,
        opcode: instruction.opcode,
        operand_length: 0,
        low: 0,
        high: 0,
        base: 0,
        pointer: None,
        effective: None,
        value: None,
    };
    match instruction.addressing_mode {
        AddressingMode::Implicit | AddressingMode::Accumulator => bare,
        AddressingMode::Immediate => {
            let low = match instruction.operand {
                Some(Operand::Value(value)) => value,
                _ => bus.read_byte(starting_pc.wrapping_add(1)),
            };
            Disassembly { operand_length: 1, low, base: low as u16, ..bare }
        },
        AddressingMode::Absolute | AddressingMode::AbsoluteIndexedX
        | AddressingMode::AbsoluteIndexedY | AddressingMode::Indirect => disassemble_two_bytes(
            instruction,
            registers,
            starting_pc,
            bus,
        ),
        AddressingMode::IndirectIndexedX | AddressingMode::IndirectIndexedY => disassemble_indirect(
            instruction,
            registers,
            starting_pc,
            bus,
        ),
        _ => disassemble_one_byte(instruction, registers, starting_pc, bus),
    }
}

/// `zp`, `zp,X`, `zp,Y` and relative operands.
#[verifier::spinoff_prover]
#[verifier::rlimit(30)]
fn disassemble_one_byte<T: MemoryIndexer>(
    instruction: &Instruction,
    registers: &Registers,
    starting_pc: u16,
    bus: &mut T,
) -> (d: Disassembly)
    requires
        old(bus).inv(),
        instruction.addressing_mode == AddressingMode::ZeroPage || instruction.addressing_mode
            == AddressingMode::ZeroPageIndexedX || instruction.addressing_mode
            == AddressingMode::ZeroPageIndexedY || instruction.addressing_mode
            == AddressingMode::Relative,
    ensures
        final(bus).inv(),
        (d, *final(bus)) == trace_spec(*instruction, *registers, starting_pc, *old(bus)),
{
    let ghost b0 = *bus;
    let low = bus.read_byte(starting_pc.wrapping_add(1));
    assert(low == b0.read_value(after_pc(starting_pc, 1)));
    assert(*bus == b0.after_read(after_pc(starting_pc, 1)));
    let one = Disassembly {
        instruction_type: instruction.instruction_type,
        addressing_mode: instruction.addressing_mode,
        opcode: instruction.opcode,
        operand_length: 1,
        low,
        high: 0,
        base: low as u16,
        pointer: None,
        effective: None,
        value: None,
    };
    match instruction.addressing_mode {
        AddressingMode::ZeroPage => {
            let value = bus.read_byte(low as u16);
            Disassembly { effective: Some(low as u16), value: Some(value), ..one }
        },
        AddressingMode::ZeroPageIndexedX => {
            let effective = low.wrapping_add(registers.x) as u16;
            let value = bus.read_byte(effective);
            Disassembly { effective: Some(effective), value: Some(value), ..one }
        },
        AddressingMode::ZeroPageIndexedY => {
            let effective = low.wrapping_add(registers.y) as u16;
            let value = bus.read_byte(effective);
            Disassembly { effective: Some(effective), value: Some(value), ..one }
        },
        _ => {
            let target = match instruction.operand {
                Some(Operand::Address(target)) => target,
                _ => {
                    let next = starting_pc.wrapping_add(2);
                    let target = if low < 0x80 {
                        next.wrapping_add(low as u16)
                    } else {
                        next.wrapping_sub(256 - low as u16)
                    };
                    assert(target == ((next + signed(low)) % 0x10000) as u16);
                    target
                },
            };
            Disassembly { effective: Some(target), ..one }
        },
    }
}

/// `abs`, `abs,X`, `abs,Y` and JMP's indirect operand.
#[verifier::spinoff_prover]
#[verifier::rlimit(30)]
fn disassemble_two_bytes<T: MemoryIndexer>(
    instruction: &Instruction,
    registers: &Registers,
    starting_pc: u16,
    bus: &mut T,
) -> (d: Disassembly)
    requires
        old(bus).inv(),
        instruction.addressing_mode == AddressingMode::Absolute || instruction.addressing_mode
            == AddressingMode::AbsoluteIndexedX || instruction.addressing_mode
            == AddressingMode::AbsoluteIndexedY || instruction.addressing_mode
            == AddressingMode::Indirect,
    ensures
        final(bus).inv(),
        (d, *final(bus)) == trace_spec(*instruction, *registers, starting_pc, *old(bus)),
{
    let ghost b0 = *bus;
    let low = bus.read_byte(starting_pc.wrapping_add(1));
    let ghost b1 = *bus;
    let high = bus.read_byte(starting_pc.wrapping_add(2));
    let ghost b2 = *bus;
    let word: u16 = (high as u16) * 256 + low as u16;
    assert(low == b0.read_value(after_pc(starting_pc, 1)));
    assert(b1 == b0.after_read(after_pc(starting_pc, 1)));
    assert(high == b1.read_value(after_pc(starting_pc, 2)));
    assert(b2 == b1.after_read(after_pc(starting_pc, 2)));
    assert(word == (high * 256 + low) as u16);
    let two = Disassembly {
        instruction_type: instruction.instruction_type,
        addressing_mode: instruction.addressing_mode,
        opcode: instruction.opcode,
        operand_length: 2,
        low,
        high,
        base: word,
        pointer: None,
        effective: None,
        value: None,
    };
    match instruction.addressing_mode {
        AddressingMode::Absolute => {
            let value = match instruction.instruction_type {
                InstructionType::JSR | InstructionType::JMP => None,
                _ => Some(bus.read_byte(word)),
            };
            Disassembly { effective: Some(word), value, ..two }
        },
        AddressingMode::AbsoluteIndexedX => {
            let effective = word.wrapping_add(registers.x as u16);
            let value = bus.read_byte(effective);
            Disassembly { effective: Some(effective), value: Some(value), ..two }
        },
        AddressingMode::AbsoluteIndexedY => {
            let effective = word.wrapping_add(registers.y as u16);
            let value = bus.read_byte(effective);
            Disassembly { effective: Some(effective), value: Some(value), ..two }
        },
        _ => {
            let effective = match instruction.operand {
                Some(Operand::Address(target)) => Some(target),
                _ => None,
            };
            Disassembly { effective, ..two }
        },
    }
}

/// `(zp,X)` and `(zp),Y` operands.
#[verifier::spinoff_prover]
#[verifier::rlimit(30)]
fn disassemble_indirect<T: MemoryIndexer>(
    instruction: &Instruction,
    registers: &Registers,
    starting_pc: u16,
    bus: &mut T,
) -> (d: Disassembly)
    requires
        old(bus).inv(),
        instruction.addressing_mode == AddressingMode::IndirectIndexedX
            || instruction.addressing_mode == AddressingMode::IndirectIndexedY,
    ensures
        final(bus).inv(),
        (d, *final(bus)) == trace_spec(*instruction, *registers, starting_pc, *old(bus)),
{
    let ghost b0 = *bus;
    let low = bus.read_byte(starting_pc.wrapping_add(1));
    assert(low == b0.read_value(after_pc(starting_pc, 1)));
    assert(*bus == b0.after_read(after_pc(starting_pc, 1)));
    let one = Disassembly {
        instruction_type: instruction.instruction_type,
        addressing_mode: instruction.addressing_mode,
        opcode: instruction.opcode,
        operand_length: 1,
        low,
        high: 0,
        base: low as u16,
        pointer: None,
        effective: None,
        value: None,
    };
    if instruction.addressing_mode == AddressingMode::IndirectIndexedX {
        let lookup = low.wrapping_add(registers.x) as u16;
        let effective = bus.read_word(lookup);
        let value = bus.read_byte(effective);
        Disassembly { pointer: Some(lookup), effective: Some(effective), value: Some(value), ..one }
    } else {
        let pointer = bus.read_word(low as u16);
        let effective = pointer.wrapping_add(registers.y as u16);
        let value = bus.read_byte(effective);
        Disassembly { pointer: Some(pointer), effective: Some(effective), value: Some(value), ..one }
    }
}

} // verus!
