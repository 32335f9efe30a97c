use vstd::prelude::*;
use super::{AddressingMode, InstructionType, opcode_table};

verus! {

/// The addressing mode that the 6502's opcode map gives `op`, read from its bit fields
/// `aaabbbcc`: in group `cc = 01` the field `bbb` alone fixes the mode; in the groups `cc = 00`
/// and `cc = 10` it does so too, but for the zero-page and absolute indexed forms of STX and LDX
/// (indexed by Y), the accumulator forms of the shifts, and JSR, RTI, RTS, BRK and JMP's
/// indirect form.
pub open spec fn mapped_mode(op: u8) -> AddressingMode {
    let aaa = op / 32;
    let bbb = (op / 4) % 8;
    let cc = op % 4;
    if cc == 1 {
        if bbb == 0 {
            AddressingMode::IndirectIndexedX
        } else if bbb == 1 {
            AddressingMode::ZeroPage
        } else if bbb == 2 {
            AddressingMode::Immediate
        } else if bbb == 3 {
            AddressingMode::Absolute
        } else if bbb == 4 {
            AddressingMode::IndirectIndexedY
        } else if bbb == 5 {
            AddressingMode::ZeroPageIndexedX
        } else if bbb == 6 {
            AddressingMode::AbsoluteIndexedY
        } else {
            AddressingMode::AbsoluteIndexedX
        }
    } else if op == 0x20 {
        AddressingMode::Absolute
    } else if op == 0x6C {
        AddressingMode::Indirect
    } else if op == 0x00 || op == 0x40 || op == 0x60 {
        AddressingMode::Implicit
    } else if bbb == 0 {
        AddressingMode::Immediate
    } else if bbb == 1 {
        AddressingMode::ZeroPage
    } else if bbb == 2 {
        if cc == 2 && aaa < 4 {
            AddressingMode::Accumulator
        } else {
            AddressingMode::Implicit
        }
    } else if bbb == 3 {
        AddressingMode::Absolute
    } else if bbb == 4 {
        AddressingMode::Relative
    } else if bbb == 5 {
        if cc == 2 && (aaa == 4 || aaa == 5) {
            AddressingMode::ZeroPageIndexedY
        } else {
            AddressingMode::ZeroPageIndexedX
        }
    } else if bbb == 6 {
        AddressingMode::Implicit
    } else if cc == 2 && aaa == 5 {
        AddressingMode::AbsoluteIndexedY
    } else {
        AddressingMode::AbsoluteIndexedX
    }
}

/// The operation of group `cc = 01` that the field `aaa` selects: ORA, AND, EOR, ADC, STA, LDA,
/// CMP, SBC, where this table runs the ORA opcodes with AND's handler.
pub open spec fn group_one_operation(op: u8) -> InstructionType {
    let aaa = op / 32;
    if aaa <= 1 {
        InstructionType::AND
    } else if aaa == 2 {
        InstructionType::EOR
    } else if aaa == 3 {
        InstructionType::ADC
    } else if aaa == 4 {
        InstructionType::STA
    } else if aaa == 5 {
        InstructionType::LDA
    } else if aaa == 6 {
        InstructionType::CMP
    } else {
        InstructionType::SBC
    }
}

/// The operation of group `cc = 10` that the field `aaa` selects for its memory and accumulator
/// forms: ASL, ROL, LSR, ROR, STX, LDX, DEC, INC.
pub open spec fn group_two_operation(op: u8) -> InstructionType {
    let aaa = op / 32;
    if aaa == 0 {
        InstructionType::ASL
    } else if aaa == 1 {
        InstructionType::ROL
    } else if aaa == 2 {
        InstructionType::LSR
    } else if aaa == 3 {
        InstructionType::ROR
    } else if aaa == 4 {
        InstructionType::STX
    } else if aaa == 5 {
        InstructionType::LDX
    } else if aaa == 6 {
        InstructionType::DEC
    } else {
        InstructionType::INC
    }
}

/// What the opcode map says of the row of `op`, as far as the table follows it.
pub open spec fn row_follows_map(op: u8) -> bool {
    let bbb = (op / 4) % 8;
    let aaa = op / 32;
    &&& (op % 4 == 1 && op != 0x89) ==> opcode_table(op) is Some
    &&& opcode_table(op) matches Some(i) ==> {
        &&& (op != 0x00 && op != 0x9D) ==> i.addressing_mode == mapped_mode(op)
        &&& (op != 0x10 && op != 0x4C && op != 0x50 && op != 0x6C && op != 0xC6) ==> i.opcode == op
        &&& op % 4 == 1 ==> i.operation == group_one_operation(op)
        &&& (op % 4 == 1 && op != 0xF5) ==> i.instruction_type == i.operation
        &&& (op % 4 == 2 && bbb != 6 && !(bbb == 2 && aaa >= 4)) ==> i.operation
            == group_two_operation(op)
            && i.instruction_type == i.operation
    }
}

/// The opcode table follows the 6502's opcode map: every opcode of group `cc = 01` but $89 is
/// decoded; each row's addressing mode is the one the opcode's bit fields give (all but BRK at
/// $00, which the table reads as immediate, and STA at $9D, which it indexes by Y); each row
/// carries its own opcode (all but $10, $4C, $50, $6C and $C6); and the rows of groups `cc = 01`
/// and `cc = 10` run the operation that the field `aaa` selects.
#[verifier::spinoff_prover]
#[verifier::rlimit(100)]
pub proof fn lemma_table_follows_the_opcode_map(op: u8)
    ensures
        row_follows_map(op),
{
}

} // verus!
