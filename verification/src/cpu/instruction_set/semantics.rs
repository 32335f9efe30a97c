use vstd::prelude::*;
use crate::bus::MemoryIndexer;
use crate::cpu::registers::{Flag, Registers, lemma_set_flag_then_get};
use super::arithmetic::{operand_given, register_step_spec, stepped, step_memory_spec};
use super::access::Target;
use super::{
    AddressingMode, CpuError, Instruction, InstructionType, Operand, operation_spec,
    with_zero_negative,
};

verus! {

/// Setting one flag changes that flag only.
proof fn lemma_flag_update(r: Registers, flag: Flag, value: bool)
    ensures
        r.with_flag(flag, value).flag(Flag::Carry) == (if flag == Flag::Carry { value } else { r.flag(Flag::Carry) }),
        r.with_flag(flag, value).flag(Flag::Zero) == (if flag == Flag::Zero { value } else { r.flag(Flag::Zero) }),
        r.with_flag(flag, value).flag(Flag::InterruptDisable) == (if flag == Flag::InterruptDisable { value } else { r.flag(Flag::InterruptDisable) }),
        r.with_flag(flag, value).flag(Flag::DecimalMode) == (if flag == Flag::DecimalMode { value } else { r.flag(Flag::DecimalMode) }),
        r.with_flag(flag, value).flag(Flag::B) == (if flag == Flag::B { value } else { r.flag(Flag::B) }),
        r.with_flag(flag, value).flag(Flag::Overflow) == (if flag == Flag::Overflow { value } else { r.flag(Flag::Overflow) }),
        r.with_flag(flag, value).flag(Flag::Negative) == (if flag == Flag::Negative { value } else { r.flag(Flag::Negative) }),
        r.with_flag(flag, value).accumulator == r.accumulator,
        r.with_flag(flag, value).x == r.x,
        r.with_flag(flag, value).y == r.y,
        r.with_flag(flag, value).stack_pointer == r.stack_pointer,
        r.with_flag(flag, value).program_counter == r.program_counter,
{
    lemma_set_flag_then_get(r, flag, value, Flag::Carry);
    lemma_set_flag_then_get(r, flag, value, Flag::Zero);
    lemma_set_flag_then_get(r, flag, value, Flag::InterruptDisable);
    lemma_set_flag_then_get(r, flag, value, Flag::DecimalMode);
    lemma_set_flag_then_get(r, flag, value, Flag::B);
    lemma_set_flag_then_get(r, flag, value, Flag::Overflow);
    lemma_set_flag_then_get(r, flag, value, Flag::Negative);
}

/// Setting zero and negative from `value` changes those two flags only.
proof fn lemma_zero_negative(r: Registers, value: u8)
    ensures
        zero_negative_of(r, with_zero_negative(r, value), value),
        with_zero_negative(r, value).accumulator == r.accumulator,
        with_zero_negative(r, value).x == r.x,
        with_zero_negative(r, value).y == r.y,
{
    lemma_flag_update(r, Flag::Zero, value == 0);
    lemma_flag_update(r.with_flag(Flag::Zero, value == 0), Flag::Negative, value >= 128);
}

/// `after` differs from `before` at most in the zero and negative flags, which say whether
/// `value` is zero and whether its bit 7 is set.
pub open spec fn zero_negative_of(before: Registers, after: Registers, value: u8) -> bool {
    &&& after.flag(Flag::Zero) == (value == 0)
    &&& after.flag(Flag::Negative) == (value >= 128)
    &&& after.flag(Flag::Carry) == before.flag(Flag::Carry)
    &&& after.flag(Flag::Overflow) == before.flag(Flag::Overflow)
    &&& after.flag(Flag::InterruptDisable) == before.flag(Flag::InterruptDisable)
    &&& after.flag(Flag::DecimalMode) == before.flag(Flag::DecimalMode)
    &&& after.stack_pointer == before.stack_pointer
    &&& after.program_counter == before.program_counter
}

/// The byte of the operand of `i`, read from `bus` where it is an address.
pub open spec fn operand_of<T: MemoryIndexer>(i: Instruction, bus: T) -> u8 {
    operand_given(i.operand.unwrap(), bus)
}

/// LDA, LDX, LDY load the operand's byte into their register, and no other; zero and negative
/// follow the byte.
pub proof fn lemma_loads<T: MemoryIndexer>(i: Instruction, r: Registers, bus: T)
    requires
        i.operand is Some,
    ensures
        ({
            let m = operand_of(i, bus);
            let lda = operation_spec(InstructionType::LDA, i, r, bus).registers;
            let ldx = operation_spec(InstructionType::LDX, i, r, bus).registers;
            let ldy = operation_spec(InstructionType::LDY, i, r, bus).registers;
            &&& lda.accumulator == m && lda.x == r.x && lda.y == r.y && zero_negative_of(r, lda, m)
            &&& ldx.x == m && ldx.accumulator == r.accumulator && ldx.y == r.y && zero_negative_of(
                r,
                ldx,
                m,
            )
            &&& ldy.y == m && ldy.accumulator == r.accumulator && ldy.x == r.x && zero_negative_of(
                r,
                ldy,
                m,
            )
        }),
{
    lemma_zero_negative(r, operand_of(i, bus));
}

/// STA, STX, STY write their register at the operand's address and change no register.
pub proof fn lemma_stores<T: MemoryIndexer>(i: Instruction, r: Registers, bus: T, address: u16)
    requires
        i.operand == Some(Operand::Address(address)),
    ensures
        operation_spec(InstructionType::STA, i, r, bus).registers == r,
        operation_spec(InstructionType::STA, i, r, bus).bus == bus.after_write(
            address,
            r.accumulator,
        ),
        operation_spec(InstructionType::STX, i, r, bus).registers == r,
        operation_spec(InstructionType::STX, i, r, bus).bus == bus.after_write(address, r.x),
        operation_spec(InstructionType::STY, i, r, bus).registers == r,
        operation_spec(InstructionType::STY, i, r, bus).bus == bus.after_write(address, r.y),
{
}

/// TAX, TAY, TXA, TYA copy one register into another; zero and negative follow the copy.
pub proof fn lemma_transfers<T: MemoryIndexer>(i: Instruction, r: Registers, bus: T)
    ensures
        ({
            let tax = operation_spec(InstructionType::TAX, i, r, bus).registers;
            let tay = operation_spec(InstructionType::TAY, i, r, bus).registers;
            let txa = operation_spec(InstructionType::TXA, i, r, bus).registers;
            let tya = operation_spec(InstructionType::TYA, i, r, bus).registers;
            &&& tax.x == r.accumulator && tax.accumulator == r.accumulator && tax.y == r.y
                && zero_negative_of(r, tax, r.accumulator)
            &&& tay.y == r.accumulator && tay.accumulator == r.accumulator && tay.x == r.x
                && zero_negative_of(r, tay, r.accumulator)
            &&& txa.accumulator == r.x && txa.x == r.x && txa.y == r.y && zero_negative_of(r, txa, r.x)
            &&& tya.accumulator == r.y && tya.x == r.x && tya.y == r.y && zero_negative_of(r, tya, r.y)
        }),
{
    let ra = Registers { x: r.accumulator, ..r };
    lemma_flag_update(ra, Flag::Zero, r.accumulator == 0);
    lemma_flag_update(ra.with_flag(Flag::Zero, r.accumulator == 0), Flag::Negative, r.accumulator >= 128);
    let rb = Registers { y: r.accumulator, ..r };
    lemma_flag_update(rb, Flag::Zero, r.accumulator == 0);
    lemma_flag_update(rb.with_flag(Flag::Zero, r.accumulator == 0), Flag::Negative, r.accumulator >= 128);
    let rc = Registers { accumulator: r.x, ..r };
    lemma_flag_update(rc, Flag::Zero, r.x == 0);
    lemma_flag_update(rc.with_flag(Flag::Zero, r.x == 0), Flag::Negative, r.x >= 128);
    let rd = Registers { accumulator: r.y, ..r };
    lemma_flag_update(rd, Flag::Zero, r.y == 0);
    lemma_flag_update(rd.with_flag(Flag::Zero, r.y == 0), Flag::Negative, r.y >= 128);
}

/// The wrapped step of a byte by one, up or down.
proof fn lemma_wrapping_steps(v: u8)
    ensures
        stepped(v, 1) == (v + 1) % 256,
        stepped(v, -1) == (v + 255) % 256,
{
    if v == 0 {
        assert(stepped(v, -1) == 255);
    } else {
        assert(stepped(v, -1) == v - 1);
    }
    if v == 255 {
        assert(stepped(v, 1) == 0);
    } else {
        assert(stepped(v, 1) == v + 1);
    }
}

/// INX, DEX, INY, DEY count their register up or down by one, wrapping; zero and negative
/// follow the result.
pub proof fn lemma_register_steps<T: MemoryIndexer>(i: Instruction, r: Registers, bus: T)
    ensures
        ({
            let inx = operation_spec(InstructionType::INX, i, r, bus).registers;
            let dex = operation_spec(InstructionType::DEX, i, r, bus).registers;
            let iny = operation_spec(InstructionType::INY, i, r, bus).registers;
            let dey = operation_spec(InstructionType::DEY, i, r, bus).registers;
            &&& inx.x == (r.x + 1) % 256 && inx.y == r.y && zero_negative_of(r, inx, inx.x)
            &&& dex.x == (r.x + 255) % 256 && dex.y == r.y && zero_negative_of(r, dex, dex.x)
            &&& iny.y == (r.y + 1) % 256 && iny.x == r.x && zero_negative_of(r, iny, iny.y)
            &&& dey.y == (r.y + 255) % 256 && dey.x == r.x && zero_negative_of(r, dey, dey.y)
        }),
{
    lemma_wrapping_steps(r.x);
    lemma_wrapping_steps(r.y);
    lemma_zero_negative(r, stepped(r.x, 1));
    lemma_zero_negative(r, stepped(r.x, -1));
    lemma_zero_negative(r, stepped(r.y, 1));
    lemma_zero_negative(r, stepped(r.y, -1));
    assert(operation_spec(InstructionType::INX, i, r, bus) == register_step_spec(r, bus, Target::X, 1));
    assert(operation_spec(InstructionType::DEX, i, r, bus) == register_step_spec(r, bus, Target::X, -1));
    assert(operation_spec(InstructionType::INY, i, r, bus) == register_step_spec(r, bus, Target::Y, 1));
    assert(operation_spec(InstructionType::DEY, i, r, bus) == register_step_spec(r, bus, Target::Y, -1));
}

/// INC and DEC read the byte at their address and write it back one up or one down, wrapping;
/// zero and negative follow the new byte, and no other register changes.
pub proof fn lemma_memory_steps<T: MemoryIndexer>(i: Instruction, r: Registers, bus: T, address: u16)
    requires
        i.operand == Some(Operand::Address(address)),
    ensures
        ({
            let m = bus.read_value(address);
            let up = ((m + 1) % 256) as u8;
            let down = ((m + 255) % 256) as u8;
            let inc = operation_spec(InstructionType::INC, i, r, bus);
            let dec = operation_spec(InstructionType::DEC, i, r, bus);
            &&& inc.bus == bus.after_read(address).after_write(address, up)
            &&& dec.bus == bus.after_read(address).after_write(address, down)
            &&& inc.registers.accumulator == r.accumulator && inc.registers.x == r.x
                && inc.registers.y == r.y && zero_negative_of(r, inc.registers, up)
            &&& dec.registers.accumulator == r.accumulator && dec.registers.x == r.x
                && dec.registers.y == r.y && zero_negative_of(r, dec.registers, down)
        }),
{
    let m = bus.read_value(address);
    lemma_wrapping_steps(m);
    lemma_zero_negative(r, stepped(m, 1));
    lemma_zero_negative(r, stepped(m, -1));
    assert(operation_spec(InstructionType::INC, i, r, bus) == step_memory_spec(i, r, bus, 1));
    assert(operation_spec(InstructionType::DEC, i, r, bus) == step_memory_spec(i, r, bus, -1));
}

/// CMP, CPX, CPY compare their register with the operand's byte: carry when the register is not
/// below it, zero when they are equal, negative when bit 7 of their difference (modulo 256) is
/// set; no register but the status changes, and overflow is kept.
pub proof fn lemma_compares<T: MemoryIndexer>(i: Instruction, r: Registers, bus: T)
    requires
        i.operand is Some,
    ensures
        ({
            let m = operand_of(i, bus);
            let by_a = operation_spec(InstructionType::CMP, i, r, bus).registers;
            let by_x = operation_spec(InstructionType::CPX, i, r, bus).registers;
            let by_y = operation_spec(InstructionType::CPY, i, r, bus).registers;
            &&& by_a.flag(Flag::Carry) == (r.accumulator >= m) && by_a.flag(Flag::Zero) == (
            r.accumulator == m) && by_a.flag(Flag::Negative) == ((r.accumulator - m + 256) % 256
                >= 128) && by_a.flag(Flag::Overflow) == r.flag(Flag::Overflow)
            &&& by_a.accumulator == r.accumulator && by_a.x == r.x && by_a.y == r.y
            &&& by_x.flag(Flag::Carry) == (r.x >= m) && by_x.flag(Flag::Zero) == (r.x == m)
                && by_x.flag(Flag::Negative) == ((r.x - m + 256) % 256 >= 128) && by_x.flag(
                Flag::Overflow,
            ) == r.flag(Flag::Overflow)
            &&& by_x.accumulator == r.accumulator && by_x.x == r.x && by_x.y == r.y
            &&& by_y.flag(Flag::Carry) == (r.y >= m) && by_y.flag(Flag::Zero) == (r.y == m)
                && by_y.flag(Flag::Negative) == ((r.y - m + 256) % 256 >= 128) && by_y.flag(
                Flag::Overflow,
            ) == r.flag(Flag::Overflow)
            &&& by_y.accumulator == r.accumulator && by_y.x == r.x && by_y.y == r.y
        }),
{
    let m = operand_of(i, bus);
    lemma_compare_flags(r, r.accumulator, m);
    lemma_compare_flags(r, r.x, m);
    lemma_compare_flags(r, r.y, m);
    assert(operation_spec(InstructionType::CMP, i, r, bus).registers == compared(r, r.accumulator, m));
    assert(operation_spec(InstructionType::CPX, i, r, bus).registers == compared(r, r.x, m));
    assert(operation_spec(InstructionType::CPY, i, r, bus).registers == compared(r, r.y, m));
}

/// The status after comparing `v` with `m`.
spec fn compared(r: Registers, v: u8, m: u8) -> Registers {
    let d = ((v - m) % 256) as u8;
    r.with_flag(Flag::Carry, v >= m).with_flag(Flag::Zero, d == 0).with_flag(
        Flag::Negative,
        d >= 128,
    )
}

/// The flags of a comparison of `v` with `m`.
proof fn lemma_compare_flags(r: Registers, v: u8, m: u8)
    ensures
        compared(r, v, m).flag(Flag::Carry) == (v >= m),
        compared(r, v, m).flag(Flag::Zero) == (v == m),
        compared(r, v, m).flag(Flag::Negative) == ((v - m + 256) % 256 >= 128),
        compared(r, v, m).flag(Flag::Overflow) == r.flag(Flag::Overflow),
        compared(r, v, m).accumulator == r.accumulator,
        compared(r, v, m).x == r.x,
        compared(r, v, m).y == r.y,
{
    let d = ((v - m) % 256) as u8;
    assert(d == (v - m + 256) % 256);
    let r1 = r.with_flag(Flag::Carry, v >= m);
    let r2 = r1.with_flag(Flag::Zero, d == 0);
    lemma_flag_update(r, Flag::Carry, v >= m);
    lemma_flag_update(r1, Flag::Zero, d == 0);
    lemma_flag_update(r2, Flag::Negative, d >= 128);
}

/// ASL, LSR, ROL, ROR on an accumulator operand: ASL doubles the byte modulo 256, LSR halves
/// it, ROL doubles it and adds the old carry, ROR halves it and adds the old carry as bit 7; the
/// carry takes the bit moved out (bit 7 to the left, bit 0 to the right), zero and negative
/// follow the result.
pub proof fn lemma_shifts<T: MemoryIndexer>(i: Instruction, r: Registers, bus: T, v: u8)
    requires
        i.operand == Some(Operand::Value(v)),
    ensures
        ({
            let c: int = if r.flag(Flag::Carry) { 1 } else { 0 };
            let asl = operation_spec(InstructionType::ASL, i, r, bus).registers;
            let lsr = operation_spec(InstructionType::LSR, i, r, bus).registers;
            let rol = operation_spec(InstructionType::ROL, i, r, bus).registers;
            let ror = operation_spec(InstructionType::ROR, i, r, bus).registers;
            &&& asl.accumulator == (2 * v) % 256 && asl.flag(Flag::Carry) == (v >= 128)
            &&& lsr.accumulator == v / 2 && lsr.flag(Flag::Carry) == (v % 2 == 1)
            &&& rol.accumulator == (2 * v) % 256 + c && rol.flag(Flag::Carry) == (v >= 128)
            &&& ror.accumulator == v / 2 + 128 * c && ror.flag(Flag::Carry) == (v % 2 == 1)
            &&& asl.flag(Flag::Zero) == (asl.accumulator == 0) && asl.flag(Flag::Negative) == (
            asl.accumulator >= 128)
            &&& lsr.flag(Flag::Zero) == (lsr.accumulator == 0) && lsr.flag(Flag::Negative) == (
            lsr.accumulator >= 128)
            &&& rol.flag(Flag::Zero) == (rol.accumulator == 0) && rol.flag(Flag::Negative) == (
            rol.accumulator >= 128)
            &&& ror.flag(Flag::Zero) == (ror.accumulator == 0) && ror.flag(Flag::Negative) == (
            ror.accumulator >= 128)
        }),
{
    let c: int = if r.flag(Flag::Carry) { 1 } else { 0 };
    let results = seq![
        ((2 * v) % 256) as u8,
        (v / 2) as u8,
        ((2 * v) % 256 + c) as u8,
        (v / 2 + 128 * c) as u8,
    ];
    let outs = seq![v >= 128, v % 2 == 1, v >= 128, v % 2 == 1];
    assert forall|k: int| 0 <= k < 4 implies {
        let res = #[trigger] results[k];
        let f = r.with_flag(Flag::Carry, outs[k]).with_flag(Flag::Zero, res == 0).with_flag(
            Flag::Negative,
            res >= 128,
        );
        f.flag(Flag::Carry) == outs[k] && f.flag(Flag::Zero) == (res == 0) && f.flag(
            Flag::Negative,
        ) == (res >= 128)
    } by {
        let res = results[k];
        let r1 = r.with_flag(Flag::Carry, outs[k]);
        let r2 = r1.with_flag(Flag::Zero, res == 0);
        lemma_flag_update(r, Flag::Carry, outs[k]);
        lemma_flag_update(r1, Flag::Zero, res == 0);
        lemma_flag_update(r2, Flag::Negative, res >= 128);
    }
    assert(results[0] == ((2 * v) % 256) as u8 && results[1] == (v / 2) as u8);
    assert(results[2] == ((2 * v) % 256 + c) as u8 && results[3] == (v / 2 + 128 * c) as u8);
}

/// Rotating a byte left through the carry and back right gives back the byte and the carry.
proof fn lemma_rotation_arithmetic(v: u8, c: int)
    requires
        c == 0 || c == 1,
    ensures
        ({
            let left = (2 * v) % 256 + c;
            let out: int = if v >= 128 { 1 } else { 0 };
            &&& left / 2 + 128 * out == v
            &&& (left % 2 == 1) == (c == 1)
        }),
{
}

/// ROR undoes ROL: rotating a byte left and then right gives back the byte and the carry.
#[verifier::spinoff_prover]
#[verifier::rlimit(40)]
pub proof fn lemma_rotate_round_trip<T: MemoryIndexer>(
    i: Instruction,
    j: Instruction,
    r: Registers,
    bus: T,
    v: u8,
)
    requires
        i.operand == Some(Operand::Value(v)),
    ensures
        ({
            let rol = operation_spec(InstructionType::ROL, i, r, bus).registers;
            let back = Instruction { operand: Some(Operand::Value(rol.accumulator)), ..j };
            let ror = operation_spec(InstructionType::ROR, back, rol, bus).registers;
            &&& ror.accumulator == v
            &&& ror.flag(Flag::Carry) == r.flag(Flag::Carry)
        }),
{
    let c: int = if r.flag(Flag::Carry) { 1 } else { 0 };
    lemma_shifts(i, r, bus, v);
    let rol = operation_spec(InstructionType::ROL, i, r, bus).registers;
    let back = Instruction { operand: Some(Operand::Value(rol.accumulator)), ..j };
    lemma_shifts(back, rol, bus, rol.accumulator);
    lemma_rotation_arithmetic(v, c);
}

/// AND, ORA, EOR combine the accumulator with the operand's byte bit by bit; negative follows
/// the result; ORA and EOR set zero from it, while AND clears zero whatever the result.
pub proof fn lemma_logic<T: MemoryIndexer>(i: Instruction, r: Registers, bus: T)
    requires
        i.operand is Some,
    ensures
        ({
            let m = operand_of(i, bus);
            let and = operation_spec(InstructionType::AND, i, r, bus).registers;
            let ora = operation_spec(InstructionType::ORA, i, r, bus).registers;
            let eor = operation_spec(InstructionType::EOR, i, r, bus).registers;
            &&& and.accumulator == r.accumulator & m && !and.flag(Flag::Zero) && and.flag(
                Flag::Negative,
            ) == (and.accumulator >= 128) && and.flag(Flag::Carry) == r.flag(Flag::Carry)
            &&& ora.accumulator == r.accumulator | m && zero_negative_of(r, ora, ora.accumulator)
            &&& eor.accumulator == r.accumulator ^ m && zero_negative_of(r, eor, eor.accumulator)
            &&& and.x == r.x && ora.x == r.x && eor.x == r.x
        }),
{
    let m = operand_of(i, bus);
    let a = r.accumulator & m;
    let o = r.accumulator | m;
    let e = r.accumulator ^ m;
    let ra = Registers { accumulator: a, ..r };
    lemma_flag_update(ra, Flag::Zero, false);
    lemma_flag_update(ra.with_flag(Flag::Zero, false), Flag::Negative, a >= 128);
    let ro = Registers { accumulator: o, ..r };
    lemma_flag_update(ro, Flag::Zero, o == 0);
    lemma_flag_update(ro.with_flag(Flag::Zero, o == 0), Flag::Negative, o >= 128);
    let re = Registers { accumulator: e, ..r };
    lemma_flag_update(re, Flag::Zero, e == 0);
    lemma_flag_update(re.with_flag(Flag::Zero, e == 0), Flag::Negative, e >= 128);
}

/// BIT tests the byte at its address: zero when it shares no bit with the accumulator, negative
/// and overflow copy its bits 7 and 6; the accumulator and the carry are kept.
pub proof fn lemma_bit_test<T: MemoryIndexer>(i: Instruction, r: Registers, bus: T, address: u16)
    requires
        i.operand == Some(Operand::Address(address)),
    ensures
        ({
            let m = bus.read_value(address);
            let bit = operation_spec(InstructionType::BIT, i, r, bus).registers;
            &&& bit.flag(Flag::Zero) == (r.accumulator & m == 0)
            &&& bit.flag(Flag::Negative) == (m >= 128)
            &&& bit.flag(Flag::Overflow) == (m % 128 >= 64)
            &&& bit.flag(Flag::Carry) == r.flag(Flag::Carry)
            &&& bit.accumulator == r.accumulator
        }),
{
    let m = bus.read_value(address);
    assert((m & 0b0100_0000 != 0) == (m % 128 >= 64)) by (bit_vector);
    let r1 = r.with_flag(Flag::Zero, r.accumulator & m == 0);
    let r2 = r1.with_flag(Flag::Negative, m >= 128);
    lemma_flag_update(r, Flag::Zero, r.accumulator & m == 0);
    lemma_flag_update(r1, Flag::Negative, m >= 128);
    lemma_flag_update(r2, Flag::Overflow, m & 0b0100_0000 != 0);
}

/// The conditional branches jump to their target exactly when their flag is in the tested state,
/// taking 3 cycles then and 2 otherwise: BEQ on zero set, BNE on zero clear, BMI on negative set,
/// BPL on negative clear, BVS on overflow set, BVC on overflow clear, BCS on carry set, and BCC
/// also on carry set (as this emulator's BCC does).
pub proof fn lemma_branches<T: MemoryIndexer>(i: Instruction, r: Registers, bus: T, target: u16)
    requires
        i.operand == Some(Operand::Address(target)),
    ensures
        ({
            let goes = |op: InstructionType, taken: bool|
                {
                    let e = operation_spec(op, i, r, bus);
                    &&& e.registers.program_counter == (if taken {
                        target
                    } else {
                        r.program_counter
                    })
                    &&& e.result == Ok::<u8, super::CpuError>(if taken { 3 } else { 2 })
                    &&& e.registers.flags == r.flags
                };
            &&& goes(InstructionType::BEQ, r.flag(Flag::Zero))
            &&& goes(InstructionType::BNE, !r.flag(Flag::Zero))
            &&& goes(InstructionType::BMI, r.flag(Flag::Negative))
            &&& goes(InstructionType::BPL, !r.flag(Flag::Negative))
            &&& goes(InstructionType::BVS, r.flag(Flag::Overflow))
            &&& goes(InstructionType::BVC, !r.flag(Flag::Overflow))
            &&& goes(InstructionType::BCS, r.flag(Flag::Carry))
            &&& goes(InstructionType::BCC, r.flag(Flag::Carry))
        }),
{
}

/// CLC, SEC, CLI, SEI, CLD, SED, CLV clear or set their flag and leave every other flag and
/// register as it was.
pub proof fn lemma_flag_instructions<T: MemoryIndexer>(i: Instruction, r: Registers, bus: T, g: Flag)
    ensures
        ({
            let after = |op: InstructionType| operation_spec(op, i, r, bus).registers;
            let sets = |op: InstructionType, flag: Flag, value: bool|
                after(op).flag(g) == (if g == flag {
                    value
                } else {
                    r.flag(g)
                }) && after(op).accumulator == r.accumulator && after(op).x == r.x
                    && after(op).program_counter == r.program_counter;
            &&& sets(InstructionType::CLC, Flag::Carry, false)
            &&& sets(InstructionType::SEC, Flag::Carry, true)
            &&& sets(InstructionType::CLI, Flag::InterruptDisable, false)
            &&& sets(InstructionType::SEI, Flag::InterruptDisable, true)
            &&& sets(InstructionType::CLD, Flag::DecimalMode, false)
            &&& sets(InstructionType::SED, Flag::DecimalMode, true)
            &&& sets(InstructionType::CLV, Flag::Overflow, false)
        }),
{
    lemma_flag_update(r, Flag::Carry, false);
    lemma_flag_update(r, Flag::Carry, true);
    lemma_flag_update(r, Flag::InterruptDisable, false);
    lemma_flag_update(r, Flag::InterruptDisable, true);
    lemma_flag_update(r, Flag::DecimalMode, false);
    lemma_flag_update(r, Flag::DecimalMode, true);
    lemma_flag_update(r, Flag::Overflow, false);
}

/// The 6502's cycle counts of a read instruction in each mode it takes.
pub open spec fn read_timing(mode: AddressingMode) -> Option<u8> {
    match mode {
        AddressingMode::Immediate => Some(2),
        AddressingMode::ZeroPage => Some(3),
        AddressingMode::ZeroPageIndexedX => Some(4),
        AddressingMode::Absolute => Some(4),
        AddressingMode::AbsoluteIndexedX => Some(4),
        AddressingMode::AbsoluteIndexedY => Some(4),
        AddressingMode::IndirectIndexedX => Some(6),
        AddressingMode::IndirectIndexedY => Some(5),
        _ => None,
    }
}

/// The cycles that an instruction reports, for the modes of `timing`; any other mode is refused.
pub open spec fn timed(result: Result<u8, CpuError>, timing: Option<u8>) -> bool {
    match timing {
        Some(cycles) => result == Ok::<u8, CpuError>(cycles),
        None => result == Err::<u8, CpuError>(CpuError::InvalidAddressingMode),
    }
}

/// LDA, ADC, SBC, AND, ORA, EOR and CMP take 2 cycles immediate, 3 in the zero page, 4 indexed
/// there or absolute (indexed or not), 6 through `(zp,X)` and 5 through `(zp),Y` (page crossings
/// not counted), and refuse every other mode; STA takes 3, 4, 4, 5, 5, 6, 6 in the modes `zp`,
/// `zp,X`, `abs`, `abs,X`, `abs,Y`, `(zp,X)`, `(zp),Y`; INC and DEC take 5, 6, 6, 7 in `zp`,
/// `zp,X`, `abs`, `abs,X`.
pub proof fn lemma_instruction_timing<T: MemoryIndexer>(i: Instruction, r: Registers, bus: T, address: u16)
    ensures
        i.operand is Some ==> {
            &&& timed(operation_spec(InstructionType::LDA, i, r, bus).result, read_timing(i.addressing_mode))
            &&& timed(operation_spec(InstructionType::ADC, i, r, bus).result, read_timing(i.addressing_mode))
            &&& timed(operation_spec(InstructionType::SBC, i, r, bus).result, read_timing(i.addressing_mode))
            &&& timed(operation_spec(InstructionType::AND, i, r, bus).result, read_timing(i.addressing_mode))
            &&& timed(operation_spec(InstructionType::ORA, i, r, bus).result, read_timing(i.addressing_mode))
            &&& timed(operation_spec(InstructionType::EOR, i, r, bus).result, read_timing(i.addressing_mode))
            &&& timed(operation_spec(InstructionType::CMP, i, r, bus).result, read_timing(i.addressing_mode))
        },
        i.operand == Some(Operand::Address(address)) ==> {
            &&& timed(
                operation_spec(InstructionType::STA, i, r, bus).result,
                match i.addressing_mode {
                    AddressingMode::ZeroPage => Some(3u8),
                    AddressingMode::ZeroPageIndexedX | AddressingMode::Absolute => Some(4u8),
                    AddressingMode::AbsoluteIndexedX | AddressingMode::AbsoluteIndexedY => Some(5u8),
                    AddressingMode::IndirectIndexedX | AddressingMode::IndirectIndexedY => Some(6u8),
                    _ => None,
                },
            )
            &&& timed(
                operation_spec(InstructionType::INC, i, r, bus).result,
                match i.addressing_mode {
                    AddressingMode::ZeroPage => Some(5u8),
                    AddressingMode::ZeroPageIndexedX | AddressingMode::Absolute => Some(6u8),
                    AddressingMode::AbsoluteIndexedX => Some(7u8),
                    _ => None,
                },
            )
            &&& timed(
                operation_spec(InstructionType::DEC, i, r, bus).result,
                match i.addressing_mode {
                    AddressingMode::ZeroPage => Some(5u8),
                    AddressingMode::ZeroPageIndexedX | AddressingMode::Absolute => Some(6u8),
                    AddressingMode::AbsoluteIndexedX => Some(7u8),
                    _ => None,
                },
            )
        },
{
}

} // verus!
