use manaslu::cpu::registers::{Flag, Registers};

#[test]
fn reads_carry_flag() {
    let mut registers = Registers::new();
    registers.flags = 0b0000_0001;

    assert_eq!(registers.get_flag(Flag::Carry), true);
}

#[test]
fn writes_carry_flag() {
    let mut registers = Registers::new();
    registers.set_flag(Flag::Carry, true);

    assert_eq!(registers.flags, 0b0010_0001);
}

#[test]
fn reads_zero_flag() {
    let mut registers = Registers::new();
    registers.flags = 0b0000_0010;

    assert_eq!(registers.get_flag(Flag::Zero), true);
}

#[test]
fn writes_zero_flag() {
    let mut registers = Registers::new();
    registers.set_flag(Flag::Zero, true);

    assert_eq!(registers.flags, 0b0010_0010);
}

#[test]
fn reads_interrupt_disable_flag() {
    let mut registers = Registers::new();
    registers.flags = 0b0000_0100;

    assert_eq!(registers.get_flag(Flag::InterruptDisable), true);
}

#[test]
fn writes_interrupt_disable_flag() {
    let mut registers = Registers::new();
    registers.set_flag(Flag::InterruptDisable, true);

    assert_eq!(registers.flags, 0b0010_0100);
}

#[test]
fn reads_decimal_mode_flag() {
    let mut registers = Registers::new();
    registers.flags = 0b0000_1000;

    assert_eq!(registers.get_flag(Flag::DecimalMode), true);
}

#[test]
fn writes_decimal_mode_flag() {
    let mut registers = Registers::new();
    registers.set_flag(Flag::DecimalMode, true);

    assert_eq!(registers.flags, 0b0010_1000);
}

#[test]
fn reads_b_flag() {
    let mut registers = Registers::new();
    registers.flags = 0b0001_0000;

    assert_eq!(registers.get_flag(Flag::B), true);
}

#[test]
fn writes_b_flag() {
    let mut registers = Registers::new();
    registers.set_flag(Flag::B, true);

    assert_eq!(registers.flags, 0b0011_0000);
}

#[test]
fn reads_overflow_flag() {
    let mut registers = Registers::new();
    registers.flags = 0b0100_0000;

    assert_eq!(registers.get_flag(Flag::Overflow), true);
}

#[test]
fn writes_overflow_flag() {
    let mut registers = Registers::new();
    registers.set_flag(Flag::Overflow, true);

    assert_eq!(registers.flags, 0b0110_0000);
}

#[test]
fn reads_negative_flag() {
    let mut registers = Registers::new();
    registers.flags = 0b1000_0000;

    assert_eq!(registers.get_flag(Flag::Negative), true);
}

#[test]
fn writes_negative_flag() {
    let mut registers = Registers::new();
    registers.set_flag(Flag::Negative, true);

    assert_eq!(registers.flags, 0b1010_0000);
}
