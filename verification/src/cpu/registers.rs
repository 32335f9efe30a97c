use vstd::prelude::*;

verus! {

/// The bits of the 6502 status register.
#[derive(Clone, Copy, Debug, PartialEq, Eq, Structural)]
pub enum Flag {
    Carry,
    Zero,
    InterruptDisable,
    DecimalMode,
    B,
    Overflow,
    Negative,
}

impl Flag {
    /// Position of the flag in the status byte (bit 5 is unused).
    pub open spec fn bit_index(self) -> u8 {
        match self {
            Flag::Carry => 0,
            Flag::Zero => 1,
            Flag::InterruptDisable => 2,
            Flag::DecimalMode => 3,
            Flag::B => 4,
            Flag::Overflow => 6,
            Flag::Negative => 7,
        }
    }

    /// The status byte with only this flag set.
    pub open spec fn bit_mask(self) -> u8 {
        match self {
            Flag::Carry => 0x01,
            Flag::Zero => 0x02,
            Flag::InterruptDisable => 0x04,
            Flag::DecimalMode => 0x08,
            Flag::B => 0x10,
            Flag::Overflow => 0x40,
            Flag::Negative => 0x80,
        }
    }

    /// The mask of this flag, `1 << bit_index`.
    pub fn mask(&self) -> (m: u8)
        ensures
            m == self.bit_mask(),
            m == 1u8 << self.bit_index(),
    {
        let index: u8 = match self {
            Flag::Carry => 0,
            Flag::Zero => 1,
            Flag::InterruptDisable => 2,
            Flag::DecimalMode => 3,
            Flag::B => 4,
            Flag::Overflow => 6,
            Flag::Negative => 7,
        };
        assert(1u8 << 0u8 == 0x01u8 && 1u8 << 1u8 == 0x02u8 && 1u8 << 2u8 == 0x04u8
            && 1u8 << 3u8 == 0x08u8 && 1u8 << 4u8 == 0x10u8 && 1u8 << 6u8 == 0x40u8
            && 1u8 << 7u8 == 0x80u8) by (bit_vector);
        1u8 << index
    }
}

/// The value of the status byte after power-on and reset: only the unused bit 5 is set.
pub const INITIAL_FLAGS: u8 = 0b0010_0000;

/// The programmer-visible registers of the 6502.
#[derive(Clone, Copy, Debug, PartialEq, Eq, Structural)]
pub struct Registers {
    pub accumulator: u8,
    pub stack_pointer: u8,
    pub program_counter: u16,
    pub flags: u8,
    pub x: u8,
    pub y: u8,
}

/// `flags` with the bit of `flag` set to `value` and every other bit kept.
pub open spec fn flags_with(flags: u8, flag: Flag, value: bool) -> u8 {
    if value {
        flags | flag.bit_mask()
    } else {
        flags & !flag.bit_mask()
    }
}

impl Registers {
    /// The registers after a reset that starts execution at `program_counter`.
    pub open spec fn initial(program_counter: u16) -> Registers {
        Registers {
            accumulator: 0,
            stack_pointer: 0,
            program_counter,
            flags: INITIAL_FLAGS,
            x: 0,
            y: 0,
        }
    }

    /// Whether `flag` is set in the status byte.
    pub open spec fn flag(self, flag: Flag) -> bool {
        self.flags & flag.bit_mask() != 0
    }

    /// These registers with `flag` set to `value`.
    pub open spec fn with_flag(self, flag: Flag, value: bool) -> Registers {
        Registers { flags: flags_with(self.flags, flag, value), ..self }
    }

    pub fn new() -> (r: Registers)
        ensures
            r == Registers::initial(0),
    {
        Registers {
            accumulator: 0,
            stack_pointer: 0,
            program_counter: 0,
            flags: INITIAL_FLAGS,
            x: 0,
            y: 0,
        }
    }

    /// Puts every register in its reset state, with execution starting at `program_counter`.
    pub fn reset(&mut self, program_counter: u16)
        ensures
            *final(self) == Registers::initial(program_counter),
    {
        self.accumulator = 0;
        self.stack_pointer = 0;
        self.program_counter = program_counter;
        self.flags = INITIAL_FLAGS;
        self.x = 0;
        self.y = 0;
    }

    /// Advances the program counter by `amount`, wrapping around at the end of the address space.
    pub fn increment_program_counter(&mut self, amount: u16)
        ensures
            *final(self) == (Registers {
                program_counter: ((old(self).program_counter + amount) % 0x10000) as u16,
                ..*old(self)
            }),
    {
        self.program_counter = self.program_counter.wrapping_add(amount);
    }

    /// Moves the stack pointer up by `amount` (a pull), wrapping within the stack page.
    pub fn increment_stack_pointer(&mut self, amount: u8)
        ensures
            *final(self) == (Registers {
                stack_pointer: ((old(self).stack_pointer + amount) % 0x100) as u8,
                ..*old(self)
            }),
    {
        self.stack_pointer = self.stack_pointer.wrapping_add(amount);
    }

    /// Moves the stack pointer down by `amount` (a push), wrapping within the stack page.
    pub fn decrement_stack_pointer(&mut self, amount: u8)
        ensures
            *final(self) == (Registers {
                stack_pointer: ((old(self).stack_pointer - amount) % 0x100) as u8,
                ..*old(self)
            }),
    {
        self.stack_pointer = self.stack_pointer.wrapping_sub(amount);
    }

    /// Sets or clears one flag of the status byte.
    pub fn set_flag(&mut self, flag: Flag, value: bool)
        ensures
            *final(self) == old(self).with_flag(flag, value),
    {
        let mask = flag.mask();
        if value {
            self.flags = self.flags | mask;
        } else {
            self.flags = self.flags & !mask;
        }
    }

    /// Whether one flag of the status byte is set.
    pub fn get_flag(&self, flag: Flag) -> (r: bool)
        ensures
            r == self.flag(flag),
    {
        (self.flags & flag.mask()) != 0
    }
}

impl Default for Registers {
    fn default() -> (r: Registers)
        ensures
            r == Registers::initial(0),
    {
        Self::new()
    }
}

/// What a flag was set to is what is read back, and no other flag and no other register changes.
pub proof fn lemma_set_flag_then_get(registers: Registers, flag: Flag, value: bool, other: Flag)
    ensures
        registers.with_flag(flag, value).flag(flag) == value,
        other != flag ==> registers.with_flag(flag, value).flag(other) == registers.flag(other),
        registers.with_flag(flag, value).accumulator == registers.accumulator,
        registers.with_flag(flag, value).x == registers.x,
        registers.with_flag(flag, value).y == registers.y,
        registers.with_flag(flag, value).stack_pointer == registers.stack_pointer,
        registers.with_flag(flag, value).program_counter == registers.program_counter,
{
    let f = registers.flags;
    let m = flag.bit_mask();
    let n = other.bit_mask();
    assert(m == 1 || m == 2 || m == 4 || m == 8 || m == 16 || m == 64 || m == 128);
    assert(n == 1 || n == 2 || n == 4 || n == 8 || n == 16 || n == 64 || n == 128);
    assert(other != flag ==> m != n);
    assert((f | m) & m != 0 && (f & !m) & m == 0) by (bit_vector)
        requires m == 1 || m == 2 || m == 4 || m == 8 || m == 16 || m == 64 || m == 128;
    assert(m != n ==> (((f | m) & n != 0) == (f & n != 0) && ((f & !m) & n != 0) == (f & n != 0)))
        by (bit_vector)
        requires
            m == 1 || m == 2 || m == 4 || m == 8 || m == 16 || m == 64 || m == 128,
            n == 1 || n == 2 || n == 4 || n == 8 || n == 16 || n == 64 || n == 128;
}

/// Setting a flag to the value it already has leaves the registers as they are.
pub proof fn lemma_set_flag_idempotent(registers: Registers, flag: Flag)
    ensures
        registers.with_flag(flag, registers.flag(flag)) == registers,
{
    let f = registers.flags;
    let m = flag.bit_mask();
    assert(m == 1 || m == 2 || m == 4 || m == 8 || m == 16 || m == 64 || m == 128);
    assert((f & m != 0 ==> (f | m) == f) && (f & m == 0 ==> (f & !m) == f)) by (bit_vector)
        requires m == 1 || m == 2 || m == 4 || m == 8 || m == 16 || m == 64 || m == 128;
}

} // verus!
