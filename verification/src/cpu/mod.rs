use vstd::prelude::*;
use crate::bus::MemoryIndexer;
use instruction_set::{
    AddressingMode, CpuError, Execution, Instruction, InstructionSet, InstructionType, Operand,
    opcode_table, operation_spec,
};
use registers::Registers;
use crate::utils::testing::TestBus;
use instruction_set::opcode_map::lemma_table_follows_the_opcode_map;
use disassembly::{Disassembly, disassemble, trace_spec};

pub mod cpu_bus;
pub mod disassembly;
pub mod instruction_set;
pub mod registers;

verus! {

/// Where the address of the non-maskable interrupt handler is stored.
pub const NMI_VECTOR: u16 = 0xFFFA;

/// Where the address at which execution starts after a reset is stored.
pub const RST_VECTOR: u16 = 0xFFFC;

/// Where the address of the interrupt handler is stored.
pub const IRQ_VECTOR: u16 = 0xFFFE;

/// The little-endian word that a read of `address` and of its high-byte address returns.
pub open spec fn word_at<T: MemoryIndexer>(bus: T, address: u16) -> u16 {
    (bus.read_value(address) + 256 * bus.after_read(address).read_value(
        T::high_byte_address(address),
    )) as u16
}

/// The bus after the word at `address` was read.
pub open spec fn after_word_read<T: MemoryIndexer>(bus: T, address: u16) -> T {
    bus.after_read(address).after_read(T::high_byte_address(address))
}

/// The registers with the program counter moved `count` bytes on, wrapping around.
pub open spec fn advanced(r: Registers, count: int) -> Registers {
    Registers { program_counter: ((r.program_counter + count) % 0x10000) as u16, ..r }
}

/// A byte read as a two's complement number.
pub open spec fn signed(byte: u8) -> int {
    if byte < 0x80 {
        byte as int
    } else {
        byte - 256
    }
}

/// What fetching an operand yields: the operand, the registers and the bus.
pub struct Fetch<T> {
    pub operand: Option<Operand>,
    pub registers: Registers,
    pub bus: T,
}

/// The operand that `mode` resolves to from the bytes at the program counter, which moves past
/// them.
pub open spec fn fetch_operand_spec<T: MemoryIndexer>(
    mode: AddressingMode,
    r: Registers,
    bus: T,
) -> Fetch<T> {
    match mode {
        AddressingMode::ZeroPageIndexedX | AddressingMode::ZeroPageIndexedY
        | AddressingMode::Immediate | AddressingMode::ZeroPage => byte_operand_spec(mode, r, bus),
        AddressingMode::AbsoluteIndexedX | AddressingMode::AbsoluteIndexedY
        | AddressingMode::Absolute => word_operand_spec(mode, r, bus),
        AddressingMode::IndirectIndexedX => indexed_indirect_spec(r, bus),
        AddressingMode::IndirectIndexedY => indirect_indexed_spec(r, bus),
        AddressingMode::Implicit => Fetch { operand: None, registers: r, bus },
        AddressingMode::Accumulator => Fetch {
            operand: Some(Operand::Value(r.accumulator)),
            registers: r,
            bus,
        },
        AddressingMode::Relative => relative_spec(r, bus),
        AddressingMode::Indirect => indirect_spec(r, bus),
    }
}

/// The modes whose operand comes from the byte after the opcode: `zp,X`, `zp,Y` (wrapping in
/// the zero page), `#imm` and `zp`.
pub open spec fn byte_operand_spec<T: MemoryIndexer>(
    mode: AddressingMode,
    r: Registers,
    bus: T,
) -> Fetch<T> {
    let byte = bus.read_value(r.program_counter);
    Fetch {
        operand: Some(
            match mode {
                AddressingMode::ZeroPageIndexedX => Operand::Address(((byte + r.x) % 256) as u16),
                AddressingMode::ZeroPageIndexedY => Operand::Address(((byte + r.y) % 256) as u16),
                AddressingMode::Immediate => Operand::Value(byte),
                _ => Operand::Address(byte as u16),
            },
        ),
        registers: advanced(r, 1),
        bus: bus.after_read(r.program_counter),
    }
}

/// The modes whose operand comes from the word after the opcode: `abs,X`, `abs,Y` (wrapping
/// around the address space) and `abs`.
pub open spec fn word_operand_spec<T: MemoryIndexer>(
    mode: AddressingMode,
    r: Registers,
    bus: T,
) -> Fetch<T> {
    let word = word_at(bus, r.program_counter);
    Fetch {
        operand: Some(
            Operand::Address(
                match mode {
                    AddressingMode::AbsoluteIndexedX => ((word + r.x) % 0x10000) as u16,
                    AddressingMode::AbsoluteIndexedY => ((word + r.y) % 0x10000) as u16,
                    _ => word,
                },
            ),
        ),
        registers: advanced(r, 2),
        bus: after_word_read(bus, r.program_counter),
    }
}

/// `(zp,X)`: the address is the word at the zero-page byte plus X (wrapping in the zero page).
pub open spec fn indexed_indirect_spec<T: MemoryIndexer>(r: Registers, bus: T) -> Fetch<T> {
    let pc = r.program_counter;
    let lookup = ((bus.read_value(pc) + r.x) % 256) as u16;
    Fetch {
        operand: Some(Operand::Address(word_at(bus.after_read(pc), lookup))),
        registers: advanced(r, 1),
        bus: after_word_read(bus.after_read(pc), lookup),
    }
}

/// `(zp),Y`: the address is the word at the zero-page byte, plus Y (wrapping around the address
/// space).
pub open spec fn indirect_indexed_spec<T: MemoryIndexer>(r: Registers, bus: T) -> Fetch<T> {
    let pc = r.program_counter;
    let pointer = bus.read_value(pc) as u16;
    Fetch {
        operand: Some(
            Operand::Address(((word_at(bus.after_read(pc), pointer) + r.y) % 0x10000) as u16),
        ),
        registers: advanced(r, 1),
        bus: after_word_read(bus.after_read(pc), pointer),
    }
}

/// A branch target: the signed byte after the opcode, added to the address that follows it.
pub open spec fn relative_spec<T: MemoryIndexer>(r: Registers, bus: T) -> Fetch<T> {
    let pc = r.program_counter;
    Fetch {
        operand: Some(
            Operand::Address(
                ((advanced(r, 1).program_counter + signed(bus.read_value(pc))) % 0x10000) as u16,
            ),
        ),
        registers: advanced(r, 1),
        bus: bus.after_read(pc),
    }
}

/// JMP's indirect operand: the word at the pointer that follows the opcode. The 6502 never
/// carries into the high byte of the pointer: a pointer at $xxFF takes its high byte from $xx00.
pub open spec fn indirect_spec<T: MemoryIndexer>(r: Registers, bus: T) -> Fetch<T> {
    let pc = r.program_counter;
    let pointer = word_at(bus, pc);
    let after_pointer = after_word_read(bus, pc);
    let high_address = if pointer % 256 == 255 {
        (pointer - 255) as u16
    } else {
        (pointer + 1) as u16
    };
    Fetch {
        operand: Some(
            Operand::Address(
                (after_pointer.after_read(pointer).read_value(high_address) * 256
                    + after_pointer.read_value(pointer)) as u16,
            ),
        ),
        registers: advanced(r, 2),
        bus: after_pointer.after_read(pointer).after_read(high_address),
    }
}

/// The instruction at the program counter with its operand, the registers and the bus after
/// the fetch; an opcode that the table leaves out is an error, after which only its read has
/// happened.
pub open spec fn fetch_instruction_spec<T: MemoryIndexer>(r: Registers, bus: T) -> (
    Result<Instruction, CpuError>,
    Registers,
    T,
) {
    let pc = r.program_counter;
    let opcode = bus.read_value(pc);
    match opcode_table(opcode) {
        None => (
            Err(CpuError::InvalidOpcode { opcode, program_counter: pc }),
            r,
            bus.after_read(pc),
        ),
        Some(entry) => {
            let fetched = fetch_operand_spec(entry.addressing_mode, advanced(r, 1), bus.after_read(pc));
            (Ok(Instruction { operand: fetched.operand, ..entry }), fetched.registers, fetched.bus)
        },
    }
}

/// One instruction: fetched, traced (the trace reads the bus again) and executed by its handler.
#[verifier::opaque]
pub open spec fn step_spec<T: MemoryIndexer>(r: Registers, bus: T) -> Execution<T> {
    let (fetched, registers, bus) = fetch_instruction_spec(r, bus);
    match fetched {
        Err(e) => Execution { registers, bus, result: Err(e) },
        Ok(instruction) => {
            let (_, traced) = trace_spec(instruction, registers, r.program_counter, bus);
            operation_spec(instruction.operation, instruction, registers, traced)
        },
    }
}

/// The trace of the instruction that a step fetches, when the opcode decodes.
pub open spec fn step_trace<T: MemoryIndexer>(r: Registers, bus: T) -> Option<Disassembly> {
    let (fetched, registers, bus) = fetch_instruction_spec(r, bus);
    match fetched {
        Err(_) => None,
        Ok(instruction) => Some(trace_spec(instruction, registers, r.program_counter, bus).0),
    }
}

/// The cycles of a traced step's result.
pub open spec fn cycles_of(result: Result<(u8, Disassembly), CpuError>) -> Result<u8, CpuError> {
    match result {
        Ok((cycles, _)) => Ok(cycles),
        Err(e) => Err(e),
    }
}

/// How many bytes follow the opcode of an instruction in `mode`.
pub open spec fn operand_length(mode: AddressingMode) -> int {
    match mode {
        AddressingMode::Implicit | AddressingMode::Accumulator => 0,
        AddressingMode::AbsoluteIndexedX | AddressingMode::AbsoluteIndexedY
        | AddressingMode::Absolute | AddressingMode::Indirect => 2,
        _ => 1,
    }
}

/// Fetching an operand moves the program counter past exactly the operand's bytes and changes
/// no other register.
pub proof fn lemma_fetch_moves_past_operand<T: MemoryIndexer>(
    mode: AddressingMode,
    r: Registers,
    bus: T,
)
    ensures
        fetch_operand_spec(mode, r, bus).registers == advanced(r, operand_length(mode)),
{
    if mode == AddressingMode::Implicit || mode == AddressingMode::Accumulator {
        assert(advanced(r, 0) == r);
    }
}

/// The 6502: its registers and its decoder.
pub struct CPU {
    pub registers: Registers,
    pub instruction_set: InstructionSet,
}

impl CPU {
    pub fn new() -> (cpu: CPU)
        ensures
            cpu.registers == Registers::initial(0),
    {
        CPU { registers: Registers::new(), instruction_set: InstructionSet::new() }
    }

    pub fn registers(&self) -> (r: &Registers)
        ensures
            *r == self.registers,
    {
        &self.registers
    }

    /// Resets the registers and starts execution at the address stored at the reset vector.
    pub fn reset<T: MemoryIndexer>(&mut self, bus: &mut T)
        requires
            old(bus).inv(),
        ensures
            final(bus).inv(),
            final(self).registers == Registers::initial(word_at(*old(bus), RST_VECTOR)),
            *final(bus) == after_word_read(*old(bus), RST_VECTOR),
    {
        let reset_address = bus.read_word(RST_VECTOR);
        self.registers.reset(reset_address);
    }

    /// Resets the registers and starts execution at `address`.
    pub fn reset_at_address(&mut self, address: u16)
        ensures
            final(self).registers == Registers::initial(address),
    {
        self.registers.reset(address);
    }

    /// Executes one instruction and returns the cycles it took.
    pub fn step<T: MemoryIndexer>(&mut self, bus: &mut T) -> (result: Result<u8, CpuError>)
        requires
            old(bus).inv(),
        ensures
            final(bus).inv(),
            (Execution { registers: final(self).registers, bus: *final(bus), result })
                == step_spec(old(self).registers, *old(bus)),
    {
        match self.step_traced(bus) {
            Ok((cycles, _)) => Ok(cycles),
            Err(e) => Err(e),
        }
    }

    /// Fetches one instruction, traces it (reading its operand bytes and the bytes they designate
    /// again) and executes it; returns the cycles it took and the trace.
    pub fn step_traced<T: MemoryIndexer>(&mut self, bus: &mut T) -> (result: Result<
        (u8, Disassembly),
        CpuError,
    >)
        requires
            old(bus).inv(),
        ensures
            final(bus).inv(),
            (Execution { registers: final(self).registers, bus: *final(bus), result: cycles_of(result) })
                == step_spec(old(self).registers, *old(bus)),
            result matches Ok((_, trace)) ==> step_trace(old(self).registers, *old(bus)) == Some(
                trace,
            ),
    {
        proof {
            reveal(step_spec);
        }
        let starting_program_counter = self.registers.program_counter;
        let next_instruction = match self.fetch_next_instruction(bus) {
            Ok(instruction) => instruction,
            Err(e) => return Err(e),
        };

        let trace = disassemble(&next_instruction, &self.registers, starting_program_counter, bus);

        match InstructionSet::execute(&next_instruction, &mut self.registers, bus) {
            Ok(cycles) => Ok((cycles, trace)),
            Err(e) => Err(e),
        }
    }

    /// Reads the opcode at the program counter, decodes it and fetches its operand.
    pub fn fetch_next_instruction<T: MemoryIndexer>(&mut self, bus: &mut T) -> (result: Result<
        Instruction,
        CpuError,
    >)
        requires
            old(bus).inv(),
        ensures
            final(bus).inv(),
            (result, final(self).registers, *final(bus)) == fetch_instruction_spec(
                old(self).registers,
                *old(bus),
            ),
    {
        let opcode = bus.read_byte(self.registers.program_counter);
        let mut instruction = match self.instruction_set.get_instruction(opcode) {
            Some(instruction) => instruction,
            None => {
                return Err(
                    CpuError::InvalidOpcode {
                        opcode,
                        program_counter: self.registers.program_counter,
                    },
                )
            },
        };

        self.registers.increment_program_counter(1);

        instruction.operand = self.fetch_operand(instruction.addressing_mode, bus);

        Ok(instruction)
    }

    /// Resolves the operand of an instruction in `addressing_mode` from the bytes at the
    /// program counter, and moves the program counter past them.
    pub fn fetch_operand<T: MemoryIndexer>(
        &mut self,
        addressing_mode: AddressingMode,
        bus: &mut T,
    ) -> (operand: Option<Operand>)
        requires
            old(bus).inv(),
        ensures
            final(bus).inv(),
            (Fetch { operand, registers: final(self).registers, bus: *final(bus) })
                == fetch_operand_spec(addressing_mode, old(self).registers, *old(bus)),
    {
        match addressing_mode {
            AddressingMode::ZeroPageIndexedX | AddressingMode::ZeroPageIndexedY
            | AddressingMode::Immediate | AddressingMode::ZeroPage => self.fetch_byte_operand(
                addressing_mode,
                bus,
            ),
            AddressingMode::AbsoluteIndexedX | AddressingMode::AbsoluteIndexedY
            | AddressingMode::Absolute => self.fetch_word_operand(addressing_mode, bus),
            AddressingMode::IndirectIndexedX => self.fetch_indexed_indirect(bus),
            AddressingMode::IndirectIndexedY => self.fetch_indirect_indexed(bus),
            AddressingMode::Implicit => None,
            AddressingMode::Accumulator => Some(Operand::Value(self.registers.accumulator)),
            AddressingMode::Relative => self.fetch_relative(bus),
            AddressingMode::Indirect => self.fetch_indirect(bus),
        }
    }

    /// The modes whose operand is the one byte after the opcode.
    #[verifier::rlimit(40)]
    fn fetch_byte_operand<T: MemoryIndexer>(
        &mut self,
        addressing_mode: AddressingMode,
        bus: &mut T,
    ) -> (operand: Option<Operand>)
        requires
            old(bus).inv(),
            addressing_mode == AddressingMode::ZeroPageIndexedX || addressing_mode
                == AddressingMode::ZeroPageIndexedY || addressing_mode == AddressingMode::Immediate
                || addressing_mode == AddressingMode::ZeroPage,
        ensures
            final(bus).inv(),
            (Fetch { operand, registers: final(self).registers, bus: *final(bus) })
                == byte_operand_spec(addressing_mode, old(self).registers, *old(bus)),
    {
        let value = bus.read_byte(self.registers.program_counter);
        self.registers.increment_program_counter(1);
        match addressing_mode {
            AddressingMode::ZeroPageIndexedX => {
                let effective_address = value.wrapping_add(self.registers.x);

                Some(Operand::Address(effective_address as u16))
            },
            AddressingMode::ZeroPageIndexedY => {
                let effective_address = value.wrapping_add(self.registers.y);

                Some(Operand::Address(effective_address as u16))
            },
            AddressingMode::Immediate => Some(Operand::Value(value)),
            _ => Some(Operand::Address(value as u16)),
        }
    }

    /// The modes whose operand is the word after the opcode, indexed or not.
    #[verifier::rlimit(40)]
    fn fetch_word_operand<T: MemoryIndexer>(
        &mut self,
        addressing_mode: AddressingMode,
        bus: &mut T,
    ) -> (operand: Option<Operand>)
        requires
            old(bus).inv(),
            addressing_mode == AddressingMode::AbsoluteIndexedX || addressing_mode
                == AddressingMode::AbsoluteIndexedY || addressing_mode == AddressingMode::Absolute,
        ensures
            final(bus).inv(),
            (Fetch { operand, registers: final(self).registers, bus: *final(bus) })
                == word_operand_spec(addressing_mode, old(self).registers, *old(bus)),
    {
        let address = bus.read_word(self.registers.program_counter);
        self.registers.increment_program_counter(2);
        match addressing_mode {
            AddressingMode::AbsoluteIndexedX => {
                let effective_address = address.wrapping_add(self.registers.x as u16);
                assert(effective_address == ((address + self.registers.x) % 0x10000) as u16);

                Some(Operand::Address(effective_address))
            },
            AddressingMode::AbsoluteIndexedY => {
                let effective_address = address.wrapping_add(self.registers.y as u16);
                assert(effective_address == ((address + self.registers.y) % 0x10000) as u16);

                Some(Operand::Address(effective_address))
            },
            _ => Some(Operand::Address(address)),
        }
    }

    /// `(zp,X)`: a pointer in the zero page, indexed before it is read.
    #[verifier::rlimit(40)]
    fn fetch_indexed_indirect<T: MemoryIndexer>(&mut self, bus: &mut T) -> (operand: Option<Operand>)
        requires
            old(bus).inv(),
        ensures
            final(bus).inv(),
            (Fetch { operand, registers: final(self).registers, bus: *final(bus) })
                == indexed_indirect_spec(old(self).registers, *old(bus)),
    {
        let address = bus.read_byte(self.registers.program_counter);
        self.registers.increment_program_counter(1);

        let lookup_address = address.wrapping_add(self.registers.x);
        let effective_address = bus.read_word(lookup_address as u16);

        Some(Operand::Address(effective_address))
    }

    /// `(zp),Y`: a pointer in the zero page, indexed after it is read.
    #[verifier::rlimit(40)]
    fn fetch_indirect_indexed<T: MemoryIndexer>(&mut self, bus: &mut T) -> (operand: Option<Operand>)
        requires
            old(bus).inv(),
        ensures
            final(bus).inv(),
            (Fetch { operand, registers: final(self).registers, bus: *final(bus) })
                == indirect_indexed_spec(old(self).registers, *old(bus)),
    {
        let address = bus.read_byte(self.registers.program_counter);
        self.registers.increment_program_counter(1);

        let base_address = bus.read_word(address as u16);
        let effective_address = base_address.wrapping_add(self.registers.y as u16);
        assert(effective_address == ((base_address + self.registers.y) % 0x10000) as u16);

        Some(Operand::Address(effective_address))
    }

    /// A branch target: the signed byte after the opcode, added to the address that follows it.
    #[verifier::rlimit(40)]
    fn fetch_relative<T: MemoryIndexer>(&mut self, bus: &mut T) -> (operand: Option<Operand>)
        requires
            old(bus).inv(),
        ensures
            final(bus).inv(),
            (Fetch { operand, registers: final(self).registers, bus: *final(bus) })
                == relative_spec(old(self).registers, *old(bus)),
    {
        let offset = bus.read_byte(self.registers.program_counter);
        self.registers.increment_program_counter(1);

        let program_counter = self.registers.program_counter;
        let target = if offset < 0x80 {
            program_counter.wrapping_add(offset as u16)
        } else {
            program_counter.wrapping_sub(256 - offset as u16)
        };
        assert(target == ((program_counter + signed(offset)) % 0x10000) as u16);

        Some(Operand::Address(target))
    }

    /// JMP's indirect operand, with the 6502's page-wrap bug.
    #[verifier::rlimit(40)]
    fn fetch_indirect<T: MemoryIndexer>(&mut self, bus: &mut T) -> (operand: Option<Operand>)
        requires
            old(bus).inv(),
        ensures
            final(bus).inv(),
            (Fetch { operand, registers: final(self).registers, bus: *final(bus) })
                == indirect_spec(old(self).registers, *old(bus)),
    {
        let effective_address = bus.read_word(self.registers.program_counter);
        self.registers.increment_program_counter(2);

        // 6502 JMP Indirect bug: if effective_address is $xxFF, the high byte
        // is fetched from $xx00 instead of $(xx+1)00
        let lo = bus.read_byte(effective_address) as u16;
        let hi_addr = if effective_address % 256 == 255 {
            effective_address - 255
        } else {
            effective_address + 1
        };
        let hi = bus.read_byte(hi_addr) as u16;
        let effective_target = hi * 256 + lo;

        Some(Operand::Address(effective_target))
    }
}

impl Default for CPU {
    fn default() -> (cpu: CPU)
        ensures
            cpu.registers == Registers::initial(0),
    {
        Self::new()
    }
}

/// The byte of a plain memory at `address`, which wraps around the address space.
pub open spec fn byte_of(bus: TestBus, address: int) -> u8 {
    bus.memory@[address % 0x10000]
}

/// On a plain memory, each LDA opcode loads the byte that its addressing mode designates, from
/// the operand bytes after the opcode: `#imm` the byte itself, `zp` and `abs` the byte there,
/// `zp,X` with the index wrapping in the zero page, `abs,X` and `abs,Y` with it wrapping around
/// the address space, `(zp,X)` through the word at the indexed zero-page byte, `(zp),Y` through
/// the word at the zero-page byte plus Y. The program counter moves past the operand bytes.
#[verifier::spinoff_prover]
#[verifier::rlimit(100)]
pub proof fn lemma_lda_loads_what_its_mode_designates(r: Registers, bus: TestBus)
    requires
        ({
            let op = byte_of(bus, r.program_counter as int);
            op == 0xA9 || op == 0xA5 || op == 0xB5 || op == 0xAD || op == 0xBD || op == 0xB9
                || op == 0xA1 || op == 0xB1
        }),
    ensures
        ({
            let pc = r.program_counter as int;
            let op = byte_of(bus, pc);
            let b1 = byte_of(bus, pc + 1);
            let word = b1 + 256 * byte_of(bus, pc + 2);
            let loaded = step_spec(r, bus).registers.accumulator;
            &&& op == 0xA9 ==> loaded == b1
            &&& op == 0xA5 ==> loaded == byte_of(bus, b1 as int)
            &&& op == 0xB5 ==> loaded == byte_of(bus, (b1 + r.x) % 256)
            &&& op == 0xAD ==> loaded == byte_of(bus, word)
            &&& op == 0xBD ==> loaded == byte_of(bus, word + r.x)
            &&& op == 0xB9 ==> loaded == byte_of(bus, word + r.y)
            &&& op == 0xA1 ==> {
                let z = (b1 + r.x) % 256;
                loaded == byte_of(bus, byte_of(bus, z) + 256 * byte_of(bus, z + 1))
            }
            &&& op == 0xB1 ==> loaded == byte_of(
                bus,
                byte_of(bus, b1 as int) + 256 * byte_of(bus, b1 + 1) + r.y,
            )
            &&& step_spec(r, bus).registers.program_counter == (pc + 1 + operand_length(
                opcode_table(op).unwrap().addressing_mode,
            )) % 0x10000
        }),
{
    let pc = r.program_counter as int;
    let op = byte_of(bus, pc);
    let entry = opcode_table(op).unwrap();
    lemma_table_follows_the_opcode_map(op);
    lemma_fetch_moves_past_operand(entry.addressing_mode, advanced(r, 1), bus);
    lemma_loading_step(r, bus, entry);
}

/// On a plain memory, a step whose opcode decodes to an LDA row loads the byte that its fetched
/// operand designates (the operand itself when it is a value).
#[verifier::spinoff_prover]
#[verifier::rlimit(60)]
proof fn lemma_loading_step(r: Registers, bus: TestBus, entry: Instruction)
    requires
        opcode_table(bus.read_value(r.program_counter)) == Some(entry),
        entry.operation == InstructionType::LDA,
        entry.addressing_mode != AddressingMode::Implicit,
    ensures
        ({
            let fetched = fetch_operand_spec(entry.addressing_mode, advanced(r, 1), bus);
            &&& step_spec(r, bus).registers.program_counter == fetched.registers.program_counter
            &&& step_spec(r, bus).registers.accumulator == match fetched.operand {
                Some(Operand::Value(value)) => value,
                Some(Operand::Address(address)) => bus.read_value(address),
                None => 0,
            }
        }),
{
    reveal(step_spec);
    let fetched = fetch_operand_spec(entry.addressing_mode, advanced(r, 1), bus);
    assert(fetched.bus == bus);
    let instruction = Instruction { operand: fetched.operand, ..entry };
    assert(trace_spec(instruction, fetched.registers, r.program_counter, bus).1 == bus);
}

/// On a plain memory, the operand that each addressing mode fetches from the bytes after the
/// opcode at `pc`: `#imm` the byte itself, `zp` its zero-page address, `zp,X` and `zp,Y` with
/// the index wrapping in the zero page, `abs` the word, `abs,X` and `abs,Y` with the index
/// wrapping around the address space, `(zp,X)` the word at the indexed zero-page byte, `(zp),Y`
/// the word at the zero-page byte plus Y, a branch the signed offset from the next instruction,
/// and JMP's indirect form the word at the pointer, whose high byte stays in the pointer's page.
#[verifier::spinoff_prover]
#[verifier::rlimit(60)]
pub proof fn lemma_fetched_operands(mode: AddressingMode, r: Registers, bus: TestBus)
    ensures
        ({
            let pc = r.program_counter as int;
            let b1 = byte_of(bus, pc);
            let word = b1 + 256 * byte_of(bus, pc + 1);
            let operand = fetch_operand_spec(mode, r, bus).operand;
            let address = |a: int| Some(Operand::Address((a % 0x10000) as u16));
            &&& mode == AddressingMode::Immediate ==> operand == Some(Operand::Value(b1))
            &&& mode == AddressingMode::ZeroPage ==> operand == address(b1 as int)
            &&& mode == AddressingMode::ZeroPageIndexedX ==> operand == address((b1 + r.x) % 256)
            &&& mode == AddressingMode::ZeroPageIndexedY ==> operand == address((b1 + r.y) % 256)
            &&& mode == AddressingMode::Absolute ==> operand == address(word)
            &&& mode == AddressingMode::AbsoluteIndexedX ==> operand == address(word + r.x)
            &&& mode == AddressingMode::AbsoluteIndexedY ==> operand == address(word + r.y)
            &&& mode == AddressingMode::IndirectIndexedX ==> {
                let z = (b1 + r.x) % 256;
                operand == address(byte_of(bus, z) + 256 * byte_of(bus, z + 1))
            }
            &&& mode == AddressingMode::IndirectIndexedY ==> operand == address(
                byte_of(bus, b1 as int) + 256 * byte_of(bus, b1 + 1) + r.y,
            )
            &&& mode == AddressingMode::Relative ==> operand == address(
                pc + 1 + (if b1 < 128 { b1 as int } else { b1 - 256 }) + 0x10000,
            )
            &&& mode == AddressingMode::Indirect ==> {
                let low_at = word % 0x10000;
                let high_at = low_at - low_at % 256 + (low_at + 1) % 256;
                operand == address(byte_of(bus, low_at) + 256 * byte_of(bus, high_at))
            }
            &&& mode == AddressingMode::Implicit ==> operand is None
            &&& mode == AddressingMode::Accumulator ==> operand == Some(
                Operand::Value(r.accumulator),
            )
        }),
{
    let pc = r.program_counter as int;
    let b1 = byte_of(bus, pc);
    let word = b1 + 256 * byte_of(bus, pc + 1);
    assert(word_at(bus, r.program_counter) == word % 0x10000);
    match mode {
        AddressingMode::Relative => {
            assert(advanced(r, 1).program_counter == (pc + 1) % 0x10000);
        },
        AddressingMode::Indirect => {
            let w = word % 0x10000;
            assert(w % 256 == 255 ==> w - 255 == w - w % 256 + (w + 1) % 256);
            assert(w % 256 != 255 ==> w + 1 == w - w % 256 + (w + 1) % 256);
        },
        _ => {},
    }
}

/// On a plain memory, the trace of a step shows the instruction that the fetch decoded, and for
/// an operand that is an address, that address; a value that it shows is the byte there. An
/// immediate operand shows as its byte.
#[verifier::spinoff_prover]
#[verifier::rlimit(60)]
pub proof fn lemma_trace_shows_the_fetched_operand(r: Registers, bus: TestBus)
    ensures
        match fetch_instruction_spec(r, bus).0 {
            Err(_) => step_trace(r, bus) is None,
            Ok(i) => {
                let d = step_trace(r, bus).unwrap();
                &&& step_trace(r, bus) is Some
                &&& d.opcode == i.opcode
                &&& d.instruction_type == i.instruction_type
                &&& d.addressing_mode == i.addressing_mode
                &&& (i.operand matches Some(Operand::Address(a)) ==> d.effective == Some(a))
                &&& (i.addressing_mode == AddressingMode::Immediate ==> (i.operand matches Some(
                    Operand::Value(v),
                ) ==> d.low == v))
                &&& (d.value is Some ==> d.effective is Some && d.value == Some(
                    bus.read_value(d.effective.unwrap()),
                ))
            },
        },
{
    let pc = r.program_counter;
    match opcode_table(bus.read_value(pc)) {
        None => {},
        Some(entry) => {
            lemma_trace_of_entry(r, bus, entry);
        },
    }
}

/// The trace of a step whose opcode decodes to `entry`, on a plain memory.
#[verifier::spinoff_prover]
#[verifier::rlimit(60)]
proof fn lemma_trace_of_entry(r: Registers, bus: TestBus, entry: Instruction)
    requires
        opcode_table(bus.read_value(r.program_counter)) == Some(entry),
    ensures
        ({
            let i = fetch_instruction_spec(r, bus).0.unwrap();
            let d = step_trace(r, bus).unwrap();
            &&& fetch_instruction_spec(r, bus).0 is Ok
            &&& step_trace(r, bus) is Some
            &&& d.opcode == i.opcode
            &&& d.instruction_type == i.instruction_type
            &&& d.addressing_mode == i.addressing_mode
            &&& (i.operand matches Some(Operand::Address(a)) ==> d.effective == Some(a))
            &&& (i.addressing_mode == AddressingMode::Immediate ==> (i.operand matches Some(
                    Operand::Value(v),
                ) ==> d.low == v))
            &&& (d.value is Some ==> d.effective is Some && d.value == Some(
                bus.read_value(d.effective.unwrap()),
            ))
        }),
{
    let fetched = fetch_operand_spec(entry.addressing_mode, advanced(r, 1), bus);
    assert(fetched.bus == bus);
    let i = Instruction { operand: fetched.operand, ..entry };
    let (d, _) = trace_spec(i, fetched.registers, r.program_counter, bus);
    assert(step_trace(r, bus) == Some(d));
    match entry.addressing_mode {
        AddressingMode::AbsoluteIndexedX | AddressingMode::AbsoluteIndexedY
        | AddressingMode::Absolute | AddressingMode::Indirect => {
            assert(word_at(bus, advanced(r, 1).program_counter) == (d.low + 256 * d.high) as u16);
        },
        _ => {},
    }
}

} // verus!
