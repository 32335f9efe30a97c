use vstd::prelude::*;
use crate::bus::MemoryIndexer;
use crate::cartridge::{Cartridge, CartridgeError, image_error};
use crate::cpu::{CPU, RST_VECTOR, step_spec, step_trace, word_at};
use crate::cpu::disassembly::Disassembly;
use crate::cpu::cpu_bus::CpuBus;
use crate::cpu::instruction_set::CpuError;
use crate::cpu::registers::Registers;
use crate::ppu::{PIXEL_BUFFER_SIZE, PRE_RENDER_SCANLINE, run};
use crate::ppu::registers::Registers as PpuRegisters;

verus! {

/// The console: the CPU and its bus, which holds the cartridge and the PPU.
pub struct Manaslu {
    cpu: CPU,
    cpu_bus: CpuBus,
}

impl Manaslu {
    /// The CPU.
    pub closed spec fn cpu_state(self) -> CPU {
        self.cpu
    }

    /// The CPU's bus.
    pub closed spec fn bus_state(self) -> CpuBus {
        self.cpu_bus
    }

    /// The bus keeps its invariant, which `new` establishes and every method keeps.
    pub open spec fn wf(self) -> bool {
        self.bus_state().inv()
    }

    /// Loads the iNES image `rom`, builds the bus around its cartridge and resets the CPU, which
    /// starts at the address stored at the reset vector.
    pub fn new(rom: &[u8]) -> (result: Result<Manaslu, CartridgeError>)
        ensures
            match image_error(rom@) {
                Some(e) => result == Err::<Manaslu, CartridgeError>(e),
                None => result is Ok,
            },
            result matches Ok(console) ==> {
                let bus = console.bus_state();
                &&& console.wf()
                &&& bus.cartridge.holds_image(rom@)
                &&& bus.ppu.bus.cartridge.holds_image(rom@)
                &&& forall|i: int| 0 <= i < 0x800 ==> bus.ram@[i] == 0
                &&& bus.ppu.registers == PpuRegisters::initial()
                &&& bus.ppu.current_scanline == PRE_RENDER_SCANLINE
                &&& bus.ppu.current_cycle == 0
                &&& bus.ppu.current_frame == 0
                &&& forall|i: int| 0 <= i < 0x0800 ==> bus.ppu.bus.vram@[i] == 0
                &&& forall|i: int| 0 <= i < 0x0020 ==> bus.ppu.bus.palette@[i] == 0
                &&& forall|i: int| 0 <= i < PIXEL_BUFFER_SIZE ==> bus.ppu.pixel_buffer@[i] == 255
                &&& console.cpu_state().registers == Registers::initial(word_at(bus, RST_VECTOR))
            },
    {
        let cartridge = match Cartridge::from_bytes(rom) {
            Ok(cartridge) => cartridge,
            Err(e) => return Err(e),
        };
        let mut cpu_bus = CpuBus::new(cartridge);
        let mut cpu = CPU::new();
        cpu.reset(&mut cpu_bus);

        Ok(Manaslu { cpu, cpu_bus })
    }

    /// Runs one CPU instruction, then three PPU cycles for each CPU cycle it took, and returns
    /// the instruction's trace. An opcode that cannot be decoded or executed is an error, and
    /// the PPU does not run then.
    pub fn tick(&mut self) -> (result: Result<Disassembly, CpuError>)
        requires
            old(self).wf(),
        ensures
            final(self).wf(),
            ({
                let execution = step_spec(old(self).cpu_state().registers, old(self).bus_state());
                &&& final(self).cpu_state().registers == execution.registers
                &&& match execution.result {
                    Err(e) => {
                        &&& result == Err::<Disassembly, CpuError>(e)
                        &&& final(self).bus_state() == execution.bus
                    },
                    Ok(cycles) => {
                        &&& result is Ok
                        &&& step_trace(old(self).cpu_state().registers, old(self).bus_state())
                            == Some(result->Ok_0)
                        &&& final(self).bus_state().ram == execution.bus.ram
                        &&& final(self).bus_state().cartridge == execution.bus.cartridge
                        &&& final(self).bus_state().ppu@ == run(
                            execution.bus.ppu@,
                            (3 * cycles) as nat,
                        )
                    },
                }
            }),
    {
        let (cycles, trace) = match self.cpu.step_traced(&mut self.cpu_bus) {
            Ok(stepped) => stepped,
            Err(e) => return Err(e),
        };

        let ghost start = self.cpu_bus.ppu@;
        let ghost stepped_bus = self.cpu_bus;
        let ghost stepped_registers = self.cpu.registers;
        let mut i: u8 = 0;
        while i < cycles
            invariant
                i <= cycles,
                self.cpu_bus.ram == stepped_bus.ram,
                self.cpu_bus.cartridge == stepped_bus.cartridge,
                self.cpu.registers == stepped_registers,
                self.cpu_bus.inv(),
                self.cpu_bus.ppu@ == run(start, (3 * i) as nat),
            decreases cycles - i,
        {
            let ghost before = self.cpu_bus.ppu@;
            self.cpu_bus.ppu_mut().step();
            self.cpu_bus.ppu_mut().step();
            self.cpu_bus.ppu_mut().step();
            proof {
                assert(run(start, (3 * i + 1) as nat) == run(start, (3 * i) as nat).stepped());
                assert(run(start, (3 * i + 2) as nat) == run(start, (3 * i + 1) as nat).stepped());
                assert(run(start, (3 * i + 3) as nat) == run(start, (3 * i + 2) as nat).stepped());
            }
            i = i + 1;
        }
        Ok(trace)
    }

    /// Resets the CPU's registers and starts execution at `address`.
    pub fn reset_at_address(&mut self, address: u16)
        requires
            old(self).wf(),
        ensures
            final(self).wf(),
            final(self).cpu_state().registers == Registers::initial(address),
            final(self).bus_state() == old(self).bus_state(),
    {
        self.cpu.reset_at_address(address);
    }

    pub fn cpu(&self) -> (cpu: &CPU)
        ensures
            *cpu == self.cpu_state(),
    {
        &self.cpu
    }

    pub fn cpu_bus(&self) -> (bus: &CpuBus)
        ensures
            *bus == self.bus_state(),
    {
        &self.cpu_bus
    }
}

} // verus!
