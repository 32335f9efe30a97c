use vstd::prelude::*;
use crate::bus::{MemoryIndexer, zero_page_high_byte_address, zero_page_wrapped_high_address};
use crate::cartridge::Cartridge;
use crate::ppu::{PIXEL_BUFFER_SIZE, PRE_RENDER_SCANLINE, Ppu};
use crate::ppu::registers::{PPURegisters, Registers};

verus! {

/// The PPU register that the CPU address `address` ($2000-$3FFF) reaches: the eight registers
/// repeat every 8 bytes.
pub open spec fn ppu_register(address: u16) -> PPURegisters {
    match address % 8 {
        0 => PPURegisters::PpuCtrl,
        1 => PPURegisters::PpuMask,
        2 => PPURegisters::PpuStatus,
        3 => PPURegisters::OamAddr,
        4 => PPURegisters::OamData,
        5 => PPURegisters::PpuScroll,
        6 => PPURegisters::PpuAddr,
        _ => PPURegisters::PpuData,
    }
}

/// The OAM DMA register.
pub const OAM_DMA: u16 = 0x4014;

/// The CPU's address space: 2 KiB of RAM mirrored up to $1FFF, the PPU registers mirrored up to
/// $3FFF, the APU and I/O registers, and the cartridge from $4020.
pub struct CpuBus {
    pub ram: [u8; 0x800],
    pub cartridge: Cartridge,
    pub ppu: Ppu,
}

impl CpuBus {
    /// The bus with the PPU's registers replaced.
    pub open spec fn with_ppu_registers(self, registers: Registers) -> CpuBus {
        CpuBus { ppu: Ppu { registers, ..self.ppu }, ..self }
    }

    /// A bus with cleared RAM, the cartridge, and a PPU in its power-on state with its own copy
    /// of the cartridge.
    pub fn new(cartridge: Cartridge) -> (bus: CpuBus)
        ensures
            forall|i: int| 0 <= i < 0x800 ==> bus.ram@[i] == 0,
            bus.cartridge.same_contents(cartridge),
            bus.inv(),
            bus.ppu.registers == Registers::initial(),
            bus.ppu.bus.cartridge.same_contents(cartridge),
            bus.ppu.current_scanline == PRE_RENDER_SCANLINE,
            bus.ppu.current_cycle == 0,
            bus.ppu.current_frame == 0,
            forall|i: int| 0 <= i < 0x0800 ==> bus.ppu.bus.vram@[i] == 0,
            forall|i: int| 0 <= i < 0x0020 ==> bus.ppu.bus.palette@[i] == 0,
            forall|i: int| 0 <= i < PIXEL_BUFFER_SIZE ==> bus.ppu.pixel_buffer@[i] == 255,
    {
        CpuBus { ram: [0u8; 0x800], cartridge: cartridge.clone(), ppu: Ppu::new(cartridge.clone()) }
    }

    pub fn ppu_mut(&mut self) -> (ppu: &mut Ppu)
        ensures
            *ppu == old(self).ppu,
            *final(self) == (CpuBus { ppu: *final(ppu), ..*old(self) }),
    {
        &mut self.ppu
    }

    pub fn ppu(&self) -> (ppu: &Ppu)
        ensures
            *ppu == self.ppu,
    {
        &self.ppu
    }

    /// What a read at `address` returns, without the effect that reading a PPU register has;
    /// for debuggers and traces.
    pub fn peek(&self, address: u16) -> (value: u8)
        ensures
            value == self.read_value(address),
    {
        if address <= 0x1FFF {
            let index = address & 0x07FF;
            assert(index == address % 0x800) by (bit_vector)
                requires
                    index == address & 0x07FF,
            ;
            self.ram[index as usize]
        } else if address <= 0x3FFF {
            let register = Self::ppu_register_at(address);
            self.ppu.registers.peek_register(register)
        } else if address == OAM_DMA {
            self.ppu.registers.peek_register(PPURegisters::OamDma)
        } else if address <= 0x401F {
            0
        } else {
            self.cartridge.read_byte(address)
        }
    }

    /// The PPU register at `address` ($2000-$3FFF).
    fn ppu_register_at(address: u16) -> (register: PPURegisters)
        ensures
            register == ppu_register(address),
    {
        let register = address & 0x0007;
        assert(register == address % 8) by (bit_vector)
            requires
                register == address & 0x0007,
        ;
        match register {
            0 => PPURegisters::PpuCtrl,
            1 => PPURegisters::PpuMask,
            2 => PPURegisters::PpuStatus,
            3 => PPURegisters::OamAddr,
            4 => PPURegisters::OamData,
            5 => PPURegisters::PpuScroll,
            6 => PPURegisters::PpuAddr,
            _ => PPURegisters::PpuData,
        }
    }
}

impl MemoryIndexer for CpuBus {
    open spec fn inv(&self) -> bool {
        self.ppu.wf()
    }

    open spec fn read_value(&self, address: u16) -> u8 {
        if address <= 0x1FFF {
            self.ram@[(address % 0x800) as int]
        } else if address <= 0x3FFF {
            self.ppu.registers.read_value(ppu_register(address))
        } else if address == OAM_DMA {
            self.ppu.registers.read_value(PPURegisters::OamDma)
        } else if address <= 0x401F {
            0
        } else {
            self.cartridge.read_value(address)
        }
    }

    open spec fn after_read(&self, address: u16) -> CpuBus {
        if 0x2000 <= address <= 0x3FFF {
            self.with_ppu_registers(self.ppu.registers.after_read(ppu_register(address)))
        } else {
            *self
        }
    }

    open spec fn after_write(&self, address: u16, value: u8) -> CpuBus {
        if address <= 0x1FFF {
            CpuBus {
                ram: vstd::array::spec_array_update(self.ram, (address % 0x800) as int, value),
                ..*self
            }
        } else if address <= 0x3FFF {
            self.with_ppu_registers(self.ppu.registers.written(ppu_register(address), value))
        } else if address == OAM_DMA {
            self.with_ppu_registers(self.ppu.registers.written(PPURegisters::OamDma, value))
        } else {
            *self
        }
    }

    open spec fn high_byte_address(address: u16) -> u16 {
        zero_page_high_byte_address(address)
    }

    fn read_byte(&mut self, address: u16) -> (value: u8) {
        if address <= 0x1FFF {
            // 2 KB internal RAM mirrored every 0x800 bytes
            let index = address & 0x07FF;
            assert(index == address % 0x800) by (bit_vector)
                requires
                    index == address & 0x07FF,
            ;
            self.ram[index as usize]
        } else if address <= 0x3FFF {
            // PPU registers mirrored every 8 bytes
            let register = Self::ppu_register_at(address);
            self.ppu.registers.get_register(register)
        } else if address <= 0x4017 {
            // APU + I/O registers
            if address == OAM_DMA {
                self.ppu.registers.get_register(PPURegisters::OamDma)
            } else {
                // Controllers and APU registers
                0
            }
        } else if address <= 0x401F {
            // Normally disabled/test mode
            0
        } else {
            // Cartridge space
            self.cartridge.read_byte(address)
        }
    }

    fn write_byte(&mut self, address: u16, value: u8) {
        if address <= 0x1FFF {
            // Internal RAM
            let index = address & 0x07FF;
            assert(index == address % 0x800) by (bit_vector)
                requires
                    index == address & 0x07FF,
            ;
            self.ram[index as usize] = value;
        } else if address <= 0x3FFF {
            // PPU registers
            let register = Self::ppu_register_at(address);
            self.ppu.registers.set_register(register, value);
        } else if address <= 0x4017 {
            // APU + I/O
            if address == OAM_DMA {
                self.ppu.registers.set_register(PPURegisters::OamDma, value);
            }
            // Controller strobe, APU frame counter and APU registers are not emulated.
        } else if address <= 0x401F {
        } else {
            // Cartridge (PRG RAM, mapper registers, etc.)
            self.cartridge.write_byte(address, value);
        }
    }

    fn read_word(&mut self, address: u16) -> (word: u16) {
        let low = self.read_byte(address) as u16;
        // Only wrap within zero page if addr is in zero page range
        let high_addr = zero_page_wrapped_high_address(address);
        let high = self.read_byte(high_addr) as u16;
        high * 256 + low
    }

    fn write_word(&mut self, address: u16, value: u16) {
        let lo = (value % 256) as u8;
        let hi = (value / 256) as u8;
        self.write_byte(address, lo);

        let high_addr = zero_page_wrapped_high_address(address);
        self.write_byte(high_addr, hi);
    }
}


/// The 2 KiB of RAM repeat every $800 bytes up to $1FFF: two addresses that differ by a
/// multiple of $800 read the same byte, and a write at one is read back at the other.
pub proof fn lemma_ram_mirroring(bus: CpuBus, address: u16, mirror: u16, value: u8)
    requires
        address <= 0x1FFF,
        mirror <= 0x1FFF,
        address % 0x800 == mirror % 0x800,
    ensures
        bus.read_value(address) == bus.read_value(mirror),
        bus.after_write(address, value).read_value(mirror) == value,
        bus.after_read(address) == bus,
{
}

/// The eight PPU registers repeat every 8 bytes up to $3FFF: two addresses that differ by a
/// multiple of 8 reach the same register, for reads and for writes.
pub proof fn lemma_ppu_register_mirroring(bus: CpuBus, address: u16, mirror: u16, value: u8)
    requires
        0x2000 <= address <= 0x3FFF,
        0x2000 <= mirror <= 0x3FFF,
        address % 8 == mirror % 8,
    ensures
        bus.read_value(address) == bus.read_value(mirror),
        bus.after_read(address) == bus.after_read(mirror),
        bus.after_write(address, value) == bus.after_write(mirror, value),
{
}

/// Reads outside the PPU registers have no effect on the bus.
pub proof fn lemma_reads_outside_ppu_have_no_effect(bus: CpuBus, address: u16)
    requires
        address < 0x2000 || address > 0x3FFF,
    ensures
        bus.after_read(address) == bus,
{
}

/// Writes to the cartridge's space leave the bus as it was: the cartridge holds only ROM there.
pub proof fn lemma_cartridge_space_is_read_only(bus: CpuBus, address: u16, value: u8)
    requires
        address >= 0x4020,
    ensures
        bus.after_write(address, value) == bus,
{
}

/// The NES register map: from $2000 to $3FFF, address $2000 + 8k reaches PPUCTRL, $2001 + 8k
/// PPUMASK, $2002 + 8k PPUSTATUS, $2003 + 8k OAMADDR, $2004 + 8k OAMDATA, $2005 + 8k PPUSCROLL,
/// $2006 + 8k PPUADDR and $2007 + 8k PPUDATA: a read returns that register, and a write stores
/// the byte in it; RAM and the cartridge are untouched.
pub proof fn lemma_ppu_register_map(bus: CpuBus, address: u16, value: u8)
    requires
        0x2000 <= address <= 0x3FFF,
    ensures
        ({
            let before = bus.ppu.registers;
            let after = bus.after_write(address, value);
            let written = after.ppu.registers;
            &&& after.ram == bus.ram
            &&& after.cartridge == bus.cartridge
            &&& address % 8 == 0 ==> written.ppu_ctrl == value && bus.read_value(address)
                == before.ppu_ctrl
            &&& address % 8 == 1 ==> written.ppu_mask == value && bus.read_value(address)
                == before.ppu_mask
            &&& address % 8 == 2 ==> written.ppu_status == value && bus.read_value(address)
                == before.ppu_status
            &&& address % 8 == 3 ==> written.oam_addr == value && bus.read_value(address)
                == before.oam_addr
            &&& address % 8 == 4 ==> written.oam_data == value && bus.read_value(address)
                == before.oam_data
            &&& address % 8 == 5 ==> written.ppu_scroll == value && bus.read_value(address)
                == before.ppu_scroll
            &&& address % 8 == 6 ==> written.ppu_addr == value && bus.read_value(address)
                == before.ppu_addr
            &&& address % 8 == 7 ==> written.ppu_data == value && bus.read_value(address)
                == before.ppu_data
        }),
{
}

/// OAM DMA at $4014 is a register of its own: a write stores the byte there and a read returns
/// it.
pub proof fn lemma_oam_dma_register(bus: CpuBus, value: u8)
    ensures
        bus.after_write(0x4014, value).ppu.registers.oam_dma == value,
        bus.read_value(0x4014) == bus.ppu.registers.oam_dma,
{
}

} // verus!
