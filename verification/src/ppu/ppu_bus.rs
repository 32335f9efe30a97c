use vstd::prelude::*;
use crate::cartridge::{Cartridge, NametableMirroring};

verus! {

/// Where the nametable address `address` ($2000-$3EFF) lands in the 2 KiB of VRAM: the four
/// logical nametables of 1 KiB share two physical ones, side by side for vertical mirroring
/// (tables 0 and 2 share, 1 and 3 share) and stacked for horizontal (0 and 1, 2 and 3).
pub open spec fn vram_index(mirroring: NametableMirroring, address: u16) -> int {
    let relative = (address - 0x2000) % 0x1000;
    let table = relative / 0x400;
    let offset = relative % 0x400;
    match mirroring {
        NametableMirroring::Vertical => if table == 0 || table == 2 {
            offset
        } else {
            0x400 + offset
        },
        NametableMirroring::Horizontal => if table == 0 || table == 1 {
            offset
        } else {
            0x400 + offset
        },
    }
}

/// Where the palette address `address` ($3F00-$3FFF) lands in the 32 bytes of palette RAM:
/// every 32 bytes repeat, and the backdrop entries $10, $14, $18, $1C of the sprite palettes
/// are those of the background palettes.
pub open spec fn palette_index(address: u16) -> int {
    let relative = (address - 0x3F00) % 0x20;
    if relative == 0x10 || relative == 0x14 || relative == 0x18 || relative == 0x1C {
        relative - 0x10
    } else {
        relative
    }
}

/// The PPU's address space: pattern memory on the cartridge, nametables in VRAM and palette
/// RAM.
pub struct PpuBus {
    pub vram: [u8; 0x0800],
    pub palette: [u8; 0x0020],
    pub cartridge: Cartridge,
}

impl PpuBus {
    /// The byte that a read at `address` returns.
    pub open spec fn read_value(self, address: u16) -> u8 {
        if address <= 0x1FFF {
            self.cartridge.read_value(address)
        } else if address <= 0x3EFF {
            self.vram@[vram_index(self.cartridge.header.nametable_mirroring, address)]
        } else {
            self.palette@[palette_index(address)]
        }
    }

    /// The bus after `value` was written at `address`.
    pub open spec fn after_write(self, address: u16, value: u8) -> PpuBus {
        if address <= 0x1FFF {
            PpuBus {
                cartridge: if self.cartridge.writable(address) {
                    Cartridge {
                        chr_ram: vstd::array::spec_array_update(
                            self.cartridge.chr_ram,
                            address as int,
                            value,
                        ),
                        ..self.cartridge
                    }
                } else {
                    self.cartridge
                },
                ..self
            }
        } else if address <= 0x3EFF {
            PpuBus {
                vram: vstd::array::spec_array_update(
                    self.vram,
                    vram_index(self.cartridge.header.nametable_mirroring, address),
                    value,
                ),
                ..self
            }
        } else {
            PpuBus {
                palette: vstd::array::spec_array_update(
                    self.palette,
                    palette_index(address),
                    value,
                ),
                ..self
            }
        }
    }

    pub fn new(cartridge: Cartridge) -> (bus: PpuBus)
        ensures
            bus.cartridge == cartridge,
            forall|i: int| 0 <= i < 0x0800 ==> bus.vram@[i] == 0,
            forall|i: int| 0 <= i < 0x0020 ==> bus.palette@[i] == 0,
    {
        PpuBus { vram: [0u8; 0x0800], palette: [0u8; 0x0020], cartridge }
    }

    /// The index in VRAM of the nametable address `address`.
    pub fn mirror_vram_address(&self, address: u16) -> (index: usize)
        requires
            0x2000 <= address,
        ensures
            index == vram_index(self.cartridge.header.nametable_mirroring, address),
            index < 0x0800,
    {
        let shifted = address - 0x2000;
        let address = shifted & 0x0FFF;
        assert(address == shifted % 0x1000 && address / 0x0400 <= 3 && address & 0x03FF == address
            % 0x0400) by (bit_vector)
            requires
                address == shifted & 0x0FFF,
        ;

        let table = address / 0x0400;
        let offset = address & 0x03FF;

        match self.cartridge.mirroring() {
            // Vertical mirroring:
            // 2000 = 2800, 2400 = 2C00
            NametableMirroring::Vertical => if table == 0 || table == 2 {
                offset as usize
            } else {
                (0x0400 + offset) as usize
            },
            // Horizontal mirroring:
            // 2000 = 2400, 2800 = 2C00
            NametableMirroring::Horizontal => if table == 0 || table == 1 {
                offset as usize
            } else {
                (0x0400 + offset) as usize
            },
        }
    }

    /// The index in palette RAM of the palette address `address`.
    pub fn mirror_palette_address(address: u16) -> (index: usize)
        requires
            0x3F00 <= address,
        ensures
            index == palette_index(address),
            index < 0x0020,
    {
        let shifted = address - 0x3F00;
        let mut address = shifted & 0x001F;
        assert(address == shifted % 0x20 && address < 0x20) by (bit_vector)
            requires
                address == shifted & 0x001F,
        ;

        // Palette mirrors:
        if address == 0x10 || address == 0x14 || address == 0x18 || address == 0x1C {
            address = address - 0x10;
        }

        address as usize
    }

    /// Reads the PPU's address space, which ends at $3FFF.
    pub fn read_byte(&self, address: u16) -> (value: u8)
        requires
            address <= 0x3FFF,
        ensures
            value == self.read_value(address),
    {
        if address <= 0x1FFF {
            // CHR-ROM / CHR-RAM
            self.cartridge.read_byte(address)
        } else if address <= 0x3EFF {
            // Nametable RAM
            let index = self.mirror_vram_address(address);
            self.vram[index]
        } else {
            // Palette RAM
            let index = Self::mirror_palette_address(address);
            self.palette[index]
        }
    }

    /// Writes the PPU's address space, which ends at $3FFF.
    pub fn write_byte(&mut self, address: u16, value: u8)
        requires
            address <= 0x3FFF,
        ensures
            *final(self) == old(self).after_write(address, value),
    {
        if address <= 0x1FFF {
            // CHR-RAM only
            self.cartridge.write_byte(address, value);
        } else if address <= 0x3EFF {
            // Nametable RAM
            let index = self.mirror_vram_address(address);
            self.vram[index] = value;
        } else {
            // Palette RAM
            let index = Self::mirror_palette_address(address);
            self.palette[index] = value;
        }
    }
}


/// With vertical mirroring, the nametables at $2000 and $2800 are one, and so are those at
/// $2400 and $2C00.
pub proof fn lemma_vertical_mirroring(address: u16)
    requires
        0x2000 <= address <= 0x27FF,
    ensures
        vram_index(NametableMirroring::Vertical, address) == vram_index(
            NametableMirroring::Vertical,
            (address + 0x800) as u16,
        ),
{
}

/// With horizontal mirroring, the nametables at $2000 and $2400 are one, and so are those at
/// $2800 and $2C00.
pub proof fn lemma_horizontal_mirroring(address: u16)
    requires
        0x2000 <= address <= 0x23FF || 0x2800 <= address <= 0x2BFF,
    ensures
        vram_index(NametableMirroring::Horizontal, address) == vram_index(
            NametableMirroring::Horizontal,
            (address + 0x400) as u16,
        ),
{
}

/// $3000-$3EFF repeats the nametables at $2000-$2EFF, and every nametable address lands in the
/// 2 KiB of VRAM.
pub proof fn lemma_nametable_range_mirroring(mirroring: NametableMirroring, address: u16)
    requires
        0x2000 <= address <= 0x2EFF,
    ensures
        vram_index(mirroring, address) == vram_index(mirroring, (address + 0x1000) as u16),
        0 <= vram_index(mirroring, address) < 0x800,
{
}

/// The palette RAM repeats every 32 bytes, and the backdrop entry of each sprite palette is
/// that of the background palette below it.
pub proof fn lemma_palette_mirroring(address: u16)
    requires
        0x3F00 <= address <= 0x3FDF,
    ensures
        palette_index(address) == palette_index((address + 0x20) as u16),
        palette_index(0x3F10) == palette_index(0x3F00),
        palette_index(0x3F14) == palette_index(0x3F04),
        palette_index(0x3F18) == palette_index(0x3F08),
        palette_index(0x3F1C) == palette_index(0x3F0C),
{
}

/// A byte written to a nametable or to the palette is what a read of the same address returns.
pub proof fn lemma_ppu_bus_read_after_write(bus: PpuBus, address: u16, value: u8)
    requires
        0x2000 <= address <= 0x3FFF,
    ensures
        bus.after_write(address, value).read_value(address) == value,
{
    if address <= 0x3EFF {
        lemma_index_in_vram(bus.cartridge.header.nametable_mirroring, address);
    }
}

/// Every nametable address lands in the 2 KiB of VRAM.
proof fn lemma_index_in_vram(mirroring: NametableMirroring, address: u16)
    requires
        0x2000 <= address,
    ensures
        0 <= vram_index(mirroring, address) < 0x800,
{
}

} // verus!
