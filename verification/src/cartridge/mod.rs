use vstd::prelude::*;

verus! {

/// How the two physical nametables are mirrored into the four logical ones.
#[derive(Clone, Copy, Debug, PartialEq, Eq, Structural)]
pub enum NametableMirroring {
    Horizontal,
    Vertical,
}

/// Why a ROM image could not be read.
#[derive(Clone, Copy, Debug, PartialEq, Eq, Structural)]
pub enum CartridgeError {
    /// The first four bytes are not `NES\x1A`.
    InvalidHeader,
    /// The image ends before all the parts that its header announces.
    UnexpectedEndOfFile,
}

/// The 16-byte header of an iNES image.
#[derive(Clone, Copy, Debug, PartialEq, Eq, Structural)]
pub struct INesHeader {
    /// Size of PRG ROM in 16 KiB units.
    pub prg_rom_size: u8,
    /// Size of CHR ROM in 8 KiB units (0 means the board uses CHR RAM).
    pub chr_rom_size: u8,
    pub nametable_mirroring: NametableMirroring,
    pub contains_battery_pack: bool,
    pub has_trainer: bool,
    pub alternative_nametable_layout: bool,
    pub mapper_number: u8,
    pub vs_unisystem: bool,
    pub playchoice_10: bool,
    pub is_nes_2_0: bool,
    pub prg_ram_size: u8,
}

/// Whether a header starts with the magic bytes `NES\x1A`.
pub open spec fn has_magic(bytes: Seq<u8>) -> bool {
    bytes[0] == 0x4E && bytes[1] == 0x45 && bytes[2] == 0x53 && bytes[3] == 0x1A
}

/// The header that the 16 bytes `bytes` describe.
pub open spec fn parse_header(bytes: Seq<u8>) -> INesHeader {
    let flags_6 = bytes[6];
    let flags_7 = bytes[7];
    INesHeader {
        prg_rom_size: bytes[4],
        chr_rom_size: bytes[5],
        nametable_mirroring: if flags_6 & 0b0000_0001 != 0 {
            NametableMirroring::Vertical
        } else {
            NametableMirroring::Horizontal
        },
        contains_battery_pack: flags_6 & 0b0000_0010 != 0,
        has_trainer: flags_6 & 0b0000_0100 != 0,
        alternative_nametable_layout: flags_6 & 0b0000_1000 != 0,
        mapper_number: ((flags_6 & 0xF0) >> 4) | (flags_7 & 0xF0),
        vs_unisystem: flags_7 & 0b0000_0001 != 0,
        playchoice_10: flags_7 & 0b0000_0010 != 0,
        is_nes_2_0: flags_7 & 0b0000_1100 == 0b1100,
        prg_ram_size: bytes[8],
    }
}

impl INesHeader {
    /// Parses the 16-byte header; fails exactly when the magic bytes are wrong.
    pub fn from_bytes(bytes: &[u8; 16]) -> (result: Result<INesHeader, CartridgeError>)
        ensures
            !has_magic(bytes@) <==> result == Err::<INesHeader, CartridgeError>(
                CartridgeError::InvalidHeader,
            ),
            has_magic(bytes@) ==> result == Ok::<INesHeader, CartridgeError>(
                parse_header(bytes@),
            ),
    {
        if bytes[0] != 0x4E || bytes[1] != 0x45 || bytes[2] != 0x53 || bytes[3] != 0x1A {
            return Err(CartridgeError::InvalidHeader);
        }
        let prg_rom_size = bytes[4];
        let chr_rom_size = bytes[5];
        let flags_6 = bytes[6];
        let flags_7 = bytes[7];
        let prg_ram_size = bytes[8];

        Ok(
            INesHeader {
                prg_rom_size,
                chr_rom_size,
                nametable_mirroring: if flags_6 & 0b0000_0001 != 0 {
                    NametableMirroring::Vertical
                } else {
                    NametableMirroring::Horizontal
                },
                contains_battery_pack: flags_6 & 0b0000_0010 != 0,
                has_trainer: flags_6 & 0b0000_0100 != 0,
                alternative_nametable_layout: flags_6 & 0b0000_1000 != 0,
                mapper_number: ((flags_6 & 0xF0) >> 4) | (flags_7 & 0xF0),
                vs_unisystem: flags_7 & 0b0000_0001 != 0,
                playchoice_10: flags_7 & 0b0000_0010 != 0,
                is_nes_2_0: flags_7 & 0b0000_1100 == 0b1100,
                prg_ram_size,
            },
        )
    }
}

/// Size of a trainer.
pub const TRAINER_SIZE: usize = 512;

/// Size of a unit of PRG ROM.
pub const PRG_ROM_UNIT: usize = 16384;

/// Size of a unit of CHR ROM, and of CHR RAM.
pub const CHR_UNIT: usize = 8192;

/// Size of the PlayChoice INST-ROM.
pub const PLAYCHOICE_INST_ROM_SIZE: usize = 8192;

/// Size of the PlayChoice PROM.
pub const PLAYCHOICE_PROM_SIZE: usize = 32;

/// Where each part of an image with this header starts, and where the image ends, in order:
/// trainer, PRG ROM, CHR ROM, PlayChoice INST-ROM, PlayChoice PROM, end.
pub open spec fn trainer_start(h: INesHeader) -> int {
    16
}

pub open spec fn prg_start(h: INesHeader) -> int {
    trainer_start(h) + if h.has_trainer { TRAINER_SIZE as int } else { 0 }
}

pub open spec fn chr_start(h: INesHeader) -> int {
    prg_start(h) + h.prg_rom_size * PRG_ROM_UNIT
}

pub open spec fn playchoice_start(h: INesHeader) -> int {
    chr_start(h) + h.chr_rom_size * CHR_UNIT
}

pub open spec fn prom_start(h: INesHeader) -> int {
    playchoice_start(h) + if h.playchoice_10 { PLAYCHOICE_INST_ROM_SIZE as int } else { 0 }
}

pub open spec fn image_end(h: INesHeader) -> int {
    prom_start(h) + if h.playchoice_10 { PLAYCHOICE_PROM_SIZE as int } else { 0 }
}

/// Why the image `rom` cannot be read, if it cannot: it is shorter than a header, its header
/// lacks the magic bytes, or it is shorter than what its header announces.
pub open spec fn image_error(rom: Seq<u8>) -> Option<CartridgeError> {
    if rom.len() < 16 {
        Some(CartridgeError::UnexpectedEndOfFile)
    } else if !has_magic(rom) {
        Some(CartridgeError::InvalidHeader)
    } else if rom.len() < image_end(parse_header(rom)) {
        Some(CartridgeError::UnexpectedEndOfFile)
    } else {
        None
    }
}

/// A cartridge: its header and the memories that its image holds.
pub struct Cartridge {
    pub header: INesHeader,
    pub trainer: Option<Vec<u8>>,
    pub prg_rom: Vec<u8>,
    pub chr_rom: Option<Vec<u8>>,
    /// The 8 KiB of pattern memory of a board without CHR ROM.
    pub chr_ram: [u8; 0x2000],
    pub playchoice_inst_rom: Option<Vec<u8>>,
    pub playchoice_prom: Option<Vec<u8>>,
}

/// The view of an optional part of the image.
pub open spec fn part_view(part: Option<Vec<u8>>) -> Option<Seq<u8>> {
    match part {
        Some(bytes) => Some(bytes@),
        None => None,
    }
}

/// Copies `len` bytes of `rom` from `start` on.
fn copy_part(rom: &[u8], start: usize, len: usize) -> (part: Vec<u8>)
    requires
        start + len <= rom@.len(),
    ensures
        part@ == rom@.subrange(start as int, start + len),
{
    let mut part: Vec<u8> = Vec::with_capacity(len);
    let n = rom.len();
    let mut i: usize = 0;
    while i < len
        invariant
            n == rom@.len(),
            start + len <= rom@.len(),
            i <= len,
            part@ == rom@.subrange(start as int, start + i),
        decreases len - i,
    {
        part.push(rom[start + i]);
        i = i + 1;
    }
    part
}

impl Cartridge {
    /// Whether this cartridge is the one that the image `rom` describes: the header's parts cut
    /// out of the image in order, and CHR RAM zeroed.
    pub open spec fn holds_image(self, rom: Seq<u8>) -> bool {
        let h = parse_header(rom);
        &&& self.header == h
        &&& part_view(self.trainer) == if h.has_trainer {
            Some(rom.subrange(trainer_start(h), prg_start(h)))
        } else {
            None
        }
        &&& self.prg_rom@ == rom.subrange(prg_start(h), chr_start(h))
        &&& part_view(self.chr_rom) == if h.chr_rom_size > 0 {
            Some(rom.subrange(chr_start(h), playchoice_start(h)))
        } else {
            None
        }
        &&& forall|i: int| 0 <= i < 0x2000 ==> self.chr_ram@[i] == 0
        &&& part_view(self.playchoice_inst_rom) == if h.playchoice_10 {
            Some(rom.subrange(playchoice_start(h), prom_start(h)))
        } else {
            None
        }
        &&& part_view(self.playchoice_prom) == if h.playchoice_10 {
            Some(rom.subrange(prom_start(h), image_end(h)))
        } else {
            None
        }
    }

    /// Whether the memories of two cartridges hold the same bytes.
    pub open spec fn same_contents(self, other: Cartridge) -> bool {
        &&& self.header == other.header
        &&& part_view(self.trainer) == part_view(other.trainer)
        &&& self.prg_rom@ == other.prg_rom@
        &&& part_view(self.chr_rom) == part_view(other.chr_rom)
        &&& self.chr_ram == other.chr_ram
        &&& part_view(self.playchoice_inst_rom) == part_view(other.playchoice_inst_rom)
        &&& part_view(self.playchoice_prom) == part_view(other.playchoice_prom)
    }

    #[verifier::spinoff_prover]
    #[verifier::rlimit(40)]
    /// Reads an iNES image: the header, then the trainer if the header announces one, PRG ROM,
    /// CHR ROM (none means the board has 8 KiB of CHR RAM, which starts zeroed), and the
    /// PlayChoice memories if the header announces them. Bytes after those are ignored.
    pub fn from_bytes(rom: &[u8]) -> (result: Result<Cartridge, CartridgeError>)
        ensures
            match image_error(rom@) {
                Some(e) => result == Err::<Cartridge, CartridgeError>(e),
                None => result is Ok,
            },
            result matches Ok(cartridge) ==> cartridge.holds_image(rom@),
    {
        // iNes Header
        if rom.len() < 16 {
            return Err(CartridgeError::UnexpectedEndOfFile);
        }
        let mut header_buffer = [0u8; 16];
        let mut i: usize = 0;
        while i < 16
            invariant
                i <= 16,
                rom@.len() >= 16,
                forall|j: int| 0 <= j < i ==> header_buffer@[j] == rom@[j],
            decreases 16 - i,
        {
            header_buffer[i] = rom[i];
            i = i + 1;
        }
        assert(header_buffer@ =~= rom@.subrange(0, 16));
        let header = match INesHeader::from_bytes(&header_buffer) {
            Ok(header) => header,
            Err(e) => return Err(e),
        };
        let ghost h = parse_header(rom@);
        assert(header == h);
        let len = rom.len();
        let mut offset: usize = 16;

        // Trainer
        let trainer = if header.has_trainer {
            if len - offset < TRAINER_SIZE {
                return Err(CartridgeError::UnexpectedEndOfFile);
            }
            let trainer = copy_part(rom, offset, TRAINER_SIZE);
            offset = offset + TRAINER_SIZE;
            Some(trainer)
        } else {
            None
        };
        assert(offset == prg_start(h));

        // PRG ROM
        let prg_rom_size_bytes = header.prg_rom_size as usize * PRG_ROM_UNIT;
        if len - offset < prg_rom_size_bytes {
            return Err(CartridgeError::UnexpectedEndOfFile);
        }
        let prg_rom = copy_part(rom, offset, prg_rom_size_bytes);
        offset = offset + prg_rom_size_bytes;
        assert(offset == chr_start(h));

        // CHR ROM/RAM
        let chr_rom = if header.chr_rom_size > 0 {
            let chr_rom_size_bytes = header.chr_rom_size as usize * CHR_UNIT;
            if len - offset < chr_rom_size_bytes {
                return Err(CartridgeError::UnexpectedEndOfFile);
            }
            let chr_rom = copy_part(rom, offset, chr_rom_size_bytes);
            offset = offset + chr_rom_size_bytes;
            Some(chr_rom)
        } else {
            None
        };
        assert(offset == playchoice_start(h));

        // PlayChoice INST-ROM
        let playchoice_inst_rom = if header.playchoice_10 {
            if len - offset < PLAYCHOICE_INST_ROM_SIZE {
                return Err(CartridgeError::UnexpectedEndOfFile);
            }
            let inst_rom = copy_part(rom, offset, PLAYCHOICE_INST_ROM_SIZE);
            offset = offset + PLAYCHOICE_INST_ROM_SIZE;
            Some(inst_rom)
        } else {
            None
        };
        assert(offset == prom_start(h));

        // PlayChoice PROM
        let playchoice_prom = if header.playchoice_10 {
            if len - offset < PLAYCHOICE_PROM_SIZE {
                return Err(CartridgeError::UnexpectedEndOfFile);
            }
            let prom = copy_part(rom, offset, PLAYCHOICE_PROM_SIZE);
            offset = offset + PLAYCHOICE_PROM_SIZE;
            Some(prom)
        } else {
            None
        };
        assert(offset == image_end(h));

        Ok(
            Cartridge {
                header,
                trainer,
                prg_rom,
                chr_rom,
                chr_ram: [0u8; 0x2000],
                playchoice_inst_rom,
                playchoice_prom,
            },
        )
    }
}


impl Cartridge {
    /// The byte that a read at `address` returns: pattern memory (CHR ROM, or CHR RAM when the
    /// board has none) below $2000, PRG ROM mirrored over $8000-$FFFF, and 0 elsewhere.
    pub open spec fn read_value(self, address: u16) -> u8 {
        if address < 0x2000 {
            match self.chr_rom {
                Some(chr) => if address < chr@.len() {
                    chr@[address as int]
                } else {
                    0
                },
                None => self.chr_ram@[address as int],
            }
        } else if address >= 0x8000 && self.prg_rom@.len() > 0 {
            self.prg_rom@[(address - 0x8000) % (self.prg_rom@.len() as int)]
        } else {
            0
        }
    }

    /// Whether a write at `address` reaches memory: only CHR RAM is writable.
    pub open spec fn writable(self, address: u16) -> bool {
        address < 0x2000 && self.chr_rom is None
    }

    pub fn read_byte(&self, address: u16) -> (value: u8)
        ensures
            value == self.read_value(address),
    {
        if address < 0x2000 {
            match &self.chr_rom {
                Some(chr) => if (address as usize) < chr.len() {
                    chr[address as usize]
                } else {
                    0
                },
                None => self.chr_ram[address as usize],
            }
        } else if address >= 0x8000 && self.prg_rom.len() > 0 {
            self.prg_rom[(address - 0x8000) as usize % self.prg_rom.len()]
        } else {
            0
        }
    }

    pub fn write_byte(&mut self, address: u16, value: u8)
        ensures
            old(self).writable(address) ==> *final(self) == (Cartridge {
                chr_ram: vstd::array::spec_array_update(old(self).chr_ram, address as int, value),
                ..*old(self)
            }),
            !old(self).writable(address) ==> *final(self) == *old(self),
    {
        if address < 0x2000 && self.chr_rom.is_none() {
            self.chr_ram[address as usize] = value;
        }
    }

    pub fn mirroring(&self) -> (mirroring: NametableMirroring)
        ensures
            mirroring == self.header.nametable_mirroring,
    {
        self.header.nametable_mirroring
    }
}

/// Copies an optional part of the image.
fn clone_part(part: &Option<Vec<u8>>) -> (copy: Option<Vec<u8>>)
    ensures
        part_view(copy) == part_view(*part),
{
    match part {
        Some(bytes) => Some(bytes.clone()),
        None => None,
    }
}

impl Clone for Cartridge {
    fn clone(&self) -> (copy: Cartridge)
        ensures
            copy.same_contents(*self),
    {
        Cartridge {
            header: self.header,
            trainer: clone_part(&self.trainer),
            prg_rom: self.prg_rom.clone(),
            chr_rom: clone_part(&self.chr_rom),
            chr_ram: self.chr_ram,
            playchoice_inst_rom: clone_part(&self.playchoice_inst_rom),
            playchoice_prom: clone_part(&self.playchoice_prom),
        }
    }
}

/// The iNES layout: after the 16-byte header come the 512-byte trainer when bit 2 of byte 6 is
/// set, then byte 4 times 16 KiB of PRG ROM, then byte 5 times 8 KiB of CHR ROM, then, when bit
/// 1 of byte 7 is set, 8 KiB of PlayChoice INST-ROM and 32 bytes of PlayChoice PROM. An image
/// is refused as truncated exactly when it is shorter than its header or than these parts, and
/// as invalid exactly when its header lacks the magic bytes; a cartridge that holds an image
/// holds these parts.
pub proof fn lemma_ines_layout(c: Cartridge, rom: Seq<u8>)
    ensures
        ({
            let trainer: int = if rom[6] & 0b100 != 0 { 512 } else { 0 };
            let prg: int = rom[4] * 16384;
            let chr: int = rom[5] * 8192;
            let playchoice: int = if rom[7] & 0b10 != 0 { 8224 } else { 0 };
            let prg_at = 16 + trainer;
            let chr_at = prg_at + prg;
            &&& rom.len() < 16 ==> image_error(rom) == Some(CartridgeError::UnexpectedEndOfFile)
            &&& rom.len() >= 16 && !(rom[0] == 0x4E && rom[1] == 0x45 && rom[2] == 0x53 && rom[3]
                == 0x1A) ==> image_error(rom) == Some(CartridgeError::InvalidHeader)
            &&& (rom.len() >= 16 && rom[0] == 0x4E && rom[1] == 0x45 && rom[2] == 0x53 && rom[3]
                == 0x1A) ==> (image_error(rom) == if rom.len() < chr_at + chr + playchoice {
                Some(CartridgeError::UnexpectedEndOfFile)
            } else {
                None
            })
            &&& (image_error(rom) is None && c.holds_image(rom)) ==> {
                &&& c.prg_rom@.len() == prg
                &&& c.prg_rom@ == rom.subrange(prg_at, chr_at)
                &&& (rom[6] & 0b100 != 0 ==> part_view(c.trainer) == Some(rom.subrange(16, 528)))
                &&& (rom[6] & 0b100 == 0 ==> c.trainer is None)
                &&& (rom[5] > 0 ==> part_view(c.chr_rom) == Some(
                    rom.subrange(chr_at, chr_at + chr),
                ))
                &&& (rom[5] == 0 ==> c.chr_rom is None)
                &&& c.header.prg_rom_size == rom[4]
                &&& c.header.chr_rom_size == rom[5]
            }
        }),
{
}

/// What the CPU and the PPU read of a cartridge loaded from an image with one or two 16 KiB PRG
/// banks (NROM): $8000-$FFFF shows PRG ROM, a single bank appearing at both $8000 and $C000;
/// below $2000, CHR ROM when the image has some, else CHR RAM, which starts cleared; the space
/// between holds no memory and reads 0.
pub proof fn lemma_nrom_reads(c: Cartridge, rom: Seq<u8>, address: u16)
    requires
        image_error(rom) is None,
        c.holds_image(rom),
        rom[4] == 1 || rom[4] == 2,
    ensures
        ({
            let trainer: int = if rom[6] & 0b100 != 0 { 512 } else { 0 };
            let prg_at = 16 + trainer;
            let chr_at = prg_at + rom[4] * 16384;
            &&& address >= 0x8000 ==> c.read_value(address) == rom[prg_at + (address - 0x8000) % (
            rom[4] * 16384)]
            &&& (rom[4] == 1 && 0x8000 <= address < 0xC000) ==> c.read_value(address)
                == c.read_value((address + 0x4000) as u16)
            &&& (address < 0x2000 && rom[5] > 0) ==> c.read_value(address) == rom[chr_at
                + address]
            &&& (address < 0x2000 && rom[5] == 0) ==> c.read_value(address) == 0
            &&& (0x2000 <= address < 0x8000) ==> c.read_value(address) == 0
        }),
{
    lemma_ines_layout(c, rom);
}

} // verus!
