use vstd::prelude::*;

verus! {

/// Bits of PPUCTRL ($2000).
#[derive(Clone, Copy, Debug, PartialEq, Eq, Structural)]
pub enum PpuCtrlFlags {
    BaseNameTableAddress,
    VRamAddressIncrement,
    SpritePatternAddress,
    BackgroundPatternAddress,
    SpriteSize,
    MasterSlaveSelect,
    VBlankNmi,
}

impl PpuCtrlFlags {
    pub open spec fn spec_mask(self) -> u8 {
        match self {
            PpuCtrlFlags::BaseNameTableAddress => 0b0000_0011,
            PpuCtrlFlags::VRamAddressIncrement => 0b0000_0100,
            PpuCtrlFlags::SpritePatternAddress => 0b0000_1000,
            PpuCtrlFlags::BackgroundPatternAddress => 0b0001_0000,
            PpuCtrlFlags::SpriteSize => 0b0010_0000,
            PpuCtrlFlags::MasterSlaveSelect => 0b0100_0000,
            PpuCtrlFlags::VBlankNmi => 0b1000_0000,
        }
    }

    /// The bits of the flag in PPUCTRL.
    pub fn mask(&self) -> (m: u8)
        ensures
            m == self.spec_mask(),
    {
        match self {
            PpuCtrlFlags::BaseNameTableAddress => 0b0000_0011,
            PpuCtrlFlags::VRamAddressIncrement => 0b0000_0100,
            PpuCtrlFlags::SpritePatternAddress => 0b0000_1000,
            PpuCtrlFlags::BackgroundPatternAddress => 0b0001_0000,
            PpuCtrlFlags::SpriteSize => 0b0010_0000,
            PpuCtrlFlags::MasterSlaveSelect => 0b0100_0000,
            PpuCtrlFlags::VBlankNmi => 0b1000_0000,
        }
    }
}

/// Bits of PPUMASK ($2001).
#[derive(Clone, Copy, Debug, PartialEq, Eq, Structural)]
pub enum PpuMaskFlags {
    Greyscale,
    ShowBackground,
    ShowSprites,
    EnableBackgroundRendering,
    EnableSpriteRendering,
    EmphasizeRed,
    EmphasizeGreen,
    EmphasizeBlue,
}

impl PpuMaskFlags {
    pub open spec fn spec_mask(self) -> u8 {
        match self {
            PpuMaskFlags::Greyscale => 0b0000_0001,
            PpuMaskFlags::ShowBackground => 0b0000_0010,
            PpuMaskFlags::ShowSprites => 0b0000_0100,
            PpuMaskFlags::EnableBackgroundRendering => 0b0000_1000,
            PpuMaskFlags::EnableSpriteRendering => 0b0001_0000,
            PpuMaskFlags::EmphasizeRed => 0b0010_0000,
            PpuMaskFlags::EmphasizeGreen => 0b0100_0000,
            PpuMaskFlags::EmphasizeBlue => 0b1000_0000,
        }
    }

    /// The bit of the flag in PPUMASK.
    pub fn mask(&self) -> (m: u8)
        ensures
            m == self.spec_mask(),
    {
        match self {
            PpuMaskFlags::Greyscale => 0b0000_0001,
            PpuMaskFlags::ShowBackground => 0b0000_0010,
            PpuMaskFlags::ShowSprites => 0b0000_0100,
            PpuMaskFlags::EnableBackgroundRendering => 0b0000_1000,
            PpuMaskFlags::EnableSpriteRendering => 0b0001_0000,
            PpuMaskFlags::EmphasizeRed => 0b0010_0000,
            PpuMaskFlags::EmphasizeGreen => 0b0100_0000,
            PpuMaskFlags::EmphasizeBlue => 0b1000_0000,
        }
    }
}

/// Bits of PPUSTATUS ($2002).
#[derive(Clone, Copy, Debug, PartialEq, Eq, Structural)]
pub enum PpuStatusFlags {
    SpriteOverflow,
    SpriteZeroHit,
    VBlank,
}

impl PpuStatusFlags {
    pub open spec fn spec_mask(self) -> u8 {
        match self {
            PpuStatusFlags::SpriteOverflow => 0b0010_0000,
            PpuStatusFlags::SpriteZeroHit => 0b0100_0000,
            PpuStatusFlags::VBlank => 0b1000_0000,
        }
    }

    /// The bit of the flag in PPUSTATUS.
    pub fn mask(&self) -> (m: u8)
        ensures
            m == self.spec_mask(),
    {
        match self {
            PpuStatusFlags::SpriteOverflow => 0b0010_0000,
            PpuStatusFlags::SpriteZeroHit => 0b0100_0000,
            PpuStatusFlags::VBlank => 0b1000_0000,
        }
    }
}

/// The fields of the 15-bit VRAM addresses `v` and `t`: `yyy NN YYYYY XXXXX`.
#[derive(Clone, Copy, Debug, PartialEq, Eq, Structural)]
pub enum VramAddressFlags {
    CoarseXScroll,
    CoarseYScroll,
    NametableSelect,
    FineYScroll,
}

impl VramAddressFlags {
    pub open spec fn spec_mask(self) -> u16 {
        match self {
            VramAddressFlags::CoarseXScroll => 0b000_00_00000_11111,
            VramAddressFlags::CoarseYScroll => 0b000_00_11111_00000,
            VramAddressFlags::NametableSelect => 0b000_11_00000_00000,
            VramAddressFlags::FineYScroll => 0b111_00_00000_00000,
        }
    }

    /// Where the field starts: the number of trailing zeros of its mask.
    pub open spec fn spec_shift(self) -> u16 {
        match self {
            VramAddressFlags::CoarseXScroll => 0,
            VramAddressFlags::CoarseYScroll => 5,
            VramAddressFlags::NametableSelect => 10,
            VramAddressFlags::FineYScroll => 12,
        }
    }

    /// The bits of the field.
    pub fn mask(&self) -> (m: u16)
        ensures
            m == self.spec_mask(),
    {
        match self {
            VramAddressFlags::CoarseXScroll => 0b000_00_00000_11111,
            VramAddressFlags::CoarseYScroll => 0b000_00_11111_00000,
            VramAddressFlags::NametableSelect => 0b000_11_00000_00000,
            VramAddressFlags::FineYScroll => 0b111_00_00000_00000,
        }
    }

    /// The position of the field's lowest bit.
    pub fn shift(&self) -> (s: u16)
        ensures
            s == self.spec_shift(),
    {
        match self {
            VramAddressFlags::CoarseXScroll => 0,
            VramAddressFlags::CoarseYScroll => 5,
            VramAddressFlags::NametableSelect => 10,
            VramAddressFlags::FineYScroll => 12,
        }
    }
}

/// The registers that the CPU sees at $2000-$2007 and $4014.
#[derive(Clone, Copy, Debug, PartialEq, Eq, Structural)]
pub enum PPURegisters {
    PpuCtrl,
    PpuMask,
    PpuStatus,
    OamAddr,
    OamData,
    PpuScroll,
    PpuAddr,
    PpuData,
    OamDma,
}

/// The PPU's registers and its internal scroll state.
pub struct Registers {
    pub ppu_ctrl: u8,
    pub ppu_mask: u8,
    pub ppu_status: u8,
    pub oam_addr: u8,
    pub oam_data: u8,
    pub ppu_scroll: u8,
    pub ppu_addr: u8,
    pub ppu_data: u8,
    pub oam_dma: u8,
    /// Current VRAM address.
    pub v: u16,
    /// Temporary VRAM address.
    pub t: u16,
    /// Fine X scroll.
    pub x: u8,
    /// First or second write toggle (false = first, true = second).
    pub w: bool,
    /// True during the pre-render line and through visible lines 0-239.
    pub is_rendering: bool,
}

/// `word` with `field` replaced: its bits cleared, then `value` shifted to the field's place
/// and or-ed in (bits of `value` beyond the field's width reach the fields above it).
pub open spec fn with_field(word: u16, field: VramAddressFlags, value: u16) -> u16 {
    (word & !field.spec_mask()) | (value << field.spec_shift())
}

/// `v` after the coarse X scroll moves one tile right: coarse X wraps from 31 to 0 and then
/// switches the horizontal nametable.
pub open spec fn coarse_x_incremented(v: u16) -> u16 {
    if v & 0x001F == 31 {
        (v & !0x001Fu16) ^ 0x0400
    } else {
        (v + 1) as u16
    }
}

/// Where a PPUDATA write made while rendering moves `v`: one coarse X and one vertical step,
/// except that from $001F (coarse X 31, coarse Y 0, fine Y 0) the write lands on $40A1 (fine Y
/// 4, coarse Y 5, coarse X 1).
pub open spec fn rendering_write_step(v: u16) -> u16 {
    if v == 0x001F {
        0x40A1
    } else {
        coarse_y_incremented(coarse_x_incremented(v))
    }
}

/// `v` after the vertical scroll moves one pixel down: fine Y counts to 7, then it wraps into
/// coarse Y, which wraps after row 29 (switching the vertical nametable) or after row 31
/// (without switching).
pub open spec fn coarse_y_incremented(v: u16) -> u16 {
    if v & 0x7000 != 0x7000 {
        (v + 0x1000) as u16
    } else {
        let cleared = v & !0x7000u16;
        let y = (cleared & 0x03E0) >> 5;
        if y == 29 {
            ((cleared ^ 0x0800) & !0x03E0u16) | (0u16 << 5u16)
        } else if y == 31 {
            (cleared & !0x03E0u16) | (0u16 << 5u16)
        } else {
            (cleared & !0x03E0u16) | (((y + 1) as u16) << 5u16)
        }
    }
}

impl Registers {
    /// The registers after power-on.
    pub open spec fn initial() -> Registers {
        Registers {
            ppu_ctrl: 0,
            ppu_mask: 0,
            ppu_status: 0,
            oam_addr: 0,
            oam_data: 0,
            ppu_scroll: 0,
            ppu_addr: 0,
            ppu_data: 0,
            oam_dma: 0,
            v: 0,
            t: 0,
            x: 0,
            w: false,
            is_rendering: false,
        }
    }

    /// How far a PPUDATA access moves `v` when not rendering: 32 (down one row) when PPUCTRL
    /// bit 2 is set, else 1.
    pub open spec fn vram_increment(self) -> u16 {
        if self.ppu_ctrl & 0b0000_0100 != 0 {
            32
        } else {
            1
        }
    }

    /// The registers after a PPUDATA read moved `v` (and after any PPUDATA write outside
    /// rendering): while rendering, one coarse X and one vertical step; otherwise by the VRAM
    /// increment, wrapping around.
    pub open spec fn after_data_access(self) -> Registers {
        if self.is_rendering {
            Registers { v: coarse_y_incremented(coarse_x_incremented(self.v)), ..self }
        } else {
            Registers { v: ((self.v + self.vram_increment()) % 0x10000) as u16, ..self }
        }
    }

    /// The registers after the CPU wrote `value` to `register`.
    pub open spec fn written(self, register: PPURegisters, value: u8) -> Registers {
        match register {
            PPURegisters::PpuCtrl => Registers {
                ppu_ctrl: value,
                t: with_field(self.t, VramAddressFlags::NametableSelect, (value & 0b11) as u16),
                ..self
            },
            PPURegisters::PpuMask => Registers { ppu_mask: value, ..self },
            PPURegisters::PpuStatus => Registers { ppu_status: value, ..self },
            PPURegisters::OamAddr => Registers { oam_addr: value, ..self },
            PPURegisters::OamData => Registers { oam_data: value, ..self },
            PPURegisters::PpuScroll => if !self.w {
                Registers {
                    ppu_scroll: value,
                    t: with_field(self.t, VramAddressFlags::CoarseXScroll, (value >> 3) as u16),
                    x: value & 0x07,
                    w: true,
                    ..self
                }
            } else {
                Registers {
                    ppu_scroll: value,
                    t: with_field(
                        with_field(self.t, VramAddressFlags::CoarseYScroll, (value >> 3) as u16),
                        VramAddressFlags::FineYScroll,
                        (value & 0x07) as u16,
                    ),
                    w: false,
                    ..self
                }
            },
            PPURegisters::PpuAddr => if !self.w {
                Registers {
                    ppu_addr: value,
                    t: ((self.t & 0x00FF) | (((value & 0x3F) as u16) << 8u16)) & 0x3FFF,
                    w: true,
                    ..self
                }
            } else {
                let t = ((self.t & 0xFF00) | value as u16) & 0x3FFF;
                Registers { ppu_addr: value, t, v: t, w: false, ..self }
            },
            PPURegisters::PpuData => if self.is_rendering {
                Registers { ppu_data: value, v: rendering_write_step(self.v), ..self }
            } else {
                Registers { ppu_data: value, ..self }.after_data_access()
            },
            PPURegisters::OamDma => Registers { oam_dma: value, ..self },
        }
    }

    /// What a CPU read of `register` returns.
    pub open spec fn read_value(self, register: PPURegisters) -> u8 {
        match register {
            PPURegisters::PpuCtrl => self.ppu_ctrl,
            PPURegisters::PpuMask => self.ppu_mask,
            PPURegisters::PpuStatus => self.ppu_status,
            PPURegisters::OamAddr => self.oam_addr,
            PPURegisters::OamData => self.oam_data,
            PPURegisters::PpuScroll => self.ppu_scroll,
            PPURegisters::PpuAddr => self.ppu_addr,
            PPURegisters::PpuData => self.ppu_data,
            PPURegisters::OamDma => self.oam_dma,
        }
    }

    /// The registers after a CPU read of `register`: reading PPUSTATUS resets the write
    /// toggle, reading PPUDATA moves `v`.
    pub open spec fn after_read(self, register: PPURegisters) -> Registers {
        match register {
            PPURegisters::PpuStatus => Registers { w: false, ..self },
            PPURegisters::PpuData => self.after_data_access(),
            _ => self,
        }
    }

    pub fn new() -> (r: Registers)
        ensures
            r == Registers::initial(),
    {
        Registers {
            ppu_ctrl: 0,
            ppu_mask: 0,
            ppu_status: 0,
            oam_addr: 0,
            oam_data: 0,
            ppu_scroll: 0,
            ppu_addr: 0,
            ppu_data: 0,
            oam_dma: 0,
            v: 0,
            t: 0,
            x: 0,
            w: false,
            is_rendering: false,
        }
    }

    /// Clears the CPU-visible registers and sets the VBlank bit of PPUSTATUS; the scroll state
    /// is kept.
    pub fn reset(&mut self)
        ensures
            *final(self) == (Registers {
                ppu_ctrl: 0,
                ppu_mask: 0,
                ppu_status: 0b1000_0000,
                oam_addr: 0,
                oam_data: 0,
                ppu_scroll: 0,
                ppu_addr: 0,
                ppu_data: 0,
                oam_dma: 0,
                ..*old(self)
            }),
    {
        self.ppu_ctrl = 0;
        self.ppu_mask = 0;
        self.ppu_status = 0b1000_0000;
        self.oam_addr = 0;
        self.oam_data = 0;
        self.ppu_scroll = 0;
        self.ppu_addr = 0;
        self.ppu_data = 0;
        self.oam_dma = 0;
    }

    /// Sets or clears one bit of PPUSTATUS.
    pub fn set_status_flag(&mut self, flag: PpuStatusFlags, value: bool)
        ensures
            *final(self) == (Registers {
                ppu_status: (old(self).ppu_status & !flag.spec_mask()) | (if value {
                    flag.spec_mask()
                } else {
                    0
                }),
                ..*old(self)
            }),
    {
        let mask = flag.mask();
        self.ppu_status = (self.ppu_status & !mask) | (if value { mask } else { 0 });
    }

    /// Replaces one field of `v`.
    pub fn set_v_flag(&mut self, flag: VramAddressFlags, value: u16)
        ensures
            *final(self) == (Registers { v: with_field(old(self).v, flag, value), ..*old(self) }),
    {
        let mask = flag.mask();
        let shift = flag.shift();

        self.v = (self.v & !mask) | value << shift;
    }

    /// Replaces one field of `t`.
    pub fn set_t_flag(&mut self, flag: VramAddressFlags, value: u16)
        ensures
            *final(self) == (Registers { t: with_field(old(self).t, flag, value), ..*old(self) }),
    {
        let mask = flag.mask();
        let shift = flag.shift();

        self.t = (self.t & !mask) | value << shift;
    }

    /// Clears VBlank, sprite zero hit and sprite overflow, keeping the low five bits.
    pub fn reset_ppu_status(&mut self)
        ensures
            *final(self) == (Registers {
                ppu_status: old(self).ppu_status & 0b0001_1111,
                ..*old(self)
            }),
    {
        self.ppu_status = self.ppu_status & 0b0001_1111;
    }

    /// Moves `v` for a PPUDATA access.
    fn increment_vram_address(&mut self)
        ensures
            *final(self) == old(self).after_data_access(),
    {
        if self.is_rendering {
            self.coarse_x_increment();
            self.coarse_y_increment();
        } else {
            let vram_increment = self.ppu_ctrl & PpuCtrlFlags::VRamAddressIncrement.mask() != 0;
            self.v = self.v.wrapping_add(if vram_increment { 32 } else { 1 });
        }
    }

    /// The CPU writes `value` to `register`.
    pub fn set_register(&mut self, register: PPURegisters, value: u8)
        ensures
            *final(self) == old(self).written(register, value),
    {
        match register {
            PPURegisters::PpuCtrl => {
                self.ppu_ctrl = value;

                // t: ...GH.. ........ <- d: ......GH
                let mask = PpuCtrlFlags::BaseNameTableAddress.mask() as u16;
                let nametable_select = (value as u16) & mask;
                assert(((value & 0b11) as u16) == (value as u16) & 0b11) by (bit_vector);
                self.set_t_flag(VramAddressFlags::NametableSelect, nametable_select);
            },
            PPURegisters::PpuMask => self.ppu_mask = value,
            PPURegisters::PpuStatus => self.ppu_status = value,
            PPURegisters::OamAddr => self.oam_addr = value,
            PPURegisters::OamData => self.oam_data = value,
            PPURegisters::PpuScroll => {
                self.ppu_scroll = value;

                assert(((value >> 3) as u16) == ((value as u16) >> 3) & 0x1F) by (bit_vector);
                assert(((value & 0x07) as u16) == (value as u16) & 0x07) by (bit_vector);
                if !self.w {
                    // t: ....... ...ABCDE <- d: ABCDE...
                    self.set_t_flag(VramAddressFlags::CoarseXScroll, ((value as u16) >> 3) & 0x1F);

                    // x:              FGH <- d: .....FGH
                    self.x = value & 0x07;

                    // w <- 1
                    self.w = true;
                } else {
                    // t: .... .ABCDE ..... <- d: ABCDE...
                    self.set_t_flag(VramAddressFlags::CoarseYScroll, ((value as u16) >> 3) & 0x1F);

                    // t: FGH.. ........... <- d: .....FGH
                    self.set_t_flag(VramAddressFlags::FineYScroll, (value as u16) & 0x07);

                    // w <- 0
                    self.w = false;
                }
            },
            PPURegisters::PpuAddr => {
                self.ppu_addr = value;

                assert(((value & 0x3F) as u16) == (value as u16) & 0x3F) by (bit_vector);
                if !self.w {
                    // t: .HIJKLM ........ <- d: ..HIJKLM
                    self.t = (self.t & 0x00FF) | (((value as u16) & 0x3F) << 8);
                    self.t = self.t & 0x3FFF;

                    self.w = true;
                } else {
                    // t: ........ LMNOPQRS <- d: LMNOPQRS
                    self.t = (self.t & 0xFF00) | value as u16;
                    self.t = self.t & 0x3FFF;

                    // v = t
                    self.v = self.t;

                    self.w = false;
                }
            },
            PPURegisters::PpuData => {
                self.ppu_data = value;
                if self.is_rendering && self.v == 0x001F {
                    self.v = 0x40A1;
                } else {
                    self.increment_vram_address();
                }
            },
            PPURegisters::OamDma => self.oam_dma = value,
        }
    }

    /// The CPU reads `register`.
    pub fn get_register(&mut self, register: PPURegisters) -> (value: u8)
        ensures
            value == old(self).read_value(register),
            *final(self) == old(self).after_read(register),
    {
        match register {
            PPURegisters::PpuCtrl => self.ppu_ctrl,
            PPURegisters::PpuMask => self.ppu_mask,
            PPURegisters::PpuStatus => {
                self.w = false;
                self.ppu_status
            },
            PPURegisters::OamAddr => self.oam_addr,
            PPURegisters::OamData => self.oam_data,
            PPURegisters::PpuScroll => self.ppu_scroll,
            PPURegisters::PpuAddr => self.ppu_addr,
            PPURegisters::PpuData => {
                self.increment_vram_address();

                self.ppu_data
            },
            PPURegisters::OamDma => self.oam_dma,
        }
    }

    /// What a CPU read of `register` returns, without the read's effect.
    pub fn peek_register(&self, register: PPURegisters) -> (value: u8)
        ensures
            value == self.read_value(register),
    {
        match register {
            PPURegisters::PpuCtrl => self.ppu_ctrl,
            PPURegisters::PpuMask => self.ppu_mask,
            PPURegisters::PpuStatus => self.ppu_status,
            PPURegisters::OamAddr => self.oam_addr,
            PPURegisters::OamData => self.oam_data,
            PPURegisters::PpuScroll => self.ppu_scroll,
            PPURegisters::PpuAddr => self.ppu_addr,
            PPURegisters::PpuData => self.ppu_data,
            PPURegisters::OamDma => self.oam_dma,
        }
    }

    /// Moves `v` one tile right.
    pub fn coarse_x_increment(&mut self)
        ensures
            *final(self) == (Registers { v: coarse_x_incremented(old(self).v), ..*old(self) }),
    {
        if (self.v & 0x001F) == 31 {  // if coarse X == 31
            self.v = self.v & !0x001F;  // coarse X = 0
            self.v = self.v ^ 0x0400;  // switch horizontal nametable
        } else {
            let v = self.v;
            assert(v & 0x001F != 31 ==> v < 0xFFFF) by (bit_vector);
            self.v = self.v + 1;  // increment coarse X
        }
    }

    /// Moves `v` one pixel down.
    pub fn coarse_y_increment(&mut self)
        ensures
            *final(self) == (Registers { v: coarse_y_incremented(old(self).v), ..*old(self) }),
    {
        if (self.v & 0x7000) != 0x7000 {  // if fine Y < 7
            let v = self.v;
            assert(v & 0x7000 != 0x7000 ==> v + 0x1000 <= 0xFFFF) by (bit_vector);
            self.v = self.v + 0x1000;  // increment fine Y
        } else {
            self.v = self.v & !0x7000;  // fine Y = 0
            let mut y = (self.v & 0x03E0) >> 5;  // let y = coarse Y

            if y == 29 {
                y = 0;
                self.v = self.v ^ 0x0800;  // switch vertical nametable
            } else if y == 31 {
                y = 0;  // coarse Y = 0, nametable not switched
            } else {
                let v = self.v;
                assert((v & 0x03E0) >> 5 <= 31) by (bit_vector);
                y = y + 1;
            }

            self.v = (self.v & !0x03E0) | (y << 5);
        }
    }
}


/// Coarse X (bits 0-4) of a VRAM address.
pub open spec fn coarse_x(v: u16) -> u16 {
    v & 0x1F
}

/// Coarse Y (bits 5-9) of a VRAM address.
pub open spec fn coarse_y(v: u16) -> u16 {
    (v >> 5) & 0x1F
}

/// Fine Y (bits 12-14) of a VRAM address.
pub open spec fn fine_y(v: u16) -> u16 {
    (v >> 12) & 0x7
}

/// The horizontal nametable bit (bit 10) of a VRAM address.
pub open spec fn nametable_x(v: u16) -> u16 {
    (v >> 10) & 1
}

/// The vertical nametable bit (bit 11) of a VRAM address.
pub open spec fn nametable_y(v: u16) -> u16 {
    (v >> 11) & 1
}

/// A coarse X step counts coarse X up modulo 32, switches the horizontal nametable exactly when
/// it wraps, and leaves every other bit as it was.
pub proof fn lemma_coarse_x_increment(v: u16)
    ensures
        coarse_x(coarse_x_incremented(v)) == (coarse_x(v) + 1) % 32,
        nametable_x(coarse_x_incremented(v)) == if coarse_x(v) == 31 {
            1 - nametable_x(v)
        } else {
            nametable_x(v) as int
        },
        coarse_x_incremented(v) & 0xFBE0 == v & 0xFBE0,
{
    let w = coarse_x_incremented(v);
    if v & 0x001F == 31 {
        let r: u16 = (v & !0x001Fu16) ^ 0x0400;
        assert(w == r);
        assert(v & 0x1F == 31 && r == (v & !0x001Fu16) ^ 0x0400 ==> r & 0x1F == 0 && (r >> 10) & 1
            == 1 - ((v >> 10) & 1) && r & 0xFBE0 == v & 0xFBE0) by (bit_vector);
        assert(coarse_x(w) == 0);
        assert(coarse_x(v) == 31);
    } else {
        assert(v & 0x1F != 31 ==> v < 0xFFFF) by (bit_vector);
        let next: u16 = (v + 1) as u16;
        assert(w == next);
        assert(v & 0x1F != 31 && next == v + 1 ==> next & 0x1F == (v & 0x1F) + 1 && (v & 0x1F)
            < 31 && (next >> 10) & 1 == (v >> 10) & 1 && next & 0xFBE0 == v & 0xFBE0)
            by (bit_vector);
    }
}

/// A vertical step counts fine Y up to 7; from 7 it goes back to 0 and moves coarse Y down one
/// row, wrapping after row 29 with a switch of the vertical nametable, or after row 31 without
/// one. Coarse X and the horizontal nametable never change.
pub proof fn lemma_coarse_y_increment(v: u16)
    ensures
        fine_y(v) < 7 ==> fine_y(coarse_y_incremented(v)) == fine_y(v) + 1 && coarse_y(
            coarse_y_incremented(v),
        ) == coarse_y(v) && nametable_y(coarse_y_incremented(v)) == nametable_y(v),
        fine_y(v) == 7 ==> fine_y(coarse_y_incremented(v)) == 0,
        fine_y(v) == 7 && coarse_y(v) == 29 ==> coarse_y(coarse_y_incremented(v)) == 0
            && nametable_y(coarse_y_incremented(v)) == 1 - nametable_y(v),
        fine_y(v) == 7 && coarse_y(v) == 31 ==> coarse_y(coarse_y_incremented(v)) == 0
            && nametable_y(coarse_y_incremented(v)) == nametable_y(v),
        fine_y(v) == 7 && coarse_y(v) != 29 && coarse_y(v) != 31 ==> coarse_y(
            coarse_y_incremented(v),
        ) == coarse_y(v) + 1 && nametable_y(coarse_y_incremented(v)) == nametable_y(v),
        coarse_x(coarse_y_incremented(v)) == coarse_x(v),
        nametable_x(coarse_y_incremented(v)) == nametable_x(v),
        coarse_y_incremented(v) & 0x8000 == v & 0x8000,
{
    let w = coarse_y_incremented(v);
    if v & 0x7000 != 0x7000 {
        let next: u16 = (v + 0x1000) as u16;
        assert(w == next);
        assert(v & 0x7000 != 0x7000 ==> v + 0x1000 <= 0xFFFF) by (bit_vector);
        assert(v & 0x7000 != 0x7000 && next == v + 0x1000 ==> ((v >> 12) & 7) < 7 && (next >> 12)
            & 7 == ((v >> 12) & 7) + 1 && (next >> 5) & 0x1F == (v >> 5) & 0x1F && (next >> 11) & 1
            == (v >> 11) & 1 && next & 0x1F == v & 0x1F && (next >> 10) & 1 == (v >> 10) & 1
            && next & 0x8000 == v & 0x8000) by (bit_vector);
    } else {
        let cleared: u16 = v & !0x7000u16;
        let y: u16 = (cleared & 0x03E0) >> 5;
        assert(v & 0x7000 == 0x7000 ==> (v >> 12) & 7 == 7) by (bit_vector);
        assert(y == (v >> 5) & 0x1F) by (bit_vector)
            requires
                cleared == v & !0x7000u16,
                y == (cleared & 0x03E0) >> 5,
        ;
        if y == 29 {
            let r: u16 = ((cleared ^ 0x0800) & !0x03E0u16) | (0u16 << 5u16);
            assert(w == r);
            assert(cleared == v & !0x7000u16 && r == ((cleared ^ 0x0800) & !0x03E0u16) | (0u16
                << 5u16) ==> (r >> 12) & 7 == 0 && (r >> 5) & 0x1F == 0 && (r >> 11) & 1 == 1 - ((v
                >> 11) & 1) && r & 0x1F == v & 0x1F && (r >> 10) & 1 == (v >> 10) & 1 && r & 0x8000
                == v & 0x8000) by (bit_vector);
        } else if y == 31 {
            let r: u16 = (cleared & !0x03E0u16) | (0u16 << 5u16);
            assert(w == r);
            assert(cleared == v & !0x7000u16 && r == (cleared & !0x03E0u16) | (0u16 << 5u16)
                ==> (r >> 12) & 7 == 0 && (r >> 5) & 0x1F == 0 && (r >> 11) & 1 == (v >> 11) & 1 && r
                & 0x1F == v & 0x1F && (r >> 10) & 1 == (v >> 10) & 1 && r & 0x8000 == v & 0x8000)
                by (bit_vector);
        } else {
            assert(y <= 31) by (bit_vector)
                requires
                    y == (cleared & 0x03E0) >> 5,
            ;
            let next_y: u16 = (y + 1) as u16;
            let r: u16 = (cleared & !0x03E0u16) | (next_y << 5u16);
            assert(w == r);
            assert(cleared == v & !0x7000u16 && y == (cleared & 0x03E0) >> 5 && y < 31 && next_y
                == y + 1 && r == (cleared & !0x03E0u16) | (next_y << 5u16) ==> (r >> 12) & 7 == 0
                && (r >> 5) & 0x1F == y + 1 && (r >> 11) & 1 == (v >> 11) & 1 && r & 0x1F == v & 0x1F
                && (r >> 10) & 1 == (v >> 10) & 1 && r & 0x8000 == v & 0x8000) by (bit_vector);
        }
    }
}

/// Two writes to PPUADDR, the high byte first, load both `t` and `v` with the 14-bit address
/// they spell, and leave the write toggle as it was found.
pub proof fn lemma_ppu_addr_two_writes(r: Registers, high: u8, low: u8)
    requires
        !r.w,
    ensures
        r.written(PPURegisters::PpuAddr, high).written(PPURegisters::PpuAddr, low).v == ((high
            & 0x3F) as u16) * 256 + low as u16,
        r.written(PPURegisters::PpuAddr, high).written(PPURegisters::PpuAddr, low).t == ((high
            & 0x3F) as u16) * 256 + low as u16,
        !r.written(PPURegisters::PpuAddr, high).written(PPURegisters::PpuAddr, low).w,
        r.written(PPURegisters::PpuAddr, high).v == r.v,
{
    let t0 = r.t;
    let t1: u16 = ((t0 & 0x00FF) | (((high & 0x3F) as u16) << 8u16)) & 0x3FFF;
    let t2: u16 = ((t1 & 0xFF00) | low as u16) & 0x3FFF;
    let h: u16 = (high & 0x3F) as u16;
    assert(h < 64) by (bit_vector)
        requires h == (high & 0x3F) as u16;
    let l: u16 = low as u16;
    assert(t1 == ((t0 & 0x00FF) | (h << 8u16)) & 0x3FFF);
    assert(h < 64 && l < 256 && t1 == ((t0 & 0x00FF) | (h << 8u16)) & 0x3FFF && t2 == ((t1
        & 0xFF00) | l) & 0x3FFF ==> t2 == h * 256 + l) by (bit_vector);
}

/// What the CPU writes to a PPU register is what it reads back from it.
pub proof fn lemma_register_read_back(r: Registers, register: PPURegisters, value: u8)
    ensures
        r.written(register, value).read_value(register) == value,
{
}

/// Reading PPUSTATUS returns it and resets the write toggle, and nothing else changes.
pub proof fn lemma_status_read_resets_toggle(r: Registers)
    ensures
        r.read_value(PPURegisters::PpuStatus) == r.ppu_status,
        r.after_read(PPURegisters::PpuStatus) == (Registers { w: false, ..r }),
{
}

/// Outside rendering, each PPUDATA access, read or write, moves `v` by 1, or by 32 when PPUCTRL
/// selects the vertical increment.
pub proof fn lemma_data_access_increment(r: Registers, value: u8)
    requires
        !r.is_rendering,
    ensures
        r.after_read(PPURegisters::PpuData).v == (r.v + if r.ppu_ctrl & 0b100 != 0 {
            32int
        } else {
            1int
        }) % 0x10000,
        r.written(PPURegisters::PpuData, value).v == (r.v + if r.ppu_ctrl & 0b100 != 0 {
            32int
        } else {
            1int
        }) % 0x10000,
{
}

/// Writes to PPUCTRL and PPUSCROLL fill the fields of `t`: PPUCTRL's low two bits become the
/// nametable select (bits 10-11); the first PPUSCROLL write puts the byte's top five bits into
/// coarse X and its low three into fine X and sets the toggle, the second puts them into coarse
/// Y and fine Y and clears the toggle; every other field of `t` is kept.
pub proof fn lemma_ctrl_and_scroll_fill_t(r: Registers, value: u8)
    ensures
        ({
            let ctrl = r.written(PPURegisters::PpuCtrl, value);
            &&& ctrl.ppu_ctrl == value
            &&& (ctrl.t >> 10) & 3 == (value & 3) as u16
            &&& coarse_x(ctrl.t) == coarse_x(r.t) && coarse_y(ctrl.t) == coarse_y(r.t) && fine_y(
                ctrl.t,
            ) == fine_y(r.t)
        }),
        !r.w ==> ({
            let first = r.written(PPURegisters::PpuScroll, value);
            &&& coarse_x(first.t) == (value >> 3) as u16
            &&& first.x == value & 7
            &&& first.w
            &&& coarse_y(first.t) == coarse_y(r.t) && fine_y(first.t) == fine_y(r.t)
            &&& (first.t >> 10) & 3 == (r.t >> 10) & 3
            &&& first.v == r.v
        }),
        r.w ==> ({
            let second = r.written(PPURegisters::PpuScroll, value);
            &&& coarse_y(second.t) == (value >> 3) as u16
            &&& fine_y(second.t) == (value & 7) as u16
            &&& !second.w
            &&& second.x == r.x
            &&& coarse_x(second.t) == coarse_x(r.t)
            &&& (second.t >> 10) & 3 == (r.t >> 10) & 3
            &&& second.v == r.v
        }),
{
    let t = r.t;
    let n: u16 = (value & 0b11) as u16;
    let ct: u16 = (t & !0b000_11_00000_00000u16) | (n << 10u16);
    assert(ct == with_field(t, VramAddressFlags::NametableSelect, n));
    assert(n == (value & 3) as u16 && ct == (t & !0b000_11_00000_00000u16) | (n << 10u16) ==> (ct
        >> 10) & 3 == n && ct & 0x1F == t & 0x1F && (ct >> 5) & 0x1F == (t >> 5) & 0x1F && (ct
        >> 12) & 7 == (t >> 12) & 7) by (bit_vector);
    let cx: u16 = (value >> 3) as u16;
    let st: u16 = (t & !0b000_00_00000_11111u16) | (cx << 0u16);
    assert(st == with_field(t, VramAddressFlags::CoarseXScroll, cx));
    assert(cx == (value >> 3) as u16 && st == (t & !0b000_00_00000_11111u16) | (cx << 0u16) ==> st
        & 0x1F == cx && (st >> 5) & 0x1F == (t >> 5) & 0x1F && (st >> 12) & 7 == (t >> 12) & 7 && (
    st >> 10) & 3 == (t >> 10) & 3) by (bit_vector);
    let fy: u16 = (value & 0x07) as u16;
    let ut: u16 = (t & !0b000_00_11111_00000u16) | (cx << 5u16);
    let yt: u16 = (ut & !0b111_00_00000_00000u16) | (fy << 12u16);
    assert(ut == with_field(t, VramAddressFlags::CoarseYScroll, cx));
    assert(yt == with_field(ut, VramAddressFlags::FineYScroll, fy));
    assert(cx == (value >> 3) as u16 && fy == (value & 0x07) as u16 && ut == (t
        & !0b000_00_11111_00000u16) | (cx << 5u16) && yt == (ut & !0b111_00_00000_00000u16) | (fy
        << 12u16) ==> (yt >> 5) & 0x1F == cx && (yt >> 12) & 7 == fy && yt & 0x1F == t & 0x1F && (yt
        >> 10) & 3 == (t >> 10) & 3) by (bit_vector);
}

} // verus!
