use vstd::prelude::*;
use crate::cartridge::Cartridge;
use registers::{PpuStatusFlags, Registers};
pub use crate::utils::{PPU_HEIGHT, PPU_WIDTH};

pub mod ppu_bus;
pub mod registers;

verus! {

/// Bytes in the pixel buffer: four (red, green, blue, alpha) per pixel.
pub const PIXEL_BUFFER_SIZE: usize = 245760;

/// The last scanline of a frame: the pre-render line.
pub const PRE_RENDER_SCANLINE: u16 = 261;

/// The last cycle of a scanline.
pub const LAST_CYCLE: u16 = 340;

/// What the PPU is, as a mathematical value.
pub struct PpuView {
    pub registers: Registers,
    pub bus: ppu_bus::PpuBus,
    pub current_scanline: u16,
    pub current_cycle: u16,
    pub is_odd_frame: bool,
    pub pixels: Seq<u8>,
    pub current_frame: u64,
}

/// The colour of the test pattern that the PPU draws at (x, y) in frame `t` (the low byte of the
/// frame counter): red, green and blue.
#[verifier::opaque]
pub open spec fn pattern_color(x: u8, y: u8, t: u8) -> (u8, u8, u8) {
    let u = x.wrapping_sub(128);
    let v = y.wrapping_sub(120);
    let pattern = (u ^ v).wrapping_mul(4);
    let depth = (u.wrapping_mul(u).wrapping_add(v.wrapping_mul(v))) >> 5u8;
    let intensity = pattern.wrapping_sub(depth).wrapping_add(t.wrapping_mul(4));
    (intensity, intensity.wrapping_mul(2), intensity.wrapping_add(128))
}

/// `pixels` with the pixel at (x, y) painted.
pub open spec fn painted(pixels: Seq<u8>, x: u8, y: u8, t: u8) -> Seq<u8> {
    let index = (y * PPU_WIDTH + x) * 4;
    let (r, g, b) = pattern_color(x, y, t);
    pixels.update(index, r).update(index + 1, g).update(index + 2, b).update(index + 3, 255)
}

impl PpuView {
    /// The position after the current cycle: the next cycle, or the start of the next
    /// scanline after cycle 340, the pre-render scanline 261 being followed by scanline 0.
    pub open spec fn moved_on(self) -> PpuView {
        if self.current_cycle == LAST_CYCLE {
            PpuView {
                current_cycle: 0,
                current_scanline: if self.current_scanline == PRE_RENDER_SCANLINE {
                    0
                } else {
                    (self.current_scanline + 1) as u16
                },
                ..self
            }
        } else {
            PpuView { current_cycle: (self.current_cycle + 1) as u16, ..self }
        }
    }

    /// The PPU after one cycle: the pre-render line counts a new frame at cycle 0 and clears
    /// the status flags at cycle 1, the visible lines paint the pixel of cycles 1-256 (cycle
    /// 256 paints column 0 again), scanline 241 sets VBlank at cycle 1, and every cycle moves on.
    pub open spec fn stepped(self) -> PpuView {
        let scanline = self.current_scanline;
        let cycle = self.current_cycle;
        let moved = self.moved_on();
        if scanline == PRE_RENDER_SCANLINE && cycle == 0 {
            PpuView { current_frame: self.current_frame.wrapping_add(1), ..moved }
        } else if scanline == PRE_RENDER_SCANLINE && cycle == 1 {
            PpuView {
                registers: Registers {
                    ppu_status: self.registers.ppu_status & 0b0001_1111,
                    ..self.registers
                },
                ..moved
            }
        } else if scanline <= 239 && 1 <= cycle <= 256 {
            PpuView {
                pixels: painted(
                    self.pixels,
                    (cycle % 256) as u8,
                    scanline as u8,
                    (self.current_frame % 256) as u8,
                ),
                ..moved
            }
        } else if scanline == 241 && cycle == 1 {
            PpuView {
                registers: Registers {
                    ppu_status: (self.registers.ppu_status & !0b1000_0000u8) | 0b1000_0000,
                    ..self.registers
                },
                ..moved
            }
        } else {
            moved
        }
    }
}

/// The PPU after `n` cycles.
pub open spec fn run(ppu: PpuView, n: nat) -> PpuView
    decreases n,
{
    if n == 0 {
        ppu
    } else {
        run(ppu, (n - 1) as nat).stepped()
    }
}

/// The picture processing unit.
pub struct Ppu {
    pub registers: Registers,
    pub bus: ppu_bus::PpuBus,
    pub current_scanline: u16,
    pub current_cycle: u16,
    pub is_odd_frame: bool,
    pub pixel_buffer: Vec<u8>,
    pub current_frame: u64,
}

impl View for Ppu {
    type V = PpuView;

    open spec fn view(&self) -> PpuView {
        PpuView {
            registers: self.registers,
            bus: self.bus,
            current_scanline: self.current_scanline,
            current_cycle: self.current_cycle,
            is_odd_frame: self.is_odd_frame,
            pixels: self.pixel_buffer@,
            current_frame: self.current_frame,
        }
    }
}

impl Ppu {
    /// The position is a real one and the pixel buffer has its size.
    pub open spec fn wf(&self) -> bool {
        &&& self.current_scanline <= PRE_RENDER_SCANLINE
        &&& self.current_cycle <= LAST_CYCLE
        &&& self.pixel_buffer@.len() == PIXEL_BUFFER_SIZE
    }

    /// A PPU at the start of the pre-render line, with a white picture.
    pub fn new(cartridge: Cartridge) -> (ppu: Ppu)
        ensures
            ppu.wf(),
            ppu.registers == Registers::initial(),
            ppu.bus.cartridge == cartridge,
            ppu.current_scanline == PRE_RENDER_SCANLINE,
            ppu.current_cycle == 0,
            !ppu.is_odd_frame,
            ppu.current_frame == 0,
            forall|i: int| 0 <= i < PIXEL_BUFFER_SIZE ==> ppu.pixel_buffer@[i] == 255,
            forall|i: int| 0 <= i < 0x0800 ==> ppu.bus.vram@[i] == 0,
            forall|i: int| 0 <= i < 0x0020 ==> ppu.bus.palette@[i] == 0,
    {
        Ppu {
            registers: Registers::new(),
            bus: ppu_bus::PpuBus::new(cartridge),
            current_scanline: PRE_RENDER_SCANLINE,
            current_cycle: 0,
            is_odd_frame: false,
            pixel_buffer: vec![255u8; PIXEL_BUFFER_SIZE],
            current_frame: 0,
        }
    }

    /// Puts the registers back in their power-on state.
    pub fn reset(&mut self)
        ensures
            final(self)@ == (PpuView { registers: Registers::initial(), ..old(self)@ }),
            final(self).wf() == old(self).wf(),
    {
        self.registers = Registers::new();
    }

    /// Paints the pixel at (x, y) of the test pattern for frame `t`.
    fn paint(&mut self, x: u8, y: u8, t: u8)
        requires
            old(self).pixel_buffer@.len() == PIXEL_BUFFER_SIZE,
            y <= 239,
        ensures
            final(self)@ == (PpuView { pixels: painted(old(self)@.pixels, x, y, t), ..old(self)@ }),
            final(self).pixel_buffer@.len() == PIXEL_BUFFER_SIZE,
    {
        proof {
            reveal(pattern_color);
        }
        let index = ((y as usize * PPU_WIDTH) + x as usize) * 4;
        let u = x.wrapping_sub(128);
        let v = y.wrapping_sub(120);

        let pattern = (u ^ v).wrapping_mul(4);
        let depth = (u.wrapping_mul(u).wrapping_add(v.wrapping_mul(v))) >> 5;

        let intensity = pattern.wrapping_sub(depth).wrapping_add(t.wrapping_mul(4));

        let r = intensity;
        let g = intensity.wrapping_mul(2);
        let b = intensity.wrapping_add(128);

        self.pixel_buffer.set(index, r);
        self.pixel_buffer.set(index + 1, g);
        self.pixel_buffer.set(index + 2, b);
        self.pixel_buffer.set(index + 3, 255);
    }

    /// Runs one PPU cycle.
    pub fn step(&mut self)
        requires
            old(self).wf(),
        ensures
            final(self).wf(),
            final(self)@ == old(self)@.stepped(),
    {
        match self.current_scanline {
            261 => {  // Pre-render scanline
                match self.current_cycle {
                    0 => {
                        // Idle
                        self.current_cycle = self.current_cycle + 1;
                        self.current_frame = self.current_frame.wrapping_add(1);
                    },
                    1 => {
                        self.registers.reset_ppu_status();
                        self.current_cycle = self.current_cycle + 1;
                    },
                    2..=339 => {
                        self.current_cycle = self.current_cycle + 1;
                    },
                    _ => {
                        self.current_cycle = 0;
                        self.current_scanline = 0;
                    },
                }
            },
            0..=239 => {  // Visible scanlines
                match self.current_cycle {
                    0 => {
                        // Idle
                        self.current_cycle = self.current_cycle + 1;
                    },
                    1..=256 => {
                        let x = (self.current_cycle % 256) as u8;
                        let y = self.current_scanline as u8;
                        let t = (self.current_frame % 256) as u8;
                        self.paint(x, y, t);

                        if self.current_cycle % 8 == 0 {
                            // Reload background shift registers
                            let v = self.registers.v;
                            let address = 0x2000 | (v & 0xFFF);
                            assert(address <= 0x3FFF) by (bit_vector)
                                requires
                                    address == 0x2000 | (v & 0xFFF),
                            ;
                            let _nametable_tile = self.bus.read_byte(address);
                        }

                        self.current_cycle = self.current_cycle + 1;
                    },
                    257..=339 => {
                        self.current_cycle = self.current_cycle + 1;
                    },
                    _ => {
                        self.current_cycle = 0;
                        self.current_scanline = self.current_scanline + 1;
                    },
                }
            },
            240 => {  // Post-render scanline
                if self.current_cycle == 340 {
                    self.current_cycle = 0;
                    self.current_scanline = self.current_scanline + 1;
                } else {
                    self.current_cycle = self.current_cycle + 1;
                }
            },
            241 => {
                if self.current_cycle == 1 {
                    self.registers.set_status_flag(PpuStatusFlags::VBlank, true);
                    self.current_cycle = self.current_cycle + 1;
                } else if self.current_cycle == 340 {
                    self.current_cycle = 0;
                    self.current_scanline = self.current_scanline + 1;
                } else {
                    self.current_cycle = self.current_cycle + 1;
                }
            },
            _ => {  // VBlank scanlines
                if self.current_cycle == 340 {
                    self.current_cycle = 0;
                    self.current_scanline = self.current_scanline + 1;
                } else {
                    self.current_cycle = self.current_cycle + 1;
                }
            },
        }
    }

    pub fn current_scanline(&self) -> (r: u16)
        ensures
            r == self.current_scanline,
    {
        self.current_scanline
    }

    pub fn current_cycle(&self) -> (r: u16)
        ensures
            r == self.current_cycle,
    {
        self.current_cycle
    }

    pub fn registers(&self) -> (r: &Registers)
        ensures
            *r == self.registers,
    {
        &self.registers
    }

    pub fn pixel_buffer(&self) -> (r: &[u8])
        ensures
            r@ == self.pixel_buffer@,
    {
        self.pixel_buffer.as_slice()
    }

    pub fn bus(&self) -> (r: &ppu_bus::PpuBus)
        ensures
            *r == self.bus,
    {
        &self.bus
    }
}


/// PPU cycles in a frame: 262 scanlines of 341 cycles.
pub const DOTS_PER_FRAME: u32 = 89342;

/// How many cycles into the frame the PPU is, counting from cycle 0 of the pre-render line.
pub open spec fn dot(p: PpuView) -> int {
    (if p.current_scanline == PRE_RENDER_SCANLINE {
        0
    } else {
        p.current_scanline + 1
    }) * 341 + p.current_cycle
}

/// Whether the position is a real one and the pixel buffer has its size.
pub open spec fn in_frame(p: PpuView) -> bool {
    &&& p.current_scanline <= PRE_RENDER_SCANLINE
    &&& p.current_cycle <= LAST_CYCLE
    &&& p.pixels.len() == PIXEL_BUFFER_SIZE
}

/// Each cycle moves the PPU one dot on, from the last dot of the frame back to the first.
pub proof fn lemma_step_advances_dot(p: PpuView)
    requires
        in_frame(p),
    ensures
        in_frame(p.stepped()),
        dot(p.stepped()) == (dot(p) + 1) % (DOTS_PER_FRAME as int),
        p.stepped().pixels.len() == p.pixels.len(),
{
    lemma_stepped_moves_on(p);
}

/// A cycle moves the position as `moved_on` says, and changes no length of the pixel buffer.
proof fn lemma_stepped_moves_on(p: PpuView)
    requires
        p.pixels.len() == PIXEL_BUFFER_SIZE,
    ensures
        p.stepped().current_scanline == p.moved_on().current_scanline,
        p.stepped().current_cycle == p.moved_on().current_cycle,
        p.stepped().pixels.len() == p.pixels.len(),
{
}

/// After `n` cycles the PPU is `n` dots further on, modulo the length of a frame.
pub proof fn lemma_run_advances_dot(p: PpuView, n: nat)
    requires
        in_frame(p),
    ensures
        in_frame(run(p, n)),
        dot(run(p, n)) == (dot(p) + n) % (DOTS_PER_FRAME as int),
    decreases n,
{
    if n > 0 {
        lemma_run_advances_dot(p, (n - 1) as nat);
        lemma_step_advances_dot(run(p, (n - 1) as nat));
    }
}

/// Where the four bytes of the pixel at (x, y) start in the pixel buffer.
pub open spec fn pixel_index(x: int, y: int) -> int {
    (y * PPU_WIDTH + x) * 4
}

/// `pixels` after the cycles 1 to `k` of visible line `y` painted their pixels: cycle `c` paints
/// column `c % 256`.
pub open spec fn row_progress(pixels: Seq<u8>, y: u8, t: u8, k: nat) -> Seq<u8>
    decreases k,
{
    if k == 0 {
        pixels
    } else {
        painted(row_progress(pixels, y, t, (k - 1) as nat), (k % 256) as u8, y, t)
    }
}

/// Whether column `x` has been painted after the first `k` painting cycles of a line.
pub open spec fn column_done(x: u8, k: nat) -> bool {
    (1 <= x && x <= k) || (x == 0 && k >= 256)
}

/// The first `k` cycles of a visible line from cycle 1 paint and move on, and change nothing else.
proof fn lemma_row_run(p: PpuView, k: nat)
    requires
        p.current_scanline < 240,
        p.current_cycle == 1,
        k <= 256,
    ensures
        run(p, k) == (PpuView {
            current_cycle: (1 + k) as u16,
            pixels: row_progress(p.pixels, p.current_scanline as u8, (p.current_frame % 256) as u8, k),
            ..p
        }),
    decreases k,
{
    if k > 0 {
        lemma_row_run(p, (k - 1) as nat);
    }
}

/// After the first `k` painting cycles of line `y`, each painted column holds its test-pattern
/// colour with full alpha, and every byte outside the row is as it was.
proof fn lemma_row_progress(pixels: Seq<u8>, y: u8, t: u8, k: nat)
    requires
        pixels.len() == PIXEL_BUFFER_SIZE,
        y < 240,
        k <= 256,
    ensures
        row_progress(pixels, y, t, k).len() == pixels.len(),
        forall|x: u8| #[trigger] column_done(x, k) ==> {
            let i = pixel_index(x as int, y as int);
            let (r, g, b) = pattern_color(x, y, t);
            &&& row_progress(pixels, y, t, k)[i] == r
            &&& row_progress(pixels, y, t, k)[i + 1] == g
            &&& row_progress(pixels, y, t, k)[i + 2] == b
            &&& row_progress(pixels, y, t, k)[i + 3] == 255
        },
        forall|i: int|
            0 <= i < pixels.len() && (i < pixel_index(0, y as int) || i >= pixel_index(0, y + 1))
                ==> #[trigger] row_progress(pixels, y, t, k)[i] == pixels[i],
    decreases k,
{
    if k > 0 {
        lemma_row_progress(pixels, y, t, (k - 1) as nat);
        let before = row_progress(pixels, y, t, (k - 1) as nat);
        let after = row_progress(pixels, y, t, k);
        let c = (k % 256) as u8;
        let ci = pixel_index(c as int, y as int);
        assert(after == painted(before, c, y, t));
        assert forall|x: u8| #[trigger] column_done(x, k) implies {
            let i = pixel_index(x as int, y as int);
            let (r, g, b) = pattern_color(x, y, t);
            &&& after[i] == r
            &&& after[i + 1] == g
            &&& after[i + 2] == b
            &&& after[i + 3] == 255
        } by {
            if x != c {
                assert(column_done(x, (k - 1) as nat));
            }
        }
    }
}

/// The cycles 1 to 256 of a visible line paint the whole row of the test pattern, each pixel with
/// full alpha, and end at cycle 257 of the same line; no byte outside the row changes, and
/// neither do the registers, the bus or the frame counter.
pub proof fn lemma_visible_line_paints_its_row(p: PpuView)
    requires
        in_frame(p),
        p.current_scanline < 240,
        p.current_cycle == 1,
    ensures
        ({
            let q = run(p, 256);
            let y = p.current_scanline as u8;
            let t = (p.current_frame % 256) as u8;
            &&& q.current_scanline == p.current_scanline
            &&& q.current_cycle == 257
            &&& q.registers == p.registers
            &&& q.bus == p.bus
            &&& q.current_frame == p.current_frame
            &&& q.is_odd_frame == p.is_odd_frame
            &&& q.pixels.len() == p.pixels.len()
            &&& forall|x: u8| {
                let i = #[trigger] pixel_index(x as int, y as int);
                let (r, g, b) = pattern_color(x, y, t);
                &&& q.pixels[i] == r
                &&& q.pixels[i + 1] == g
                &&& q.pixels[i + 2] == b
                &&& q.pixels[i + 3] == 255
            }
            &&& forall|i: int|
                0 <= i < p.pixels.len() && (i < pixel_index(0, y as int) || i >= pixel_index(0, y + 1))
                    ==> #[trigger] q.pixels[i] == p.pixels[i]
        }),
{
    let y = p.current_scanline as u8;
    let t = (p.current_frame % 256) as u8;
    let q = run(p, 256);
    lemma_row_run(p, 256);
    lemma_row_progress(p.pixels, y, t, 256);
    assert(q.pixels == row_progress(p.pixels, y, t, 256));
    assert forall|x: u8| {
        let i = #[trigger] pixel_index(x as int, y as int);
        let (r, g, b) = pattern_color(x, y, t);
        &&& q.pixels[i] == r
        &&& q.pixels[i + 1] == g
        &&& q.pixels[i + 2] == b
        &&& q.pixels[i + 3] == 255
    } by {
        assert(column_done(x, 256));
    }
}

/// VBlank begins at cycle 1 of scanline 241, which sets bit 7 of PPUSTATUS and keeps its other
/// bits; cycle 1 of the pre-render line clears bits 7, 6 and 5 (VBlank, sprite zero hit, sprite
/// overflow) and keeps the low five; a new frame is counted at cycle 0 of the pre-render line.
/// No other cycle changes the registers or the frame count.
pub proof fn lemma_vblank_and_frame_timing(p: PpuView)
    ensures
        ({
            let q = p.stepped();
            let status = p.registers.ppu_status;
            &&& (p.current_scanline == 241 && p.current_cycle == 1) ==> q.registers.ppu_status
                == status | 0x80 && q.current_frame == p.current_frame
            &&& (p.current_scanline == 261 && p.current_cycle == 1) ==> q.registers.ppu_status
                == status & 0x1F && q.current_frame == p.current_frame
            &&& (p.current_scanline == 261 && p.current_cycle == 0) ==> q.registers
                == p.registers && q.current_frame == (p.current_frame + 1) % 0x1_0000_0000_0000_0000
            &&& !((p.current_scanline == 241 || p.current_scanline == 261) && p.current_cycle <= 1)
                ==> q.registers == p.registers && q.current_frame == p.current_frame
            &&& q.registers.v == p.registers.v && q.registers.t == p.registers.t
        }),
{
    let status = p.registers.ppu_status;
    assert((status & !0b1000_0000u8) | 0b1000_0000 == status | 0x80) by (bit_vector);
    assert(status & 0b0001_1111 == status & 0x1F);
}

} // verus!
