use vstd::prelude::*;

pub mod math;
pub mod testing;

verus! {

/// Width of the picture, in pixels.
pub const PPU_WIDTH: usize = 256;

/// Height of the picture, in pixels.
pub const PPU_HEIGHT: usize = 240;

} // verus!
