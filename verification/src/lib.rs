//! A NES emulator core: the 6502 CPU with its registers and instruction set, the
//! memory buses, the iNES cartridge format and the picture processing unit.

pub mod bus;
pub mod cartridge;
pub mod cpu;
pub mod manaslu;
pub mod ppu;
pub mod utils;
