use vstd::prelude::*;
pub use crate::cpu::cpu_bus::CpuBus;

verus! {

/// Address of the high byte of a little-endian word whose low byte is at `address`, on a
/// bus where a word in the zero page wraps around within the zero page.
pub open spec fn zero_page_high_byte_address(address: u16) -> u16 {
    if address < 0x0100 {
        ((address + 1) % 0x100) as u16
    } else {
        ((address + 1) % 0x10000) as u16
    }
}

/// A byte-addressed bus of the 16-bit address space.
///
/// A read may change the state of the device behind the bus (reading a PPU register does), so
/// both reads and writes take the bus mutably, and the spec functions below say what a read
/// returns and what state each access leaves.
pub trait MemoryIndexer: Sized {
    /// What the bus keeps true of its devices; every access keeps it.
    spec fn inv(&self) -> bool;

    /// The byte that a read at `address` returns in this state.
    spec fn read_value(&self, address: u16) -> u8;

    /// The state of the bus after a read at `address`.
    spec fn after_read(&self, address: u16) -> Self;

    /// The state of the bus after `value` was written at `address`.
    spec fn after_write(&self, address: u16, value: u8) -> Self;

    /// Where the high byte of a word whose low byte is at `address` is found.
    spec fn high_byte_address(address: u16) -> u16;

    fn read_byte(&mut self, address: u16) -> (value: u8)
        requires
            old(self).inv(),
        ensures
            final(self).inv(),
            value == old(self).read_value(address),
            *final(self) == old(self).after_read(address),
    ;

    fn write_byte(&mut self, address: u16, value: u8)
        requires
            old(self).inv(),
        ensures
            final(self).inv(),
            *final(self) == old(self).after_write(address, value),
    ;

    /// Reads the little-endian word whose low byte is at `address`.
    fn read_word(&mut self, address: u16) -> (word: u16)
        requires
            old(self).inv(),
        ensures
            final(self).inv(),
            word as int == old(self).read_value(address) as int + 256 * old(self).after_read(
                address,
            ).read_value(Self::high_byte_address(address)) as int,
            *final(self) == old(self).after_read(address).after_read(
                Self::high_byte_address(address),
            ),
    ;

    /// Writes `value` as a little-endian word whose low byte goes to `address`.
    fn write_word(&mut self, address: u16, value: u16)
        requires
            old(self).inv(),
        ensures
            final(self).inv(),
            *final(self) == old(self).after_write(address, (value % 256) as u8).after_write(
                Self::high_byte_address(address),
                (value / 256) as u8,
            ),
    ;
}

/// The high-byte address on a bus that wraps words within the zero page.
pub fn zero_page_wrapped_high_address(address: u16) -> (r: u16)
    ensures
        r == zero_page_high_byte_address(address),
{
    if address < 0x0100 {
        let next: u16 = address + 1;
        let wrapped: u16 = (address & 0xFF00) | (next & 0xFF);
        assert(wrapped == next % 0x100) by (bit_vector)
            requires
                address < 0x0100,
                next == address + 1,
                wrapped == (address & 0xFF00) | (next & 0xFF),
        ;
        wrapped
    } else {
        address.wrapping_add(1)
    }
}

} // verus!
