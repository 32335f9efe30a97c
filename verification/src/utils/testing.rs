use vstd::prelude::*;
use crate::bus::MemoryIndexer;

verus! {

/// A flat 64 KiB memory with no devices behind it, for exercising the CPU.
pub struct TestBus {
    pub memory: [u8; 0x10000],
}

impl TestBus {
    pub fn new() -> (bus: TestBus)
        ensures
            forall|address: u16| #[trigger] bus.read_value(address) == 0,
    {
        TestBus { memory: [0u8; 0x10000] }
    }
}

impl Default for TestBus {
    fn default() -> (bus: TestBus)
        ensures
            forall|address: u16| #[trigger] bus.read_value(address) == 0,
    {
        Self::new()
    }
}

impl MemoryIndexer for TestBus {
    open spec fn inv(&self) -> bool {
        true
    }

    open spec fn read_value(&self, address: u16) -> u8 {
        self.memory@[address as int]
    }

    open spec fn after_read(&self, address: u16) -> TestBus {
        *self
    }

    open spec fn after_write(&self, address: u16, value: u8) -> TestBus {
        TestBus { memory: vstd::array::spec_array_update(self.memory, address as int, value) }
    }

    open spec fn high_byte_address(address: u16) -> u16 {
        ((address + 1) % 0x10000) as u16
    }

    fn read_byte(&mut self, address: u16) -> (value: u8) {
        self.memory[address as usize]
    }

    fn write_byte(&mut self, address: u16, value: u8) {
        self.memory[address as usize] = value;
    }

    fn read_word(&mut self, address: u16) -> (word: u16) {
        let lower_byte = self.memory[address as usize];
        let upper_byte = self.memory[address.wrapping_add(1) as usize];
        (upper_byte as u16) * 256 + lower_byte as u16
    }

    fn write_word(&mut self, address: u16, value: u16) {
        let lower_byte = (value % 256) as u8;
        let upper_byte = (value / 256) as u8;
        self.memory[address as usize] = lower_byte;
        self.memory[address.wrapping_add(1) as usize] = upper_byte;
    }
}


/// What is written at an address is what a read there returns, every other address keeps its
/// byte, and reads leave the memory as it is.
pub proof fn lemma_test_bus_read_after_write(bus: TestBus, address: u16, value: u8, other: u16)
    ensures
        bus.after_write(address, value).read_value(address) == value,
        other != address ==> bus.after_write(address, value).read_value(other) == bus.read_value(
            other,
        ),
        bus.after_read(other) == bus,
{
}

/// A word written at `address`, low byte first, reads back whole.
pub proof fn lemma_test_bus_word_round_trip(bus: TestBus, address: u16, value: u16)
    ensures
        ({
            let written = bus.after_write(address, (value % 256) as u8).after_write(
                TestBus::high_byte_address(address),
                (value / 256) as u8,
            );
            written.read_value(address) + 256 * written.read_value(
                TestBus::high_byte_address(address),
            ) == value
        }),
{
}

} // verus!
