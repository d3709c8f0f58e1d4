//! A cartridge without a memory bank controller: 32 KiB of ROM, nothing else.
use super::Cartridge;
use crate::gameboy::memory_bus::MemoryAccessor;
use vstd::prelude::*;

verus! {

pub struct NoMBC {
    rom: Vec<u8>,
}

impl NoMBC {
    /// The ROM bytes.
    pub closed spec fn rom(&self) -> Seq<u8> {
        self.rom@
    }

    pub fn new(buffer: Vec<u8>) -> (r: Self)
        ensures
            r.rom() == buffer@,
    {
        NoMBC { rom: buffer }
    }
}

impl Cartridge for NoMBC {

}

impl MemoryAccessor for NoMBC {
    /// Every ROM address below 0x8000 that the ROM holds.
    open spec fn readable(&self, location: usize) -> bool {
        location <= 0x7fff && location < self.rom().len()
    }

    open spec fn read_value(&self, location: usize) -> u8 {
        self.rom()[location as int]
    }

    /// A write always fails: there are no cartridge registers.
    open spec fn writable(&self, location: usize, value: u8) -> bool {
        false
    }

    open spec fn after_write(&self, post: Self, location: usize, value: u8) -> bool {
        post == *self
    }

    fn get(&self, location: usize) -> (r: u8) {
        self.rom[location]
    }

    fn write(&mut self, _location: usize, _value: u8) {
    }
}

} // verus!
