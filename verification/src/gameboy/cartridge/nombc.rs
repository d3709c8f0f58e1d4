//! A cartridge without a memory bank controller: 32 KiB of ROM, nothing else.
use crate::gameboy::memory_bus::MemoryAccessor;
use vstd::prelude::*;

verus! {

#[allow(non_camel_case_types)]
pub struct NO_MBC {
    rom: Vec<u8>,
}

impl NO_MBC {
    /// The ROM bytes.
    pub closed spec fn rom(&self) -> Seq<u8> {
        self.rom@
    }

    pub fn new(buffer: Vec<u8>) -> (r: Self)
        ensures
            r.rom() == buffer@,
    {
        NO_MBC { rom: buffer }
    }
}

impl MemoryAccessor for NO_MBC {
    /// Every ROM address below 0x8000 that the ROM holds.
    open spec fn readable(&self, location: usize) -> bool {
        location <= 0x7fff && location < self.rom().len()
    }

    open spec fn read_value(&self, location: usize) -> u8 {
        self.rom()[location as int]
    }

    /// A write always fails: there are no cartridge registers.
    open spec fn writable(&self, location: usize, value: u8) -> bool {
        false
    }

    open spec fn after_write(&self, post: Self, location: usize, value: u8) -> bool {
        post.rom() == self.rom()
    }

    fn get(&self, location: usize) -> (r: u8) {
        self.rom[location]
    }

    fn write(&mut self, _location: usize, _value: u8) {
    }
}

impl super::Cartridge for NO_MBC {

}

} // verus!
