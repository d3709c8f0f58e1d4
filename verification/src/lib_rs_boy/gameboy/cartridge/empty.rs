//! The cartridge slot with nothing in it.
use crate::gameboy::memory_bus::MemoryAccessor;
use super::Cartridge;
use vstd::prelude::*;

verus! {

pub struct Empty {}

impl MemoryAccessor for Empty {
    /// Reading an empty slot always fails.
    open spec fn readable(&self, location: usize) -> bool {
        false
    }

    open spec fn read_value(&self, location: usize) -> u8 {
        0
    }

    /// Writing an empty slot always fails.
    open spec fn writable(&self, location: usize, value: u8) -> bool {
        false
    }

    open spec fn after_write(&self, post: Self, location: usize, value: u8) -> bool {
        true
    }

    fn get(&self, _location: usize) -> (r: u8) {
        0
    }

    fn write(&mut self, _location: usize, _value: u8) {
    }
}

impl Cartridge for Empty {

}

} // verus!
