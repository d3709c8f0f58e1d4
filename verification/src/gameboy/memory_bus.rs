//! The interface of every device that sits on the memory bus.
use vstd::prelude::*;

verus! {

/// A device that answers reads and writes at some addresses of the bus.
///
/// Each device states which addresses it serves (`readable`, `writable`),
/// what a read gives (`read_value`) and how a write changes it (`after_write`).
pub trait MemoryAccessor: Sized {
    /// Can `location` be read?
    spec fn readable(&self, location: usize) -> bool;

    /// The byte a read of `location` gives.
    spec fn read_value(&self, location: usize) -> u8;

    /// Can `value` be written to `location`?
    spec fn writable(&self, location: usize, value: u8) -> bool;

    /// Is `post` the device after writing `value` to `location` of `self`?
    spec fn after_write(&self, post: Self, location: usize, value: u8) -> bool;

    fn get(&self, location: usize) -> (r: u8)
        requires
            self.readable(location),
        ensures
            r == self.read_value(location),
    ;

    fn write(&mut self, location: usize, value: u8)
        requires
            old(self).writable(location, value),
        ensures
            old(self).after_write(*final(self), location, value),
    ;
}

} // verus!
