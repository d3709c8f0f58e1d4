//! Work RAM, high RAM, the serial registers and the interrupt enable register.
pub mod io_registers;

pub use io_registers::IORegisters;
use crate::gameboy::memory_bus::MemoryAccessor;
use vstd::prelude::*;

verus! {

pub struct Memory {
    high_ram: Vec<u8>,
    work_ram: Vec<u8>,
    /// I/O registers
    pub io_registers: IORegisters,
    pub interrupt_enable: u8,
}

/// Is `location` in high RAM (0xFF80-0xFFFE)?
pub open spec fn in_high_ram(location: usize) -> bool {
    0xff80 <= location <= 0xfffe
}

/// Is `location` in work RAM (0xC000-0xDFFF)?
pub open spec fn in_work_ram(location: usize) -> bool {
    0xc000 <= location <= 0xdfff
}

impl Memory {
    /// The RAM areas have their fixed sizes.
    pub closed spec fn wf(&self) -> bool {
        &&& self.high_ram@.len() == 0xfffe - 0xff80 + 1
        &&& self.work_ram@.len() == 0xdfff - 0xc000 + 1
    }

    /// High RAM, 0xFF80 first.
    pub closed spec fn high_ram(&self) -> Seq<u8> {
        self.high_ram@
    }

    /// Work RAM, 0xC000 first.
    pub closed spec fn work_ram(&self) -> Seq<u8> {
        self.work_ram@
    }

    /// The I/O registers.
    pub closed spec fn io(&self) -> IORegisters {
        self.io_registers
    }

    /// The interrupt enable register (0xFFFF).
    pub closed spec fn ie(&self) -> u8 {
        self.interrupt_enable
    }

    /// Can `location` be read?
    pub open spec fn readable(&self, location: usize) -> bool {
        &&& self.wf()
        &&& (in_high_ram(location) || in_work_ram(location) || (0xff00 <= location <= 0xff77
            && self.io().readable(location)) || location == 0xffff)
    }

    /// The byte a read of `location` gives.
    pub open spec fn read_value(&self, location: usize) -> u8 {
        if in_high_ram(location) {
            self.high_ram()[location - 0xff80]
        } else if in_work_ram(location) {
            self.work_ram()[location - 0xc000]
        } else if 0xff00 <= location <= 0xff77 {
            self.io().read_value(location)
        } else {
            self.ie()
        }
    }

    /// Can `value` be written to `location`?
    pub open spec fn writable(&self, location: usize, value: u8) -> bool {
        &&& self.wf()
        &&& (in_work_ram(location) || (0xff00 <= location <= 0xff7f && self.io().writable(
            location,
            value,
        )) || in_high_ram(location) || location == 0xffff)
    }

    /// Is `post` the memory after `value` is written to `location`?
    pub open spec fn after_write(&self, post: Self, location: usize, value: u8) -> bool {
        &&& post.wf()
        &&& post.work_ram() == (if in_work_ram(location) {
            self.work_ram().update(location - 0xc000, value)
        } else {
            self.work_ram()
        })
        &&& post.high_ram() == (if in_high_ram(location) {
            self.high_ram().update(location - 0xff80, value)
        } else {
            self.high_ram()
        })
        &&& post.ie() == (if location == 0xffff {
            value
        } else {
            self.ie()
        })
        &&& if 0xff00 <= location <= 0xff7f {
            self.io().after_write(post.io(), location, value)
        } else {
            post.io() == self.io()
        }
    }

    pub fn get(&self, location: usize) -> (r: u8)
        requires
            self.readable(location),
        ensures
            r == self.read_value(location),
    {
        if location >= 0xff80 && location <= 0xfffe {
            self.high_ram[location - 0xff80]
        } else if location >= 0xc000 && location <= 0xdfff {
            self.work_ram[location - 0xc000]
        } else if location >= 0xff00 && location <= 0xff77 {
            self.io_registers.get(location)
        } else {
            self.interrupt_enable
        }
    }

    pub fn write(&mut self, location: usize, value: u8)
        requires
            old(self).writable(location, value),
        ensures
            old(self).after_write(*final(self), location, value),
    {
        if location >= 0xc000 && location <= 0xdfff {
            // in CGB mode, the 2nd 4k are rotatable
            self.work_ram.set(location - 0xc000, value);
        } else if location >= 0xff00 && location <= 0xff7f {
            self.io_registers.write(location, value);
        } else if location >= 0xff80 && location <= 0xfffe {
            self.high_ram.set(location - 0xff80, value);
        } else {
            self.interrupt_enable = value;
        }
    }

    /// Kept for debugging sessions; prints nothing.
    pub fn dump_tile_data(&self) {
    }

    /// Kept for debugging sessions; prints nothing.
    pub fn _dump_tile(&self, _tile_id: u8) {
    }

    /// Kept for debugging sessions; prints nothing.
    pub fn _dump_oam(&self) {
    }

    /// Zeroed RAM, zeroed serial registers and no interrupt enabled.
    pub fn new() -> (r: Self)
        ensures
            r.wf(),
            r.high_ram() == Seq::new(127, |i: int| 0u8),
            r.work_ram() == Seq::new(8192, |i: int| 0u8),
            r.io().serial_data() == 0,
            r.io().serial_control() == 0,
            r.ie() == 0,
    {
        let high_ram = vec![0u8; 0xfffe - 0xff80 + 1];
        let work_ram = vec![0u8; 0xdfff - 0xc000 + 1];
        assert(high_ram@ =~= Seq::new(127, |i: int| 0u8));
        assert(work_ram@ =~= Seq::new(8192, |i: int| 0u8));
        Memory {
            high_ram,
            work_ram,
            io_registers: IORegisters::new(),
            interrupt_enable: 0,
        }
    }
}

/// A byte written to work RAM or high RAM is read back, and a write to one
/// RAM location leaves every other RAM location as it was.
pub proof fn ram_read_after_write(m: Memory, post: Memory, location: usize, value: u8, other: usize)
    requires
        m.writable(location, value),
        m.after_write(post, location, value),
        in_work_ram(location) || in_high_ram(location),
        in_work_ram(other) || in_high_ram(other),
        other != location,
    ensures
        post.readable(location),
        post.read_value(location) == value,
        post.read_value(other) == m.read_value(other),
{
}

} // verus!
