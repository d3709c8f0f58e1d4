//! The serial port registers, the I/O registers this memory map serves itself.
use crate::gameboy::memory_bus::MemoryAccessor;
use vstd::prelude::*;

verus! {

pub struct IORegisters {
    /// ff01
    serial_transfer_data: u8,
    /// ff02
    serial_transfer_control: u8,
}

/// The I/O addresses whose writes are accepted and dropped.
pub open spec fn ignored_io_write(location: usize) -> bool {
    location == 0xff4d || (0xff30 <= location <= 0xff3f) || location == 0xff56
}

impl IORegisters {
    /// The serial transfer data byte (0xFF01).
    pub closed spec fn serial_data(&self) -> u8 {
        self.serial_transfer_data
    }

    /// The serial transfer control byte (0xFF02).
    pub closed spec fn serial_control(&self) -> u8 {
        self.serial_transfer_control
    }

    /// Both serial registers start at zero.
    pub fn new() -> (r: IORegisters)
        ensures
            r.serial_data() == 0,
            r.serial_control() == 0,
    {
        IORegisters { serial_transfer_data: 0, serial_transfer_control: 0 }
    }
}

impl MemoryAccessor for IORegisters {
    /// Only the two serial registers can be read.
    open spec fn readable(&self, location: usize) -> bool {
        location == 0xff01 || location == 0xff02
    }

    open spec fn read_value(&self, location: usize) -> u8 {
        if location == 0xff01 {
            self.serial_data()
        } else {
            self.serial_control()
        }
    }

    /// The serial registers take a write; a few others take it and drop it.
    open spec fn writable(&self, location: usize, value: u8) -> bool {
        location == 0xff01 || location == 0xff02 || ignored_io_write(location)
    }

    open spec fn after_write(&self, post: Self, location: usize, value: u8) -> bool {
        &&& post.serial_data() == (if location == 0xff01 {
            value
        } else {
            self.serial_data()
        })
        &&& post.serial_control() == (if location == 0xff02 {
            value
        } else {
            self.serial_control()
        })
    }

    fn get(&self, location: usize) -> (r: u8) {
        if location == 0xff01 {
            self.serial_transfer_data
        } else {
            self.serial_transfer_control
        }
    }

    fn write(&mut self, location: usize, value: u8) {
        if location == 0xff01 {
            self.serial_transfer_data = value;
        } else if location == 0xff02 {
            self.serial_transfer_control = value;
        }
    }
}

} // verus!
