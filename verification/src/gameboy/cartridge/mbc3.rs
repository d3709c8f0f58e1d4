//! The MBC3 memory bank controller, without its clock: banked ROM and up to
//! four 8 KiB banks of RAM. Selecting a clock register is not supported.
use crate::gameboy::memory_bus::MemoryAccessor;
use crate::lib_rs_boy::gameboy::cartridge::mbc3::ram_view;
use vstd::prelude::*;

verus! {

pub struct MBC3 {
    rom: Vec<u8>,
    rom_bank: u8,
    // RAM
    ram_enabled: bool,
    ram: Option<Vec<u8>>,
    ram_bank: u8,
    // MBC Speficit
    rtc_access: bool,
    rtc_latched: bool,
}

impl MBC3 {
    /// The clock is never selected nor latched.
    pub closed spec fn wf(&self) -> bool {
        !self.rtc_access && !self.rtc_latched
    }

    /// The ROM.
    pub closed spec fn rom(&self) -> Seq<u8> {
        self.rom@
    }

    /// The contents of the external RAM, if the cartridge has one.
    pub closed spec fn ram(&self) -> Option<Seq<u8>> {
        ram_view(self.ram)
    }

    /// The selected ROM bank for 0x4000-0x7FFF.
    pub closed spec fn rom_bank(&self) -> u8 {
        self.rom_bank
    }

    /// The selected RAM bank.
    pub closed spec fn ram_bank(&self) -> u8 {
        self.ram_bank
    }

    /// Is the RAM window enabled for writes?
    pub closed spec fn ram_enabled(&self) -> bool {
        self.ram_enabled
    }

    /// Index into the ROM of a read of `location` (0x0000-0x7FFF).
    pub open spec fn rom_index(&self, location: usize) -> int {
        if location <= 0x3fff {
            location as int
        } else {
            location - 0x4000 + self.rom_bank() * 0x4000
        }
    }

    /// Index into the RAM of an access to `location` (0xA000-0xBFFF).
    pub open spec fn ram_index(&self, location: usize) -> int {
        location - 0xa000 + self.ram_bank() * 0x2000
    }

    /// Can the RAM be reached at `location`?
    pub open spec fn ram_reachable(&self, location: usize) -> bool {
        self.ram() is Some && self.ram_index(location) < self.ram()->0.len()
    }

    /// Reads the ROM window: bank 0 at 0x0000-0x3FFF, the selected bank at 0x4000-0x7FFF.
    pub fn get_rom(&self, location: usize) -> (r: u8)
        requires
            location <= 0x7fff,
            self.rom_index(location) < self.rom().len(),
        ensures
            r == self.rom()[self.rom_index(location)],
    {
        if location <= 0x3fff {
            self.rom[location]
        } else {
            let relative_loc = location - 0x4000;
            let actual_loc = relative_loc + (self.rom_bank as usize) * 0x4000;
            self.rom[actual_loc]
        }
    }

    /// Reads the selected RAM bank (reads do not look at the enable register).
    fn get_external_ram(&self, location: usize) -> (r: u8)
        requires
            0xa000 <= location <= 0xbfff,
            self.ram_reachable(location),
        ensures
            r == self.ram->0@[self.ram_index(location)],
    {
        let relative_loc = location - 0xA000;
        let actual_loc = relative_loc + (self.ram_bank as usize) * 0x2000;
        match &self.ram {
            Some(ram) => ram[actual_loc],
            None => 0,
        }
    }

    /// A cartridge with bank 1 selected and the RAM window disabled.
    pub fn new(buffer: Vec<u8>, external_ram: Option<Vec<u8>>) -> (r: Self)
        ensures
            r.wf(),
            r.rom() == buffer@,
            r.ram() == ram_view(external_ram),
            r.rom_bank() == 1,
            r.ram_bank() == 0,
            !r.ram_enabled(),
    {
        MBC3 {
            rom: buffer,
            rom_bank: 1,
            ram: external_ram,
            ram_enabled: false,
            ram_bank: 0,
            rtc_latched: false,
            rtc_access: false,
        }
    }

    /// The external RAM, for saving it.
    pub fn ram_contents(&self) -> (r: Option<&Vec<u8>>)
        ensures
            r is Some == self.ram() is Some,
            r matches Some(v) ==> self.ram() == Some(v@),
    {
        self.ram.as_ref()
    }
}

impl MemoryAccessor for MBC3 {
    /// The ROM window below 0x8000 and the RAM window 0xA000-0xBFFF.
    closed spec fn readable(&self, location: usize) -> bool {
        &&& self.wf()
        &&& if location <= 0x7fff {
            self.rom_index(location) < self.rom@.len()
        } else {
            0xa000 <= location <= 0xbfff && self.ram_reachable(location)
        }
    }

    closed spec fn read_value(&self, location: usize) -> u8 {
        if location <= 0x7fff {
            self.rom@[self.rom_index(location)]
        } else {
            self.ram->0@[self.ram_index(location)]
        }
    }

    /// Registers below 0x8000 (RAM bank numbers up to 3, no latch from 1 to 1)
    /// and the enabled RAM window.
    closed spec fn writable(&self, location: usize, value: u8) -> bool {
        &&& self.wf()
        &&& if location <= 0x3fff {
            true
        } else if location <= 0x5fff {
            value <= 3
        } else if location <= 0x7fff {
            true
        } else {
            0xa000 <= location <= 0xbfff && self.ram_enabled && self.ram_reachable(location)
        }
    }

    closed spec fn after_write(&self, post: Self, location: usize, value: u8) -> bool {
        &&& post.wf()
        &&& post.rom@ == self.rom@
        &&& post.ram_enabled == (if location <= 0x1fff {
            value & 0x0f == 0x0a
        } else {
            self.ram_enabled
        })
        &&& post.rom_bank == (if 0x2000 <= location <= 0x3fff {
            if value == 0 {
                1
            } else {
                value
            }
        } else {
            self.rom_bank
        })
        &&& post.ram_bank == (if 0x4000 <= location <= 0x5fff {
            value
        } else {
            self.ram_bank
        })
        &&& ram_view(post.ram) == (if 0xa000 <= location <= 0xbfff {
            Some(self.ram->0@.update(self.ram_index(location), value))
        } else {
            ram_view(self.ram)
        })
    }

    fn get(&self, location: usize) -> (r: u8) {
        if location <= 0x7fff {
            self.get_rom(location)
        } else {
            self.get_external_ram(location)
        }
    }

    fn write(&mut self, location: usize, value: u8) {
        if location <= 0x1fff {
            // For MBC3 it also enables writing to Timer Registers
            self.ram_enabled = value & 0x0f == 0x0a;
        } else if location <= 0x3fff {
            self.rom_bank = value;
            if self.rom_bank == 0 {
                self.rom_bank = 1;
            }
        } else if location <= 0x5fff {
            self.ram_bank = value;
            self.rtc_access = false;
        } else if location <= 0x7fff {
            // latching 0 -> 1 is accepted and does nothing: the clock is not modelled
        } else {
            let relative_loc = location - 0xa000;
            let actual_loc = relative_loc + (self.ram_bank as usize) * 0x2000;
            if let Some(ram) = self.ram.as_mut() {
                ram.set(actual_loc, value);
            }
        }
    }
}

impl super::Cartridge for MBC3 {

}

/// Reading the ROM window: bank 0 at 0x0000-0x3FFF, the selected bank at
/// 0x4000-0x7FFF, wherever the ROM holds the byte.
pub proof fn rom_read(c: MBC3, location: usize)
    requires
        c.wf(),
        location <= 0x7fff,
        c.rom_index(location) < c.rom().len(),
    ensures
        c.readable(location),
        c.read_value(location) == c.rom()[c.rom_index(location)],
{
}

/// Register writes below 0x8000 are accepted, RAM bank numbers up to 3.
pub proof fn register_writable(c: MBC3, location: usize, value: u8)
    requires
        c.wf(),
        location <= 0x7fff,
        0x4000 <= location <= 0x5fff ==> value <= 3,
    ensures
        c.writable(location, value),
{
}

/// The RAM window takes a write while enabled, where the RAM holds the byte.
pub proof fn ram_writable(c: MBC3, location: usize, value: u8)
    requires
        c.wf(),
        c.ram_enabled(),
        0xa000 <= location <= 0xbfff,
        c.ram_reachable(location),
    ensures
        c.writable(location, value),
{
}

/// A write to 0x0000-0x1FFF enables the RAM window exactly when its low
/// nibble is 0xA, and changes nothing else.
pub proof fn ram_enable_write(c: MBC3, post: MBC3, location: usize, value: u8)
    requires
        c.after_write(post, location, value),
        location <= 0x1fff,
    ensures
        post.wf(),
        post.ram_enabled() == (value & 0x0f == 0x0a),
        post.rom() == c.rom(),
        post.ram() == c.ram(),
        post.rom_bank() == c.rom_bank(),
        post.ram_bank() == c.ram_bank(),
{
}

/// A write to 0x2000-0x3FFF selects ROM bank `value` (all eight bits), or
/// bank 1 for 0, and changes nothing else.
pub proof fn rom_bank_write(c: MBC3, post: MBC3, location: usize, value: u8)
    requires
        c.after_write(post, location, value),
        0x2000 <= location <= 0x3fff,
    ensures
        post.wf(),
        post.rom_bank() == (if value == 0 {
            1
        } else {
            value
        }),
        post.rom() == c.rom(),
        post.ram() == c.ram(),
        post.ram_enabled() == c.ram_enabled(),
        post.ram_bank() == c.ram_bank(),
{
}

/// A write to the enabled RAM window stores the byte at its index in the
/// selected bank and leaves the rest of the RAM and the registers.
pub proof fn ram_write(c: MBC3, post: MBC3, location: usize, value: u8)
    requires
        c.writable(location, value),
        c.after_write(post, location, value),
        0xa000 <= location <= 0xbfff,
    ensures
        c.ram_reachable(location),
        post.ram() == Some(c.ram()->0.update(c.ram_index(location), value)),
        post.wf(),
        post.rom() == c.rom(),
        post.rom_bank() == c.rom_bank(),
        post.ram_bank() == c.ram_bank(),
        post.ram_enabled() == c.ram_enabled(),
{
}

/// A byte written to the enabled RAM window is read back from it.
pub proof fn ram_read_after_write(c: MBC3, post: MBC3, location: usize, value: u8)
    requires
        c.writable(location, value),
        c.after_write(post, location, value),
        0xa000 <= location <= 0xbfff,
    ensures
        post.readable(location),
        post.read_value(location) == value,
{
}

/// Writes never change the ROM.
pub proof fn writes_keep_rom(c: MBC3, post: MBC3, location: usize, value: u8)
    requires
        c.after_write(post, location, value),
    ensures
        post.rom() == c.rom(),
{
}

/// The ROM bank register never selects bank 0 for 0x4000-0x7FFF: a write of 0 selects bank 1.
pub proof fn rom_bank_never_zero(c: MBC3, post: MBC3, location: usize, value: u8)
    requires
        c.rom_bank() != 0,
        c.after_write(post, location, value),
    ensures
        post.rom_bank() != 0,
{
}

} // verus!
