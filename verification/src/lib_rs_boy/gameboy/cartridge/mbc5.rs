//! The MBC5 memory bank controller: a 9-bit ROM bank number, up to sixteen
//! RAM banks and, on some cartridges, a rumble motor on bit 3 of the RAM bank register.
use super::mbc3::{ram_banks_of, ram_view};
use super::Cartridge;
use crate::gameboy::memory_bus::MemoryAccessor;
use vstd::prelude::*;

verus! {

pub struct MBC5 {
    rom: Vec<u8>,
    rom_bank: u16,
    // RAM - 8, 32, 128 are possible
    ram_enabled: bool,
    ram: Option<Vec<u8>>,
    ram_bank: u8,
    // MBC Specific
    rumble_support: bool,
    rumbling: bool,
    total_ram_banks: u8,
}

/// Does this cartridge type (0x19-0x1E) use the external RAM it is given?
pub open spec fn mbc5_has_ram(cartridge_type: u8) -> bool {
    cartridge_type == 0x1A || cartridge_type == 0x1B || cartridge_type == 0x1D || cartridge_type
        == 0x1E
}

/// Does this cartridge type (0x19-0x1E) carry a rumble motor?
pub open spec fn mbc5_has_rumble(cartridge_type: u8) -> bool {
    0x1C <= cartridge_type <= 0x1E
}

/// The ROM bank after writing `value` to 0x2000-0x2FFF: bit 8 kept, the low byte replaced.
pub open spec fn low_bank_written(bank: u16, value: u8) -> u16 {
    ((bank / 256 % 2) * 256 + value) as u16
}

/// The ROM bank after writing `value` to 0x3000-0x3FFF: the low byte kept, bit 8 from bit 0 of `value`.
pub open spec fn high_bank_written(bank: u16, value: u8) -> u16 {
    ((value % 2) * 256 + bank % 256) as u16
}

impl MBC5 {
    /// The ROM.
    pub closed spec fn rom(&self) -> Seq<u8> {
        self.rom@
    }

    /// The contents of the external RAM, if the cartridge has one.
    pub closed spec fn ram(&self) -> Option<Seq<u8>> {
        ram_view(self.ram)
    }

    /// The selected ROM bank for 0x4000-0x7FFF.
    pub closed spec fn rom_bank(&self) -> u16 {
        self.rom_bank
    }

    /// The selected RAM bank.
    pub closed spec fn ram_bank(&self) -> u8 {
        self.ram_bank
    }

    /// Is the RAM window enabled?
    pub closed spec fn ram_enabled(&self) -> bool {
        self.ram_enabled
    }

    /// The number of RAM banks.
    pub closed spec fn total_ram_banks(&self) -> u8 {
        self.total_ram_banks
    }

    /// Does the cartridge carry a rumble motor?
    pub closed spec fn rumble_support(&self) -> bool {
        self.rumble_support
    }

    /// Is the rumble motor on?
    pub closed spec fn rumbling(&self) -> bool {
        self.rumbling
    }

    /// Are the two cartridges the same in all but their RAM's contents?
    pub closed spec fn same_but_ram(&self, other: &Self) -> bool {
        &&& self.rom@ == other.rom@
        &&& self.rom_bank == other.rom_bank
        &&& self.ram_enabled == other.ram_enabled
        &&& self.ram_bank == other.ram_bank
        &&& self.total_ram_banks == other.total_ram_banks
        &&& self.rumble_support == other.rumble_support
        &&& self.rumbling == other.rumbling
        &&& (self.ram is Some <==> other.ram is Some)
    }

    /// Index into the ROM of a read of `location` (0x0000-0x7FFF).
    pub open spec fn rom_index(&self, location: usize) -> int {
        if location <= 0x3fff {
            location as int
        } else {
            location - 0x4000 + self.rom_bank() * 0x4000
        }
    }

    /// Index into the RAM of an access to `location` (0xA000-0xBFFF).
    pub open spec fn ram_index(&self, location: usize) -> int {
        location - 0xa000 + self.ram_bank() * 0x2000
    }

    /// Can the RAM itself be reached at `location`?
    pub open spec fn ram_reachable(&self, location: usize) -> bool {
        self.ram() is Some && self.ram_index(location) < self.ram()->0.len()
    }

    /// Reads the ROM window: bank 0 at 0x0000-0x3FFF, the selected bank at 0x4000-0x7FFF.
    pub fn get_rom(&self, location: usize) -> (r: u8)
        requires
            location <= 0x7fff,
            self.rom_index(location) < self.rom().len(),
        ensures
            r == self.rom()[self.rom_index(location)],
    {
        if location <= 0x3fff {
            self.rom[location]
        } else {
            let relative_loc = location - 0x4000;
            let actual_loc = relative_loc + (self.rom_bank as usize) * 0x4000;
            self.rom[actual_loc]
        }
    }

    /// Reads the RAM window: 0xFF while disabled, else the selected RAM bank.
    fn get_external_ram(&self, location: usize) -> (r: u8)
        requires
            0xa000 <= location <= 0xbfff,
            self.ram_enabled ==> self.ram_reachable(location),
        ensures
            r == (if !self.ram_enabled {
                0xFF
            } else {
                self.ram->0@[self.ram_index(location)]
            }),
    {
        if !self.ram_enabled {
            return 0xFF;
        }
        let relative_loc = location - 0xA000;
        let actual_loc = relative_loc + (self.ram_bank as usize) * 0x2000;
        match &self.ram {
            Some(ram) => ram[actual_loc],
            None => 0,
        }
    }

    /// A cartridge of type `cartridge_type` (0x19-0x1E); types 0x1A, 0x1B, 0x1D
    /// and 0x1E keep the given RAM, types 0x1C-0x1E have a rumble motor.
    pub fn new(buffer: Vec<u8>, external_ram: Option<Vec<u8>>, cartridge_type: u8) -> (r: Self)
        requires
            0x19 <= cartridge_type <= 0x1E,
        ensures
            r.rom() == buffer@,
            r.ram() == (if mbc5_has_ram(cartridge_type) {
                ram_view(external_ram)
            } else {
                None
            }),
            r.rumble_support() == mbc5_has_rumble(cartridge_type),
            !r.rumbling(),
            r.rom_bank() == 1,
            r.ram_bank() == 0,
            !r.ram_enabled(),
            r.total_ram_banks() == ram_banks_of(r.ram()),
    {
        let mut rumble_support = false;
        let mut ram = None;
        match cartridge_type {
            // $19	MBC5
            0x19 => {},
            // $1A	MBC5+RAM
            0x1A => {
                ram = external_ram;
            },
            // $1B	MBC5+RAM+BATTERY
            0x1B => {
                ram = external_ram;
            },
            // $1C	MBC5+RUMBLE
            0x1C => rumble_support = true,
            // $1D	MBC5+RUMBLE+RAM
            0x1D => {
                rumble_support = true;
                ram = external_ram;
            },
            // $1E	MBC5+RUMBLE+RAM+BATTERY
            _ => {
                rumble_support = true;
                ram = external_ram;
            },
        }
        let total_ram_banks: usize = match &ram {
            Some(r) => r.len() / 8096,
            None => 0,
        };
        MBC5 {
            rom: buffer,
            rom_bank: 1,
            ram,
            ram_enabled: false,
            ram_bank: 0,
            total_ram_banks: (total_ram_banks % 256) as u8,
            rumble_support,
            rumbling: false,
        }
    }
}

impl Cartridge for MBC5 {
    fn get_ram(&mut self) -> (r: &mut [u8])
        ensures
            r@ == (match old(self).ram() {
                Some(s) => s,
                None => Seq::empty(),
            }),
            final(self).same_but_ram(old(self)),
            final(self).ram() == (match old(self).ram() {
                Some(_) => Some(final(r)@),
                None => None,
            }),
    {
        match &mut self.ram {
            Some(ram) => ram.as_mut_slice(),
            None => &mut [],
        }
    }

    fn get_rumble_state(&self) -> (r: Option<bool>)
        ensures
            r == (if self.rumble_support() {
                Some(self.rumbling())
            } else {
                None
            }),
    {
        if self.rumble_support {
            return Some(self.rumbling);
        }
        None
    }
}

impl MemoryAccessor for MBC5 {
    /// The ROM window below 0x8000 and the RAM window 0xA000-0xBFFF.
    closed spec fn readable(&self, location: usize) -> bool {
        if location <= 0x7fff {
            self.rom_index(location) < self.rom@.len()
        } else if 0xa000 <= location <= 0xbfff {
            self.ram_enabled ==> self.ram_reachable(location)
        } else {
            false
        }
    }

    closed spec fn read_value(&self, location: usize) -> u8 {
        if location <= 0x7fff {
            self.rom@[self.rom_index(location)]
        } else if !self.ram_enabled {
            0xFF
        } else {
            self.ram->0@[self.ram_index(location)]
        }
    }

    /// Registers below 0x8000 (a RAM bank switch needs at least one RAM bank)
    /// and the enabled RAM window.
    closed spec fn writable(&self, location: usize, value: u8) -> bool {
        if location <= 0x7fff {
            0x4000 <= location <= 0x5fff ==> self.total_ram_banks != 0
        } else if 0xa000 <= location <= 0xbfff {
            self.ram_enabled && self.ram_reachable(location)
        } else {
            false
        }
    }

    closed spec fn after_write(&self, post: Self, location: usize, value: u8) -> bool {
        let v = value & 0xf;
        &&& post.rom@ == self.rom@
        &&& post.total_ram_banks == self.total_ram_banks
        &&& post.rumble_support == self.rumble_support
        &&& post.ram_enabled == (if location <= 0x1fff {
            value & 0x0f == 0x0a
        } else {
            self.ram_enabled
        })
        &&& post.rom_bank == (if 0x2000 <= location <= 0x2fff {
            low_bank_written(self.rom_bank, value)
        } else if 0x3000 <= location <= 0x3fff {
            high_bank_written(self.rom_bank, value)
        } else {
            self.rom_bank
        })
        &&& post.ram_bank == (if 0x4000 <= location <= 0x5fff {
            (v % self.total_ram_banks) as u8
        } else {
            self.ram_bank
        })
        &&& post.rumbling == (if 0x4000 <= location <= 0x5fff && self.rumble_support {
            v >= 8
        } else {
            self.rumbling
        })
        &&& ram_view(post.ram) == (if 0xa000 <= location <= 0xbfff {
            Some(self.ram->0@.update(self.ram_index(location), value))
        } else {
            ram_view(self.ram)
        })
    }

    fn get(&self, location: usize) -> (r: u8) {
        if location <= 0x7FFF {
            self.get_rom(location)
        } else {
            self.get_external_ram(location)
        }
    }

    fn write(&mut self, location: usize, value: u8) {
        if location <= 0x1FFF {
            self.ram_enabled = value & 0x0f == 0x0a;
        } else if location <= 0x2FFF {
            // keep 9th bit, then place the incoming lower 8
            let bank = self.rom_bank;
            assert((bank & 0x100) | value as u16 == low_bank_written(bank, value)) by (bit_vector);
            self.rom_bank = self.rom_bank & 0x100;
            self.rom_bank = self.rom_bank | value as u16;
        } else if location <= 0x3FFF {
            // keep lower 8 bits, then replace the 9th
            let bank = self.rom_bank;
            assert((bank & 0xFF) | ((value as u16 & 0x1) << 8u16) == high_bank_written(bank, value))
                by (bit_vector);
            let new_value = (value as u16 & 0x1) << 8;
            self.rom_bank = self.rom_bank & 0xFF;
            self.rom_bank = self.rom_bank | new_value;
        } else if location <= 0x5FFF {
            let value = value & 0xF;
            if self.rumble_support {
                self.rumbling = (value >> 3) > 0;
                assert((value >> 3 > 0) == (value >= 8)) by (bit_vector);
            }
            self.ram_bank = value % self.total_ram_banks;
        } else if location <= 0x7FFF {
            // writes to 0x6000-0x7FFF are ignored
        } else {
            let relative_loc = location - 0xa000;
            let actual_loc = relative_loc + (self.ram_bank as usize) * 0x2000;
            if let Some(ram) = self.ram.as_mut() {
                ram.set(actual_loc, value);
            }
        }
    }
}

/// A byte written to the enabled RAM window is read back from it.
pub proof fn ram_read_after_write(c: MBC5, post: MBC5, location: usize, value: u8)
    requires
        c.writable(location, value),
        c.after_write(post, location, value),
        0xa000 <= location <= 0xbfff,
    ensures
        post.readable(location),
        post.read_value(location) == value,
{
}

/// Writes never change the ROM.
pub proof fn writes_keep_rom(c: MBC5, post: MBC5, location: usize, value: u8)
    requires
        c.after_write(post, location, value),
    ensures
        post.rom() == c.rom(),
{
}

/// Reading the ROM window: bank 0 at 0x0000-0x3FFF, the selected bank (any
/// of the 9-bit numbers, 0 included) at 0x4000-0x7FFF.
pub proof fn rom_read(c: MBC5, location: usize)
    requires
        location <= 0x7fff,
        location <= 0x3fff ==> location < c.rom().len(),
        location > 0x3fff ==> location - 0x4000 + c.rom_bank() * 0x4000 < c.rom().len(),
    ensures
        c.readable(location),
        c.read_value(location) == (if location <= 0x3fff {
            c.rom()[location as int]
        } else {
            c.rom()[location - 0x4000 + c.rom_bank() * 0x4000]
        }),
{
}

/// Every register write below 0x8000 is accepted, but for a RAM bank
/// switch on a cartridge without RAM banks.
pub proof fn register_writable(c: MBC5, location: usize, value: u8)
    requires
        location <= 0x7fff,
        0x4000 <= location <= 0x5fff ==> c.total_ram_banks() != 0,
    ensures
        c.writable(location, value),
{
}

/// The RAM window takes a write while enabled, where the RAM holds the byte.
pub proof fn ram_writable(c: MBC5, location: usize, value: u8)
    requires
        c.ram_enabled(),
        c.ram() is Some,
        0xa000 <= location <= 0xbfff,
        location - 0xa000 + c.ram_bank() * 0x2000 < c.ram()->0.len(),
    ensures
        c.writable(location, value),
{
}

/// A write to 0x0000-0x1FFF enables the RAM window exactly when its low
/// nibble is 0xA, and changes nothing else that is read.
pub proof fn ram_enable_write(c: MBC5, post: MBC5, location: usize, value: u8)
    requires
        c.after_write(post, location, value),
        location <= 0x1fff,
    ensures
        post.ram_enabled() == (value & 0x0f == 0x0a),
        post.rom() == c.rom(),
        post.ram() == c.ram(),
        post.rom_bank() == c.rom_bank(),
        post.ram_bank() == c.ram_bank(),
        post.total_ram_banks() == c.total_ram_banks(),
        post.rumbling() == c.rumbling(),
{
}

/// A write to 0x2000-0x2FFF sets the low 8 bits of the ROM bank, one to
/// 0x3000-0x3FFF its 9th bit from bit 0 of the value; nothing else changes.
pub proof fn rom_bank_write(c: MBC5, post: MBC5, location: usize, value: u8)
    requires
        c.after_write(post, location, value),
        0x2000 <= location <= 0x3fff,
    ensures
        post.rom_bank() == (if location <= 0x2fff {
            low_bank_written(c.rom_bank(), value)
        } else {
            high_bank_written(c.rom_bank(), value)
        }),
        post.rom_bank() < 512,
        post.rom() == c.rom(),
        post.ram() == c.ram(),
        post.ram_enabled() == c.ram_enabled(),
        post.ram_bank() == c.ram_bank(),
        post.total_ram_banks() == c.total_ram_banks(),
        post.rumbling() == c.rumbling(),
{
}

/// The two halves of the ROM bank number are set independently: writing the
/// low byte and then the 9th bit selects what the other order selects, so
/// the ROM window reads the same.
pub proof fn bank_writes_commute(
    c: MBC5,
    low_first: MBC5,
    both_a: MBC5,
    high_first: MBC5,
    both_b: MBC5,
    low_location: usize,
    low: u8,
    high_location: usize,
    high: u8,
    location: usize,
)
    requires
        0x2000 <= low_location <= 0x2fff,
        0x3000 <= high_location <= 0x3fff,
        c.after_write(low_first, low_location, low),
        low_first.after_write(both_a, high_location, high),
        c.after_write(high_first, high_location, high),
        high_first.after_write(both_b, low_location, low),
        location <= 0x7fff,
    ensures
        both_a.rom_bank() == both_b.rom_bank(),
        both_a.rom_bank() == (high % 2) * 256 + low,
        both_a.rom() == both_b.rom(),
        both_a.readable(location) == both_b.readable(location),
        both_a.read_value(location) == both_b.read_value(location),
{
    let b = c.rom_bank();
    assert(high_bank_written(low_bank_written(b, low), high) == (high % 2) * 256 + low);
    assert(((high % 2) * 256 + b % 256) / 256 % 2 == high % 2);
    assert(low_bank_written(high_bank_written(b, high), low) == (high % 2) * 256 + low);
}

/// The RAM that `get_ram` hands out is the RAM that the game reads: once it
/// holds `bytes` (a save file copied in), the enabled RAM window reads them.
pub proof fn restored_ram_reads_back(before: MBC5, after: MBC5, bytes: Seq<u8>, location: usize)
    requires
        after.same_but_ram(&before),
        before.ram() is Some,
        after.ram() == Some(bytes),
        before.ram_enabled(),
        0xa000 <= location <= 0xbfff,
        location - 0xa000 + before.ram_bank() * 0x2000 < bytes.len(),
    ensures
        after.readable(location),
        after.read_value(location) == bytes[location - 0xa000 + before.ram_bank() * 0x2000],
{
}

/// With the RAM window disabled, it reads 0xFF.
pub proof fn disabled_ram_reads_ff(c: MBC5, location: usize)
    requires
        !c.ram_enabled(),
        0xa000 <= location <= 0xbfff,
    ensures
        c.readable(location),
        c.read_value(location) == 0xff,
{
}

} // verus!
