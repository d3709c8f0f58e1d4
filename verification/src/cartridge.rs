//! A cartridge with a ROM bank register and an optional 32 KiB of banked external memory.
use crate::lib_rs_boy::gameboy::cartridge::{
    is_utf8,
    rom_size,
    rom_size_of,
    title_bytes,
    RomError,
};
use crate::lib_rs_boy::gameboy::cartridge::mbc3::ram_view;
use vstd::prelude::*;
use vstd::utf8::valid_utf8;

verus! {

pub struct Cartridge {
    rom: Vec<u8>,
    rom_bank: u8,
    // RAM
    cartridge_memory_enabled: bool,
    pub external_memory: Option<Vec<u8>>,
    pub external_memory_bank: u8,
}

/// The outcome of checking a ROM image, in the order the checks are made:
/// its length, its title, its size code against its length, its RAM size
/// code (none, or 32 KiB).
pub open spec fn image_check(rom: Seq<u8>) -> Result<(), RomError> {
    if rom.len() < 0x150 {
        Err(RomError::TooSmall)
    } else if !valid_utf8(title_bytes(rom)) {
        Err(RomError::TitleNotUtf8)
    } else if rom[0x148] > 16 {
        Err(RomError::RomSizeOverflow(rom[0x148]))
    } else if rom.len() % 0x1_0000_0000 != rom_size_of(rom[0x148]) {
        Err(
            RomError::WrongLength {
                expected: rom_size_of(rom[0x148]) as u32,
                found: rom.len() as usize,
            },
        )
    } else if rom[0x149] != 0 && rom[0x149] != 3 {
        Err(RomError::UnsupportedRamSize(rom[0x149]))
    } else {
        Ok(())
    }
}

impl Cartridge {
    /// The ROM.
    pub closed spec fn rom(&self) -> Seq<u8> {
        self.rom@
    }

    /// The selected ROM bank for 0x4000-0x7FFF.
    pub closed spec fn rom_bank(&self) -> u8 {
        self.rom_bank
    }

    /// Is the external memory enabled?
    pub closed spec fn memory_enabled(&self) -> bool {
        self.cartridge_memory_enabled
    }

    /// The external memory, if any.
    pub closed spec fn external_memory(&self) -> Option<Seq<u8>> {
        ram_view(self.external_memory)
    }

    /// The selected external memory bank.
    pub closed spec fn external_bank(&self) -> u8 {
        self.external_memory_bank
    }

    /// Index into the ROM of a read of `location` in the ROM window.
    pub open spec fn rom_index(&self, location: usize) -> int {
        if location <= 0x3fff {
            location as int
        } else {
            location - 0x4000 + self.rom_bank() * 0x4000
        }
    }

    /// Index of an access to `location` (0xA000-0xBFFF) in the selected external bank.
    pub open spec fn external_index(&self, location: usize) -> int {
        location - 0xa000 + self.external_bank() * 0x2000
    }

    /// Can `location` be read?
    ///
    /// Reads of 0xA000-0xBFFF take the selected bank's offset into the ROM.
    pub closed spec fn readable(&self, location: usize) -> bool {
        if location <= 0x7fff {
            self.rom_index(location) < self.rom@.len()
        } else {
            0xa000 <= location <= 0xbfff && self.external_index(location) < self.rom@.len()
        }
    }

    /// The byte a read of `location` gives.
    pub closed spec fn read_value(&self, location: usize) -> u8 {
        if location <= 0x7fff {
            self.rom@[self.rom_index(location)]
        } else {
            self.rom@[self.external_index(location)]
        }
    }

    /// Can `value` be written to `location`?
    pub closed spec fn writable(&self, location: usize, value: u8) -> bool {
        if location <= 0x3fff {
            true
        } else if location <= 0x5fff {
            value <= 3
        } else if 0xa000 <= location <= 0xbfff {
            self.cartridge_memory_enabled && self.external_memory is Some
                && self.external_index(location) < self.external_memory->0@.len()
        } else {
            false
        }
    }

    /// Is `post` the cartridge after `value` is written to `location`?
    ///
    /// 0x0000-0x1FFF enables the external memory (low nibble 0xA), 0x2000-0x3FFF
    /// selects ROM bank `value` & 0x1F (0 selects 1), 0x4000-0x5FFF selects the
    /// external bank; a write to 0xA000-0xBFFF changes nothing.
    pub closed spec fn after_write(&self, post: Self, location: usize, value: u8) -> bool {
        &&& post.rom@ == self.rom@
        &&& ram_view(post.external_memory) == ram_view(self.external_memory)
        &&& post.cartridge_memory_enabled == (if location <= 0x1fff {
            value % 16 == 0x0a
        } else {
            self.cartridge_memory_enabled
        })
        &&& post.rom_bank == (if 0x2000 <= location <= 0x3fff {
            if value % 32 == 0 {
                1
            } else {
                value % 32
            }
        } else {
            self.rom_bank
        })
        &&& post.external_memory_bank == (if 0x4000 <= location <= 0x5fff {
            value
        } else {
            self.external_memory_bank
        })
    }

    pub fn get(&self, location: usize) -> (r: u8)
        requires
            self.readable(location),
        ensures
            r == self.read_value(location),
    {
        if location <= 0x7fff {
            self.get_rom(location)
        } else {
            self.get_external_ram(location)
        }
    }

    pub fn write(&mut self, location: usize, value: u8)
        requires
            old(self).writable(location, value),
        ensures
            old(self).after_write(*final(self), location, value),
    {
        assert(value & 0x0f == value % 16 && value & 0b11111 == value % 32) by (bit_vector);
        if location <= 0x1fff {
            self.cartridge_memory_enabled = value & 0x0f == 0x0a;
        } else if location <= 0x3fff {
            self.rom_bank = value & 0b11111;
            if self.rom_bank == 0 {
                self.rom_bank = 1;
            }
        } else if location <= 0x5fff {
            self.external_memory_bank = value;
        } else {
            // the byte is looked up in the external memory and not stored
            let relative_loc = location - 0xa000;
            let actual_loc = relative_loc + (self.external_memory_bank as usize) * 0x2000;
            if let Some(memory) = &self.external_memory {
                let _ = memory[actual_loc];
            }
        }
    }

    /// Reads the ROM window: bank 0 at 0x0000-0x3FFF, the selected bank at 0x4000-0x7FFF.
    pub fn get_rom(&self, location: usize) -> (r: u8)
        requires
            location <= 0x7fff,
            self.rom_index(location) < self.rom().len(),
        ensures
            r == self.rom()[self.rom_index(location)],
    {
        if location <= 0x3fff {
            self.rom[location]
        } else {
            let relative_loc = location - 0x4000;
            let actual_loc = relative_loc + (self.rom_bank as usize) * 0x4000;
            self.rom[actual_loc]
        }
    }

    /// Reads 0xA000-0xBFFF: the ROM byte at the selected external bank's offset.
    fn get_external_ram(&self, location: usize) -> (r: u8)
        requires
            0xa000 <= location <= 0xbfff,
            self.external_index(location) < self.rom@.len(),
        ensures
            r == self.rom@[self.external_index(location)],
    {
        let relative_loc = location - 0xA000;
        let actual_loc = relative_loc + (self.external_memory_bank as usize) * 0x2000;
        self.rom[actual_loc]
    }

    /// Checks a ROM image's header and length.
    pub fn check_image(buffer: &Vec<u8>) -> (r: Result<(), RomError>)
        ensures
            r == image_check(buffer@),
    {
        if buffer.len() < 0x150 {
            return Err(RomError::TooSmall);
        }
        if !is_utf8(&buffer.as_slice()[0x134..0x142]) {
            return Err(RomError::TitleNotUtf8);
        }
        let rom_size_code = buffer[0x148];
        let ram_size_code = buffer[0x149];
        if rom_size_code > 16 {
            return Err(RomError::RomSizeOverflow(rom_size_code));
        }
        let expected_rom_size = rom_size(rom_size_code);
        let found = buffer.len();
        if (found as u64 % 0x1_0000_0000) as u32 != expected_rom_size {
            return Err(RomError::WrongLength { expected: expected_rom_size, found });
        }
        if ram_size_code != 0 && ram_size_code != 3 {
            return Err(RomError::UnsupportedRamSize(ram_size_code));
        }
        Ok(())
    }

    /// The cartridge for a checked ROM image: bank 1 selected, external memory
    /// disabled, 32 KiB of zeroed external memory when the RAM size code is 3.
    pub fn from_rom(buffer: Vec<u8>) -> (r: Cartridge)
        requires
            image_check(buffer@) is Ok,
        ensures
            r.rom() == buffer@,
            r.rom_bank() == 1,
            !r.memory_enabled(),
            r.external_bank() == 0,
            r.external_memory() == (if buffer@[0x149] == 3 {
                Some(Seq::new(32 * 1024, |i: int| 0u8))
            } else {
                None
            }),
    {
        let external_ram = if buffer[0x149] == 3 {
            let v: Vec<u8> = vec![0; 32 * 1024];
            assert(v@ =~= Seq::new(32 * 1024, |i: int| 0u8));
            Some(v)
        } else {
            None
        };
        Cartridge {
            rom: buffer,
            rom_bank: 1,
            cartridge_memory_enabled: false,
            external_memory: external_ram,
            external_memory_bank: 0,
        }
    }
}

/// Reading the ROM window: bank 0 at 0x0000-0x3FFF, the selected bank at
/// 0x4000-0x7FFF; 0xA000-0xBFFF reads the ROM at the selected external
/// bank's offset.
pub proof fn rom_read(c: Cartridge, location: usize)
    requires
        location <= 0x7fff ==> c.rom_index(location) < c.rom().len(),
        location > 0x7fff ==> 0xa000 <= location <= 0xbfff && c.external_index(location)
            < c.rom().len(),
    ensures
        c.readable(location),
        c.read_value(location) == (if location <= 0x7fff {
            c.rom()[c.rom_index(location)]
        } else {
            c.rom()[c.external_index(location)]
        }),
{
}

/// Register writes below 0x6000 are accepted, external bank numbers up to 3.
pub proof fn register_writable(c: Cartridge, location: usize, value: u8)
    requires
        location <= 0x5fff,
        0x4000 <= location ==> value <= 3,
    ensures
        c.writable(location, value),
{
}

/// A write to 0x2000-0x3FFF selects ROM bank `value` & 0x1F, or bank 1 for
/// 0, and changes nothing else; one to 0x0000-0x1FFF sets the enable flag;
/// one to 0x4000-0x5FFF selects the external bank.
pub proof fn register_write(c: Cartridge, post: Cartridge, location: usize, value: u8)
    requires
        c.after_write(post, location, value),
        location <= 0x5fff,
    ensures
        post.rom() == c.rom(),
        post.external_memory() == c.external_memory(),
        post.rom_bank() == (if 0x2000 <= location <= 0x3fff {
            if value % 32 == 0 {
                1
            } else {
                value % 32
            }
        } else {
            c.rom_bank()
        }),
        post.memory_enabled() == (if location <= 0x1fff {
            value % 16 == 0x0a
        } else {
            c.memory_enabled()
        }),
        post.external_bank() == (if 0x4000 <= location {
            value
        } else {
            c.external_bank()
        }),
{
}

/// Writes never change the ROM.
pub proof fn writes_keep_rom(c: Cartridge, post: Cartridge, location: usize, value: u8)
    requires
        c.after_write(post, location, value),
    ensures
        post.rom() == c.rom(),
{
}

/// The ROM bank register never selects bank 0 for 0x4000-0x7FFF: a write
/// whose low five bits are 0 selects bank 1.
pub proof fn rom_bank_never_zero(c: Cartridge, post: Cartridge, location: usize, value: u8)
    requires
        c.rom_bank() != 0,
        c.after_write(post, location, value),
    ensures
        post.rom_bank() != 0,
{
}

} // verus!
