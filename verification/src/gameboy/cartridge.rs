//! Cartridges of the windowed emulator.
pub mod mbc3;
pub mod nombc;

use crate::gameboy::memory_bus::MemoryAccessor;
use crate::lib_rs_boy::gameboy::cartridge::mbc3::ram_view;
use crate::lib_rs_boy::gameboy::cartridge::{
    check_rom,
    ram_size_of,
    rom_check,
    title_bytes,
    MbcType,
    RomError,
};
use vstd::prelude::*;

verus! {

/// A cartridge: a device on the bus below 0x8000 and at 0xA000-0xBFFF.
pub trait Cartridge: MemoryAccessor {

}

/// The cartridge in the slot.
pub enum CartridgeSlot {
    NoMBC(nombc::NO_MBC),
    MBC3(mbc3::MBC3),
}

/// Builds the cartridge for a ROM image whose header was checked: a plain
/// ROM for cartridge type 0, an MBC3 controller with `external_ram` otherwise.
pub fn from_checked_rom(buffer: Vec<u8>, external_ram: Option<Vec<u8>>) -> (r: CartridgeSlot)
    requires
        buffer.len() >= 0x150,
    ensures
        buffer@[0x147] == 0 ==> (r matches CartridgeSlot::NoMBC(c) && c.rom() == buffer@),
        buffer@[0x147] != 0 ==> (r matches CartridgeSlot::MBC3(c) && c.rom() == buffer@ && c.ram()
            == crate::lib_rs_boy::gameboy::cartridge::mbc3::ram_view(external_ram) && c.rom_bank()
            == 1 && c.ram_bank() == 0 && !c.ram_enabled() && c.wf()),
{
    if buffer[0x147] == 0 {
        CartridgeSlot::NoMBC(nombc::NO_MBC::new(buffer))
    } else {
        CartridgeSlot::MBC3(mbc3::MBC3::new(buffer, external_ram))
    }
}

/// `bytes` without its trailing zero bytes (a title's NUL padding).
pub open spec fn without_trailing_nuls(bytes: Seq<u8>) -> Seq<u8>
    decreases bytes.len(),
{
    if bytes.len() > 0 && bytes.last() == 0 {
        without_trailing_nuls(bytes.drop_last())
    } else {
        bytes
    }
}

/// The name, before its extension, of the file that keeps the cartridge's
/// RAM: the header's title without its NUL padding, for a header that states
/// external RAM; `None` for one without.
pub fn save_file_title(rom: &Vec<u8>) -> (r: Option<Vec<u8>>)
    requires
        rom.len() >= 0x150,
    ensures
        r is Some <==> (rom@[0x149] == 2 || rom@[0x149] == 3),
        r matches Some(t) ==> t@ == without_trailing_nuls(title_bytes(rom@)),
{
    if rom[0x149] != 2 && rom[0x149] != 3 {
        return None;
    }
    let mut end: usize = 0x142;
    while end > 0x134 && rom[end - 1] == 0
        invariant
            rom@.len() >= 0x150,
            0x134 <= end <= 0x142,
            without_trailing_nuls(rom@.subrange(0x134, end as int)) == without_trailing_nuls(
                title_bytes(rom@),
            ),
        decreases end,
    {
        assert(rom@.subrange(0x134, end as int).drop_last() =~= rom@.subrange(
            0x134,
            end - 1,
        ));
        end = end - 1;
    }
    assert(title_bytes(rom@) =~= rom@.subrange(0x134, 0x142));
    let mut title: Vec<u8> = Vec::new();
    let mut i: usize = 0x134;
    while i < end
        invariant
            rom@.len() >= 0x150,
            0x134 <= i <= end <= 0x142,
            title@ =~= rom@.subrange(0x134, i as int),
        decreases end - i,
    {
        title.push(rom[i]);
        i = i + 1;
    }
    assert(title@ == without_trailing_nuls(rom@.subrange(0x134, end as int)));
    Some(title)
}

/// The external RAM that a cartridge starts with: the saved RAM where there
/// is some, else zeroed RAM of the size that RAM size code `code` states;
/// none for a code without RAM.
pub open spec fn initial_ram(code: u8, saved: Option<Seq<u8>>) -> Option<Seq<u8>> {
    match ram_size_of(code) {
        Some(Some(n)) => Some(
            match saved {
                Some(s) => s,
                None => Seq::new(n as nat, |i: int| 0u8),
            },
        ),
        _ => None,
    }
}

/// Checks a ROM image and builds its cartridge, with `saved_ram` (read from
/// the save file, where there is one) as the external RAM of a cartridge
/// whose header states RAM.
pub fn load(rom: Vec<u8>, saved_ram: Option<Vec<u8>>) -> (r: Result<CartridgeSlot, RomError>)
    ensures
        rom_check(rom@) is Err ==> r == Err::<CartridgeSlot, RomError>(rom_check(rom@)->Err_0),
        rom_check(rom@) == Ok::<MbcType, RomError>(MbcType::MBC1) ==> r == Err::<
            CartridgeSlot,
            RomError,
        >(RomError::Mbc1Unavailable),
        rom_check(rom@) == Ok::<MbcType, RomError>(MbcType::NoMBC) ==> (r matches Ok(
            CartridgeSlot::NoMBC(c),
        ) && c.rom() == rom@),
        rom_check(rom@) == Ok::<MbcType, RomError>(MbcType::MBC3) ==> (r matches Ok(
            CartridgeSlot::MBC3(c),
        ) && c.rom() == rom@ && c.ram() == initial_ram(rom@[0x149], ram_view(saved_ram))
            && c.rom_bank() == 1 && c.ram_bank() == 0 && !c.ram_enabled() && c.wf()),
{
    match check_rom(&rom) {
        Err(e) => Err(e),
        Ok(MbcType::MBC1) => Err(RomError::Mbc1Unavailable),
        Ok(_) => {
            let code = rom[0x149];
            let external_ram: Option<Vec<u8>> = if code == 0 {
                None
            } else {
                match saved_ram {
                    Some(v) => Some(v),
                    None => {
                        let n: usize = if code == 2 {
                            8 * 1024
                        } else {
                            32 * 1024
                        };
                        let v: Vec<u8> = vec![0; n];
                        assert(v@ =~= Seq::new(n as nat, |i: int| 0u8));
                        Some(v)
                    },
                }
            };
            Ok(from_checked_rom(rom, external_ram))
        },
    }
}

impl MemoryAccessor for CartridgeSlot {
    open spec fn readable(&self, location: usize) -> bool {
        match self {
            CartridgeSlot::NoMBC(c) => c.readable(location),
            CartridgeSlot::MBC3(c) => c.readable(location),
        }
    }

    open spec fn read_value(&self, location: usize) -> u8 {
        match self {
            CartridgeSlot::NoMBC(c) => c.read_value(location),
            CartridgeSlot::MBC3(c) => c.read_value(location),
        }
    }

    open spec fn writable(&self, location: usize, value: u8) -> bool {
        match self {
            CartridgeSlot::NoMBC(c) => c.writable(location, value),
            CartridgeSlot::MBC3(c) => c.writable(location, value),
        }
    }

    open spec fn after_write(&self, post: Self, location: usize, value: u8) -> bool {
        match (self, post) {
            (CartridgeSlot::NoMBC(c), CartridgeSlot::NoMBC(p)) => c.after_write(p, location, value),
            (CartridgeSlot::MBC3(c), CartridgeSlot::MBC3(p)) => c.after_write(p, location, value),
            _ => false,
        }
    }

    fn get(&self, location: usize) -> (r: u8) {
        match self {
            CartridgeSlot::NoMBC(c) => c.get(location),
            CartridgeSlot::MBC3(c) => c.get(location),
        }
    }

    fn write(&mut self, location: usize, value: u8) {
        match self {
            CartridgeSlot::NoMBC(c) => c.write(location, value),
            CartridgeSlot::MBC3(c) => c.write(location, value),
        }
    }
}

impl Cartridge for CartridgeSlot {

}

} // verus!
