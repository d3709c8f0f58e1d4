//! Cartridges: what a ROM image holds and how its header selects the memory bank controller.
pub mod empty;
pub mod mbc3;
pub mod mbc5;
pub mod nombc;

use crate::gameboy::memory_bus::MemoryAccessor;
use mbc3::{mbc3_has_ram, ram_view};
use vstd::arithmetic::power2::{lemma2_to64, lemma_pow2_strictly_increases, pow2};
use vstd::bits::{lemma_u32_pow2_no_overflow, lemma_u32_shl_is_mul};
use vstd::prelude::*;
use vstd::utf8::valid_utf8;

verus! {

/// A cartridge: a device on the bus that may hold battery-backed RAM and a rumble motor.
pub trait Cartridge: MemoryAccessor {
    /// The battery-backed RAM, empty when the cartridge has none.
    fn get_ram(&mut self) -> (r: &mut [u8])
        default_ensures
            r@ == Seq::<u8>::empty(),
    {
        &mut []
    }

    /// Whether the rumble motor is on, `None` when the cartridge has no motor.
    fn get_rumble_state(&self) -> (r: Option<bool>)
        default_ensures
            r is None,
    {
        None
    }
}

/// The memory bank controller named by the cartridge type byte (0x147) of the header.
#[derive(PartialEq, Eq, Debug, Clone, Copy, Structural)]
pub enum MbcType {
    NoMBC,
    MBC1,
    MBC3,
}

/// Why a ROM image cannot be loaded.
#[derive(PartialEq, Eq, Debug, Clone, Copy, Structural)]
pub enum RomError {
    /// Shorter than the 0x150 bytes of the header.
    TooSmall,
    /// The title (0x134-0x141) is not UTF-8.
    TitleNotUtf8,
    /// The cartridge type byte names no supported controller.
    UnsupportedMbc(u8),
    /// An MBC1 cartridge of 1 MiB or more.
    LargeMbc1,
    /// An MBC1 cartridge: this core has no MBC1 controller.
    Mbc1Unavailable,
    /// The ROM size code is too large for a 32-bit size.
    RomSizeOverflow(u8),
    /// The image's length is not the size that its header states.
    WrongLength { expected: u32, found: usize },
    /// The RAM size code names no supported RAM size.
    UnsupportedRamSize(u8),
}

/// The controller for cartridge type `t`.
pub open spec fn mbc_type_of(t: u8) -> Option<MbcType> {
    if t == 0 {
        Some(MbcType::NoMBC)
    } else if 1 <= t <= 3 {
        Some(MbcType::MBC1)
    } else if 0x0f <= t <= 0x13 {
        Some(MbcType::MBC3)
    } else {
        None
    }
}

/// The ROM size in bytes that size code `code` (0x148) states: 32 KiB times 2^code.
pub open spec fn rom_size_of(code: u8) -> nat {
    32 * 1024 * pow2(code as nat)
}

/// The external RAM size that RAM size code `code` (0x149) states, `None` for an unsupported code.
pub open spec fn ram_size_of(code: u8) -> Option<Option<usize>> {
    if code == 0 {
        Some(None)
    } else if code == 2 {
        Some(Some(8192usize))
    } else if code == 3 {
        Some(Some(32768usize))
    } else {
        None
    }
}

/// The title bytes of a header.
pub open spec fn title_bytes(rom: Seq<u8>) -> Seq<u8> {
    rom.subrange(0x134, 0x142)
}

/// The outcome of checking a ROM image's header, in the order the checks are made.
pub open spec fn rom_check(rom: Seq<u8>) -> Result<MbcType, RomError> {
    if rom.len() < 0x150 {
        Err(RomError::TooSmall)
    } else if !valid_utf8(title_bytes(rom)) {
        Err(RomError::TitleNotUtf8)
    } else if mbc_type_of(rom[0x147]) is None {
        Err(RomError::UnsupportedMbc(rom[0x147]))
    } else if rom[0x148] >= 5 && mbc_type_of(rom[0x147]) == Some(MbcType::MBC1) {
        Err(RomError::LargeMbc1)
    } else if rom[0x148] > 16 {
        Err(RomError::RomSizeOverflow(rom[0x148]))
    } else if rom.len() % 0x1_0000_0000 != rom_size_of(rom[0x148]) {
        Err(
            RomError::WrongLength {
                expected: rom_size_of(rom[0x148]) as u32,
                found: rom.len() as usize,
            },
        )
    } else if ram_size_of(rom[0x149]) is None {
        Err(RomError::UnsupportedRamSize(rom[0x149]))
    } else {
        Ok(mbc_type_of(rom[0x147])->0)
    }
}

/// Is `bytes` valid UTF-8?
///
/// Calls `std::str::from_utf8`, which fails exactly on the byte sequences that
/// are not UTF-8; the contract takes vstd's `valid_utf8` as that definition.
#[verifier::external_body]
pub(crate) fn is_utf8(bytes: &[u8]) -> (r: bool)
    ensures
        r == valid_utf8(bytes@),
{
    std::str::from_utf8(bytes).is_ok()
}

/// The ROM size that code `code` states.
pub(crate) fn rom_size(code: u8) -> (r: u32)
    requires
        code <= 16,
    ensures
        r == rom_size_of(code),
{
    let shift = code as u32;
    proof {
        lemma_u32_pow2_no_overflow(shift as nat);
        if shift < 16 {
            lemma_pow2_strictly_increases(shift as nat, 16);
        }
        lemma2_to64();
        lemma_u32_shl_is_mul(1, shift);
    }
    let pages = 1u32 << shift;
    assert(32 * pages * 1024 == 32 * 1024 * pages) by (nonlinear_arith);
    32 * pages * 1024u32
}

/// Checks a ROM image's header and length, and names its controller.
pub fn check_rom(rom: &Vec<u8>) -> (r: Result<MbcType, RomError>)
    ensures
        r == rom_check(rom@),
{
    if rom.len() < 0x150 {
        return Err(RomError::TooSmall);
    }
    if !is_utf8(&rom.as_slice()[0x134..0x142]) {
        return Err(RomError::TitleNotUtf8);
    }
    let rom_size_code = rom[0x148];
    let ram_size_code = rom[0x149];
    let cartridge_type = rom[0x147];
    let mbc_type = if cartridge_type == 0 {
        MbcType::NoMBC
    } else if 1 <= cartridge_type && cartridge_type <= 3 {
        MbcType::MBC1
    } else if 0x0f <= cartridge_type && cartridge_type <= 0x13 {
        MbcType::MBC3
    } else {
        return Err(RomError::UnsupportedMbc(cartridge_type));
    };
    if rom_size_code >= 5 && mbc_type == MbcType::MBC1 {
        return Err(RomError::LargeMbc1);
    }
    if rom_size_code > 16 {
        return Err(RomError::RomSizeOverflow(rom_size_code));
    }
    let expected_rom_size = rom_size(rom_size_code);
    let found = rom.len();
    if (found as u64 % 0x1_0000_0000) as u32 != expected_rom_size {
        return Err(RomError::WrongLength { expected: expected_rom_size, found });
    }
    if ram_size_code != 0 && ram_size_code != 2 && ram_size_code != 3 {
        return Err(RomError::UnsupportedRamSize(ram_size_code));
    }
    Ok(mbc_type)
}

/// The cartridge in the slot: one of the controllers, or none.
pub enum LoadedCartridge {
    NoMBC(nombc::NoMBC),
    MBC3(mbc3::MBC3),
    MBC5(mbc5::MBC5),
    Empty(empty::Empty),
}

/// A RAM of `len` zero bytes, or none.
pub open spec fn zeroed_ram(len: Option<usize>) -> Option<Seq<u8>> {
    match len {
        Some(n) => Some(Seq::new(n as nat, |i: int| 0u8)),
        None => None,
    }
}

/// Builds the cartridge that a checked ROM image describes: a plain ROM, or
/// an MBC3 controller with zeroed RAM of the size that the header states.
pub fn load_rom(rom: Vec<u8>) -> (r: LoadedCartridge)
    requires
        rom_check(rom@) is Ok,
        rom_check(rom@)->Ok_0 != MbcType::MBC1,
    ensures
        rom_check(rom@)->Ok_0 == MbcType::NoMBC ==> (r matches LoadedCartridge::NoMBC(c)
            && c.rom() == rom@),
        rom_check(rom@)->Ok_0 == MbcType::MBC3 ==> (r matches LoadedCartridge::MBC3(c)
            && c.rom() == rom@ && c.has_rtc() == mbc3::mbc3_has_rtc(rom@[0x147]) && (c.has_rtc()
            ==> c.clock_fresh()) && !c.rtc_selected() && c.ram() == (
        if mbc3_has_ram(rom@[0x147]) {
            zeroed_ram(ram_size_of(rom@[0x149])->0)
        } else {
            None
        }) && c.rom_bank() == 1 && c.ram_bank() == 0 && !c.ram_enabled() && c.wf()),
{
    let cartridge_type = rom[0x147];
    let ram_size = rom[0x149];
    let external_ram_size: Option<usize> = if ram_size == 0 {
        None
    } else if ram_size == 2 {
        Some(8 * 1024)
    } else {
        Some(32 * 1024)
    };
    let external_ram = match external_ram_size {
        Some(n) => {
            let v: Vec<u8> = vec![0; n];
            assert(v@ =~= Seq::new(n as nat, |i: int| 0u8));
            Some(v)
        },
        None => None,
    };
    if cartridge_type == 0 {
        LoadedCartridge::NoMBC(nombc::NoMBC::new(rom))
    } else {
        LoadedCartridge::MBC3(mbc3::MBC3::new(rom, external_ram, cartridge_type))
    }
}

/// Checks a ROM image and, when it can be loaded, builds its cartridge.
pub fn try_load_rom(rom: Vec<u8>) -> (r: Result<LoadedCartridge, RomError>)
    ensures
        rom_check(rom@) is Err ==> r == Err::<LoadedCartridge, RomError>(rom_check(rom@)->Err_0),
        rom_check(rom@) == Ok::<MbcType, RomError>(MbcType::MBC1) ==> r == Err::<
            LoadedCartridge,
            RomError,
        >(RomError::Mbc1Unavailable),
        rom_check(rom@) is Ok && rom_check(rom@)->Ok_0 != MbcType::MBC1 ==> r is Ok,
{
    match check_rom(&rom) {
        Err(e) => Err(e),
        Ok(MbcType::MBC1) => Err(RomError::Mbc1Unavailable),
        Ok(_) => Ok(load_rom(rom)),
    }
}

/// The empty cartridge slot.
pub fn no_cartridge() -> (r: LoadedCartridge)
    ensures
        r is Empty,
{
    LoadedCartridge::Empty(empty::Empty {  })
}

impl MemoryAccessor for LoadedCartridge {
    open spec fn readable(&self, location: usize) -> bool {
        match self {
            LoadedCartridge::NoMBC(c) => c.readable(location),
            LoadedCartridge::MBC3(c) => c.readable(location),
            LoadedCartridge::MBC5(c) => c.readable(location),
            LoadedCartridge::Empty(c) => c.readable(location),
        }
    }

    open spec fn read_value(&self, location: usize) -> u8 {
        match self {
            LoadedCartridge::NoMBC(c) => c.read_value(location),
            LoadedCartridge::MBC3(c) => c.read_value(location),
            LoadedCartridge::MBC5(c) => c.read_value(location),
            LoadedCartridge::Empty(c) => c.read_value(location),
        }
    }

    open spec fn writable(&self, location: usize, value: u8) -> bool {
        match self {
            LoadedCartridge::NoMBC(c) => c.writable(location, value),
            LoadedCartridge::MBC3(c) => c.writable(location, value),
            LoadedCartridge::MBC5(c) => c.writable(location, value),
            LoadedCartridge::Empty(c) => c.writable(location, value),
        }
    }

    open spec fn after_write(&self, post: Self, location: usize, value: u8) -> bool {
        match (self, post) {
            (LoadedCartridge::NoMBC(c), LoadedCartridge::NoMBC(p)) => c.after_write(
                p,
                location,
                value,
            ),
            (LoadedCartridge::MBC3(c), LoadedCartridge::MBC3(p)) => c.after_write(
                p,
                location,
                value,
            ),
            (LoadedCartridge::MBC5(c), LoadedCartridge::MBC5(p)) => c.after_write(
                p,
                location,
                value,
            ),
            (LoadedCartridge::Empty(c), LoadedCartridge::Empty(p)) => c.after_write(
                p,
                location,
                value,
            ),
            _ => false,
        }
    }

    fn get(&self, location: usize) -> (r: u8) {
        match self {
            LoadedCartridge::NoMBC(c) => c.get(location),
            LoadedCartridge::MBC3(c) => c.get(location),
            LoadedCartridge::MBC5(c) => c.get(location),
            LoadedCartridge::Empty(c) => c.get(location),
        }
    }

    fn write(&mut self, location: usize, value: u8) {
        match self {
            LoadedCartridge::NoMBC(c) => c.write(location, value),
            LoadedCartridge::MBC3(c) => c.write(location, value),
            LoadedCartridge::MBC5(c) => c.write(location, value),
            LoadedCartridge::Empty(c) => c.write(location, value),
        }
    }
}

impl Cartridge for LoadedCartridge {
    fn get_ram(&mut self) -> (r: &mut [u8])
        ensures
            (*old(self) is NoMBC || *old(self) is Empty) ==> r@ == Seq::<u8>::empty(),
            *old(self) matches LoadedCartridge::MBC3(c) ==> (*final(self) matches LoadedCartridge::MBC3(d)
                && r@ == (match c.ram() {
                Some(s) => s,
                None => Seq::empty(),
            }) && d.same_but_ram(&c) && d.ram() == (match c.ram() {
                Some(_) => Some(final(r)@),
                None => None,
            })),
            *old(self) matches LoadedCartridge::MBC5(c) ==> (*final(self) matches LoadedCartridge::MBC5(d)
                && r@ == (match c.ram() {
                Some(s) => s,
                None => Seq::empty(),
            }) && d.same_but_ram(&c) && d.ram() == (match c.ram() {
                Some(_) => Some(final(r)@),
                None => None,
            })),
    {
        match self {
            LoadedCartridge::NoMBC(c) => c.get_ram(),
            LoadedCartridge::MBC3(c) => c.get_ram(),
            LoadedCartridge::MBC5(c) => c.get_ram(),
            LoadedCartridge::Empty(c) => c.get_ram(),
        }
    }

    fn get_rumble_state(&self) -> (r: Option<bool>)
        ensures
            !(self is MBC5) ==> r is None,
            self matches LoadedCartridge::MBC5(c) ==> r == (if c.rumble_support() {
                Some(c.rumbling())
            } else {
                None
            }),
    {
        match self {
            LoadedCartridge::NoMBC(c) => c.get_rumble_state(),
            LoadedCartridge::MBC3(c) => c.get_rumble_state(),
            LoadedCartridge::MBC5(c) => c.get_rumble_state(),
            LoadedCartridge::Empty(c) => c.get_rumble_state(),
        }
    }
}

} // verus!
