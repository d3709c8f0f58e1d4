//! The MBC3 memory bank controller: up to 2 MiB of banked ROM, up to four
//! 8 KiB banks of RAM and, on some cartridges, a real time clock whose
//! registers are reached through the RAM window.
use super::Cartridge;
use crate::gameboy::memory_bus::MemoryAccessor;
use vstd::prelude::*;

verus! {

pub struct MBC3 {
    rom: Vec<u8>,
    rom_bank: u8,
    // RAM
    ram_enabled: bool,  // Controls also RTC register access!!
    ram: Option<Vec<u8>>,
    ram_bank: u8,
    total_ram_banks: u8,
    // MBC Specific
    rtc: Option<RTC>,
}

/// The latched registers of the real time clock.
#[derive(Copy, Clone)]
struct RTC {
    rtc_access: bool,
    rtc_latched: bool,
    accessed_rtc_field: u8,
    latched_seconds: u8,
    latched_minutes: u8,
    latched_hours: u8,
    latched_day_lower_bit: u8,
    latched_day_upper_bit: bool,
    latched_halt: bool,
    latched_day_overflow_bit: bool,
}

/// A clock with every register cleared and nothing selected.
spec fn fresh_rtc() -> RTC {
    RTC {
        rtc_latched: false,
        rtc_access: false,
        accessed_rtc_field: 0,
        latched_seconds: 0,
        latched_minutes: 0,
        latched_hours: 0,
        latched_day_lower_bit: 0,
        latched_day_upper_bit: false,
        latched_halt: false,
        latched_day_overflow_bit: false,
    }
}

/// The contents of an optional RAM.
pub open spec fn ram_view(ram: Option<Vec<u8>>) -> Option<Seq<u8>> {
    match ram {
        Some(v) => Some(v@),
        None => None,
    }
}

/// Does this cartridge type carry a real time clock?
pub open spec fn mbc3_has_rtc(cartridge_type: u8) -> bool {
    cartridge_type == 0x0F || cartridge_type == 0x10
}

/// Does this cartridge type use the external RAM it is given?
pub open spec fn mbc3_has_ram(cartridge_type: u8) -> bool {
    cartridge_type == 0x10 || cartridge_type == 0x12 || cartridge_type == 0x13
}

/// The number of RAM banks counted from the RAM's length (one per 8096 bytes, kept in a byte).
pub open spec fn ram_banks_of(ram: Option<Seq<u8>>) -> u8 {
    match ram {
        Some(r) => ((r.len() / 8096) % 256) as u8,
        None => 0,
    }
}

impl RTC {
    /// The register that a read of the RAM window gives while the clock is selected.
    spec fn field_value(self) -> u8 {
        if self.accessed_rtc_field == 0x8 {
            self.latched_seconds
        } else if self.accessed_rtc_field == 0x9 {
            self.latched_minutes
        } else if self.accessed_rtc_field == 0xa {
            self.latched_hours
        } else if self.accessed_rtc_field == 0xb {
            self.latched_day_lower_bit
        } else {
            (if self.latched_day_upper_bit { 1u8 } else { 0u8 }) | (if self.latched_halt {
                0x40u8
            } else {
                0u8
            }) | (if self.latched_day_overflow_bit { 0x80u8 } else { 0u8 })
        }
    }

    /// The clock after `value` is written to the selected register.
    spec fn field_written(self, value: u8) -> RTC {
        if self.accessed_rtc_field == 0x8 {
            RTC { latched_seconds: value, ..self }
        } else if self.accessed_rtc_field == 0x9 {
            RTC { latched_minutes: value, ..self }
        } else if self.accessed_rtc_field == 0xa {
            RTC { latched_hours: value, ..self }
        } else if self.accessed_rtc_field == 0xb {
            RTC { latched_day_lower_bit: value, ..self }
        } else {
            RTC {
                latched_day_upper_bit: value == 1,
                latched_halt: value & 0x40 != 0,
                latched_day_overflow_bit: value & 0x80 != 0,
                ..self
            }
        }
    }

    /// The clock after `value` is written to the latch register (0x6000-0x7FFF).
    ///
    /// Writing 1 while unlatched clears the latched registers; the latch
    /// follows whether 1 was written.
    spec fn latch_written(self, value: u8) -> RTC {
        let base = if !self.rtc_latched && value == 1 {
            RTC {
                latched_seconds: 0,
                latched_minutes: 0,
                latched_hours: 0,
                latched_day_lower_bit: 0,
                latched_day_upper_bit: false,
                latched_halt: false,
                latched_day_overflow_bit: false,
                ..self
            }
        } else {
            self
        };
        RTC { rtc_latched: value == 1, ..base }
    }
}

impl MBC3 {
    /// Is the clock present and selected in the RAM window?
    pub closed spec fn rtc_selected(&self) -> bool {
        self.rtc is Some && self.rtc->0.rtc_access
    }

    /// The clock never selects a register outside 0x8-0xC.
    pub closed spec fn wf(&self) -> bool {
        self.rtc_selected() ==> 0x8 <= self.rtc->0.accessed_rtc_field <= 0xc
    }

    /// Index into the ROM of a read of `location` (0x0000-0x7FFF).
    pub open spec fn rom_index(&self, location: usize) -> int {
        if location <= 0x3fff {
            location as int
        } else {
            location - 0x4000 + self.rom_bank() * 0x4000
        }
    }

    /// Index into the RAM of an access to `location` (0xA000-0xBFFF).
    pub open spec fn ram_index(&self, location: usize) -> int {
        location - 0xa000 + self.ram_bank() * 0x2000
    }

    /// Can the RAM itself be reached at `location`?
    pub open spec fn ram_reachable(&self, location: usize) -> bool {
        self.ram() is Some && self.ram_index(location) < self.ram()->0.len()
    }

    /// The ROM.
    pub closed spec fn rom(&self) -> Seq<u8> {
        self.rom@
    }

    /// The contents of the external RAM, if the cartridge has one.
    pub closed spec fn ram(&self) -> Option<Seq<u8>> {
        ram_view(self.ram)
    }

    /// The selected ROM bank for 0x4000-0x7FFF.
    pub closed spec fn rom_bank(&self) -> u8 {
        self.rom_bank
    }

    /// The selected RAM bank.
    pub closed spec fn ram_bank(&self) -> u8 {
        self.ram_bank
    }

    /// Is the RAM (and clock) window enabled?
    pub closed spec fn ram_enabled(&self) -> bool {
        self.ram_enabled
    }

    /// The number of RAM banks.
    pub closed spec fn total_ram_banks(&self) -> u8 {
        self.total_ram_banks
    }

    /// Does the cartridge carry a clock?
    pub closed spec fn has_rtc(&self) -> bool {
        self.rtc is Some
    }

    /// Is the clock in its power-on state: every latched register 0, not
    /// latched, no register selected?
    pub closed spec fn clock_fresh(&self) -> bool {
        self.rtc == Some(fresh_rtc())
    }

    /// Are the two cartridges the same in all but their RAM's contents?
    pub closed spec fn same_but_ram(&self, other: &Self) -> bool {
        &&& self.rom@ == other.rom@
        &&& self.rom_bank == other.rom_bank
        &&& self.ram_enabled == other.ram_enabled
        &&& self.ram_bank == other.ram_bank
        &&& self.total_ram_banks == other.total_ram_banks
        &&& self.rtc == other.rtc
        &&& (self.ram is Some <==> other.ram is Some)
    }

    /// Reads the ROM window: bank 0 at 0x0000-0x3FFF, the selected bank at 0x4000-0x7FFF.
    pub fn get_rom(&self, location: usize) -> (r: u8)
        requires
            location <= 0x7fff,
            self.rom_index(location) < self.rom().len(),
        ensures
            r == self.rom()[self.rom_index(location)],
    {
        if location <= 0x3fff {
            self.rom[location]
        } else {
            let relative_loc = location - 0x4000;
            let actual_loc = relative_loc + (self.rom_bank as usize) * 0x4000;
            self.rom[actual_loc]
        }
    }

    /// Reads the RAM window: 0xFF while disabled, the selected clock
    /// register while the clock is selected, else the selected RAM bank.
    fn get_external_ram(&self, location: usize) -> (r: u8)
        requires
            0xa000 <= location <= 0xbfff,
            self.wf(),
            self.ram_enabled && !self.rtc_selected() ==> self.ram_reachable(location),
        ensures
            r == (if !self.ram_enabled {
                0xFF
            } else if self.rtc_selected() {
                self.rtc->0.field_value()
            } else {
                self.ram->0@[self.ram_index(location)]
            }),
    {
        // For MBC3 it also enables writing to Timer Registers
        if !self.ram_enabled {
            return 0xFF;
        }
        if let Some(rtc) = &self.rtc {
            if rtc.rtc_access {
                let field = rtc.accessed_rtc_field;
                return if field == 0x8 {
                    rtc.latched_seconds
                } else if field == 0x9 {
                    rtc.latched_minutes
                } else if field == 0xa {
                    rtc.latched_hours
                } else if field == 0xb {
                    rtc.latched_day_lower_bit
                } else {
                    let (a, b, c) = (
                        rtc.latched_day_upper_bit,
                        rtc.latched_halt,
                        rtc.latched_day_overflow_bit,
                    );
                    assert((a as u8 | ((b as u8) << 6u8) | ((c as u8) << 7u8)) == ((if a {
                        1u8
                    } else {
                        0u8
                    }) | (if b { 0x40u8 } else { 0u8 }) | (if c { 0x80u8 } else { 0u8 })))
                        by (bit_vector);
                    a as u8 | ((b as u8) << 6u8) | ((c as u8) << 7u8)
                };
            }
        }
        let relative_loc = location - 0xA000;
        let actual_loc = relative_loc + (self.ram_bank as usize) * 0x2000;
        match &self.ram {
            Some(ram) => ram[actual_loc],
            None => 0,
        }
    }

    /// A cartridge of type `cartridge_type` (0x0F-0x13): the clock is present
    /// for 0x0F and 0x10, the given RAM is kept for 0x10, 0x12 and 0x13.
    pub fn new(buffer: Vec<u8>, external_ram: Option<Vec<u8>>, cartridge_type: u8) -> (r: Self)
        requires
            0x0F <= cartridge_type <= 0x13,
        ensures
            r.wf(),
            r.rom() == buffer@,
            r.ram() == (if mbc3_has_ram(cartridge_type) {
                ram_view(external_ram)
            } else {
                None
            }),
            r.has_rtc() == mbc3_has_rtc(cartridge_type),
            r.has_rtc() ==> r.clock_fresh(),
            !r.rtc_selected(),
            r.rom_bank() == 1,
            r.ram_bank() == 0,
            !r.ram_enabled(),
            r.total_ram_banks() == ram_banks_of(r.ram()),
    {
        let mut ram = None;
        let mut rtc = None;
        let new_rtc = RTC {
            rtc_latched: false,
            rtc_access: false,
            accessed_rtc_field: 0,
            latched_seconds: 0,
            latched_minutes: 0,
            latched_hours: 0,
            latched_day_lower_bit: 0,
            latched_day_upper_bit: false,
            latched_halt: false,
            latched_day_overflow_bit: false,
        };
        match cartridge_type {
            // $0F	MBC3+TIMER+BATTERY
            0x0F => {
                rtc = Some(new_rtc);
            },
            // $10	MBC3+TIMER+RAM+BATTERY
            0x10 => {
                ram = external_ram;
                rtc = Some(new_rtc);
            },
            // $11	MBC3
            0x11 => {},
            // $12	MBC3+RAM
            0x12 => {
                ram = external_ram;
            },
            // $13	MBC3+RAM+BATTERY
            _ => {
                ram = external_ram;
            },
        }
        let total_ram_banks: usize = match &ram {
            Some(r) => r.len() / 8096,
            None => 0,
        };
        MBC3 {
            rom: buffer,
            rom_bank: 1,
            ram,
            ram_enabled: false,
            ram_bank: 0,
            total_ram_banks: (total_ram_banks % 256) as u8,
            rtc,
        }
    }
}

impl Cartridge for MBC3 {
    fn get_ram(&mut self) -> (r: &mut [u8])
        ensures
            r@ == (match old(self).ram() {
                Some(s) => s,
                None => Seq::empty(),
            }),
            final(self).same_but_ram(old(self)),
            final(self).ram() == (match old(self).ram() {
                Some(_) => Some(final(r)@),
                None => None,
            }),
    {
        match &mut self.ram {
            Some(ram) => ram.as_mut_slice(),
            None => &mut [],
        }
    }
}

impl MemoryAccessor for MBC3 {
    /// The ROM window below 0x8000 and the RAM window 0xA000-0xBFFF.
    closed spec fn readable(&self, location: usize) -> bool {
        &&& self.wf()
        &&& if location <= 0x7fff {
            self.rom_index(location) < self.rom@.len()
        } else if 0xa000 <= location <= 0xbfff {
            self.ram_enabled && !self.rtc_selected() ==> self.ram_reachable(location)
        } else {
            false
        }
    }

    closed spec fn read_value(&self, location: usize) -> u8 {
        if location <= 0x7fff {
            self.rom@[self.rom_index(location)]
        } else if !self.ram_enabled {
            0xFF
        } else if self.rtc_selected() {
            self.rtc->0.field_value()
        } else {
            self.ram->0@[self.ram_index(location)]
        }
    }

    /// Registers below 0x8000 (a RAM bank switch needs at least one RAM bank)
    /// and the enabled RAM window.
    closed spec fn writable(&self, location: usize, value: u8) -> bool {
        &&& self.wf()
        &&& if location <= 0x7fff {
            (0x4000 <= location <= 0x5fff && value & 0xf <= 7) ==> self.total_ram_banks != 0
        } else if 0xa000 <= location <= 0xbfff {
            self.ram_enabled && (self.rtc_selected() || self.ram_reachable(location))
        } else {
            false
        }
    }

    closed spec fn after_write(&self, post: Self, location: usize, value: u8) -> bool {
        let v = value & 0xf;
        &&& post.wf()
        &&& post.rom@ == self.rom@
        &&& post.total_ram_banks == self.total_ram_banks
        &&& post.ram_enabled == (if location <= 0x1fff {
            value & 0x0f == 0x0a
        } else {
            self.ram_enabled
        })
        &&& post.rom_bank == (if 0x2000 <= location <= 0x3fff {
            if value == 0 {
                1
            } else {
                value
            }
        } else {
            self.rom_bank
        })
        &&& post.ram_bank == (if 0x4000 <= location <= 0x5fff && v <= 7 {
            (v % self.total_ram_banks) as u8
        } else {
            self.ram_bank
        })
        &&& post.rtc == (match self.rtc {
            None => None,
            Some(rtc) => Some(
                if 0x4000 <= location <= 0x5fff && v <= 7 {
                    RTC { rtc_access: false, ..rtc }
                } else if 0x4000 <= location <= 0x5fff && 8 <= v <= 0xc {
                    RTC { rtc_access: true, accessed_rtc_field: v, ..rtc }
                } else if 0x6000 <= location <= 0x7fff {
                    rtc.latch_written(value)
                } else if 0xa000 <= location <= 0xbfff && rtc.rtc_access {
                    rtc.field_written(value)
                } else {
                    rtc
                },
            ),
        })
        &&& ram_view(post.ram) == (if 0xa000 <= location <= 0xbfff && !self.rtc_selected() {
            Some(self.ram->0@.update(self.ram_index(location), value))
        } else {
            ram_view(self.ram)
        })
    }

    fn get(&self, location: usize) -> (r: u8) {
        if location <= 0x7fff {
            self.get_rom(location)
        } else {
            self.get_external_ram(location)
        }
    }

    fn write(&mut self, location: usize, value: u8) {
        if location <= 0x1fff {
            // also enables writing to Timer Registers
            self.ram_enabled = value & 0x0f == 0x0a;
        } else if location <= 0x3fff {
            self.rom_bank = value;
            if self.rom_bank == 0 {
                self.rom_bank = 1;
            }
        } else if location <= 0x5fff {
            let value = value & 0xf;
            if value <= 0x7 {
                self.ram_bank = value % self.total_ram_banks;
                if let Some(rtc) = self.rtc.as_mut() {
                    rtc.rtc_access = false;
                }
            } else if value <= 0xc {
                if let Some(rtc) = self.rtc.as_mut() {
                    rtc.rtc_access = true;
                    rtc.accessed_rtc_field = value;
                }
            }
        } else if location <= 0x7fff {
            if let Some(rtc) = self.rtc.as_mut() {
                let latching = value == 1;
                if !rtc.rtc_latched && latching {
                    // the latched registers are cleared, the clock itself is not modelled
                    rtc.latched_seconds = 0;
                    rtc.latched_minutes = 0;
                    rtc.latched_hours = 0;
                    rtc.latched_day_lower_bit = 0;
                    rtc.latched_day_upper_bit = false;
                    rtc.latched_halt = false;
                    rtc.latched_day_overflow_bit = false;
                }
                rtc.rtc_latched = latching;
            }
        } else {
            if let Some(rtc) = self.rtc.as_mut() {
                if rtc.rtc_access {
                    let field = rtc.accessed_rtc_field;
                    if field == 0x8 {
                        rtc.latched_seconds = value;
                    } else if field == 0x9 {
                        rtc.latched_minutes = value;
                    } else if field == 0xa {
                        rtc.latched_hours = value;
                    } else if field == 0xb {
                        rtc.latched_day_lower_bit = value;
                    } else {
                        rtc.latched_day_upper_bit = value == 1;
                        rtc.latched_halt = value & 0x40 != 0;
                        rtc.latched_day_overflow_bit = value & 0x80 != 0;
                    }
                    return;
                }
            }
            let relative_loc = location - 0xa000;
            let actual_loc = relative_loc + (self.ram_bank as usize) * 0x2000;
            if let Some(ram) = self.ram.as_mut() {
                ram.set(actual_loc, value);
            }
        }
    }
}

/// Reading the ROM window: bank 0 at 0x0000-0x3FFF, the selected bank at
/// 0x4000-0x7FFF, wherever the ROM holds the byte.
pub proof fn rom_read(c: MBC3, location: usize)
    requires
        c.wf(),
        location <= 0x7fff,
        location <= 0x3fff ==> location < c.rom().len(),
        location > 0x3fff ==> location - 0x4000 + c.rom_bank() * 0x4000 < c.rom().len(),
    ensures
        c.readable(location),
        c.read_value(location) == (if location <= 0x3fff {
            c.rom()[location as int]
        } else {
            c.rom()[location - 0x4000 + c.rom_bank() * 0x4000]
        }),
{
}

/// Every register write below 0x8000 is accepted, but for a RAM bank
/// switch on a cartridge without RAM banks.
pub proof fn register_writable(c: MBC3, location: usize, value: u8)
    requires
        c.wf(),
        location <= 0x7fff,
        0x4000 <= location <= 0x5fff && value & 0xf <= 7 ==> c.total_ram_banks() != 0,
    ensures
        c.writable(location, value),
{
}

/// The RAM window takes a write while enabled, with the clock unselected,
/// where the RAM holds the byte.
pub proof fn ram_writable(c: MBC3, location: usize, value: u8)
    requires
        c.wf(),
        c.ram_enabled(),
        !c.rtc_selected(),
        c.ram() is Some,
        0xa000 <= location <= 0xbfff,
        location - 0xa000 + c.ram_bank() * 0x2000 < c.ram()->0.len(),
    ensures
        c.writable(location, value),
{
}

/// A write to 0x0000-0x1FFF enables the RAM window exactly when its low
/// nibble is 0xA, and changes nothing else that is read.
pub proof fn ram_enable_write(c: MBC3, post: MBC3, location: usize, value: u8)
    requires
        c.after_write(post, location, value),
        location <= 0x1fff,
    ensures
        post.wf(),
        post.ram_enabled() == (value & 0x0f == 0x0a),
        post.rom() == c.rom(),
        post.ram() == c.ram(),
        post.rom_bank() == c.rom_bank(),
        post.ram_bank() == c.ram_bank(),
        post.total_ram_banks() == c.total_ram_banks(),
        post.rtc_selected() == c.rtc_selected(),
{
}

/// A write to 0x2000-0x3FFF selects ROM bank `value` for 0x4000-0x7FFF, or
/// bank 1 for 0, and changes nothing else that is read.
pub proof fn rom_bank_write(c: MBC3, post: MBC3, location: usize, value: u8)
    requires
        c.after_write(post, location, value),
        0x2000 <= location <= 0x3fff,
    ensures
        post.wf(),
        post.rom_bank() == (if value == 0 {
            1
        } else {
            value
        }),
        post.rom() == c.rom(),
        post.ram() == c.ram(),
        post.ram_enabled() == c.ram_enabled(),
        post.ram_bank() == c.ram_bank(),
        post.total_ram_banks() == c.total_ram_banks(),
        post.rtc_selected() == c.rtc_selected(),
{
}

/// A write to the enabled RAM window, with the clock unselected, stores the
/// byte at its index in the selected bank and leaves the rest of the RAM.
pub proof fn ram_write(c: MBC3, post: MBC3, location: usize, value: u8)
    requires
        c.writable(location, value),
        c.after_write(post, location, value),
        0xa000 <= location <= 0xbfff,
        !c.rtc_selected(),
    ensures
        c.ram() is Some,
        post.ram() == Some(
            c.ram()->0.update(location - 0xa000 + c.ram_bank() * 0x2000, value),
        ),
        location - 0xa000 + c.ram_bank() * 0x2000 < c.ram()->0.len(),
        post.wf(),
        post.rom() == c.rom(),
        post.rom_bank() == c.rom_bank(),
        post.ram_bank() == c.ram_bank(),
        post.ram_enabled() == c.ram_enabled(),
        !post.rtc_selected(),
{
}

/// A byte written to the enabled RAM window is read back from it.
pub proof fn ram_read_after_write(c: MBC3, post: MBC3, location: usize, value: u8)
    requires
        c.writable(location, value),
        c.after_write(post, location, value),
        0xa000 <= location <= 0xbfff,
        !c.rtc_selected(),
    ensures
        post.readable(location),
        post.read_value(location) == value,
{
}

/// Writes never change the ROM.
pub proof fn writes_keep_rom(c: MBC3, post: MBC3, location: usize, value: u8)
    requires
        c.after_write(post, location, value),
    ensures
        post.rom() == c.rom(),
{
}

/// The ROM bank register never selects bank 0 for 0x4000-0x7FFF: a write of 0 selects bank 1.
pub proof fn rom_bank_never_zero(c: MBC3, post: MBC3, location: usize, value: u8)
    requires
        c.rom_bank() != 0,
        c.after_write(post, location, value),
    ensures
        post.rom_bank() != 0,
{
}

/// The RAM that `get_ram` hands out is the RAM that the game reads: once it
/// holds `bytes` (a save file copied in), the enabled RAM window reads them.
pub proof fn restored_ram_reads_back(before: MBC3, after: MBC3, bytes: Seq<u8>, location: usize)
    requires
        before.wf(),
        after.same_but_ram(&before),
        before.ram() is Some,
        after.ram() == Some(bytes),
        before.ram_enabled(),
        !before.rtc_selected(),
        0xa000 <= location <= 0xbfff,
        location - 0xa000 + before.ram_bank() * 0x2000 < bytes.len(),
    ensures
        after.readable(location),
        after.read_value(location) == bytes[location - 0xa000 + before.ram_bank() * 0x2000],
{
}

/// With the RAM window disabled, it reads 0xFF.
pub proof fn disabled_ram_reads_ff(c: MBC3, location: usize)
    requires
        c.wf(),
        !c.ram_enabled(),
        0xa000 <= location <= 0xbfff,
    ensures
        c.readable(location),
        c.read_value(location) == 0xff,
{
}

} // verus!
