//! Sound channel 3 of the windowed emulator: the wave channel's registers and wave RAM.
use crate::flags::lemma_u8_fields;
use crate::gameboy::memory_bus::MemoryAccessor;
use crate::lib_rs_boy::gameboy::audio::register_bits::{lemma_flag_pack, lemma_period_bits};
use crate::registers::{bit_set, lemma_bit_masks, lemma_write_bit};
use vstd::prelude::*;

verus! {

pub struct Channel3 {
    enabled: bool,
    // Wave Ram 0xff30-0xff3f
    wave_ram: Vec<u8>,
    // FF1A — NR30: Channel 3 DAC enable
    // 7		| 6	5	4	3	2	1	0
    // DAC off/on
    dac_on: bool,
    // FF1B — NR31: Channel 3 length timer [write-only]
    // 7	6	5	4	3	2	1	0
    // Initial length timer
    initial_length_timer: u8,
    // FF1C — NR32: Channel 3 output level
    // 7	|	 6			5 	|	4	3	2	1	0
    //         output level
    output_level: u8,
    // FF1D — NR33: Channel 3 period low [write-only]
    // FF1E — NR34: Channel 3 period high & control
    // 7	    | 6	         | 5 4 3 | 2	1	0
    // Trigger	Length enable		   Period
    length_enabled: bool,
    period: u16,
}

/// Every register of the wave channel as a plain value.
#[verifier::ext_equal]
pub struct Channel3View {
    pub enabled: bool,
    pub wave_ram: Seq<u8>,
    pub dac_on: bool,
    pub initial_length_timer: u8,
    pub output_level: u8,
    pub length_enabled: bool,
    pub period: u16,
}

impl View for Channel3 {
    type V = Channel3View;

    closed spec fn view(&self) -> Channel3View {
        Channel3View {
            enabled: self.enabled,
            wave_ram: self.wave_ram@,
            dac_on: self.dac_on,
            initial_length_timer: self.initial_length_timer,
            output_level: self.output_level,
            length_enabled: self.length_enabled,
            period: self.period,
        }
    }
}

/// Is `location` in wave RAM (0xFF30-0xFF3F)?
pub open spec fn in_wave_ram(location: usize) -> bool {
    0xff30 <= location <= 0xff3f
}

impl Channel3View {
    /// The wave RAM has its 16 bytes and the fields their ranges.
    pub open spec fn wf(self) -> bool {
        &&& self.wave_ram.len() == 16
        &&& self.output_level <= 3
        &&& self.period < 2048
    }

    /// The byte a read of `location` gives; write-only bits read as 1.
    pub open spec fn register(self, location: usize) -> u8 {
        if location == 0xff1a {
            if self.dac_on {
                0xff
            } else {
                0x7f
            }
        } else if location == 0xff1c {
            (0x9f + self.output_level * 32) as u8
        } else if location == 0xff1e {
            if self.length_enabled {
                0xff
            } else {
                0xbf
            }
        } else if in_wave_ram(location) {
            self.wave_ram[location - 0xff30]
        } else {
            0xff
        }
    }

    /// The channel after `location` takes `value`. Here 0xFF1E takes the
    /// period's low byte and 0xFF1D the high bits, the length enable and the
    /// trigger, which turns the channel on.
    pub open spec fn written(self, location: usize, value: u8) -> Channel3View {
        if location == 0xff1a {
            let on = value >= 128;
            Channel3View {
                dac_on: on,
                enabled: if !on {
                    false
                } else {
                    self.enabled
                },
                ..self
            }
        } else if location == 0xff1b {
            Channel3View { initial_length_timer: value, ..self }
        } else if location == 0xff1c {
            Channel3View { output_level: (value / 32) % 4, ..self }
        } else if location == 0xff1e {
            Channel3View { period: ((self.period / 256) * 256 + value) as u16, ..self }
        } else if location == 0xff1d {
            Channel3View {
                length_enabled: bit_set(value, 6),
                period: (self.period % 256 + (value % 8) * 256) as u16,
                enabled: if value >= 128 {
                    true
                } else {
                    self.enabled
                },
                ..self
            }
        } else {
            Channel3View { wave_ram: self.wave_ram.update(location - 0xff30, value), ..self }
        }
    }
}

/// NR30-NR34 or wave RAM?
pub open spec fn channel3_location(location: usize) -> bool {
    (0xff1a <= location <= 0xff1e) || in_wave_ram(location)
}

impl MemoryAccessor for Channel3 {
    open spec fn readable(&self, location: usize) -> bool {
        self@.wf() && channel3_location(location)
    }

    open spec fn read_value(&self, location: usize) -> u8 {
        self@.register(location)
    }

    open spec fn writable(&self, location: usize, value: u8) -> bool {
        self@.wf() && channel3_location(location)
    }

    open spec fn after_write(&self, post: Self, location: usize, value: u8) -> bool {
        post@ == self@.written(location, value) && post@.wf()
    }

    fn get(&self, location: usize) -> (r: u8) {
        if location == 0xff1a {
            proof {
                lemma_flag_pack(self.dac_on, 0, 0, 0, 0, 0, 0);
            }
            (self.dac_on as u8) << 7u8 | 0x7f
        } else if location == 0xff1b {
            0xff  // write-only
        } else if location == 0xff1c {
            proof {
                lemma_flag_pack(false, self.output_level, 0, 0, 0, 0, 0);
            }
            self.output_level << 5u8 | 0b10011111
        } else if location == 0xff1d {
            0xff  // it's write only field
        } else if location == 0xff1e {
            // 7	    | 6	         | 5 4 3 | 2	1	0
            // Trigger	Length enable		   Period
            proof {
                lemma_flag_pack(self.length_enabled, 0, 0, 0, 0, 0, 0);
            }
            0x80 | (self.length_enabled as u8) << 6u8 | 0b111000 | 0x7
        } else {
            self.wave_ram[location - 0xff30]
        }
    }

    fn write(&mut self, location: usize, value: u8) {
        proof {
            lemma_u8_fields(value);
            lemma_bit_masks();
            lemma_write_bit(value, 6, true, 0);
            lemma_period_bits(self.period, 0, value, false, false);
        }
        if location == 0xff1a {
            self.dac_on = value >> 7u8 > 0;
            if !self.dac_on {
                // Disabling DAC disables the channel
                self.enabled = false;
            }
        } else if location == 0xff1b {
            self.initial_length_timer = value;
        } else if location == 0xff1c {
            self.output_level = (value & 0b01100000) >> 5u8;
        } else if location == 0xff1e {
            self.period = (self.period & 0x700) | value as u16;
        } else if location == 0xff1d {
            // 7	    | 6	         | 5 4 3 | 2	1	0
            // Trigger	Length enable		   Period
            let trigger = value >> 7u8 > 0;
            self.length_enabled = value & 0x40 > 0;
            self.period = (self.period & 0xff) | ((value as u16 & 7) << 8u16);
            if trigger {
                // Channel is enabled.
                self.enabled = true;
            }
        } else {
            self.wave_ram.set(location - 0xff30, value);
        }
    }
}

impl Channel3 {
    pub fn is_enabled(&self) -> (r: bool)
        ensures
            r == self@.enabled,
    {
        self.enabled
    }

    /// Clears the registers and turns the DAC, and so the channel, off.
    pub fn reset(&mut self)
        ensures
            final(self)@ == (Channel3View {
                enabled: false,
                dac_on: false,
                initial_length_timer: 0,
                output_level: 0,
                length_enabled: false,
                period: 0,
                ..old(self)@
            }),
    {
        // Since dac_on becomes false, we disable the channel.
        self.enabled = false;
        // FF1A — NR30: Channel 3 DAC enable
        self.dac_on = false;
        // FF1B — NR31: Channel 3 length timer [write-only]
        self.initial_length_timer = 0;
        // FF1C — NR32: Channel 3 output level
        self.output_level = 0;
        // FF1D — NR33: Channel 3 period low [write-only]
        // FF1E — NR34: Channel 3 period high & control
        self.length_enabled = false;
        self.period = 0;
    }
}

impl Default for Channel3 {
    fn default() -> (r: Self)
        ensures
            r@ == (Channel3View {
                enabled: false,
                wave_ram: Seq::new(16, |i: int| 0u8),
                dac_on: false,
                initial_length_timer: 0xff,
                output_level: 0,
                length_enabled: false,
                period: 0x7ff,
            }),
    {
        let wave_ram = vec![0u8; 16];
        assert(wave_ram@ =~= Seq::new(16, |i: int| 0u8));
        Self {
            enabled: false,
            wave_ram,
            dac_on: false,  // 0x7f
            initial_length_timer: 0xff,
            output_level: 0,  // 0x9f
            length_enabled: false,
            period: 0x7ff,
        }
    }
}

} // verus!
