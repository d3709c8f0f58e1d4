//! Sound channel 4 of the windowed emulator: the noise channel's registers.
use crate::flags::lemma_u8_fields;
use crate::gameboy::memory_bus::MemoryAccessor;
use crate::lib_rs_boy::gameboy::audio::register_bits::{lemma_field_pack, lemma_flag_pack};
use crate::registers::{bit_set, lemma_bit_masks, lemma_write_bit};
use vstd::prelude::*;

verus! {

pub struct Channel4 {
    enabled: bool,
    length_counter: u8,
    lfsr: u16,
    // FF20 — NR41: Channel 4 length timer
    // 7	6	| 5	4	3	2	1	0
    //             Initial length timer
    initial_length_timer: u8,
    // FF21 — NR42: Channel 4 volume & envelope
    // 7	6	5	4	| 	3	|	2	1	0
    // Initial volume	Env dir     Sweep pace
    initial_volume: u8,
    env_dir: bool,
    sweep_pace: u8,
    // FF22 — NR43: Channel 4 frequency & randomness
    // 7	6	5	4	|		3	| 2	1	0
    //   Clock shift      LFSR width	Clock divider
    clock_shift: u8,
    lfsr_7_width: bool,
    clock_divider: u8,
    // FF23 — NR44: Channel 4 control
    // 7    	|       6	    | 5	4	3	2	1	0
    //  Trigger   Length enable
    length_enable: bool,
}

/// Every register of the noise channel as a plain value.
pub struct Channel4View {
    pub enabled: bool,
    pub length_counter: u8,
    pub lfsr: u16,
    pub initial_length_timer: u8,
    pub initial_volume: u8,
    pub env_dir: bool,
    pub sweep_pace: u8,
    pub clock_shift: u8,
    pub lfsr_7_width: bool,
    pub clock_divider: u8,
    pub length_enable: bool,
}

impl View for Channel4 {
    type V = Channel4View;

    closed spec fn view(&self) -> Channel4View {
        Channel4View {
            enabled: self.enabled,
            length_counter: self.length_counter,
            lfsr: self.lfsr,
            initial_length_timer: self.initial_length_timer,
            initial_volume: self.initial_volume,
            env_dir: self.env_dir,
            sweep_pace: self.sweep_pace,
            clock_shift: self.clock_shift,
            lfsr_7_width: self.lfsr_7_width,
            clock_divider: self.clock_divider,
            length_enable: self.length_enable,
        }
    }
}

impl Channel4View {
    /// The register fields are in their ranges.
    pub open spec fn wf(self) -> bool {
        &&& self.initial_volume <= 15
        &&& self.sweep_pace <= 7
        &&& self.clock_shift <= 15
        &&& self.clock_divider <= 7
    }

    /// The byte a read of `location` (0xFF20-0xFF23) gives.
    pub open spec fn register(self, location: usize) -> u8 {
        if location == 0xff20 {
            self.initial_length_timer
        } else if location == 0xff21 {
            (self.initial_volume * 16 + (if self.env_dir {
                8int
            } else {
                0
            }) + self.sweep_pace) as u8
        } else if location == 0xff22 {
            (self.clock_shift * 16 + (if self.lfsr_7_width {
                8int
            } else {
                0
            }) + self.clock_divider) as u8
        } else {
            if self.length_enable {
                0x40
            } else {
                0
            }
        }
    }

    /// The channel after `location` takes `value` (a trigger is not accepted).
    pub open spec fn written(self, location: usize, value: u8) -> Channel4View {
        if location == 0xff20 {
            Channel4View { initial_length_timer: value % 64, ..self }
        } else if location == 0xff21 {
            let iv = value / 16;
            let dir = bit_set(value, 3);
            Channel4View {
                initial_volume: iv,
                env_dir: dir,
                sweep_pace: value % 8,
                enabled: if iv == 0 && !dir {
                    false
                } else {
                    self.enabled
                },
                ..self
            }
        } else if location == 0xff22 {
            Channel4View {
                clock_shift: value / 16,
                lfsr_7_width: bit_set(value, 3),
                clock_divider: value % 8,
                ..self
            }
        } else {
            Channel4View { length_enable: bit_set(value, 6), ..self }
        }
    }
}

impl MemoryAccessor for Channel4 {
    open spec fn readable(&self, location: usize) -> bool {
        self@.wf() && 0xff20 <= location <= 0xff23
    }

    open spec fn read_value(&self, location: usize) -> u8 {
        self@.register(location)
    }

    /// NR41-NR44; a trigger (bit 7 of NR44) is not handled yet.
    open spec fn writable(&self, location: usize, value: u8) -> bool {
        self@.wf() && 0xff20 <= location <= 0xff23 && (location == 0xff23 ==> value < 128)
    }

    open spec fn after_write(&self, post: Self, location: usize, value: u8) -> bool {
        post@ == self@.written(location, value) && post@.wf()
    }

    fn get(&self, location: usize) -> (r: u8) {
        if location == 0xff20 {
            self.initial_length_timer
        } else if location == 0xff21 {
            proof {
                lemma_field_pack(self.initial_volume, self.env_dir, self.sweep_pace);
            }
            self.initial_volume << 4u8 | (self.env_dir as u8) << 3u8 | self.sweep_pace
        } else if location == 0xff22 {
            proof {
                lemma_field_pack(self.clock_shift, self.lfsr_7_width, self.clock_divider);
            }
            self.clock_shift << 4u8 | (self.lfsr_7_width as u8) << 3u8 | self.clock_divider
        } else {
            proof {
                lemma_flag_pack(self.length_enable, 0, 0, 0, 0, 0, 0);
            }
            0xff & (self.length_enable as u8) << 6u8
        }
    }

    fn write(&mut self, location: usize, value: u8) {
        proof {
            lemma_u8_fields(value);
            lemma_bit_masks();
            lemma_write_bit(value, 3, true, 0);
            lemma_write_bit(value, 6, true, 0);
        }
        if location == 0xff20 {
            self.initial_length_timer = value & 0x3F;
        } else if location == 0xff21 {
            self.initial_volume = value >> 4u8;
            self.env_dir = value & 0x08 > 0;
            self.sweep_pace = value & 0x7;
            // Setting bits 3-7 of this register all to 0 (initial volume = 0, envelope = decreasing)
            // turns the DAC off (and thus, the channel as well)
            if self.initial_volume == 0 && !self.env_dir {
                self.enabled = false
            }
        } else if location == 0xff22 {
            self.clock_shift = value >> 4u8;
            self.lfsr_7_width = value & 0x08 > 0;
            self.clock_divider = value & 0x7;
        } else {
            self.length_enable = value & 0x40 > 0;
        }
    }
}

impl Channel4 {
    pub fn is_enabled(&self) -> (r: bool)
        ensures
            r == self@.enabled,
    {
        self.enabled
    }
}

impl Default for Channel4 {
    fn default() -> (r: Self)
        ensures
            r@ == (Channel4View {
                enabled: false,
                length_counter: 0,
                lfsr: 0,
                initial_length_timer: 0x3f,
                initial_volume: 0,
                env_dir: false,
                sweep_pace: 0,
                clock_shift: 0,
                lfsr_7_width: false,
                clock_divider: 0,
                length_enable: false,
            }),
    {
        Self {
            enabled: false,
            length_counter: 0,
            lfsr: 0,
            // ff20
            initial_length_timer: 0x3f,
            // ff21
            initial_volume: 0,
            env_dir: false,
            sweep_pace: 0,
            // ff22
            clock_shift: 0,
            lfsr_7_width: false,
            clock_divider: 0,
            // ff23
            length_enable: false,
        }
    }
}

} // verus!
