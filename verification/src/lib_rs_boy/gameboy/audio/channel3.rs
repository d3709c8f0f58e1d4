//! Sound channel 3: the wave channel, playing 32 four-bit samples from wave RAM.
use crate::flags::lemma_u8_fields;
use crate::gameboy::memory_bus::MemoryAccessor;
use crate::registers::{bit_set, lemma_bit_masks, lemma_write_bit};
use super::register_bits::{lemma_flag_pack, lemma_period_bits};
use vstd::prelude::*;

verus! {

pub const MAX_LENGTH: u16 = 256;

pub const AUDIO_STEP_FREQUENCY: u32 = 8192;

pub const NUM_WAVE_SAMPLES: usize = 32;

pub struct Channel3 {
    enabled: bool,
    audio_step_counter: u32,
    /// Frame of the audio. 1-8
    audio_step_state: u8,
    wave_index: u8,
    next_sample: u8,
    // Wave Ram 0xff30-0xff3f
    wave_ram: Vec<u8>,
    // FF1A — NR30: Channel 3 DAC enable
    // 7		| 6	5	4	3	2	1	0
    // DAC off/on
    dac_on: bool,
    length_counter: u16,
    // FF1B — NR31: Channel 3 length timer [write-only]
    // 7	6	5	4	3	2	1	0
    // Initial length timer
    initial_length_timer: u8,
    // FF1C — NR32: Channel 3 output level
    // 7	|	 6			5 	|	4	3	2	1	0
    //         output level
    output_level: u8,
    period_divider: u16,
    // FF1D — NR33: Channel 3 period low [write-only]
    // FF1E — NR34: Channel 3 period high & control
    // 7	    | 6	         | 5 4 3 | 2	1	0
    // Trigger	Length enable		   Period
    length_enabled: bool,
    period: u16,
}

/// Every register and counter of the wave channel as a plain value.
#[verifier::ext_equal]
pub struct Channel3View {
    pub enabled: bool,
    pub audio_step_counter: u32,
    pub audio_step_state: u8,
    pub wave_index: u8,
    pub next_sample: u8,
    pub wave_ram: Seq<u8>,
    pub dac_on: bool,
    pub length_counter: u16,
    pub initial_length_timer: u8,
    pub output_level: u8,
    pub period_divider: u16,
    pub length_enabled: bool,
    pub period: u16,
}

impl View for Channel3 {
    type V = Channel3View;

    closed spec fn view(&self) -> Channel3View {
        Channel3View {
            enabled: self.enabled,
            audio_step_counter: self.audio_step_counter,
            audio_step_state: self.audio_step_state,
            wave_index: self.wave_index,
            next_sample: self.next_sample,
            wave_ram: self.wave_ram@,
            dac_on: self.dac_on,
            length_counter: self.length_counter,
            initial_length_timer: self.initial_length_timer,
            output_level: self.output_level,
            period_divider: self.period_divider,
            length_enabled: self.length_enabled,
            period: self.period,
        }
    }
}

/// Is `location` in wave RAM (0xFF30-0xFF3F)?
pub open spec fn in_wave_ram(location: usize) -> bool {
    0xff30 <= location <= 0xff3f
}

/// The right shift that output level `level` applies to a sample: mute, 100%, 50%, 25%.
pub open spec fn volume_shift(level: u8) -> u8 {
    if level == 0 {
        4
    } else if level == 1 {
        0
    } else if level == 2 {
        1
    } else {
        2
    }
}

impl Channel3View {
    /// Every field is in the range its register or counter allows.
    pub open spec fn wf(self) -> bool {
        &&& self.audio_step_counter < AUDIO_STEP_FREQUENCY
        &&& self.audio_step_state < 8
        &&& self.wave_index < 32
        &&& self.next_sample <= 15
        &&& self.wave_ram.len() == 16
        &&& self.output_level <= 3
        &&& self.period_divider < 2048
        &&& self.period < 2048
        &&& self.length_counter <= MAX_LENGTH
    }

    /// The channel after a tick of the 512 Hz frame sequencer: the length
    /// counter on even steps, stopping the channel when it runs out.
    pub open spec fn frame_ticked(self) -> Channel3View {
        let a = if self.length_enabled && self.length_counter > 0 && self.audio_step_state % 2 == 0 {
            let l = (self.length_counter - 1) as u16;
            Channel3View {
                length_counter: l,
                enabled: if l == 0 {
                    false
                } else {
                    self.enabled
                },
                ..self
            }
        } else {
            self
        };
        Channel3View { audio_step_state: ((a.audio_step_state + 1) % 8) as u8, ..a }
    }

    /// The channel after one dot of the frame sequencer counter.
    pub open spec fn dot(self) -> Channel3View {
        if self.audio_step_counter + 1 == AUDIO_STEP_FREQUENCY {
            Channel3View { audio_step_counter: 0, ..self }.frame_ticked()
        } else {
            Channel3View { audio_step_counter: (self.audio_step_counter + 1) as u32, ..self }
        }
    }

    /// The channel after `n` dots.
    pub open spec fn dots(self, n: nat) -> Channel3View
        decreases n,
    {
        if n == 0 {
            self
        } else {
            self.dot().dots((n - 1) as nat)
        }
    }

    /// The channel after one clock of the period divider: past 0x7FF it reloads
    /// the period and the next sample (high nibble first) is fetched.
    pub open spec fn divider_ticked(self) -> Channel3View {
        if self.period_divider + 1 == 2048 {
            let index = ((self.wave_index + 1) % 32) as u8;
            let byte = self.wave_ram[(index / 2) as int];
            Channel3View {
                period_divider: self.period,
                wave_index: index,
                next_sample: if index % 2 == 0 {
                    byte / 16
                } else {
                    byte % 16
                },
                ..self
            }
        } else {
            Channel3View { period_divider: (self.period_divider + 1) as u16, ..self }
        }
    }

    /// The channel after `n` clocks of the period divider.
    pub open spec fn divider_ticks(self, n: nat) -> Channel3View
        decreases n,
    {
        if n == 0 {
            self
        } else {
            self.divider_ticked().divider_ticks((n - 1) as nat)
        }
    }

    /// The channel after `step` dots: the period divider runs at every second dot.
    pub open spec fn stepped(self, step: u32) -> Channel3View {
        self.dots(step as nat).divider_ticks((step / 2) as nat)
    }

    /// The byte a read of `location` gives; write-only bits read as 1.
    pub open spec fn register(self, location: usize) -> u8 {
        if location == 0xff1a {
            if self.dac_on {
                0xff
            } else {
                0x7f
            }
        } else if location == 0xff1c {
            (0x9f + self.output_level * 32) as u8
        } else if location == 0xff1e {
            if self.length_enabled {
                0xff
            } else {
                0xbf
            }
        } else if in_wave_ram(location) {
            self.wave_ram[location - 0xff30]
        } else {
            0xff
        }
    }

    /// The channel after `location` takes `value`.
    pub open spec fn written(self, location: usize, value: u8) -> Channel3View {
        if location == 0xff1a {
            let on = value >= 128;
            Channel3View {
                dac_on: on,
                enabled: if !on {
                    false
                } else {
                    self.enabled
                },
                ..self
            }
        } else if location == 0xff1b {
            Channel3View {
                initial_length_timer: value,
                length_counter: (MAX_LENGTH - value) as u16,
                ..self
            }
        } else if location == 0xff1c {
            Channel3View { output_level: (value / 32) % 4, ..self }
        } else if location == 0xff1d {
            Channel3View { period: ((self.period / 256) * 256 + value) as u16, ..self }
        } else if location == 0xff1e {
            let a = Channel3View {
                length_enabled: bit_set(value, 6),
                period: (self.period % 256 + (value % 8) * 256) as u16,
                ..self
            };
            if value >= 128 {
                Channel3View {
                    enabled: a.dac_on,
                    length_counter: if a.length_counter == 0 {
                        MAX_LENGTH
                    } else {
                        a.length_counter
                    },
                    period_divider: a.period,
                    wave_index: 0,
                    ..a
                }
            } else {
                a
            }
        } else {
            Channel3View { wave_ram: self.wave_ram.update(location - 0xff30, value), ..self }
        }
    }
}

/// Can `location` be read or written: NR30-NR34 or wave RAM?
pub open spec fn channel3_location(location: usize) -> bool {
    (0xff1a <= location <= 0xff1e) || in_wave_ram(location)
}

impl MemoryAccessor for Channel3 {
    open spec fn readable(&self, location: usize) -> bool {
        self@.wf() && channel3_location(location)
    }

    open spec fn read_value(&self, location: usize) -> u8 {
        self@.register(location)
    }

    open spec fn writable(&self, location: usize, value: u8) -> bool {
        self@.wf() && channel3_location(location)
    }

    open spec fn after_write(&self, post: Self, location: usize, value: u8) -> bool {
        post@ == self@.written(location, value) && post@.wf()
    }

    fn get(&self, location: usize) -> (r: u8) {
        if location == 0xff1a {
            proof {
                lemma_flag_pack(self.dac_on, 0, 0, 0, 0, 0, 0);
            }
            (self.dac_on as u8) << 7u8 | 0x7f
        } else if location == 0xff1b {
            0xff  // write-only
        } else if location == 0xff1c {
            proof {
                lemma_flag_pack(false, self.output_level, 0, 0, 0, 0, 0);
            }
            self.output_level << 5u8 | 0b10011111
        } else if location == 0xff1d {
            0xff  // it's write only field
        } else if location == 0xff1e {
            // 7	    | 6	         | 5 4 3 | 2	1	0
            // Trigger	Length enable		   Period
            proof {
                lemma_flag_pack(self.length_enabled, 0, 0, 0, 0, 0, 0);
            }
            0x80 | (self.length_enabled as u8) << 6u8 | 0b111000 | 0x7
        } else {
            self.wave_ram[location - 0xff30]
        }
    }

    fn write(&mut self, location: usize, value: u8) {
        proof {
            lemma_u8_fields(value);
            lemma_bit_masks();
            lemma_write_bit(value, 6, true, 0);
            lemma_period_bits(self.period, 0, value, false, false);
        }
        if location == 0xff1a {
            self.dac_on = value >> 7u8 > 0;
            if !self.dac_on {
                // Disabling DAC disables the channel
                self.enabled = false;
            }
        } else if location == 0xff1b {
            self.initial_length_timer = value;
            // Writing a byte to NRx1 loads the counter with 64-data (256-data for wave channel). The counter can be reloaded at any time.
            self.length_counter = MAX_LENGTH - self.initial_length_timer as u16;
        } else if location == 0xff1c {
            self.output_level = (value & 0b01100000) >> 5u8;
        } else if location == 0xff1d {
            self.period = (self.period & 0x700) | value as u16;
        } else if location == 0xff1e {
            // 7	    | 6	         | 5 4 3 | 2	1	0
            // Trigger	Length enable		   Period
            let trigger = value >> 7u8 > 0;
            self.length_enabled = value & 0x40 > 0;
            self.period = (self.period & 0xff) | ((value as u16 & 7) << 8u16);
            if trigger {
                // Channel is enabled.
                self.enabled = self.dac_on;
                // If the length timer expired it is reset.
                if self.length_counter == 0 {
                    self.length_counter = MAX_LENGTH;
                }
                // The period divider is set to the contents of NR33 and NR34.
                self.period_divider = self.period;
                // Wave RAM index is reset, but its not refilled.
                self.wave_index = 0;
            }
        } else {
            self.wave_ram.set(location - 0xff30, value);
        }
    }
}

impl Channel3 {
    /// One dot of the frame sequencer counter.
    fn dot(&mut self)
        requires
            old(self)@.wf(),
        ensures
            final(self)@ == old(self)@.dot(),
            final(self)@.wf(),
    {
        self.audio_step_counter = self.audio_step_counter + 1;
        if self.audio_step_counter == AUDIO_STEP_FREQUENCY {
            self.audio_step_counter = 0;
            if self.length_enabled && self.length_counter > 0 && self.audio_step_state % 2 == 0 {
                self.length_counter = self.length_counter - 1;
                if self.length_counter == 0 {
                    // disable channel if its length timer expiring
                    self.enabled = false;
                }
            }
            self.audio_step_state = (self.audio_step_state + 1) % 8;
        }
    }

    /// Runs the channel for `step` dots (see `Channel3View::stepped`).
    pub fn step(&mut self, step: u32)
        requires
            old(self)@.wf(),
        ensures
            final(self)@ == old(self)@.stepped(step),
            final(self)@.wf(),
    {
        let ghost start = self@;
        let mut i: u32 = 0;
        while i < step
            invariant
                i <= step,
                self@.wf(),
                self@.dots((step - i) as nat) == start.dots(step as nat),
            decreases step - i,
        {
            self.dot();
            i = i + 1;
        }
        // Double frequency than the square ch
        let ghost mid = self@;
        let n = step / 2;
        let mut j: u32 = 0;
        while j < n
            invariant
                j <= n,
                self@.wf(),
                self@.divider_ticks((n - j) as nat) == mid.divider_ticks(n as nat),
            decreases n - j,
        {
            self.period_divider = self.period_divider + 1;
            if self.period_divider == 2048 {
                self.period_divider = self.period;
                self.wave_index = (self.wave_index + 1) % NUM_WAVE_SAMPLES as u8;
                let byte_pos = self.wave_index / 2;
                let upper_nimble = self.wave_index % 2 == 0;
                let byte = self.wave_ram[byte_pos as usize];
                proof {
                    lemma_u8_fields(byte);
                }
                self.next_sample = if upper_nimble {
                    byte >> 4u8
                } else {
                    byte & 0xF
                };
            }
            j = j + 1;
        }
    }

    /// What the DAC converts: `None` while the channel is off, else the
    /// current sample shifted by the output level.
    pub fn digital_sample(&self) -> (r: Option<u8>)
        requires
            self@.wf(),
        ensures
            r == (if self@.enabled {
                Some((self@.next_sample << volume_shift(self@.output_level)) as u8)
            } else {
                None
            }),
    {
        if !self.enabled {
            return None;
        }
        Some(self.next_sample << self.get_volume_shift())
    }

    pub fn is_enabled(&self) -> (r: bool)
        ensures
            r == self@.enabled,
    {
        self.enabled
    }

    /// Clears the registers and turns the DAC, and so the channel, off.
    pub fn reset(&mut self)
        ensures
            final(self)@ == (Channel3View {
                enabled: false,
                dac_on: false,
                initial_length_timer: 0,
                output_level: 0,
                length_enabled: false,
                period: 0,
                audio_step_counter: 0,
                length_counter: MAX_LENGTH,
                period_divider: 0,
                ..old(self)@
            }),
    {
        // Since dac_on becomes false, we disable the channel.
        self.enabled = false;
        // FF1A — NR30: Channel 3 DAC enable
        self.dac_on = false;
        // FF1B — NR31: Channel 3 length timer [write-only]
        self.initial_length_timer = 0;
        // FF1C — NR32: Channel 3 output level
        self.output_level = 0;
        // FF1D — NR33: Channel 3 period low [write-only]
        // FF1E — NR34: Channel 3 period high & control
        self.length_enabled = false;
        self.period = 0;
        self.audio_step_counter = 0;
        self.length_counter = MAX_LENGTH - self.initial_length_timer as u16;
        self.period_divider = self.period;
    }

    fn get_volume_shift(&self) -> (r: u8)
        requires
            self@.output_level <= 3,
        ensures
            r == volume_shift(self@.output_level),
    {
        match self.output_level {
            0 => 4,
            1 => 0,
            2 => 1,
            _ => 2,
        }
    }
}

impl Default for Channel3 {
    fn default() -> (r: Self)
        ensures
            r@ == (Channel3View {
                enabled: false,
                audio_step_state: 0,
                audio_step_counter: 0,
                wave_index: 0,
                next_sample: 0,
                length_counter: 1,
                period_divider: 0x7ff,
                wave_ram: Seq::new(16, |i: int| 0u8),
                dac_on: false,
                initial_length_timer: 0xff,
                output_level: 0,
                length_enabled: false,
                period: 0x7ff,
            }),
            r@.wf(),
    {
        let period = 0x7ff;
        let wave_ram = vec![0u8; 16];
        assert(wave_ram@ =~= Seq::new(16, |i: int| 0u8));
        Self {
            enabled: false,
            audio_step_state: 0,
            audio_step_counter: 0,
            wave_index: 0,
            next_sample: 0,
            length_counter: MAX_LENGTH - 0xff,
            period_divider: period,
            wave_ram,
            dac_on: false,  // 0x7f
            initial_length_timer: 0xff,
            output_level: 0,  // 0x9f
            length_enabled: false,
            period: period,
        }
    }
}

/// Turning the DAC off (NR30 bit 7 clear) turns the channel off, and a
/// trigger turns the channel on only when the DAC is on.
pub proof fn channel_follows_dac(v: Channel3View, value: u8, trigger: u8)
    requires
        value < 128,
        trigger >= 128,
    ensures
        !v.written(0xff1a, value).enabled,
        v.written(0xff1e, trigger).enabled == v.dac_on,
{
}

} // verus!
