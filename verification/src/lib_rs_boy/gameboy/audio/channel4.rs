//! Sound channel 4: noise from a linear feedback shift register.
use super::pulse_wave::{envelope_fits, envelope_tick};
use crate::flags::lemma_u8_fields;
use crate::gameboy::memory_bus::MemoryAccessor;
use crate::registers::{bit_set, lemma_bit_masks, lemma_write_bit};
use super::register_bits::{lemma_field_pack, lemma_flag_pack};
use vstd::prelude::*;

verus! {

pub const MAX_LENGTH: u8 = 64;

pub const AUDIO_STEP_FREQUENCY: u32 = 8192;

/// A bound on the dots between two LFSR clocks: 16 * 7 * 2^15.
pub const MAX_LFSR_PERIOD: u32 = 3670016;

#[derive(Clone, Copy)]
pub struct Channel4 {
    enabled: bool,
    volume: u8,
    audio_step_counter: u32,
    /// Frame of the audio. 1-8
    audio_step_state: u8,
    length_counter: u8,
    /// Dots counted towards the next LFSR clock.
    trigger_counter: u32,
    lfsr: u16,
    // FF20 — NR41: Channel 4 length timer
    // 7	6	| 5	4	3	2	1	0
    //             Initial length timer
    initial_length_timer: u8,
    /// The index used to step the volume / envelope
    env_pace_index: u8,
    // FF21 — NR42: Channel 4 volume & envelope
    // 7	6	5	4	| 	3	|	2	1	0
    // Initial volume	Env dir     Sweep pace
    initial_volume: u8,
    env_dir: bool,
    env_pace: u8,
    // FF22 — NR43: Channel 4 frequency & randomness
    // 7	6	5	4	|		3	| 2	1	0
    //   Clock shift      LFSR width	Clock divider
    clock_shift: u8,
    lfsr_7_width: bool,
    clock_divider: u8,
    // FF23 — NR44: Channel 4 control
    // 7    	|       6	    | 5	4	3	2	1	0
    //  Trigger   Length enable
    length_enabled: bool,
}

/// Every register and counter of the noise channel as a plain value.
pub struct Channel4View {
    pub enabled: bool,
    pub volume: u8,
    pub audio_step_counter: u32,
    pub audio_step_state: u8,
    pub length_counter: u8,
    pub trigger_counter: u32,
    pub lfsr: u16,
    pub initial_length_timer: u8,
    pub env_pace_index: u8,
    pub initial_volume: u8,
    pub env_dir: bool,
    pub env_pace: u8,
    pub clock_shift: u8,
    pub lfsr_7_width: bool,
    pub clock_divider: u8,
    pub length_enabled: bool,
}

impl View for Channel4 {
    type V = Channel4View;

    closed spec fn view(&self) -> Channel4View {
        Channel4View {
            enabled: self.enabled,
            volume: self.volume,
            audio_step_counter: self.audio_step_counter,
            audio_step_state: self.audio_step_state,
            length_counter: self.length_counter,
            trigger_counter: self.trigger_counter,
            lfsr: self.lfsr,
            initial_length_timer: self.initial_length_timer,
            env_pace_index: self.env_pace_index,
            initial_volume: self.initial_volume,
            env_dir: self.env_dir,
            env_pace: self.env_pace,
            clock_shift: self.clock_shift,
            lfsr_7_width: self.lfsr_7_width,
            clock_divider: self.clock_divider,
            length_enabled: self.length_enabled,
        }
    }
}

/// The LFSR after one clock: bits 0 and 1 are XORed, the register shifts
/// right, and the XOR goes into bit 14 (and into bit 6 in 7-bit mode).
pub open spec fn lfsr_next(lfsr: u16, narrow: bool) -> u16 {
    let x: u16 = if (lfsr & 1 != 0) != (lfsr & 2 != 0) {
        1
    } else {
        0
    };
    let s = ((lfsr >> 1u16) & !0x4000u16) | (x << 14u16);
    if narrow {
        (s & !0x40u16) | (x << 6u16)
    } else {
        s
    }
}

/// The dots between two LFSR clocks: 16 * divider * 2^shift, a divider of 0 counting as 0.5.
pub open spec fn lfsr_period(divider: u8, shift: u8) -> int {
    if divider > 0 {
        16 * divider * (vstd::arithmetic::power2::pow2(shift as nat) as int)
    } else {
        8 * (vstd::arithmetic::power2::pow2(shift as nat) as int)
    }
}

impl Channel4View {
    /// Every field is in the range its register or counter allows.
    pub open spec fn wf(self) -> bool {
        &&& self.audio_step_counter < AUDIO_STEP_FREQUENCY
        &&& self.audio_step_state < 8
        &&& self.length_counter <= MAX_LENGTH
        &&& self.volume <= 15
        &&& self.initial_volume <= 15
        &&& self.env_pace <= 7
        &&& self.clock_shift <= 15
        &&& self.clock_divider <= 7
        &&& self.initial_length_timer <= 63
        &&& self.trigger_counter < MAX_LFSR_PERIOD
    }

    /// The channel after a tick of the 512 Hz frame sequencer: the length
    /// counter on even steps, the envelope on step 7.
    pub open spec fn frame_ticked(self) -> Channel4View {
        let a = if self.length_enabled && self.length_counter > 0 && self.audio_step_state % 2 == 0 {
            let l = (self.length_counter - 1) as u8;
            Channel4View {
                length_counter: l,
                enabled: if l == 0 {
                    false
                } else {
                    self.enabled
                },
                ..self
            }
        } else {
            self
        };
        let b = if a.audio_step_state == 7 {
            let e = envelope_tick(a.env_pace, a.env_pace_index, a.volume, a.env_dir);
            Channel4View { env_pace_index: e.0, volume: e.1, ..a }
        } else {
            a
        };
        Channel4View { audio_step_state: ((b.audio_step_state + 1) % 8) as u8, ..b }
    }

    /// The channel after one dot of the frame sequencer counter.
    pub open spec fn dot(self) -> Channel4View {
        if self.audio_step_counter + 1 == AUDIO_STEP_FREQUENCY {
            Channel4View { audio_step_counter: 0, ..self }.frame_ticked()
        } else {
            Channel4View { audio_step_counter: (self.audio_step_counter + 1) as u32, ..self }
        }
    }

    /// Can this dot run without an overflow of the envelope index?
    pub open spec fn dot_fits(self) -> bool {
        (self.audio_step_counter + 1 == AUDIO_STEP_FREQUENCY && self.audio_step_state == 7)
            ==> envelope_fits(self.env_pace, self.env_pace_index)
    }

    /// The channel after `n` dots.
    pub open spec fn dots(self, n: nat) -> Channel4View
        decreases n,
    {
        if n == 0 {
            self
        } else {
            self.dot().dots((n - 1) as nat)
        }
    }

    /// Can `n` dots run without an overflow?
    pub open spec fn dots_fit(self, n: nat) -> bool
        decreases n,
    {
        n == 0 || (self.dot_fits() && self.dot().dots_fit((n - 1) as nat))
    }

    /// The channel after one dot of the LFSR timer.
    pub open spec fn lfsr_ticked(self) -> Channel4View {
        let c = self.trigger_counter + 1;
        if c >= lfsr_period(self.clock_divider, self.clock_shift) {
            Channel4View { trigger_counter: 0, lfsr: lfsr_next(self.lfsr, self.lfsr_7_width), ..self }
        } else {
            Channel4View { trigger_counter: c as u32, ..self }
        }
    }

    /// The channel after `n` dots of the LFSR timer.
    pub open spec fn lfsr_ticks(self, n: nat) -> Channel4View
        decreases n,
    {
        if n == 0 {
            self
        } else {
            self.lfsr_ticked().lfsr_ticks((n - 1) as nat)
        }
    }

    /// The channel after `step` dots.
    pub open spec fn stepped(self, step: u32) -> Channel4View {
        self.dots(step as nat).lfsr_ticks(step as nat)
    }

    /// The byte a read of `location` (0xFF1F-0xFF23) gives; write-only bits read as 1.
    pub open spec fn register(self, location: usize) -> u8 {
        if location == 0xff21 {
            (self.initial_volume * 16 + (if self.env_dir {
                8int
            } else {
                0
            }) + self.env_pace) as u8
        } else if location == 0xff22 {
            (self.clock_shift * 16 + (if self.lfsr_7_width {
                8int
            } else {
                0
            }) + self.clock_divider) as u8
        } else if location == 0xff23 {
            if self.length_enabled {
                0xff
            } else {
                0xbf
            }
        } else {
            0xff
        }
    }

    /// The channel after `location` takes `value`.
    pub open spec fn written(self, location: usize, value: u8) -> Channel4View {
        if location == 0xff20 {
            Channel4View {
                initial_length_timer: value % 64,
                length_counter: (64 - value % 64) as u8,
                ..self
            }
        } else if location == 0xff21 {
            let iv = value / 16;
            let dir = bit_set(value, 3);
            Channel4View {
                initial_volume: iv,
                env_dir: dir,
                env_pace: value % 8,
                enabled: if iv == 0 && !dir {
                    false
                } else {
                    self.enabled
                },
                ..self
            }
        } else if location == 0xff22 {
            Channel4View {
                clock_shift: value / 16,
                lfsr_7_width: bit_set(value, 3),
                clock_divider: value % 8,
                ..self
            }
        } else if location == 0xff23 {
            let a = Channel4View { length_enabled: bit_set(value, 6), ..self };
            if value >= 128 {
                Channel4View {
                    enabled: a.env_dir || a.initial_volume > 0,
                    length_counter: if a.length_counter == 0 {
                        MAX_LENGTH
                    } else {
                        a.length_counter
                    },
                    env_pace_index: 0,
                    volume: a.initial_volume,
                    lfsr: 0xff,
                    ..a
                }
            } else {
                a
            }
        } else {
            self
        }
    }
}

impl MemoryAccessor for Channel4 {
    /// NR41-NR44 at 0xFF20-0xFF23, and the unused 0xFF1F.
    open spec fn readable(&self, location: usize) -> bool {
        self@.wf() && 0xff1f <= location <= 0xff23
    }

    open spec fn read_value(&self, location: usize) -> u8 {
        self@.register(location)
    }

    open spec fn writable(&self, location: usize, value: u8) -> bool {
        self@.wf() && 0xff1f <= location <= 0xff23
    }

    open spec fn after_write(&self, post: Self, location: usize, value: u8) -> bool {
        post@ == self@.written(location, value) && post@.wf()
    }

    fn get(&self, location: usize) -> (r: u8) {
        if location == 0xff21 {
            proof {
                lemma_field_pack(self.initial_volume, self.env_dir, self.env_pace);
            }
            self.initial_volume << 4u8 | (self.env_dir as u8) << 3u8 | self.env_pace
        } else if location == 0xff22 {
            proof {
                lemma_field_pack(self.clock_shift, self.lfsr_7_width, self.clock_divider);
            }
            self.clock_shift << 4u8 | (self.lfsr_7_width as u8) << 3u8 | self.clock_divider
        } else if location == 0xff23 {
            proof {
                lemma_flag_pack(self.length_enabled, 0, 0, 0, 0, 0, 0);
            }
            0b10111111 | (self.length_enabled as u8) << 6u8
        } else {
            0xff  // write-only
        }
    }

    fn write(&mut self, location: usize, value: u8) {
        proof {
            lemma_u8_fields(value);
            lemma_bit_masks();
            lemma_write_bit(value, 3, true, 0);
            lemma_write_bit(value, 6, true, 0);
        }
        if location == 0xff20 {
            self.initial_length_timer = value & 0x3F;
            // Writing a byte to NRx1 loads the counter with 64-data. The counter can be reloaded at any time.
            self.length_counter = MAX_LENGTH - self.initial_length_timer;
        } else if location == 0xff21 {
            self.initial_volume = value >> 4u8;
            self.env_dir = value & 0x08 > 0;
            self.env_pace = value & 0x7;
            // Setting bits 3-7 of this register all to 0 (initial volume = 0, envelope = decreasing)
            // turns the DAC off (and thus, the channel as well)
            if self.initial_volume == 0 && !self.env_dir {
                self.enabled = false
            }
        } else if location == 0xff22 {
            self.clock_shift = value >> 4u8;
            self.lfsr_7_width = value & 0x08 > 0;
            self.clock_divider = value & 0x7;
        } else if location == 0xff23 {
            let trigger = value >> 7u8 > 0;
            self.length_enabled = value & 0x40 > 0;
            if trigger {
                // Ch4 is enabled.
                // Channel x’s DAC is enabled if and only if [NRx2] & $F8 != 0.
                self.enabled = self.env_dir || self.initial_volume > 0;
                // If the length timer expired it is reset.
                if self.length_counter == 0 {
                    self.length_counter = MAX_LENGTH;
                }
                // Envelope timer is reset.
                self.env_pace_index = 0;
                // Volume is set to contents of NR42 initial volume.
                self.volume = self.initial_volume;
                // LFSR bits are reset.
                self.lfsr = 0xff;
            }
        }
    }
}

impl Channel4 {
    /// One dot of the frame sequencer counter.
    fn dot(&mut self)
        requires
            old(self)@.wf(),
            old(self)@.dot_fits(),
        ensures
            final(self)@ == old(self)@.dot(),
            final(self)@.wf(),
    {
        self.audio_step_counter = self.audio_step_counter + 1;
        if self.audio_step_counter == AUDIO_STEP_FREQUENCY {
            self.audio_step_counter = 0;
            if self.length_enabled && self.length_counter > 0 && self.audio_step_state % 2 == 0 {
                self.length_counter = self.length_counter - 1;
                if self.length_counter == 0 {
                    // disable channel if its length timer expiring
                    self.enabled = false;
                }
            }
            if self.audio_step_state == 7 {
                self.update_volume();
            }
            self.audio_step_state = (self.audio_step_state + 1) % 8;
        }
    }

    /// The dots between two LFSR clocks.
    fn lfsr_threshold(&self) -> (r: u32)
        requires
            self@.wf(),
        ensures
            r == lfsr_period(self@.clock_divider, self@.clock_shift),
            r <= MAX_LFSR_PERIOD,
    {
        let shift = self.clock_shift as u32;
        proof {
            vstd::bits::lemma_u32_pow2_no_overflow(shift as nat);
            vstd::bits::lemma_u32_shl_is_mul(1, shift);
            vstd::arithmetic::power2::lemma2_to64();
            if shift < 15 {
                vstd::arithmetic::power2::lemma_pow2_strictly_increases(shift as nat, 15);
            }
        }
        let scale = 1u32 << shift;
        assert(scale <= 32768);
        if self.clock_divider > 0 {
            assert(16 * (self.clock_divider as u32) * scale <= MAX_LFSR_PERIOD) by (nonlinear_arith)
                requires
                    self.clock_divider <= 7,
                    scale <= 32768,
            ;
            16 * (self.clock_divider as u32) * scale
        } else {
            8 * scale
        }
    }

    /// Runs the channel for `step` dots (see `Channel4View::stepped`).
    pub fn step(&mut self, step: u32)
        requires
            old(self)@.wf(),
            old(self)@.dots_fit(step as nat),
        ensures
            final(self)@ == old(self)@.stepped(step),
            final(self)@.wf(),
    {
        let ghost start = self@;
        let mut i: u32 = 0;
        while i < step
            invariant
                i <= step,
                self@.wf(),
                self@.dots((step - i) as nat) == start.dots(step as nat),
                self@.dots_fit((step - i) as nat),
            decreases step - i,
        {
            self.dot();
            i = i + 1;
        }
        // Every 16 ticks evaluate
        // The frequency at which the LFSR is clocked is 262144 / divider × 2^shift Hz.
        let ghost mid = self@;
        let mut j: u32 = 0;
        while j < step
            invariant
                j <= step,
                self@.wf(),
                self@.lfsr_ticks((step - j) as nat) == mid.lfsr_ticks(step as nat),
            decreases step - j,
        {
            let threshold = self.lfsr_threshold();
            self.trigger_counter = self.trigger_counter + 1;
            // 16 for it fits 16 * 262144 in the application-freq
            if self.trigger_counter >= threshold {
                self.trigger_counter = 0;
                self.step_lfsr();
            }
            j = j + 1;
        }
    }

    /// What the DAC converts: `None` while the channel is off, else the
    /// inverted bit 0 of the LFSR and the volume.
    pub fn digital_sample(&self) -> (r: Option<(u8, u8)>)
        ensures
            r == (if self@.enabled {
                Some(((if self@.lfsr & 1 == 0 { 1u8 } else { 0u8 }), self@.volume))
            } else {
                None
            }),
    {
        if !self.enabled {
            return None;
        }
        let sample: u8 = if (self.lfsr & 1) == 0 { 1 } else { 0 };  // Inverted
        Some((sample, self.volume))
    }

    pub fn is_enabled(&self) -> (r: bool)
        ensures
            r == self@.enabled,
    {
        self.enabled
    }

    /// Clears the registers and turns the channel off.
    pub fn reset(&mut self)
        ensures
            final(self)@ == (Channel4View {
                initial_length_timer: 0,
                initial_volume: 0,
                env_dir: false,
                env_pace: 0,
                clock_shift: 0,
                lfsr_7_width: false,
                clock_divider: 0,
                length_enabled: false,
                enabled: false,
                length_counter: MAX_LENGTH,
                ..old(self)@
            }),
    {
        // FF20 — NR41
        self.initial_length_timer = 0;
        // FF21 — NR42
        self.initial_volume = 0;
        self.env_dir = false;
        self.env_pace = 0;
        // FF22 — NR43: Channel 4 frequency & randomness
        self.clock_shift = 0;
        self.lfsr_7_width = false;
        self.clock_divider = 0;
        // FF23 — NR44: Channel 4 control
        //  Trigger   Length enable
        self.length_enabled = false;
        // since initial_volume & env_dir is 0, we disable the DAC, thus the channel
        self.enabled = false;
        self.length_counter = MAX_LENGTH - self.initial_length_timer;
    }

    /// The envelope ticks at 64 Hz, and the channel’s envelope will be increased / decreased
    /// every Sweep pace of those ticks. A setting of 0 disables the envelope.
    fn update_volume(&mut self)
        requires
            old(self)@.wf(),
            envelope_fits(old(self)@.env_pace, old(self)@.env_pace_index),
        ensures
            final(self)@.wf(),
            ({
                let e = envelope_tick(
                    old(self)@.env_pace,
                    old(self)@.env_pace_index,
                    old(self)@.volume,
                    old(self)@.env_dir,
                );
                final(self)@ == Channel4View { env_pace_index: e.0, volume: e.1, ..old(self)@ }
            }),
    {
        if self.env_pace == 0 {
            return;
        }
        self.env_pace_index = self.env_pace_index + 1;
        if self.env_pace_index != self.env_pace {
            return;
        }
        self.env_pace_index = self.env_pace_index - self.env_pace;
        if self.volume == 0 && self.env_dir == false {
            return;
        }
        if self.volume == 15 && self.env_dir == true {
            return;
        }
        if self.env_dir {
            self.volume = self.volume + 1
        } else {
            self.volume = self.volume - 1
        }
    }

    fn step_lfsr(&mut self)
        ensures
            final(self)@ == (Channel4View { lfsr: lfsr_next(old(self)@.lfsr, old(self)@.lfsr_7_width), ..old(self)@ }),
    {
        // The linear feedback shift register (LFSR) generates a pseudo-random bit sequence. It has
        // a 15-bit shift register with feedback. When clocked by the frequency timer, the low two
        // bits (0 and 1) are XORed, all bits are shifted right by one, and the result of the XOR is
        // put into the now-empty high bit. If width mode is 1 (NR43), the XOR result is ALSO put
        // into bit 6 AFTER the shift, resulting in a 7-bit LFSR. The waveform output is bit 0 of
        // the LFSR, INVERTED.
        let bit0 = self.lfsr & 1 > 0;
        let bit1 = self.lfsr & 2 > 0;
        let xor: u16 = if bit0 != bit1 { 1 } else { 0 };
        self.lfsr = self.lfsr >> 1u16;
        self.lfsr = (self.lfsr & !0x4000u16) | (xor << 14u16);
        if self.lfsr_7_width {
            self.lfsr = (self.lfsr & !0x40u16) | (xor << 6u16);
        }
    }
}

impl Default for Channel4 {
    fn default() -> (r: Self)
        ensures
            r@ == (Channel4View {
                enabled: false,
                length_counter: 1,
                lfsr: 0xff,
                volume: 0xf,
                audio_step_counter: 0,
                audio_step_state: 0,
                trigger_counter: 0,
                env_pace_index: 0,
                initial_length_timer: 0x3f,
                initial_volume: 0,
                env_dir: false,
                env_pace: 0,
                clock_shift: 0,
                lfsr_7_width: false,
                clock_divider: 0,
                length_enabled: false,
            }),
    {
        Self {
            enabled: false,
            length_counter: MAX_LENGTH - 0x3f,
            lfsr: 0xff,
            volume: 0xf,
            audio_step_counter: 0,
            audio_step_state: 0,
            trigger_counter: 0,
            env_pace_index: 0,
            // ff20
            initial_length_timer: 0x3f,
            // ff21
            initial_volume: 0,
            env_dir: false,
            env_pace: 0,
            // ff22
            clock_shift: 0,
            lfsr_7_width: false,
            clock_divider: 0,
            // ff23
            length_enabled: false,
        }
    }
}

/// Writing NRx2 with bits 3-7 all clear (initial volume 0, envelope
/// decreasing) turns the DAC, and so the channel, off.
pub proof fn dac_off_silences(v: Channel4View, value: u8)
    requires
        value < 8,
    ensures
        !v.written(0xff21, value).enabled,
{
    assert(value / 16 == 0);
    lemma_flag_pack(false, 0, 0, 0, 0, 0, value);
}

/// A trigger turns the channel on only when its DAC is on (initial volume
/// above 0 or envelope increasing).
pub proof fn trigger_needs_dac(v: Channel4View, value: u8)
    requires
        value >= 128,
        v.written(0xff23, value).enabled,
    ensures
        v.env_dir || v.initial_volume > 0,
{
}

impl Channel4 {
    /// Can `step` dots run without an overflow (Channel4View::dots_fit)?
    pub fn can_step(&self, step: u32) -> (r: bool)
        requires
            self@.wf(),
        ensures
            r == self@.dots_fit(step as nat),
    {
        let mut copy = *self;
        let mut i: u32 = 0;
        while i < step
            invariant
                i <= step,
                copy@.wf(),
                self@.dots_fit(step as nat) == copy@.dots_fit((step - i) as nat),
            decreases step - i,
        {
            if !copy.dot_fits() {
                return false;
            }
            copy.dot();
            i = i + 1;
        }
        true
    }

    /// Can the next dot run without an overflow?
    fn dot_fits(&self) -> (r: bool)
        requires
            self@.wf(),
        ensures
            r == self@.dot_fits(),
    {
        if self.audio_step_counter + 1 == AUDIO_STEP_FREQUENCY && self.audio_step_state == 7 {
            self.env_pace == 0 || self.env_pace_index < 255
        } else {
            true
        }
    }
}

/// One LFSR clock: the register shifts right by one, and the XOR of its
/// bits 0 and 1 enters bit 14 (and, in 7-bit mode, bit 6 too); every other
/// bit is the next higher bit of before, and bit 15 is cleared. From 0x00FF
/// the next value is 0x007F, from 0x0001 it is 0x4000.
pub proof fn lfsr_clock_law(lfsr: u16, narrow: bool)
    by (bit_vector)
    ensures
        (lfsr_next(lfsr, narrow) >> 14u16) & 1 == (lfsr & 1) ^ ((lfsr >> 1u16) & 1),
        narrow ==> (lfsr_next(lfsr, narrow) >> 6u16) & 1 == (lfsr & 1) ^ ((lfsr >> 1u16) & 1),
        !narrow ==> lfsr_next(lfsr, narrow) & 0x3fff == (lfsr >> 1u16) & 0x3fff,
        narrow ==> lfsr_next(lfsr, narrow) & 0x3fbf == (lfsr >> 1u16) & 0x3fbf,
        lfsr_next(lfsr, narrow) < 0x8000,
        lfsr_next(0x00ff, false) == 0x007f,
        lfsr_next(0x0001, false) == 0x4000,
{
}

} // verus!
