//! The sound unit of the windowed emulator: the channels, their registers,
//! and the clock that says when a sample is due.
pub mod channel1;
pub mod channel2;
pub mod channel3;
pub mod channel4;
pub mod pulse_wave;

use crate::gameboy::memory_bus::MemoryAccessor;
use crate::lib_rs_boy::gameboy::audio::register_bits::lemma_flag_pack;
use crate::registers::{bit_set, lemma_bit_masks, lemma_write_bit};
use channel1::Channel1;
use channel2::Channel2;
use channel4::{Channel4, Channel4View};
use pulse_wave::PulseView;
use vstd::prelude::*;

verus! {

/// Dots between two samples: 4194304 Hz / 44100 Hz.
pub const SAMPLING_FREQUENCY: u32 = 95;

pub struct Speaker {
    clock: u32,
    channel1: Channel1,
    channel2: Channel2,
    channel4: Channel4,
    /// FF26 — NR52: Audio master control
    ///
    /// 7            | 6 5 4 | 3 2 1 0
    ///
    /// Audio on/off |       | CH4 on?	CH3 on?	CH2 on?	CH1 on?
    audio_master: u8,
    /// FF25 — NR51: Sound panning
    ///
    /// 7	6	5	4	3	2	1	0
    ///
    /// CH4 left	CH3 left	CH2 left	CH1 left	CH4 right	CH3 right	CH2 right	CH1 right
    sound_panning: u8,
    /// FF24 — NR50: Master volume & VIN panning
    ///
    /// 7            | 6 5 4	   | 3         | 2	1 0
    ///
    /// VIN left     | Left volume | VIN right | Right volume
    master_volume: u8,
}

/// The sound unit as plain values.
pub struct SpeakerView {
    pub clock: u32,
    pub channel1: PulseView,
    pub channel2: PulseView,
    pub channel4: Channel4View,
    pub audio_master: u8,
    pub sound_panning: u8,
    pub master_volume: u8,
}

impl View for Speaker {
    type V = SpeakerView;

    closed spec fn view(&self) -> SpeakerView {
        SpeakerView {
            clock: self.clock,
            channel1: self.channel1@,
            channel2: self.channel2@,
            channel4: self.channel4@,
            audio_master: self.audio_master,
            sound_panning: self.sound_panning,
            master_volume: self.master_volume,
        }
    }
}

impl SpeakerView {
    /// The channels are well formed.
    pub open spec fn wf(self) -> bool {
        self.channel1.wf() && self.channel2.wf() && self.channel4.wf()
    }

    /// Is the sound unit on (NR52 bit 7)?
    pub open spec fn audio_enabled(self) -> bool {
        bit_set(self.audio_master, 7)
    }

    /// NR52 as read: the stored bits with the on flags of channels 1, 2 and 4.
    pub open spec fn status(self) -> u8 {
        self.audio_master | (if self.channel1.enabled {
            1u8
        } else {
            0u8
        }) | (if self.channel2.enabled {
            2u8
        } else {
            0u8
        }) | (if self.channel4.enabled {
            8u8
        } else {
            0u8
        })
    }
}

/// Channel 1's registers (0xFF10-0xFF14)?
pub open spec fn in_channel1(location: usize) -> bool {
    0xff10 <= location <= 0xff14
}

/// Channel 2's registers (0xFF16-0xFF19)?
pub open spec fn in_channel2(location: usize) -> bool {
    0xff16 <= location <= 0xff19
}

/// The registers of channels 3 and 4 (0xFF1A-0xFF23), not served yet?
pub open spec fn in_unserved(location: usize) -> bool {
    0xff1a <= location <= 0xff23
}

impl MemoryAccessor for Speaker {
    open spec fn readable(&self, location: usize) -> bool {
        &&& self@.wf()
        &&& (in_channel1(location) || in_channel2(location) || in_unserved(location) || 0xff24
            <= location <= 0xff26)
    }

    open spec fn read_value(&self, location: usize) -> u8 {
        let v = self@;
        if in_channel1(location) {
            v.channel1.register((location - 0xff10) as usize)
        } else if in_channel2(location) {
            v.channel2.register((location - 0xff15) as usize)
        } else if in_unserved(location) {
            0
        } else if location == 0xff24 {
            v.master_volume
        } else if location == 0xff25 {
            v.sound_panning
        } else {
            v.status()
        }
    }

    /// Turning the sound unit off through NR52 is not supported yet.
    open spec fn writable(&self, location: usize, value: u8) -> bool {
        &&& self@.wf()
        &&& (in_channel1(location) || in_channel2(location) || in_unserved(location) || location
            == 0xff24 || location == 0xff25 || (location == 0xff26 && value >= 128))
    }

    open spec fn after_write(&self, post: Self, location: usize, value: u8) -> bool {
        let v = self@;
        let w = post@;
        &&& w.wf()
        &&& w.clock == v.clock
        &&& w.channel4 == v.channel4
        &&& w.channel1 == (if in_channel1(location) {
            v.channel1.written((location - 0xff10) as usize, value)
        } else {
            v.channel1
        })
        &&& w.channel2 == (if in_channel2(location) {
            v.channel2.written((location - 0xff15) as usize, value)
        } else {
            v.channel2
        })
        &&& w.master_volume == (if location == 0xff24 {
            value
        } else {
            v.master_volume
        })
        &&& w.sound_panning == (if location == 0xff25 {
            value
        } else {
            v.sound_panning
        })
        &&& w.audio_master == (if location == 0xff26 {
            (value / 16 * 16) as u8
        } else {
            v.audio_master
        })
    }

    fn get(&self, location: usize) -> (r: u8) {
        if location >= 0xff10 && location <= 0xff14 {
            self.channel1.get(location)
        } else if location >= 0xff15 && location <= 0xff19 {
            self.channel2.get(location)
        } else if location >= 0xff1a && location <= 0xff23 {
            0  // channels 3 and 4 are not served: their registers read 0

        } else if location == 0xff24 {
            self.master_volume
        } else if location == 0xff25 {
            self.sound_panning
        } else {
            let ch1: u8 = if self.channel1.is_enabled() { 1 } else { 0 };
            let ch2: u8 = if self.channel2.is_enabled() { 2 } else { 0 };
            // channel 3 is not served: its bit stays clear
            let ch4: u8 = if self.channel4.is_enabled() { 8 } else { 0 };
            self.audio_master | ch1 | ch2 | ch4
        }
    }

    fn write(&mut self, location: usize, value: u8) {
        if location >= 0xff10 && location <= 0xff14 {
            self.channel1.write(location, value);
        } else if location >= 0xff15 && location <= 0xff19 {
            self.channel2.write(location, value);
        } else if location >= 0xff1a && location <= 0xff23 {
        } else if location == 0xff24 {
            self.master_volume = value;
        } else if location == 0xff25 {
            self.sound_panning = value;
        } else {
            assert(value & 0xf0 == value / 16 * 16) by (bit_vector);
            self.audio_master = value & 0xf0;
        }
    }
}

impl Speaker {
    /// Runs channels 1 and 2 for `steps` dots and counts the dots towards the
    /// next sample; returns whether a sample is due, in which case a sample
    /// period is taken off the count.
    pub fn step(&mut self, steps: u32) -> (r: bool)
        requires
            old(self)@.wf(),
            old(self)@.audio_enabled(),
            old(self)@.clock + steps <= u32::MAX,
            old(self)@.channel1.dots_fit(steps as nat),
            old(self)@.channel2.dots_fit(steps as nat),
        ensures
            final(self)@.wf(),
            final(self)@.channel1 == old(self)@.channel1.stepped(steps),
            final(self)@.channel2 == old(self)@.channel2.stepped(steps),
            final(self)@.channel4 == old(self)@.channel4,
            final(self)@.audio_master == old(self)@.audio_master,
            final(self)@.sound_panning == old(self)@.sound_panning,
            final(self)@.master_volume == old(self)@.master_volume,
            r == (old(self)@.clock + steps >= SAMPLING_FREQUENCY),
            final(self)@.clock == old(self)@.clock + steps - (if r {
                SAMPLING_FREQUENCY
            } else {
                0
            }),
    {
        // A “DIV-APU” counter is increased every time DIV’s bit 4 (5 in double-speed mode) goes from 1 to 0,
        // therefore at a frequency of 512 Hz (regardless of whether double-speed is active). Thus, the counter
        // can be made to increase faster by writing to DIV while its relevant bit is set (which clears DIV, and
        // triggers the falling edge).
        self.channel1.step(steps);
        self.channel2.step(steps);
        self.clock = self.clock + steps;
        if self.clock < SAMPLING_FREQUENCY {
            return false;
        }
        self.clock = self.clock - SAMPLING_FREQUENCY;
        true
    }

    /// Does `step(steps)` meet its precondition here: the sound unit on, the
    /// sample clock and the channels' counters without overflow?
    pub fn can_step(&self, steps: u32) -> (r: bool)
        requires
            self@.wf(),
        ensures
            r == (self@.audio_enabled() && self@.clock + steps <= u32::MAX
                && self@.channel1.dots_fit(steps as nat) && self@.channel2.dots_fit(steps as nat)),
    {
        self.is_audio_enabled() && steps <= u32::MAX - self.clock && self.channel1.can_step(steps)
            && self.channel2.can_step(steps)
    }

    /// What the DACs of channels 1 and 2 convert (see `Pulse::digital_sample`).
    pub fn samples(&self) -> (r: (Option<(u8, u8)>, Option<(u8, u8)>))
        requires
            self@.wf(),
        ensures
            r.0 == (if self@.channel1.enabled {
                Some((pulse_wave::duty_level(self@.channel1.wave_duty, self@.channel1.duty_index), self@.channel1.volume))
            } else {
                None
            }),
            r.1 == (if self@.channel2.enabled {
                Some((pulse_wave::duty_level(self@.channel2.wave_duty, self@.channel2.duty_index), self@.channel2.volume))
            } else {
                None
            }),
    {
        (self.channel1.digital_sample(), self.channel2.digital_sample())
    }

    /// The sound unit as the boot ROM leaves it.
    pub fn new() -> (r: Self)
        ensures
            r@.wf(),
            r@.clock == 0,
            r@.channel1 == (PulseView { has_sweep: true, ..pulse_wave::boot_view() }),
            r@.channel2 == pulse_wave::boot_view(),
            r@.master_volume == 0x77,
            r@.sound_panning == 0xf3,
            r@.audio_master == 0xf1,
    {
        let channel1 = Channel1::default();
        let channel2 = Channel2::default();
        let channel4 = Channel4::default();
        Speaker {
            channel1,
            channel2,
            channel4,
            clock: 0,
            master_volume: 0x77,
            sound_panning: 0xf3,
            audio_master: 0xf1,
        }
    }

    pub fn is_audio_enabled(&self) -> (r: bool)
        ensures
            r == self@.audio_enabled(),
    {
        proof {
            lemma_bit_masks();
            lemma_write_bit(self.audio_master, 7, true, 0);
        }
        return self.audio_master & 0x80 > 0;
    }

    /// The amplification of the left and right outputs, in eighths: the
    /// master volume field plus one, so a non-silent input is never muted.
    pub fn get_volume(&self) -> (r: (u8, u8))
        ensures
            r == (((self@.master_volume / 16) % 8 + 1) as u8, (self@.master_volume % 8 + 1) as u8),
    {
        let mv = self.master_volume;
        assert((mv & 0x70) >> 4u8 == (mv / 16) % 8 && mv & 7 == mv % 8) by (bit_vector);
        let left = (self.master_volume & 0x70) >> 4u8;
        let right = self.master_volume & 7;
        (left + 1, right + 1)
    }

    /// Whether `channel` (1 to 4) is sent to the left and to the right output.
    pub fn get_panning(&self, channel: u8) -> (r: (u8, u8))
        requires
            1 <= channel <= 4,
        ensures
            r == (
                (if bit_set(self@.sound_panning, (channel + 3) as u8) { 1u8 } else { 0u8 }),
                (if bit_set(self@.sound_panning, (channel - 1) as u8) { 1u8 } else { 0u8 }),
            ),
    {
        let right_bit: u8 = channel - 1;
        let left_bit: u8 = 4 + channel - 1;
        let right = (self.sound_panning >> right_bit) & 1;
        let left = (self.sound_panning >> left_bit) & 1;
        proof {
            lemma_flag_pack(false, 0, 0, 0, self.sound_panning, right_bit, 0);
            lemma_flag_pack(false, 0, 0, 0, self.sound_panning, left_bit, 0);
        }
        (left, right)
    }
}

} // verus!
