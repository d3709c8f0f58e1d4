//! The square wave channel (with or without frequency sweep) of the windowed emulator.
use crate::flags::lemma_u8_fields;
use crate::gameboy::memory_bus::MemoryAccessor;
use crate::lib_rs_boy::gameboy::audio::pulse_wave::{envelope_fits, envelope_tick};
use crate::lib_rs_boy::gameboy::audio::register_bits::{lemma_field_pack, lemma_flag_pack, lemma_period_bits};
use crate::registers::{bit_set, lemma_bit_masks, lemma_write_bit};
use vstd::prelude::*;

verus! {

pub const MAX_LENGTH: u8 = 64;

/// Dots per tick of the 512 Hz frame sequencer.
pub const AUDIO_STEP_FREQUENCY: u32 = 8192;

/// Level (0 or 1) of step `index` of duty pattern `duty`, the patterns being
/// 00000001, 00000011, 00001111 and 01111110 from step 0 to step 7.
pub open spec fn duty_level(duty: u8, index: u8) -> u8 {
    let pattern: u8 = if duty == 0 {
        0x80
    } else if duty == 1 {
        0xc0
    } else if duty == 2 {
        0xf0
    } else {
        0x7e
    };
    if bit_set(pattern, index) {
        1
    } else {
        0
    }
}

#[derive(Clone, Copy)]
pub struct Pulse {
    enabled: bool,
    pub has_sweep: bool,
    // State of the Channel
    volume: u8,
    audio_step_counter: u32,
    /// Frame of the audio. 1-8
    audio_step_state: u8,
    sweep_pace_index: u8,
    sweep_enabled: bool,
    env_pace_index: u8,
    duty_index: u8,
    current_period: u16,
    length_counter: u8,
    // FF10 — NR10: Channel 1 sweep
    // This register controls CH1’s period sweep functionality.
    // 7	| 6	5 4 | 3	            | 2	1	0
    //        Pace	  Direction	    Individual step
    sweep_pace: u8,
    sweep_direction: bool,
    individual_step: u8,
    // FF11 — NR11: Channel 1 length timer & duty cycle
    // 7	6	    | 5	4	3	2	1	0
    // Wave duty	Initial length timer
    wave_duty: u8,
    initial_length_timer: u8,
    // FF12 — NR12: Channel 1 volume & envelope
    // 7	6	5	4	| 3	        |2	1	0
    // Initial volume	Env dir     Sweep pace
    initial_volume: u8,
    env_dir: bool,
    env_pace: u8,
    // FF13 — NR13: Channel 1 period low [write-only]
    // FF14 — NR14: Channel 1 period high & control
    // 7	    | 6	         | 5 4 3 | 2	1	0
    // Trigger	Length enable		   Period
    length_enabled: bool,
    period: u16,
    trigger: bool,
}

/// Every register and counter of a square channel as a plain value.
pub struct PulseView {
    pub enabled: bool,
    pub has_sweep: bool,
    pub volume: u8,
    pub audio_step_counter: u32,
    pub audio_step_state: u8,
    pub sweep_pace_index: u8,
    pub sweep_enabled: bool,
    pub env_pace_index: u8,
    pub duty_index: u8,
    pub current_period: u16,
    pub length_counter: u8,
    pub sweep_pace: u8,
    pub sweep_direction: bool,
    pub individual_step: u8,
    pub wave_duty: u8,
    pub initial_length_timer: u8,
    pub initial_volume: u8,
    pub env_dir: bool,
    pub env_pace: u8,
    pub length_enabled: bool,
    pub period: u16,
    pub trigger: bool,
}

impl View for Pulse {
    type V = PulseView;

    closed spec fn view(&self) -> PulseView {
        PulseView {
            enabled: self.enabled,
            has_sweep: self.has_sweep,
            volume: self.volume,
            audio_step_counter: self.audio_step_counter,
            audio_step_state: self.audio_step_state,
            sweep_pace_index: self.sweep_pace_index,
            sweep_enabled: self.sweep_enabled,
            env_pace_index: self.env_pace_index,
            duty_index: self.duty_index,
            current_period: self.current_period,
            length_counter: self.length_counter,
            sweep_pace: self.sweep_pace,
            sweep_direction: self.sweep_direction,
            individual_step: self.individual_step,
            wave_duty: self.wave_duty,
            initial_length_timer: self.initial_length_timer,
            initial_volume: self.initial_volume,
            env_dir: self.env_dir,
            env_pace: self.env_pace,
            length_enabled: self.length_enabled,
            period: self.period,
            trigger: self.trigger,
        }
    }
}

impl PulseView {
    /// Every field is in the range its register or counter allows.
    pub open spec fn wf(self) -> bool {
        &&& self.audio_step_counter < AUDIO_STEP_FREQUENCY
        &&& self.audio_step_state < 8
        &&& self.duty_index < 8
        &&& self.current_period < 2048
        &&& self.period < 2048
        &&& self.length_counter <= MAX_LENGTH
        &&& self.volume <= 15
        &&& self.initial_volume <= 15
        &&& self.env_pace <= 7
        &&& self.sweep_pace <= 7
        &&& self.individual_step <= 7
        &&& self.wave_duty <= 3
        &&& self.initial_length_timer <= 63
    }

    /// The channel after a tick of the sweep: with a zero pace it only turns
    /// the channel off when the period is beyond 0x7FF; with a zero step it does
    /// nothing; otherwise every `sweep_pace` ticks an enabled sweep moves the
    /// period by itself shifted right by the step (up when `sweep_direction`
    /// is set), turning the channel off instead of going past 0x7FF.
    pub open spec fn swept(self) -> PulseView {
        if self.sweep_pace == 0 {
            if self.period >= 2048 {
                PulseView { enabled: false, ..self }
            } else {
                self
            }
        } else if self.individual_step == 0 {
            self
        } else if self.sweep_pace_index + 1 != self.sweep_pace {
            PulseView { sweep_pace_index: (self.sweep_pace_index + 1) as u8, ..self }
        } else {
            let v = PulseView { sweep_pace_index: 0, ..self };
            if !v.sweep_enabled {
                v
            } else {
                let f = if v.sweep_direction {
                    v.period + (v.period >> v.individual_step)
                } else {
                    v.period - (v.period >> v.individual_step)
                };
                if f < 2048 {
                    PulseView { period: f as u16, ..v }
                } else {
                    PulseView { enabled: false, ..v }
                }
            }
        }
    }

    /// Can the sweep tick without its tick index overflowing?
    pub open spec fn sweep_fits(self) -> bool {
        self.sweep_pace == 0 || self.individual_step == 0 || self.sweep_pace_index < 255
    }

    /// The channel after the length counter is clocked: it counts up on even
    /// steps while enabled, and the channel stops when it reaches 64.
    pub open spec fn length_ticked(self) -> PulseView {
        if self.length_enabled && self.length_counter < MAX_LENGTH && self.audio_step_state % 2 == 0 {
            let l = (self.length_counter + 1) as u8;
            PulseView {
                length_counter: l,
                enabled: if l >= MAX_LENGTH {
                    false
                } else {
                    self.enabled
                },
                ..self
            }
        } else {
            self
        }
    }

    /// The channel after its envelope ticks, on step 7 of the frame sequencer.
    pub open spec fn envelope_ticked(self) -> PulseView {
        if self.audio_step_state == 7 {
            let e = envelope_tick(self.env_pace, self.env_pace_index, self.volume, self.env_dir);
            PulseView { env_pace_index: e.0, volume: e.1, ..self }
        } else {
            self
        }
    }

    /// The channel after a tick of the 512 Hz frame sequencer: the length
    /// counter, the envelope, and the sweep on steps 3 and 7.
    pub open spec fn frame_ticked(self) -> PulseView {
        let b = self.length_ticked().envelope_ticked();
        let c = if b.has_sweep && b.audio_step_state % 4 == 3 {
            b.swept()
        } else {
            b
        };
        PulseView { audio_step_state: ((c.audio_step_state + 1) % 8) as u8, ..c }
    }

    /// Can the frame sequencer tick without an index overflowing?
    pub open spec fn frame_fits(self) -> bool {
        &&& self.audio_step_state == 7 ==> envelope_fits(self.env_pace, self.env_pace_index)
        &&& (self.has_sweep && self.audio_step_state % 4 == 3) ==> self.sweep_fits()
    }

    /// The channel after one dot of the frame sequencer counter.
    pub open spec fn dot(self) -> PulseView {
        if self.audio_step_counter + 1 == AUDIO_STEP_FREQUENCY {
            PulseView { audio_step_counter: 0, ..self }.frame_ticked()
        } else {
            PulseView { audio_step_counter: (self.audio_step_counter + 1) as u32, ..self }
        }
    }

    /// Can this dot run without an overflow?
    pub open spec fn dot_fits(self) -> bool {
        self.audio_step_counter + 1 == AUDIO_STEP_FREQUENCY ==> self.frame_fits()
    }

    /// The channel after `n` dots.
    pub open spec fn dots(self, n: nat) -> PulseView
        decreases n,
    {
        if n == 0 {
            self
        } else {
            self.dot().dots((n - 1) as nat)
        }
    }

    /// Can `n` dots run without an overflow?
    pub open spec fn dots_fit(self, n: nat) -> bool
        decreases n,
    {
        n == 0 || (self.dot_fits() && self.dot().dots_fit((n - 1) as nat))
    }

    /// The channel after one clock of the period timer: past 0x7FF it reloads
    /// the period and the duty step advances.
    pub open spec fn divider_ticked(self) -> PulseView {
        if self.current_period + 1 == 2048 {
            PulseView {
                current_period: self.period,
                duty_index: ((self.duty_index + 1) % 8) as u8,
                ..self
            }
        } else {
            PulseView { current_period: (self.current_period + 1) as u16, ..self }
        }
    }

    /// The channel after `n` clocks of the period timer.
    pub open spec fn divider_ticks(self, n: nat) -> PulseView
        decreases n,
    {
        if n == 0 {
            self
        } else {
            self.divider_ticked().divider_ticks((n - 1) as nat)
        }
    }

    /// The channel after `step` dots: the frame sequencer counts every dot,
    /// the period timer every fourth.
    pub open spec fn stepped(self, step: u32) -> PulseView {
        self.dots(step as nat).divider_ticks((step / 4) as nat)
    }

    /// The byte a read of register `location` (0 to 4) gives.
    pub open spec fn register(self, location: usize) -> u8 {
        if location == 0 {
            (self.sweep_pace * 16 + (if self.sweep_direction {
                8int
            } else {
                0
            }) + self.individual_step) as u8
        } else if location == 1 {
            (self.initial_length_timer + self.wave_duty * 64) as u8
        } else if location == 2 {
            (self.initial_volume * 16 + (if self.env_dir {
                8int
            } else {
                0
            }) + self.env_pace) as u8
        } else if location == 3 {
            (self.period % 256) as u8
        } else {
            ((if self.trigger {
                128int
            } else {
                0
            }) + (if self.length_enabled {
                64int
            } else {
                0
            }) + self.period / 256) as u8
        }
    }

    /// The channel after NRx4 takes `value`: the trigger bit, the length
    /// enable (which reloads the length counter) and the period's high bits
    /// are stored; a trigger starts the channel.
    pub open spec fn nr4_written(self, value: u8) -> PulseView {
        let trigger = value >= 128;
        let len_en = bit_set(value, 6);
        let a = PulseView {
            trigger: trigger,
            length_enabled: len_en,
            period: (self.period % 256 + (value % 8) * 256) as u16,
            length_counter: if len_en {
                self.initial_length_timer
            } else {
                self.length_counter
            },
            ..self
        };
        if !trigger {
            a
        } else {
            let c = PulseView {
                enabled: true,
                current_period: a.period,
                volume: a.initial_volume,
                env_pace_index: 0,
                length_counter: if a.length_counter >= MAX_LENGTH {
                    a.initial_length_timer
                } else {
                    a.length_counter
                },
                ..a
            };
            if c.has_sweep {
                PulseView {
                    sweep_pace_index: 0,
                    sweep_enabled: c.sweep_pace != 0 || c.individual_step != 0,
                    ..c
                }
            } else {
                c
            }
        }
    }

    /// The channel after register `location` (0 to 4) takes `value`.
    pub open spec fn written(self, location: usize, value: u8) -> PulseView {
        if location == 0 {
            PulseView {
                individual_step: value % 8,
                sweep_direction: bit_set(value, 3),
                sweep_pace: (value / 16) % 8,
                ..self
            }
        } else if location == 1 {
            PulseView { initial_length_timer: value % 64, wave_duty: value / 64, ..self }
        } else if location == 2 {
            let iv = value / 16;
            let dir = bit_set(value, 3);
            PulseView {
                initial_volume: iv,
                env_dir: dir,
                env_pace: value % 8,
                enabled: if iv == 0 && !dir {
                    false
                } else {
                    self.enabled
                },
                ..self
            }
        } else if location == 3 {
            PulseView { period: ((self.period / 256) * 256 + value) as u16, ..self }
        } else {
            self.nr4_written(value)
        }
    }
}

/// The registers as the boot ROM leaves them, with the channel off.
pub open spec fn boot_view() -> PulseView {
    PulseView {
        enabled: false,
        has_sweep: false,
        sweep_enabled: true,
        volume: 0xf,
        current_period: 0x7ff,
        duty_index: 0,
        sweep_pace_index: 0,
        env_pace_index: 0,
        audio_step_state: 0,
        audio_step_counter: 0,
        length_counter: 0x3f,
        length_enabled: false,
        period: 0x7ff,
        trigger: true,
        sweep_pace: 0,
        sweep_direction: false,
        individual_step: 0,
        wave_duty: 0b10,
        initial_length_timer: 0x3f,
        initial_volume: 0xf,
        env_dir: false,
        env_pace: 3,
    }
}

impl Pulse {
    /// Gives the channel a sweep unit, or takes it away.
    pub fn set_has_sweep(&mut self, has_sweep: bool)
        ensures
            final(self)@ == (PulseView { has_sweep: has_sweep, ..old(self)@ }),
    {
        self.has_sweep = has_sweep;
    }

    pub fn is_enabled(&self) -> (r: bool)
        ensures
            r == self@.enabled,
    {
        self.enabled
    }

    /// What the DAC converts: `None` while the channel is off, else the level
    /// (0 or 1) of the current duty step and the volume (0 to 15).
    pub fn digital_sample(&self) -> (r: Option<(u8, u8)>)
        requires
            self@.wf(),
        ensures
            r == (if self@.enabled {
                Some((duty_level(self@.wave_duty, self@.duty_index), self@.volume))
            } else {
                None
            }),
    {
        if !self.enabled {
            return None;
        }
        let pattern: u8 = if self.wave_duty == 0 {
            0x80
        } else if self.wave_duty == 1 {
            0xc0
        } else if self.wave_duty == 2 {
            0xf0
        } else {
            0x7e
        };
        let index = self.duty_index;
        let level = (pattern >> index) & 1;
        proof {
            lemma_flag_pack(false, 0, 0, 0, pattern, index, 0);
        }
        Some((level, self.volume))
    }

    /// The envelope ticks at 64 Hz, and the channel’s envelope will be increased / decreased
    /// every Sweep pace of those ticks. A setting of 0 disables the envelope.
    fn update_volume(&mut self)
        requires
            old(self)@.wf(),
            envelope_fits(old(self)@.env_pace, old(self)@.env_pace_index),
        ensures
            final(self)@.wf(),
            ({
                let e = envelope_tick(
                    old(self)@.env_pace,
                    old(self)@.env_pace_index,
                    old(self)@.volume,
                    old(self)@.env_dir,
                );
                final(self)@ == PulseView { env_pace_index: e.0, volume: e.1, ..old(self)@ }
            }),
    {
        if self.env_pace == 0 {
            return;
        }
        self.env_pace_index = self.env_pace_index + 1;
        if self.env_pace_index != self.env_pace {
            return;
        }
        self.env_pace_index = self.env_pace_index - self.env_pace;
        if self.volume == 0 && self.env_dir == false {
            return;
        }
        if self.volume == 15 && self.env_dir == true {
            return;
        }
        if self.env_dir {
            self.volume = self.volume + 1
        } else {
            self.volume = self.volume - 1
        }
    }

    fn update_sweep(&mut self)
        requires
            old(self)@.wf(),
            old(self)@.sweep_fits(),
        ensures
            final(self)@ == old(self)@.swept(),
            final(self)@.wf(),
    {
        // Note 1
        // On each sweep iteration, the period in NR13 and NR14 is modified and written back.
        // In addition mode, if the period value would overflow (i.e. is strictly more than $7FF),
        // the channel is turned off instead. This occurs even if sweep iterations are disabled by
        // the pace being 0.
        // Note 2
        // When the “sweep timer” is clocked if the “enabled flag” is set and the sweep pace is not zero,
        // a new frequency is calculated and the overflow check is performed. If the new frequency is 2047
        // or less and the individual step is not zero, this new frequency is written back to the
        // “shadow register” and CH1 frequency in NR13 and NR14, then frequency calculation and overflow check
        // are run again immediately using this new value, but this second new frequency is not written back.
        if self.sweep_pace == 0 {
            if self.period >= 2048 {
                self.enabled = false;
            }
            return;
        }
        if self.individual_step == 0 {
            return;
        }
        self.sweep_pace_index = self.sweep_pace_index + 1;
        if self.sweep_pace_index != self.sweep_pace {
            return;
        }
        self.sweep_pace_index = self.sweep_pace_index - self.sweep_pace;
        if !self.sweep_enabled {
            return;
        }
        proof {
            lemma_period_bits(self.period, self.individual_step, 0, false, false);
        }
        let new_period = if self.sweep_direction {
            self.period + (self.period >> self.individual_step)
        } else {
            self.period - (self.period >> self.individual_step)
        };
        if new_period < 2048 {
            self.period = new_period;
        } else {
            // Frequency sweep overflowing the frequency disables the channel
            self.enabled = false;
        }
    }

    /// Restarts the counters: the frame sequencer counter, the duty step, the
    /// period timer, the sweep and envelope timers, the volume and the length.
    pub fn reset(&mut self)
        ensures
            final(self)@ == (PulseView {
                audio_step_counter: 0,
                duty_index: 0,
                current_period: old(self)@.period,
                sweep_pace_index: 0,
                env_pace_index: 0,
                volume: old(self)@.initial_volume,
                length_counter: old(self)@.initial_length_timer,
                ..old(self)@
            }),
    {
        self.audio_step_counter = 0;
        self.duty_index = 0;
        self.current_period = self.period;
        self.sweep_pace_index = 0;
        self.env_pace_index = 0;
        self.volume = self.initial_volume;
        self.length_counter = self.initial_length_timer;
    }

    /// One dot of the frame sequencer counter; every 8192nd dot ticks the sequencer.
    fn dot(&mut self)
        requires
            old(self)@.wf(),
            old(self)@.dot_fits(),
        ensures
            final(self)@ == old(self)@.dot(),
            final(self)@.wf(),
    {
        self.audio_step_counter = self.audio_step_counter + 1;  // NOTE: += step if I ever remove the loop..
        if self.audio_step_counter == AUDIO_STEP_FREQUENCY {
            self.audio_step_counter = 0;
            self.frame_tick();
        }
    }

    /// A tick of the frame sequencer: length, envelope and sweep.
    fn frame_tick(&mut self)
        requires
            old(self)@.wf(),
            old(self)@.frame_fits(),
        ensures
            final(self)@ == old(self)@.frame_ticked(),
            final(self)@.wf(),
    {
        self.tick_length();
        if self.audio_step_state == 7 {
            self.update_volume();
        }
        if self.has_sweep && self.audio_step_state % 4 == 3 {
            self.update_sweep()
        }
        self.audio_step_state = (self.audio_step_state + 1) % 8;
    }

    /// Clocks the length counter.
    fn tick_length(&mut self)
        requires
            old(self)@.wf(),
        ensures
            final(self)@ == old(self)@.length_ticked(),
            final(self)@.wf(),
    {
        if self.length_enabled && self.length_counter < MAX_LENGTH && self.audio_step_state % 2
            == 0 {
            self.length_counter = self.length_counter + 1;
            if self.length_counter >= MAX_LENGTH {
                // disable channel if its length timer expiring
                self.enabled = false;
            }
        }
    }

    /// 512 Hz timer clocking sweep, envelope and length functions of the channels.
    /// - Length at 256Hz         - or every 2nd run
    /// - Volume Envelope at 64Hz - or every 8th run
    /// - Sweep at 128Hz          - or every 4th
    pub fn step(&mut self, step: u32)
        requires
            old(self)@.wf(),
            old(self)@.dots_fit(step as nat),
        ensures
            final(self)@ == old(self)@.stepped(step),
            final(self)@.wf(),
    {
        let ghost start = self@;
        let mut i: u32 = 0;
        while i < step
            invariant
                i <= step,
                self@.wf(),
                self@.dots((step - i) as nat) == start.dots(step as nat),
                self@.dots_fit((step - i) as nat),
            decreases step - i,
        {
            self.dot();
            i = i + 1;
        }
        // Should clock every 4th dot
        // The period divider of pulse and wave channels is an up counter. Each time it is clocked, its
        // value increases by 1; when it overflows (being clocked when it’s already 2047, or $7FF), its
        // value is set from the contents of NR13 and NR14.
        let ghost mid = self@;
        let n = step / 4;
        let mut j: u32 = 0;
        while j < n
            invariant
                j <= n,
                self@.wf(),
                self@.divider_ticks((n - j) as nat) == mid.divider_ticks(n as nat),
            decreases n - j,
        {
            self.current_period = self.current_period + 1;
            if self.current_period == 2048 {
                self.current_period = self.period;
                // the “duty step” increments at the channel’s sample rate, which is 8 times the channel’s frequency).
                self.duty_index = (self.duty_index + 1) % 8;
            }
            j = j + 1;
        }
    }
}

impl Default for Pulse {
    fn default() -> (r: Self)
        ensures
            r@ == boot_view(),
    {
        let period = 0x7ff;
        Self {
            enabled: false,
            has_sweep: false,
            sweep_enabled: true,
            volume: 0xf,
            current_period: period,
            duty_index: 0,
            sweep_pace_index: 0,
            env_pace_index: 0,
            audio_step_state: 0,
            audio_step_counter: 0,
            length_counter: 0x3f,
            length_enabled: false,
            period: period,
            trigger: true,
            // FF10 - default 0x80 (unused bit 7 set)
            sweep_pace: 0,
            sweep_direction: false,
            individual_step: 0,
            // FF11 - default 0xbf
            wave_duty: 0b10,
            initial_length_timer: 0x3f,
            // FF12 - default 0xf3
            initial_volume: 0xf,
            env_dir: false,
            env_pace: 3,
        }
    }
}

impl MemoryAccessor for Pulse {
    /// NRx0 to NRx4, as offsets 0 to 4.
    open spec fn readable(&self, location: usize) -> bool {
        self@.wf() && location <= 4
    }

    open spec fn read_value(&self, location: usize) -> u8 {
        self@.register(location)
    }

    open spec fn writable(&self, location: usize, value: u8) -> bool {
        self@.wf() && location <= 4
    }

    open spec fn after_write(&self, post: Self, location: usize, value: u8) -> bool {
        post@ == self@.written(location, value) && post@.wf()
    }

    fn get(&self, location: usize) -> (r: u8) {
        if location == 0x0 {
            // 7	| 6	5 4 | 3	            | 2	1	0
            //        Pace	  Direction	    Individual step
            let step = self.individual_step;
            let direction = (self.sweep_direction as u8) << 3u8;
            let pace = self.sweep_pace << 4u8;
            proof {
                lemma_field_pack(self.sweep_pace, self.sweep_direction, step);
            }
            pace | direction | step
        } else if location == 0x1 {
            // 7	6	    | 5	4	3	2	1	0
            // Wave duty	Initial length timer
            let timer = self.initial_length_timer;
            let duty = self.wave_duty << 6u8;
            proof {
                lemma_flag_pack(false, 0, self.wave_duty, timer, 0, 0, 0);
            }
            timer | duty
        } else if location == 0x2 {
            // 7	6	5	4	| 3	        |2	1	0
            // Initial volume	Env dir     Sweep pace
            let pace = self.env_pace;
            let dir = (self.env_dir as u8) << 3u8;
            let volume = self.initial_volume << 4u8;
            proof {
                lemma_field_pack(self.initial_volume, self.env_dir, pace);
            }
            pace | dir | volume
        } else if location == 0x3 {
            proof {
                lemma_period_bits(self.period, 0, 0, false, false);
            }
            (self.period & 0xff) as u8
        } else {
            // 7	    | 6	         | 5 4 3 | 2	1	0
            // Trigger	Length enable		   Period
            let trigger = (self.trigger as u8) << 7u8;
            let length_enable = (self.length_enabled as u8) << 6u8;
            let period = (self.period >> 8u16) as u8;
            proof {
                lemma_period_bits(self.period, 0, 0, self.trigger, self.length_enabled);
            }
            trigger | length_enable | period
        }
    }

    fn write(&mut self, location: usize, value: u8) {
        proof {
            lemma_u8_fields(value);
            lemma_bit_masks();
            lemma_write_bit(value, 3, true, 0);
            lemma_write_bit(value, 6, true, 0);
            lemma_period_bits(self.period, 0, value, false, false);
        }
        if location == 0x0 {
            // 7	| 6	5 4 | 3	            | 2	1	0
            //        Pace	  Direction	    Individual step
            self.individual_step = value & 0x7;
            self.sweep_direction = value & 0x08 > 0;
            // Note that the value written to this field is not re-read by the hardware until a
            // sweep iteration completes, or the channel is (re)triggered.
            self.sweep_pace = (value >> 4u8) & 0x7
        } else if location == 0x1 {
            // 7	6	    | 5	4	3	2	1	0
            // Wave duty	Initial length timer
            self.initial_length_timer = value & 0b00111111;
            self.wave_duty = value >> 6u8;
        } else if location == 0x2 {
            // 7	6	5	4	| 3	        |2	1	0
            // Initial volume	Env dir     Sweep pace
            self.initial_volume = value >> 4u8;
            self.env_dir = value & 0x08 > 0;
            self.env_pace = value & 0x7;
            // Setting bits 3-7 of this register all to 0 (initial volume = 0, envelope = decreasing)
            // turns the DAC off (and thus, the channel as well)
            if self.initial_volume == 0 && !self.env_dir {
                self.enabled = false
            }
        } else if location == 0x3 {
            self.period = (self.period & 0x700) | value as u16;
        } else {
            // 7	    | 6	         | 5 4 3 | 2	1	0
            // Trigger	Length enable		   Period
            self.trigger = value >> 7u8 > 0;
            self.length_enabled = value & 0x40 > 0;
            self.period = (self.period & 0xff) | ((value as u16 & 7) << 8u16);
            if self.length_enabled {
                self.length_counter = self.initial_length_timer;
            }
            if self.trigger {
                // Channel is enabled.
                self.enabled = true;
                // The period divider is set to the contents of NR13 and NR14.
                self.current_period = self.period;
                // Volume is set to contents of NR12 initial volume.
                self.volume = self.initial_volume;
                // Envelope timer is reset.
                self.env_pace_index = 0;
                // If length timer expired it is reset.
                if self.length_counter >= MAX_LENGTH {
                    self.length_counter = self.initial_length_timer;
                }
                // Sweep does several things.
                if self.has_sweep {
                    // The “sweep timer” is reset.
                    self.sweep_pace_index = 0;
                    // The “enabled flag” is set if either the sweep pace or individual step are non-zero, cleared otherwise.
                    self.sweep_enabled = self.sweep_pace != 0 || self.individual_step != 0;
                }
            }
        }
    }
}

/// Writing NRx2 with bits 3-7 all clear (initial volume 0, envelope
/// decreasing) turns the DAC, and so the channel, off.
pub proof fn dac_off_silences(v: PulseView, value: u8)
    requires
        value < 8,
    ensures
        !v.written(2, value).enabled,
{
    assert(value / 16 == 0);
    lemma_flag_pack(false, 0, 0, 0, 0, 0, value);
}

impl Pulse {
    /// Can `step` dots run without an overflow (PulseView::dots_fit)?
    pub fn can_step(&self, step: u32) -> (r: bool)
        requires
            self@.wf(),
        ensures
            r == self@.dots_fit(step as nat),
    {
        let mut copy = *self;
        let mut i: u32 = 0;
        while i < step
            invariant
                i <= step,
                copy@.wf(),
                self@.dots_fit(step as nat) == copy@.dots_fit((step - i) as nat),
            decreases step - i,
        {
            if !copy.dot_fits() {
                return false;
            }
            copy.dot();
            i = i + 1;
        }
        true
    }

    /// Can the next dot run without an overflow?
    fn dot_fits(&self) -> (r: bool)
        requires
            self@.wf(),
        ensures
            r == self@.dot_fits(),
    {
        if self.audio_step_counter + 1 == AUDIO_STEP_FREQUENCY {
            let envelope_ok = !(self.audio_step_state == 7) || self.env_pace == 0
                || self.env_pace_index < 255;
            let sweep_ok = !(self.has_sweep && self.audio_step_state % 4 == 3) || self.sweep_pace
                == 0 || self.individual_step == 0 || self.sweep_pace_index < 255;
            envelope_ok && sweep_ok
        } else {
            true
        }
    }
}

/// The four duty waves over their eight steps: 12.5 % is high on step 7
/// only, 25 % on steps 6 and 7, 50 % on steps 4-7, and 75 % on steps 1-6;
/// so they are high on 1, 2, 4 and 6 steps.
pub proof fn duty_law(duty: u8, index: u8)
    by (bit_vector)
    requires
        duty < 4,
        index < 8,
    ensures
        duty_level(duty, index) == (if (duty == 0 && index == 7) || (duty == 1 && index >= 6)
            || (duty == 2 && index >= 4) || (duty == 3 && 1 <= index <= 6) {
            1u8
        } else {
            0u8
        }),
{
}

} // verus!
