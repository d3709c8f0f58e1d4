//! The square wave channel (with or without frequency sweep) of the embeddable core.
use crate::flags::lemma_u8_fields;
use crate::gameboy::memory_bus::MemoryAccessor;
use crate::registers::{bit_set, lemma_bit_masks, lemma_write_bit};
use super::register_bits::{lemma_field_pack, lemma_flag_pack, lemma_period_bits};
use vstd::prelude::*;

verus! {

pub const MAX_LENGTH: u8 = 64;

/// Dots per tick of the 512 Hz frame sequencer.
pub const AUDIO_STEP_FREQUENCY: u32 = 8192;

/// The envelope after one of its 64 Hz ticks, as (tick index, volume): every
/// `pace` ticks the volume moves one step up (`up`) or down, within 0..=15;
/// a pace of 0 stops the envelope.
pub open spec fn envelope_tick(pace: u8, index: u8, volume: u8, up: bool) -> (u8, u8) {
    if pace == 0 {
        (index, volume)
    } else if index + 1 != pace {
        ((index + 1) as u8, volume)
    } else if (volume == 0 && !up) || (volume == 15 && up) {
        (0, volume)
    } else {
        (0, (if up {
            volume + 1
        } else {
            volume - 1
        }) as u8)
    }
}

/// The envelope's law: a pace of 0 freezes it; otherwise each tick keeps the
/// volume within 0..=15 and the tick index below the pace, and moves the
/// volume by at most one step, up only when the envelope goes up and down
/// only when it goes down.
pub proof fn envelope_law(pace: u8, index: u8, volume: u8, up: bool)
    requires
        volume <= 15,
        pace == 0 || index < pace,
    ensures
        ({
            let (next_index, next_volume) = envelope_tick(pace, index, volume, up);
            &&& pace == 0 ==> next_index == index && next_volume == volume
            &&& next_volume <= 15
            &&& pace == 0 || next_index < pace
            &&& next_volume > volume ==> up && next_volume == volume + 1
            &&& next_volume < volume ==> !up && next_volume + 1 == volume
        }),
{
}

/// Can the envelope tick without its tick index overflowing? It overflows
/// only when a smaller pace was written while the index was beyond it.
pub open spec fn envelope_fits(pace: u8, index: u8) -> bool {
    pace == 0 || index < 255
}

/// Level (0 or 1) of step `index` of duty pattern `duty`, the patterns being
/// 00000001, 10000001, 10000111 and 01111110 from step 0 to step 7.
pub open spec fn duty_level(duty: u8, index: u8) -> u8 {
    let pattern: u8 = if duty == 0 {
        0x80
    } else if duty == 1 {
        0x81
    } else if duty == 2 {
        0xe1
    } else {
        0x7e
    };
    if bit_set(pattern, index) {
        1
    } else {
        0
    }
}

#[derive(Clone, Copy)]
pub struct Pulse {
    enabled: bool,
    pub has_sweep: bool,
    // State of the Channel
    volume: u8,
    audio_step_counter: u32,
    /// Frame of the audio. 1-8
    audio_step_state: u8,
    duty_index: u8,
    /// The actual timer that ends up updating the duty_index
    period_divider: u16,
    length_counter: u8,
    sweep_enabled: bool,
    sweep_pace_remaining: u8,
    /// Shadow register so that period changes don't affect mid-sweep
    sweep_shadow_period: u16,
    // FF10 — NR10: Channel 1 sweep
    // This register controls CH1’s period sweep functionality.
    // 7	| 6	5 4 | 3	            | 2	1	0
    //        Pace	  Direction	    Individual step
    sweep_pace: u8,
    sweep_direction: bool,
    individual_step: u8,
    // FF11 — NR11: Channel 1 length timer & duty cycle
    // 7	6	    | 5	4	3	2	1	0
    // Wave duty	Initial length timer
    wave_duty: u8,
    initial_length_timer: u8,
    /// The index used to step the volume / envelope
    env_pace_index: u8,
    // FF12 — NR12: Channel 1 volume & envelope
    // 7	6	5	4	| 3	        |2	1	0
    // Initial volume	Env dir     Sweep pace
    initial_volume: u8,
    env_dir: bool,
    env_pace: u8,
    // FF13 — NR13: Channel 1 period low [write-only]
    // FF14 — NR14: Channel 1 period high & control
    // 7	    | 6	         | 5 4 3 | 2	1	0
    // Trigger	Length enable		   Period
    length_enabled: bool,
    period: u16,
}

/// Every register and counter of a square channel as a plain value.
pub struct PulseView {
    pub enabled: bool,
    pub has_sweep: bool,
    pub volume: u8,
    pub audio_step_counter: u32,
    pub audio_step_state: u8,
    pub duty_index: u8,
    pub period_divider: u16,
    pub length_counter: u8,
    pub sweep_enabled: bool,
    pub sweep_pace_remaining: u8,
    pub sweep_shadow_period: u16,
    pub sweep_pace: u8,
    pub sweep_direction: bool,
    pub individual_step: u8,
    pub wave_duty: u8,
    pub initial_length_timer: u8,
    pub env_pace_index: u8,
    pub initial_volume: u8,
    pub env_dir: bool,
    pub env_pace: u8,
    pub length_enabled: bool,
    pub period: u16,
}

impl View for Pulse {
    type V = PulseView;

    closed spec fn view(&self) -> PulseView {
        PulseView {
            enabled: self.enabled,
            has_sweep: self.has_sweep,
            volume: self.volume,
            audio_step_counter: self.audio_step_counter,
            audio_step_state: self.audio_step_state,
            duty_index: self.duty_index,
            period_divider: self.period_divider,
            length_counter: self.length_counter,
            sweep_enabled: self.sweep_enabled,
            sweep_pace_remaining: self.sweep_pace_remaining,
            sweep_shadow_period: self.sweep_shadow_period,
            sweep_pace: self.sweep_pace,
            sweep_direction: self.sweep_direction,
            individual_step: self.individual_step,
            wave_duty: self.wave_duty,
            initial_length_timer: self.initial_length_timer,
            env_pace_index: self.env_pace_index,
            initial_volume: self.initial_volume,
            env_dir: self.env_dir,
            env_pace: self.env_pace,
            length_enabled: self.length_enabled,
            period: self.period,
        }
    }
}

impl PulseView {
    /// Every field is in the range its register or counter allows.
    pub open spec fn wf(self) -> bool {
        &&& self.audio_step_counter < AUDIO_STEP_FREQUENCY
        &&& self.audio_step_state < 8
        &&& self.duty_index < 8
        &&& self.period_divider < 2048
        &&& self.period < 2048
        &&& self.sweep_shadow_period < 2048
        &&& self.length_counter <= MAX_LENGTH
        &&& self.volume <= 15
        &&& self.initial_volume <= 15
        &&& self.env_pace <= 7
        &&& self.sweep_pace <= 7
        &&& self.individual_step <= 7
        &&& self.wave_duty <= 3
        &&& self.initial_length_timer <= 63
        &&& self.sweep_pace_remaining <= 8
    }

    /// The next period of the sweep: the shadow period plus (or, when
    /// `sweep_direction` is set, minus) itself shifted right by the individual step.
    pub open spec fn new_frequency(self) -> int {
        if self.sweep_direction {
            self.sweep_shadow_period - (self.sweep_shadow_period >> self.individual_step)
        } else {
            self.sweep_shadow_period + (self.sweep_shadow_period >> self.individual_step)
        }
    }

    /// Does period `f` end the channel: beyond 0x7FF when adding, 0 when subtracting?
    pub open spec fn sweep_overflows(self, f: int) -> bool {
        (!self.sweep_direction && f >= 2048) || (self.sweep_direction && f == 0)
    }

    /// The channel after a tick of the sweep timer: when the timer runs out it
    /// restarts, and an enabled sweep with a non-zero pace computes the next
    /// period; an overflow turns the channel off, otherwise a non-zero step
    /// writes the period back and checks the one after it too.
    pub open spec fn swept(self) -> PulseView {
        let remaining: int = if self.sweep_pace_remaining > 0 {
            self.sweep_pace_remaining - 1
        } else {
            0
        };
        if remaining != 0 {
            PulseView { sweep_pace_remaining: remaining as u8, ..self }
        } else {
            let v = PulseView {
                sweep_pace_remaining: if self.sweep_pace == 0 {
                    8
                } else {
                    self.sweep_pace
                },
                ..self
            };
            if !v.sweep_enabled || v.sweep_pace == 0 {
                v
            } else {
                let f = v.new_frequency();
                if v.sweep_overflows(f) {
                    PulseView { enabled: false, ..v }
                } else if v.individual_step > 0 {
                    let w = PulseView { sweep_shadow_period: f as u16, period: f as u16, ..v };
                    if w.sweep_overflows(w.new_frequency()) {
                        PulseView { enabled: false, ..w }
                    } else {
                        w
                    }
                } else {
                    v
                }
            }
        }
    }

    /// The channel after a tick of the 512 Hz frame sequencer: the length
    /// counter on even steps (the channel stops when it runs out), the envelope
    /// on step 7, the sweep on steps 2 and 6.
    pub open spec fn frame_ticked(self) -> PulseView {
        let a = if self.length_enabled && self.length_counter > 0 && self.audio_step_state % 2 == 0 {
            let l = (self.length_counter - 1) as u8;
            PulseView {
                length_counter: l,
                enabled: if l == 0 {
                    false
                } else {
                    self.enabled
                },
                ..self
            }
        } else {
            self
        };
        let b = if a.audio_step_state == 7 {
            let e = envelope_tick(a.env_pace, a.env_pace_index, a.volume, a.env_dir);
            PulseView { env_pace_index: e.0, volume: e.1, ..a }
        } else {
            a
        };
        let c = if b.has_sweep && b.audio_step_state % 4 == 2 {
            b.swept()
        } else {
            b
        };
        PulseView { audio_step_state: ((c.audio_step_state + 1) % 8) as u8, ..c }
    }

    /// The channel after one dot of the frame sequencer counter.
    pub open spec fn dot(self) -> PulseView {
        if self.audio_step_counter + 1 == AUDIO_STEP_FREQUENCY {
            PulseView { audio_step_counter: 0, ..self }.frame_ticked()
        } else {
            PulseView { audio_step_counter: (self.audio_step_counter + 1) as u32, ..self }
        }
    }

    /// Can this dot run without an overflow of the envelope index?
    pub open spec fn dot_fits(self) -> bool {
        (self.audio_step_counter + 1 == AUDIO_STEP_FREQUENCY && self.audio_step_state == 7)
            ==> envelope_fits(self.env_pace, self.env_pace_index)
    }

    /// The channel after `n` dots.
    pub open spec fn dots(self, n: nat) -> PulseView
        decreases n,
    {
        if n == 0 {
            self
        } else {
            self.dot().dots((n - 1) as nat)
        }
    }

    /// Can `n` dots run without an overflow?
    pub open spec fn dots_fit(self, n: nat) -> bool
        decreases n,
    {
        n == 0 || (self.dot_fits() && self.dot().dots_fit((n - 1) as nat))
    }

    /// The channel after one clock of the period divider: past 0x7FF it
    /// reloads the period and the duty step advances.
    pub open spec fn divider_ticked(self) -> PulseView {
        if self.period_divider + 1 == 2048 {
            PulseView {
                period_divider: self.period,
                duty_index: ((self.duty_index + 1) % 8) as u8,
                ..self
            }
        } else {
            PulseView { period_divider: (self.period_divider + 1) as u16, ..self }
        }
    }

    /// The channel after `n` clocks of the period divider.
    pub open spec fn divider_ticks(self, n: nat) -> PulseView
        decreases n,
    {
        if n == 0 {
            self
        } else {
            self.divider_ticked().divider_ticks((n - 1) as nat)
        }
    }

    /// The channel after `step` dots: the frame sequencer counts every dot,
    /// the period divider every fourth.
    pub open spec fn stepped(self, step: u32) -> PulseView {
        self.dots(step as nat).divider_ticks((step / 4) as nat)
    }

    /// The byte a read of register `location` (0 to 4, from NR10 or NR20) gives;
    /// the write-only bits read as 1.
    pub open spec fn register(self, location: usize) -> u8 {
        if location == 0 {
            (0x80 + self.sweep_pace * 16 + (if self.sweep_direction {
                8int
            } else {
                0
            }) + self.individual_step) as u8
        } else if location == 1 {
            (0x3f + self.wave_duty * 64) as u8
        } else if location == 2 {
            (self.initial_volume * 16 + (if self.env_dir {
                8int
            } else {
                0
            }) + self.env_pace) as u8
        } else if location == 3 {
            0xff
        } else {
            if self.length_enabled {
                0xff
            } else {
                0xbf
            }
        }
    }

    /// The channel after NRx4 takes `value`: the period's high bits and the
    /// length enable are stored (enabling the length on an odd step clocks it
    /// once); bit 7 triggers the channel.
    pub open spec fn nr4_written(self, value: u8) -> PulseView {
        let trigger = value >= 128;
        let len_en = bit_set(value, 6);
        let enabling = !self.length_enabled && len_en;
        let a = PulseView {
            length_enabled: len_en,
            period: (self.period % 256 + (value % 8) * 256) as u16,
            ..self
        };
        let b = if enabling && a.length_counter != 0 && a.audio_step_state % 2 == 1 {
            let l = (a.length_counter - 1) as u8;
            PulseView {
                length_counter: l,
                enabled: if l == 0 && !trigger {
                    false
                } else {
                    a.enabled
                },
                ..a
            }
        } else {
            a
        };
        if !trigger {
            b
        } else {
            let c = PulseView {
                enabled: b.env_dir || b.initial_volume > 0,
                period_divider: b.period,
                volume: b.initial_volume,
                env_pace_index: 0,
                ..b
            };
            let d = if c.length_counter == 0 {
                PulseView {
                    length_counter: if c.length_enabled && c.audio_step_state % 2 == 1 {
                        63
                    } else {
                        64
                    },
                    ..c
                }
            } else {
                c
            };
            if d.has_sweep {
                let e = PulseView {
                    sweep_shadow_period: d.period,
                    sweep_pace_remaining: if d.sweep_pace == 0 {
                        8
                    } else {
                        d.sweep_pace
                    },
                    sweep_enabled: d.sweep_pace != 0 || d.individual_step != 0,
                    ..d
                };
                if e.individual_step != 0 && e.sweep_overflows(e.new_frequency()) {
                    PulseView { enabled: false, ..e }
                } else {
                    e
                }
            } else {
                d
            }
        }
    }

    /// The channel after register `location` (0 to 4) takes `value`.
    pub open spec fn written(self, location: usize, value: u8) -> PulseView {
        if location == 0 {
            PulseView {
                individual_step: value % 8,
                sweep_direction: bit_set(value, 3),
                sweep_pace: (value / 16) % 8,
                ..self
            }
        } else if location == 1 {
            PulseView {
                initial_length_timer: value % 64,
                length_counter: (64 - value % 64) as u8,
                wave_duty: value / 64,
                ..self
            }
        } else if location == 2 {
            let iv = value / 16;
            let dir = bit_set(value, 3);
            PulseView {
                initial_volume: iv,
                env_dir: dir,
                env_pace: value % 8,
                enabled: if iv == 0 && !dir {
                    false
                } else {
                    self.enabled
                },
                ..self
            }
        } else if location == 3 {
            PulseView { period: ((self.period / 256) * 256 + value) as u16, ..self }
        } else {
            self.nr4_written(value)
        }
    }

    /// The channel after a reset: every register cleared, the channel off.
    pub open spec fn cleared(self) -> PulseView {
        PulseView {
            sweep_pace: 0,
            sweep_direction: false,
            individual_step: 0,
            wave_duty: 0,
            initial_length_timer: 0,
            initial_volume: 0,
            env_dir: false,
            env_pace: 0,
            enabled: false,
            length_enabled: false,
            period: 0,
            period_divider: 0,
            sweep_pace_remaining: 8,
            env_pace_index: 0,
            volume: 0,
            ..self
        }
    }
}

impl Pulse {
    /// Is the channel on?
    pub fn is_enabled(&self) -> (r: bool)
        ensures
            r == self@.enabled,
    {
        self.enabled
    }

    /// What the DAC converts: `None` while the channel is off, else the level
    /// (0 or 1) of the current duty step and the volume (0 to 15).
    pub fn digital_sample(&self) -> (r: Option<(u8, u8)>)
        requires
            self@.wf(),
        ensures
            r == (if self@.enabled {
                Some((duty_level(self@.wave_duty, self@.duty_index), self@.volume))
            } else {
                None
            }),
    {
        if !self.enabled {
            return None;
        }
        let pattern: u8 = if self.wave_duty == 0 {
            0x80
        } else if self.wave_duty == 1 {
            0x81
        } else if self.wave_duty == 2 {
            0xe1
        } else {
            0x7e
        };
        let index = self.duty_index;
        let level = (pattern >> index) & 1;
        proof {
            lemma_flag_pack(false, 0, 0, 0, pattern, index, 0);
        }
        Some((level, self.volume))
    }

    /// Clears every register and turns the channel off.
    pub fn reset(&mut self)
        ensures
            final(self)@ == old(self)@.cleared(),
    {
        // NR10
        self.sweep_pace = 0;
        self.sweep_direction = false;
        self.individual_step = 0;
        // NR11
        self.wave_duty = 0;
        self.initial_length_timer = 0;
        // NR12
        self.initial_volume = 0;
        self.env_dir = false;
        self.env_pace = 0;
        // since initial_volume & env_dir is 0, we disable the DAC, thus the channel
        self.enabled = false;
        // NR14
        self.length_enabled = false;
        self.period = 0;
        self.period_divider = self.period;
        self.sweep_pace_remaining = self.sweep_pace;
        if self.sweep_pace_remaining == 0 {
            self.sweep_pace_remaining = 8
        }
        self.env_pace_index = 0;
        self.volume = self.initial_volume;
    }

    /// Restarts the duty step and the frame sequencer.
    pub fn reset_frame(&mut self)
        ensures
            final(self)@ == (PulseView { duty_index: 0, audio_step_state: 0, ..old(self)@ }),
    {
        self.duty_index = 0;
        self.audio_step_state = 0;
    }

    /// The envelope ticks at 64 Hz, and the channel’s envelope will be increased / decreased
    /// every Sweep pace of those ticks. A setting of 0 disables the envelope.
    fn update_volume(&mut self)
        requires
            old(self)@.wf(),
            envelope_fits(old(self)@.env_pace, old(self)@.env_pace_index),
        ensures
            final(self)@.wf(),
            ({
                let e = envelope_tick(
                    old(self)@.env_pace,
                    old(self)@.env_pace_index,
                    old(self)@.volume,
                    old(self)@.env_dir,
                );
                final(self)@ == PulseView { env_pace_index: e.0, volume: e.1, ..old(self)@ }
            }),
    {
        if self.env_pace == 0 {
            return;
        }
        self.env_pace_index = self.env_pace_index + 1;
        if self.env_pace_index != self.env_pace {
            return;
        }
        self.env_pace_index = self.env_pace_index - self.env_pace;
        if self.volume == 0 && self.env_dir == false {
            return;
        }
        if self.volume == 15 && self.env_dir == true {
            return;
        }
        if self.env_dir {
            self.volume = self.volume + 1
        } else {
            self.volume = self.volume - 1
        }
    }

    fn update_sweep(&mut self)
        requires
            old(self)@.wf(),
        ensures
            final(self)@ == old(self)@.swept(),
            final(self)@.wf(),
    {
        // Note 1
        // On each sweep iteration, the period in NR13 and NR14 is modified and written back.
        // In addition mode, if the period value would overflow (i.e. is strictly more than $7FF),
        // the channel is turned off instead. This occurs even if sweep iterations are disabled by
        // the pace being 0.
        // Note 2
        // When the “sweep timer” is clocked if the “enabled flag” is set and the sweep pace is not zero,
        // a new frequency is calculated and the overflow check is performed. If the new frequency is 2047
        // or less and the individual step is not zero, this new frequency is written back to the
        // “shadow register” and CH1 frequency in NR13 and NR14, then frequency calculation and overflow check
        // are run again immediately using this new value, but this second new frequency is not written back.
        // Note 3
        // CH1 frequency can be modified via NR13 and NR14 while sweep is active, but the “shadow register”
        // won’t be affected so the next time the “sweep timer” updates the channel’s frequency, this modification
        // will be lost. This can be avoided by triggering the channel.
        if self.sweep_pace_remaining > 0 {
            self.sweep_pace_remaining = self.sweep_pace_remaining - 1;
        }
        if self.sweep_pace_remaining != 0 {
            return;
        }
        // Sweep Timer Clocked
        self.sweep_pace_remaining = self.sweep_pace;
        if self.sweep_pace_remaining == 0 {
            self.sweep_pace_remaining = 8
        }
        if !self.sweep_enabled || self.sweep_pace == 0 {
            return;
        }
        let new_period = self.calculate_new_frequency();
        if (!self.sweep_direction && new_period >= 2048) || (self.sweep_direction && new_period
            == 0) {
            self.enabled = false;
            return;
        }
        if self.individual_step > 0 {
            self.sweep_shadow_period = new_period;
            self.period = new_period;
            // Perform a new overflow check, but ditch the frequency
            let _period = self.calculate_new_frequency();
            if (!self.sweep_direction && _period >= 2048) || (self.sweep_direction && _period
                == 0) {
                self.enabled = false;
            }
        }
    }

    fn calculate_new_frequency(&self) -> (r: u16)
        requires
            self@.sweep_shadow_period < 2048,
            self@.individual_step <= 7,
        ensures
            r == self@.new_frequency(),
    {
        proof {
            lemma_period_bits(self.sweep_shadow_period, self.individual_step, 0, false, false);
        }
        // false means addition
        let new_period = if self.sweep_direction {
            self.sweep_shadow_period - (self.sweep_shadow_period >> self.individual_step)
        } else {
            self.sweep_shadow_period + (self.sweep_shadow_period >> self.individual_step)
        };
        new_period
    }
}

/// The registers as the boot ROM leaves them, with the channel off.
pub open spec fn boot_view() -> PulseView {
    PulseView {
        enabled: false,
        has_sweep: false,
        sweep_enabled: false,
        volume: 0xf,
        period_divider: 0x7ff,
        duty_index: 0,
        sweep_pace_remaining: 8,
        env_pace_index: 0,
        audio_step_state: 0,
        audio_step_counter: 0,
        length_counter: 1,
        length_enabled: false,
        period: 0x7ff,
        sweep_shadow_period: 0x7ff,
        sweep_pace: 0,
        sweep_direction: false,
        individual_step: 0,
        wave_duty: 0b10,
        initial_length_timer: 0x3f,
        initial_volume: 0xf,
        env_dir: false,
        env_pace: 3,
    }
}

impl Pulse {
    /// One dot of the frame sequencer counter; every 8192nd dot ticks the sequencer.
    fn dot(&mut self)
        requires
            old(self)@.wf(),
            old(self)@.dot_fits(),
        ensures
            final(self)@ == old(self)@.dot(),
            final(self)@.wf(),
    {
        self.audio_step_counter = self.audio_step_counter + 1;  // NOTE: += step if I ever remove the loop..
        if self.audio_step_counter == AUDIO_STEP_FREQUENCY {
            self.audio_step_counter = 0;
            self.frame_tick();
        }
    }

    /// A tick of the frame sequencer: length, envelope and sweep.
    fn frame_tick(&mut self)
        requires
            old(self)@.wf(),
            old(self)@.audio_step_state == 7 ==> envelope_fits(
                old(self)@.env_pace,
                old(self)@.env_pace_index,
            ),
        ensures
            final(self)@ == old(self)@.frame_ticked(),
            final(self)@.wf(),
    {
        if self.length_enabled && self.length_counter > 0 && self.audio_step_state % 2 == 0 {
            self.length_counter = self.length_counter - 1;
            if self.length_counter == 0 {
                // disable channel if its length timer expiring
                self.enabled = false;
            }
        }
        if self.audio_step_state == 7 {
            self.update_volume();
        }
        if self.has_sweep && self.audio_step_state % 4 == 2 {
            self.update_sweep()
        }
        self.audio_step_state = (self.audio_step_state + 1) % 8;
    }

    /// 512 Hz timer clocking sweep, envelope and length functions of the channels.
    /// - Length at 256Hz         - or every 2nd run
    /// - Volume Envelope at 64Hz - or every 8th run
    /// - Sweep at 128Hz          - or every 4th
    pub fn step(&mut self, step: u32)
        requires
            old(self)@.wf(),
            old(self)@.dots_fit(step as nat),
        ensures
            final(self)@ == old(self)@.stepped(step),
            final(self)@.wf(),
    {
        let ghost start = self@;
        let mut i: u32 = 0;
        while i < step
            invariant
                i <= step,
                self@.wf(),
                self@.dots((step - i) as nat) == start.dots(step as nat),
                self@.dots_fit((step - i) as nat),
            decreases step - i,
        {
            self.dot();
            i = i + 1;
        }
        // Should clock every 4th dot
        // The period divider of pulse and wave channels is an up counter. Each time it is clocked, its
        // value increases by 1; when it overflows (being clocked when it’s already 2047, or $7FF), its
        // value is set from the contents of NR13 and NR14.
        let ghost mid = self@;
        let n = step / 4;
        let mut j: u32 = 0;
        while j < n
            invariant
                j <= n,
                self@.wf(),
                self@.divider_ticks((n - j) as nat) == mid.divider_ticks(n as nat),
            decreases n - j,
        {
            self.period_divider = self.period_divider + 1;
            if self.period_divider == 2048 {
                self.period_divider = self.period;
                // the “duty step” increments at the channel’s sample rate, which is 8 times the channel’s frequency).
                self.duty_index = (self.duty_index + 1) % 8;
            }
            j = j + 1;
        }
    }
}

impl Default for Pulse {
    fn default() -> (r: Self)
        ensures
            r@ == boot_view(),
    {
        let period = 0x7ff;
        Self {
            enabled: false,
            has_sweep: false,
            sweep_enabled: false,  // sweep-pace and individual-steps are false
            volume: 0xf,
            period_divider: period,
            duty_index: 0,
            sweep_pace_remaining: 8,  // treating sweep_pace 0 as 8
            env_pace_index: 0,
            audio_step_state: 0,
            audio_step_counter: 0,
            length_counter: MAX_LENGTH - 0x3f,
            length_enabled: false,
            period: period,
            sweep_shadow_period: period,
            // FF10 - default 0x80 (unused bit 7 set)
            sweep_pace: 0,
            sweep_direction: false,
            individual_step: 0,
            // FF11 - default 0xbf
            wave_duty: 0b10,
            initial_length_timer: 0x3f,
            // FF12 - default 0xf3
            initial_volume: 0xf,
            env_dir: false,
            env_pace: 3,
        }
    }
}

impl MemoryAccessor for Pulse {
    /// NRx0 to NRx4, as offsets 0 to 4.
    open spec fn readable(&self, location: usize) -> bool {
        self@.wf() && location <= 4
    }

    open spec fn read_value(&self, location: usize) -> u8 {
        self@.register(location)
    }

    open spec fn writable(&self, location: usize, value: u8) -> bool {
        self@.wf() && location <= 4
    }

    open spec fn after_write(&self, post: Self, location: usize, value: u8) -> bool {
        post@ == self@.written(location, value) && post@.wf()
    }

    fn get(&self, location: usize) -> (r: u8) {
        proof {
            lemma_bit_masks();
        }
        if location == 0x0 {
            // 7	| 6	5 4 | 3	            | 2	1	0
            //        Pace	  Direction	    Individual step
            let step = self.individual_step;
            let direction = (self.sweep_direction as u8) << 3u8;
            let pace = self.sweep_pace << 4u8;
            proof {
                lemma_field_pack(self.sweep_pace, self.sweep_direction, step);
            }
            0x80 | pace | direction | step
        } else if location == 0x1 {
            // 7	6	    | 5	4	3	2	1	0
            // Wave duty	Initial length timer
            let timer: u8 = 0b00111111;  // Timer is read only
            let duty = self.wave_duty << 6u8;
            proof {
                lemma_flag_pack(false, 0, self.wave_duty, 0, 0, 0, 0);
            }
            timer | duty
        } else if location == 0x2 {
            // 7	6	5	4	| 3	        |2	1	0
            // Initial volume	Env dir     Sweep pace
            let pace = self.env_pace;
            let dir = (self.env_dir as u8) << 3u8;
            let volume = self.initial_volume << 4u8;
            proof {
                lemma_field_pack(self.initial_volume, self.env_dir, pace);
            }
            pace | dir | volume
        } else if location == 0x3 {
            0xff  // it's write only field
        } else {
            // 7	    | 6	         | 5 4 3 | 2	1	0
            // Trigger	Length enable		   Period
            let length_enable = (self.length_enabled as u8) << 6u8;
            proof {
                lemma_flag_pack(self.length_enabled, 0, 0, 0, 0, 0, 0);
            }
            0x80 | length_enable | 0b111000 | 0x7
        }
    }

    fn write(&mut self, location: usize, value: u8) {
        proof {
            lemma_u8_fields(value);
            lemma_bit_masks();
            lemma_write_bit(value, 3, true, 0);
            lemma_write_bit(value, 6, true, 0);
            lemma_period_bits(self.period, 0, value, false, false);
        }
        if location == 0x0 {
            // 7	| 6	5 4 | 3	            | 2	1	0
            //        Pace	  Direction	    Individual step
            self.individual_step = value & 0x7;
            self.sweep_direction = value & 0x08 > 0;
            // Note that the value written to this field is not re-read by the hardware until a
            // sweep iteration completes, or the channel is (re)triggered.
            self.sweep_pace = (value >> 4u8) & 0x7;
        } else if location == 0x1 {
            // 7	6	    | 5	4	3	2	1	0
            // Wave duty	Initial length timer
            self.initial_length_timer = value & 0b00111111;
            // Writing a byte to NRx1 loads the counter with 64-data (256-data for wave channel). The counter can be reloaded at any time.
            self.length_counter = MAX_LENGTH - self.initial_length_timer;
            self.wave_duty = value >> 6u8;
        } else if location == 0x2 {
            // 7	6	5	4	| 3	        |2	1	0
            // Initial volume	Env dir     Sweep pace
            self.initial_volume = value >> 4u8;
            self.env_dir = value & 0x08 > 0;
            self.env_pace = value & 0x7;
            // Setting bits 3-7 of this register all to 0 (initial volume = 0, envelope = decreasing)
            // turns the DAC off (and thus, the channel as well)
            if self.initial_volume == 0 && !self.env_dir {
                self.enabled = false
            }
        } else if location == 0x3 {
            self.period = (self.period & 0x700) | value as u16;
        } else {
            self.write_nr4(value);
        }
    }
}

impl Pulse {
    /// NRx4: the period's high bits, the length enable and the trigger.
    fn write_nr4(&mut self, value: u8)
        requires
            old(self)@.wf(),
        ensures
            final(self)@ == old(self)@.nr4_written(value),
            final(self)@.wf(),
    {
        proof {
            lemma_u8_fields(value);
            lemma_bit_masks();
            lemma_write_bit(value, 6, true, 0);
            lemma_period_bits(self.period, 0, value, false, false);
        }
        // 7	    | 6	         | 5 4 3 | 2	1	0
        // Trigger	Length enable		   Period
        let trigger = value >> 7u8 > 0;
        let old_length_enabled = self.length_enabled;
        self.length_enabled = value & 0x40 > 0;
        let enabling_length = !old_length_enabled && self.length_enabled;
        self.period = (self.period & 0xff) | ((value as u16 & 7) << 8u16);
        // Extra length clocking occurs when writing to NRx4 when the frame sequencer's next
        // step is one that doesn't clock the length counter. In this case, if the length
        // counter was PREVIOUSLY disabled and now enabled and the length counter is not zero,
        // it is decremented. If this decrement makes it zero and trigger is clear, the
        // channel is disabled.
        if enabling_length && self.length_counter != 0 && self.audio_step_state % 2 == 1 {
            self.length_counter = self.length_counter - 1;
            if self.length_counter == 0 && !trigger {
                self.enabled = false
            }
        }
        if trigger {
            // Channel is enabled.
            // Channel x’s DAC is enabled if and only if [NRx2] & $F8 != 0.
            self.enabled = self.env_dir || self.initial_volume > 0;
            // The period divider is set to the contents of NR13 and NR14.
            self.period_divider = self.period;
            // Volume is set to contents of NR12 initial volume.
            self.volume = self.initial_volume;
            // Envelope timer is reset.
            self.env_pace_index = 0;
            // If length timer expired it is reset.
            if self.length_counter == 0 {
                self.length_counter = MAX_LENGTH;
                // If a channel is triggered when the frame sequencer's next step is one
                // that doesn't clock the length counter and the length counter is now enabled
                // and length is being set to 64 (256 for wave channel) because it was
                // previously zero, it is set to 63 instead (255 for wave channel)
                if self.length_enabled && self.audio_step_state % 2 == 1 {
                    self.length_counter = self.length_counter - 1;
                }
            }
            // Sweep does several things.
            if self.has_sweep {
                // CH1 period value is copied to the “shadow register”.
                self.sweep_shadow_period = self.period;
                // The “sweep timer” is reset.
                self.sweep_pace_remaining = self.sweep_pace;
                if self.sweep_pace_remaining == 0 {
                    self.sweep_pace_remaining = 8
                }
                // The “enabled flag” is set if either the sweep pace or individual step are non-zero, cleared otherwise.
                self.sweep_enabled = self.sweep_pace != 0 || self.individual_step != 0;
                // If the individual step is non-zero, frequency calculation and overflow check are performed immediately.
                if self.individual_step != 0 {
                    let _freq = self.calculate_new_frequency();
                    if (!self.sweep_direction && _freq >= 2048) || (self.sweep_direction && _freq
                        == 0) {
                        self.enabled = false;
                    }
                }
            }
        }
    }
}

/// Writing NRx2 with bits 3-7 all clear (initial volume 0, envelope
/// decreasing) turns the DAC, and so the channel, off.
pub proof fn dac_off_silences(v: PulseView, value: u8)
    requires
        value < 8,
    ensures
        !v.written(2, value).enabled,
{
    assert(value / 16 == 0);
    lemma_flag_pack(false, 0, 0, 0, 0, 0, value);
}

/// A trigger turns the channel on only when its DAC is on (initial volume
/// above 0 or envelope increasing).
pub proof fn trigger_needs_dac(v: PulseView, value: u8)
    requires
        value >= 128,
        v.written(4, value).enabled,
    ensures
        v.env_dir || v.initial_volume > 0,
{
}

impl Pulse {
    /// Can `step` dots run without an overflow (PulseView::dots_fit)?
    pub fn can_step(&self, step: u32) -> (r: bool)
        requires
            self@.wf(),
        ensures
            r == self@.dots_fit(step as nat),
    {
        let mut copy = *self;
        let mut i: u32 = 0;
        while i < step
            invariant
                i <= step,
                copy@.wf(),
                self@.dots_fit(step as nat) == copy@.dots_fit((step - i) as nat),
            decreases step - i,
        {
            if !copy.dot_fits() {
                return false;
            }
            copy.dot();
            i = i + 1;
        }
        true
    }

    /// Can the next dot run without an overflow?
    fn dot_fits(&self) -> (r: bool)
        requires
            self@.wf(),
        ensures
            r == self@.dot_fits(),
    {
        if self.audio_step_counter + 1 == AUDIO_STEP_FREQUENCY && self.audio_step_state == 7 {
            self.env_pace == 0 || self.env_pace_index < 255
        } else {
            true
        }
    }
}

/// The four duty waves over their eight steps: 12.5 % is high on step 7
/// only, 25 % on steps 0 and 7, 50 % on steps 0 and 5-7, and 75 % on steps
/// 1-6; so they are high on 1, 2, 4 and 6 steps.
pub proof fn duty_law(duty: u8, index: u8)
    by (bit_vector)
    requires
        duty < 4,
        index < 8,
    ensures
        duty_level(duty, index) == (if (duty == 0 && index == 7) || (duty == 1 && (index == 0
            || index == 7)) || (duty == 2 && (index == 0 || index >= 5)) || (duty == 3 && 1
            <= index <= 6) {
            1u8
        } else {
            0u8
        }),
{
}

} // verus!
