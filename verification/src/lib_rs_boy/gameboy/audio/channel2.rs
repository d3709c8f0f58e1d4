//! Sound channel 2: a square wave without sweep, at NR21-NR24 (0xFF16-0xFF19).
use super::pulse_wave::{Pulse, PulseView};
use crate::gameboy::memory_bus::MemoryAccessor;
use vstd::prelude::*;

verus! {

pub const MEMORY_BASE: usize = 0xff15;

pub struct Channel2 {
    pulse: Pulse,
}

impl View for Channel2 {
    type V = PulseView;

    closed spec fn view(&self) -> PulseView {
        self.pulse@
    }
}

impl MemoryAccessor for Channel2 {
    /// 0xFF15 (no sweep register; reads 0xFF, ignores writes) to 0xFF19.
    open spec fn readable(&self, location: usize) -> bool {
        self@.wf() && MEMORY_BASE <= location <= MEMORY_BASE + 4
    }

    open spec fn read_value(&self, location: usize) -> u8 {
        if location == MEMORY_BASE {
            0xff
        } else {
            self@.register((location - MEMORY_BASE) as usize)
        }
    }

    open spec fn writable(&self, location: usize, value: u8) -> bool {
        self@.wf() && MEMORY_BASE <= location <= MEMORY_BASE + 4
    }

    open spec fn after_write(&self, post: Self, location: usize, value: u8) -> bool {
        &&& post@.wf()
        &&& post@ == if location == MEMORY_BASE {
            self@
        } else {
            self@.written((location - MEMORY_BASE) as usize, value)
        }
    }

    fn get(&self, location: usize) -> (r: u8) {
        if location == 0xff15 {
            // channel2 has no sweep
            return 0xff;
        }
        self.pulse.get(location - MEMORY_BASE)
    }

    fn write(&mut self, location: usize, value: u8) {
        if location == 0xff15 {
            // channel2 has no sweep
            return;
        }
        self.pulse.write(location - MEMORY_BASE, value)
    }
}

impl Channel2 {
    pub fn step(&mut self, step: u32)
        requires
            old(self)@.wf(),
            old(self)@.dots_fit(step as nat),
        ensures
            final(self)@ == old(self)@.stepped(step),
            final(self)@.wf(),
    {
        self.pulse.step(step)
    }

    /// What the DAC converts (see `Pulse::digital_sample`).
    pub fn digital_sample(&self) -> (r: Option<(u8, u8)>)
        requires
            self@.wf(),
        ensures
            r == (if self@.enabled {
                Some((super::pulse_wave::duty_level(self@.wave_duty, self@.duty_index), self@.volume))
            } else {
                None
            }),
    {
        self.pulse.digital_sample()
    }

    pub fn is_enabled(&self) -> (r: bool)
        ensures
            r == self@.enabled,
    {
        self.pulse.is_enabled()
    }

    pub fn reset(&mut self)
        ensures
            final(self)@ == old(self)@.cleared(),
    {
        self.pulse.reset();
    }

    pub fn reset_frame(&mut self)
        ensures
            final(self)@ == (PulseView { duty_index: 0, audio_step_state: 0, ..old(self)@ }),
    {
        self.pulse.reset_frame();
    }
}

impl Default for Channel2 {
    fn default() -> (r: Self)
        ensures
            r@ == super::pulse_wave::boot_view(),
    {
        Self { pulse: Pulse::default() }
    }
}

} // verus!
