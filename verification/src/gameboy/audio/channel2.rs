//! Sound channel 2: a square wave without sweep, at NR21-NR24 (0xFF16-0xFF19).
use super::pulse_wave::{boot_view, Pulse, PulseView};
use crate::gameboy::memory_bus::MemoryAccessor;
use vstd::prelude::*;

verus! {

pub const MEMORY_BASE: usize = 0xff15;

pub struct Channel2 {
    pulse: Pulse,
}

impl View for Channel2 {
    type V = PulseView;

    closed spec fn view(&self) -> PulseView {
        self.pulse@
    }
}

impl MemoryAccessor for Channel2 {
    /// 0xFF16-0xFF19; there is no sweep register at 0xFF15.
    open spec fn readable(&self, location: usize) -> bool {
        self@.wf() && MEMORY_BASE < location <= MEMORY_BASE + 4
    }

    open spec fn read_value(&self, location: usize) -> u8 {
        self@.register((location - MEMORY_BASE) as usize)
    }

    open spec fn writable(&self, location: usize, value: u8) -> bool {
        self@.wf() && MEMORY_BASE < location <= MEMORY_BASE + 4
    }

    open spec fn after_write(&self, post: Self, location: usize, value: u8) -> bool {
        post@ == self@.written((location - MEMORY_BASE) as usize, value) && post@.wf()
    }

    fn get(&self, location: usize) -> (r: u8) {
        self.pulse.get(location - MEMORY_BASE)
    }

    fn write(&mut self, location: usize, value: u8) {
        self.pulse.write(location - MEMORY_BASE, value)
    }
}

impl Channel2 {
    pub fn step(&mut self, step: u32)
        requires
            old(self)@.wf(),
            old(self)@.dots_fit(step as nat),
        ensures
            final(self)@ == old(self)@.stepped(step),
            final(self)@.wf(),
    {
        self.pulse.step(step)
    }

    /// What the DAC converts (see `Pulse::digital_sample`).
    pub fn digital_sample(&self) -> (r: Option<(u8, u8)>)
        requires
            self@.wf(),
        ensures
            r == (if self@.enabled {
                Some((super::pulse_wave::duty_level(self@.wave_duty, self@.duty_index), self@.volume))
            } else {
                None
            }),
    {
        self.pulse.digital_sample()
    }

    /// Can `step` run `step` dots without a counter overflowing?
    pub fn can_step(&self, step: u32) -> (r: bool)
        requires
            self@.wf(),
        ensures
            r == self@.dots_fit(step as nat),
    {
        self.pulse.can_step(step)
    }

    pub fn is_enabled(&self) -> (r: bool)
        ensures
            r == self@.enabled,
    {
        self.pulse.is_enabled()
    }
}

impl Default for Channel2 {
    fn default() -> (r: Self)
        ensures
            r@ == boot_view(),
    {
        Self { pulse: Pulse::default() }
    }
}

} // verus!
