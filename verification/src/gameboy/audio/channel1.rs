//! Sound channel 1: a square wave with frequency sweep, at NR10-NR14 (0xFF10-0xFF14).
use super::pulse_wave::{boot_view, Pulse, PulseView};
use crate::gameboy::memory_bus::MemoryAccessor;
use vstd::prelude::*;

verus! {

pub const MEMORY_BASE: usize = 0xff10;

pub struct Channel1 {
    pulse: Pulse,
}

impl View for Channel1 {
    type V = PulseView;

    closed spec fn view(&self) -> PulseView {
        self.pulse@
    }
}

impl MemoryAccessor for Channel1 {
    open spec fn readable(&self, location: usize) -> bool {
        self@.wf() && MEMORY_BASE <= location <= MEMORY_BASE + 4
    }

    open spec fn read_value(&self, location: usize) -> u8 {
        self@.register((location - MEMORY_BASE) as usize)
    }

    open spec fn writable(&self, location: usize, value: u8) -> bool {
        self@.wf() && MEMORY_BASE <= location <= MEMORY_BASE + 4
    }

    open spec fn after_write(&self, post: Self, location: usize, value: u8) -> bool {
        post@ == self@.written((location - MEMORY_BASE) as usize, value) && post@.wf()
    }

    fn get(&self, location: usize) -> (r: u8) {
        self.pulse.get(location - MEMORY_BASE)
    }

    fn write(&mut self, location: usize, value: u8) {
        self.pulse.write(location - MEMORY_BASE, value)
    }
}

impl Channel1 {
    pub fn step(&mut self, step: u32)
        requires
            old(self)@.wf(),
            old(self)@.dots_fit(step as nat),
        ensures
            final(self)@ == old(self)@.stepped(step),
            final(self)@.wf(),
    {
        self.pulse.step(step)
    }

    /// What the DAC converts (see `Pulse::digital_sample`).
    pub fn digital_sample(&self) -> (r: Option<(u8, u8)>)
        requires
            self@.wf(),
        ensures
            r == (if self@.enabled {
                Some((super::pulse_wave::duty_level(self@.wave_duty, self@.duty_index), self@.volume))
            } else {
                None
            }),
    {
        self.pulse.digital_sample()
    }

    /// Can `step` run `step` dots without a counter overflowing?
    pub fn can_step(&self, step: u32) -> (r: bool)
        requires
            self@.wf(),
        ensures
            r == self@.dots_fit(step as nat),
    {
        self.pulse.can_step(step)
    }

    pub fn is_enabled(&self) -> (r: bool)
        ensures
            r == self@.enabled,
    {
        self.pulse.is_enabled()
    }
}

impl Default for Channel1 {
    /// The square channel of the boot ROM, with the sweep unit.
    fn default() -> (r: Self)
        ensures
            r@ == (PulseView { has_sweep: true, ..boot_view() }),
    {
        let mut pulse = Pulse::default();
        pulse.set_has_sweep(true);
        Self { pulse }
    }
}

} // verus!
