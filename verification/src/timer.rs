//! The divider (DIV) and the programmable timer (TIMA, TMA, TAC), counted in clock ticks.
use crate::flags::lemma_u8_fields;
use crate::registers::{bit_set, lemma_write_bit};
use vstd::prelude::*;

verus! {

pub struct Timer {
    /// FF04
    /// This register is incremented at a rate of 16384Hz (~16779Hz on SGB).
    /// Writing any value to this register resets it to $00. Additionally,
    /// this register is reset when executing the stop instruction, and only
    /// begins ticking again once stop mode ends.
    div: u8,
    /// FF05
    /// This timer is incremented at the clock frequency specified by the TAC
    /// register ($FF07). When the value overflows (exceeds $FF) it is reset to
    /// the value specified in TMA (FF06) and an interrupt is requested, as
    /// described below.
    tima: u8,
    /// FF06
    tma: u8,
    /// FF07
    tac: u8,
    // temporary:
    div_counter: u32,
    tima_counter: u32,
    tima_clock: u32,
}

/// The number of ticks per TIMA increment that the clock select bits of TAC give.
pub open spec fn tima_period(tac: u8) -> u32 {
    if tac % 4 == 0 {
        1024
    } else if tac % 4 == 1 {
        16
    } else if tac % 4 == 2 {
        64
    } else {
        256
    }
}

impl Timer {
    /// The divider register DIV.
    pub closed spec fn div(&self) -> u8 {
        self.div
    }

    /// The counter register TIMA.
    pub closed spec fn tima(&self) -> u8 {
        self.tima
    }

    /// The modulo register TMA.
    pub closed spec fn tma(&self) -> u8 {
        self.tma
    }

    /// The control register TAC.
    pub closed spec fn tac(&self) -> u8 {
        self.tac
    }

    /// Ticks counted towards the next DIV increment.
    pub closed spec fn div_counter(&self) -> u32 {
        self.div_counter
    }

    /// Ticks counted towards the next TIMA increment.
    pub closed spec fn tima_counter(&self) -> u32 {
        self.tima_counter
    }

    /// The ticks per TIMA increment, as selected by the last write to TAC.
    pub closed spec fn tima_clock(&self) -> u32 {
        self.tima_clock
    }

    /// Can `ticks` be counted without the tick counters overflowing?
    pub open spec fn can_step(&self, ticks: u32) -> bool {
        &&& self.div_counter() + ticks <= u32::MAX
        &&& bit_set(self.tac(), 2) ==> self.tima_counter() + ticks <= u32::MAX
    }

    /// Is `post` this timer after `ticks` ticks, and `interrupt` whether TIMA overflowed?
    ///
    /// DIV advances by one once 256 ticks have been counted; while TAC bit 2 is
    /// set, TIMA advances by one once a period has been counted, and on
    /// overflow it is reloaded from TMA and the interrupt is requested.
    pub open spec fn stepped(&self, post: Self, ticks: u32, interrupt: bool) -> bool {
        let dc = self.div_counter() + ticks;
        let tc = self.tima_counter() + ticks;
        let tima_steps = bit_set(self.tac(), 2) && tc >= self.tima_clock();
        let overflow = tima_steps && self.tima() == 255;
        &&& post.div_counter() == (if dc >= 256 {
            dc - 256
        } else {
            dc
        })
        &&& post.div() == (if dc >= 256 {
            (self.div() + 1) % 256
        } else {
            self.div() as int
        })
        &&& post.tima_counter() == (if !bit_set(self.tac(), 2) {
            self.tima_counter() as int
        } else if tima_steps {
            tc - self.tima_clock()
        } else {
            tc
        })
        &&& post.tima() == (if overflow {
            self.tma() as int
        } else if tima_steps {
            self.tima() + 1
        } else {
            self.tima() as int
        })
        &&& post.tma() == self.tma()
        &&& post.tac() == self.tac()
        &&& post.tima_clock() == self.tima_clock()
        &&& interrupt == overflow
    }

    fn tima_enabled(&self) -> (r: bool)
        ensures
            r == bit_set(self.tac, 2),
    {
        proof {
            lemma_write_bit(self.tac, 2, true, 0);
        }
        (self.tac & (1u8 << 2u8)) > 0
    }

    fn clock(&self) -> (r: u32)
        ensures
            r == tima_period(self.tac),
    {
        let selected = self.tac & 0x3;
        proof {
            lemma_u8_fields(self.tac);
        }
        match selected {
            0 => 1024,
            1 => 16,
            2 => 64,
            _ => 256,
        }
    }

    /// Counts `ticks` clock ticks; returns whether the timer interrupt is requested.
    pub fn step_timer(&mut self, ticks: u32) -> (r: bool)
        requires
            old(self).can_step(ticks),
        ensures
            old(self).stepped(*final(self), ticks, r),
    {
        // a dot is: 4194000 Hz
        // div step:   16384 Hz
        // so a div is stepped every 255.981445313 dots
        self.div_counter = self.div_counter + ticks;
        if self.div_counter >= 256 {
            self.div_counter = self.div_counter - 256;
            self.div = self.div.wrapping_add(1);
        }
        if !self.tima_enabled() {
            return false;
        }
        self.tima_counter = self.tima_counter + ticks;
        let clock = self.tima_clock;
        if self.tima_counter >= clock {
            self.tima_counter = self.tima_counter - clock;
            self.tima = self.tima.wrapping_add(1);
            if self.tima == 0 {
                self.tima = self.tma;
                return true;
            }
        }
        return false;
    }

    /// Reads DIV, TIMA, TMA or TAC.
    pub fn get(&self, location: usize) -> (r: u8)
        requires
            0xff04 <= location <= 0xff07,
        ensures
            r == (if location == 0xff04 {
                self.div()
            } else if location == 0xff05 {
                self.tima()
            } else if location == 0xff06 {
                self.tma()
            } else {
                self.tac()
            }),
    {
        match location {
            0xFF04 => self.div,
            0xFF05 => self.tima,
            0xFF06 => self.tma,
            _ => self.tac,
        }
    }

    /// Writes a timer register: any write to DIV clears it; a write to TAC
    /// also selects the TIMA period.
    pub fn write(&mut self, location: usize, value: u8)
        requires
            0xff04 <= location <= 0xff07,
        ensures
            final(self).div() == (if location == 0xff04 {
                0
            } else {
                old(self).div()
            }),
            final(self).tima() == (if location == 0xff05 {
                value
            } else {
                old(self).tima()
            }),
            final(self).tma() == (if location == 0xff06 {
                value
            } else {
                old(self).tma()
            }),
            final(self).tac() == (if location == 0xff07 {
                value
            } else {
                old(self).tac()
            }),
            final(self).tima_clock() == (if location == 0xff07 {
                tima_period(value)
            } else {
                old(self).tima_clock()
            }),
            final(self).div_counter() == old(self).div_counter(),
            final(self).tima_counter() == old(self).tima_counter(),
    {
        match location {
            0xFF04 => self.div = 0,  // writing any value resets it
            0xFF05 => self.tima = value,
            0xFF06 => self.tma = value,
            _ => {
                self.tac = value;
                self.tima_clock = self.clock();
            },
        }
    }

    /// The timer after the boot ROM: DIV 0xAB, TAC 0xF8, everything else zero.
    pub fn default() -> (r: Timer)
        ensures
            r.div() == 0xab,
            r.tima() == 0,
            r.tma() == 0,
            r.tac() == 0xf8,
            r.div_counter() == 0,
            r.tima_counter() == 0,
            r.tima_clock() == 0,
    {
        Timer {
            div: 0xab,
            tima: 0,
            tma: 0,
            tac: 0xf8,
            // helpers
            div_counter: 0,
            tima_counter: 0,
            tima_clock: 0,
        }
    }
}

} // verus!
