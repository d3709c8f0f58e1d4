//! The divider and the programmable timer, driven by a 16-bit system clock
//! counted in dots.
use crate::gameboy::memory_bus::MemoryAccessor;
use vstd::prelude::*;

verus! {

pub struct Timer {
    // FF04
    // This register is incremented at a rate of 16384Hz (~16779Hz on SGB).
    // Writing any value to this register resets it to $00. Additionally,
    // this register is reset when executing the stop instruction, and only
    // begins ticking again once stop mode ends.
    /// FF05
    /// This timer is incremented at the clock frequency specified by the TAC
    /// register ($FF07). When the value overflows (exceeds $FF) it is reset to
    /// the value specified in TMA (FF06) and an interrupt is requested, as
    /// described below.
    tima: u8,
    /// FF06
    /// When TIMA overflows, it is reset to the value in this register and an
    /// interrupt is requested.
    tma: u8,
    /// FF07
    tac: u8,
    // temporary:
    system_clock: u16,
    tima_overflow_delay: bool,
    /// Locks the tima for the round of the interrupt being triggered. In that case tima can't be
    /// updated by directly setting it
    lock_tima: bool,
}

/// Is `x` in the range from `start` to `end`, both included, counted upwards
/// modulo 0x10000 (so the range wraps round when `end < start`)?
pub open spec fn within_wrapped(start: u16, end: u16, x: u16) -> bool {
    if start <= end {
        start <= x <= end
    } else {
        x >= start || x <= end
    }
}

/// The number of clock values in one full cycle of bit `bit`: 2^(bit+1).
pub open spec fn cycle(bit: u8) -> int {
    2 * ((1u16 << bit) as int)
}

/// Does bit `bit` of a clock that counts up from `old` to `new` (modulo
/// 0x10000) fall from 1 to 0 on the way? It does exactly when the clock passes
/// a value that is a multiple of 2^(bit+1).
pub open spec fn bit_falls(old: u16, new: u16, bit: u8) -> bool {
    exists|x: u16| #[trigger] within_wrapped(((old + 1) % 0x10000) as u16, new, x) && (x as int) % cycle(bit) == 0
}

/// Is TIMA counting (bit 2 of TAC)?
pub open spec fn tac_enabled(tac: u8) -> bool {
    tac & 0x4 != 0
}

/// The bit of the system clock whose fall steps TIMA, by the clock select bits of TAC.
pub open spec fn clock_bit(tac: u8) -> u8 {
    if tac % 4 == 0 {
        9
    } else if tac % 4 == 1 {
        3
    } else if tac % 4 == 2 {
        5
    } else {
        7
    }
}

/// The first multiple of a power of two `p` at or after `s`, and the one after it,
/// both counted modulo 0x10000, are the only candidates for a multiple of `p` in
/// a wrapped range that starts at `s`.
proof fn lemma_first_multiples(s: u16, e: u16, p: u16, t: u16, x0: u16, x1: u16, y: u16)
    by (bit_vector)
    requires
        p >= 2,
        p & ((p - 1) as u16) == 0,
        t as int == (if s + (p - 1) > 65535 {
            s + (p - 1) - 65536
        } else {
            s + (p - 1)
        }),
        x0 == t & !((p - 1) as u16),
        x1 as int == (if x0 + p > 65535 {
            x0 + p - 65536
        } else {
            x0 + p
        }),
    ensures
        x0 % p == 0,
        x1 % p == 0,
        (within_wrapped(s, e, y) && y % p == 0) ==> (within_wrapped(s, e, x0) || within_wrapped(
            s,
            e,
            x1,
        )),
{
}

/// The cycle of a bit below 15 is a power of two that fits in 16 bits.
proof fn lemma_cycle(bit: u8) by (bit_vector)
    requires
        bit < 15,
    ensures
        ((1u16 << bit) << 1u16) as int == 2 * ((1u16 << bit) as int),
        ((1u16 << bit) << 1u16) >= 2,
        ((1u16 << bit) << 1u16) & ((((1u16 << bit) << 1u16) - 1) as u16) == 0,
{
}

impl Timer {
    /// The counter register TIMA.
    pub closed spec fn tima(&self) -> u8 {
        self.tima
    }

    /// The modulo register TMA.
    pub closed spec fn tma(&self) -> u8 {
        self.tma
    }

    /// The control register TAC.
    pub closed spec fn tac(&self) -> u8 {
        self.tac
    }

    /// The 16-bit system clock; DIV is its high byte.
    pub closed spec fn clock(&self) -> u16 {
        self.system_clock
    }

    /// Is a TIMA overflow waiting to be served on the next step?
    pub closed spec fn overflow_pending(&self) -> bool {
        self.tima_overflow_delay
    }

    /// Was TMA just loaded into TIMA, so that a write to TIMA is ignored?
    pub closed spec fn tima_locked(&self) -> bool {
        self.lock_tima
    }

    fn tima_enabled(&self) -> (r: bool)
        ensures
            r == tac_enabled(self.tac),
    {
        (self.tac & 0x4) > 0
    }

    fn tima_clock_bit(&self) -> (r: u8)
        ensures
            r == clock_bit(self.tac),
    {
        let tac = self.tac;
        assert(tac & 0x3 == tac % 4) by (bit_vector);
        let selected = self.tac & 0x3;
        match selected {
            0 => 9,  // every 256 M-Ticks - or every 4th div
            1 => 3,  // every 4 M-Ticks   - or every 4 cpu instructions
            2 => 5,  // every 16 M-Ticks
            _ => 7,  // every 64 M-Ticks  - or every div
        }
    }

    /// Advances the system clock by `dots` (modulo 0x10000) and returns
    /// whether a timer interrupt is requested.
    ///
    /// A pending overflow is served first: TIMA is loaded from TMA, locked for
    /// this step, and the interrupt is requested. Otherwise, when TIMA is
    /// enabled and the selected clock bit falls on the way, TIMA is stepped; an
    /// overflow to zero is left pending for the next step.
    pub fn step_timer(&mut self, dots: u32) -> (r: bool)
        ensures
            final(self).clock() == (old(self).clock() + dots) % 0x10000,
            final(self).tma() == old(self).tma(),
            final(self).tac() == old(self).tac(),
            old(self).overflow_pending() ==> {
                &&& r
                &&& final(self).tima() == old(self).tma()
                &&& final(self).tima_locked()
                &&& !final(self).overflow_pending()
            },
            !old(self).overflow_pending() ==> {
                &&& !r
                &&& !final(self).tima_locked()
                &&& if tac_enabled(old(self).tac()) && bit_falls(
                    old(self).clock(),
                    final(self).clock(),
                    clock_bit(old(self).tac()),
                ) {
                    &&& final(self).tima() == (old(self).tima() + 1) % 256
                    &&& final(self).overflow_pending() == (final(self).tima() == 0)
                } else {
                    &&& final(self).tima() == old(self).tima()
                    &&& !final(self).overflow_pending()
                }
            },
    {
        // a dot is: 4194000 Hz
        // div step:   16384 Hz
        // so a div is stepped every 255.981445313 dots
        // or 256/4 = 64 m_ticks
        let old_clock = self.system_clock;
        assert((dots as u16) as int == dots % 65536) by (bit_vector);
        self.system_clock = self.system_clock.wrapping_add(dots as u16);
        self.lock_tima = false;

        if self.tima_overflow_delay {
            self.tima_overflow_delay = false;
            self.lock_tima = true;
            self.tima = self.tma;
            return true;
        }
        if !self.tima_enabled() {
            return false;
        }
        if Self::has_bit_gone_low(old_clock, self.system_clock, self.tima_clock_bit()) {
            self.tima_overflow_delay = self.timer_tick();
            return false;
        }
        false
    }

    /// Does bit `bit` of a clock counting from `old` to `new` fall on the way?
    pub fn has_bit_gone_low(old: u16, new: u16, bit: u8) -> (r: bool)
        requires
            bit < 15,
        ensures
            r == bit_falls(old, new, bit),
    {
        let mask = 1u16 << bit;
        let period = mask << 1u16;
        proof {
            lemma_cycle(bit);
        }
        let start = old.wrapping_add(1);
        let end = new;
        let pm1 = period - 1;
        let t = start.wrapping_add(pm1);
        // Iterate over all x where the nth bit clears on transition from x to x+1
        // i.e., x % (2^(n+1)) == (2^n) - 1 → binary pattern: ...0111... at position n
        let mut x = t & !pm1;
        let ghost x0 = x;
        let ghost x1: u16 = ((x0 + period) % 0x10000) as u16;
        proof {
            assert forall|y: u16| #[trigger]
                within_wrapped(start, end, y) && y % period == 0 implies within_wrapped(
                start,
                end,
                x0,
            ) || within_wrapped(start, end, x1) by {
                lemma_first_multiples(start, end, period, t, x0, x1, y);
            }
            lemma_first_multiples(start, end, period, t, x0, x1, 0);
        }
        assert(start == ((old + 1) % 0x10000) as u16);
        let ghost mut round: int = 0;
        loop
            invariant_except_break
                round == 0 ==> x == x0,
                round == 1 ==> x == x1 && within_wrapped(start, end, x1),
            invariant
                period as int == cycle(bit),
                start == ((old + 1) % 0x10000) as u16,
                end == new,
                0 <= round <= 1,
                x0 % period == 0,
                x1 % period == 0,
                x1 as int == (x0 + period) % 0x10000,
                forall|y: u16| #[trigger]
                    within_wrapped(start, end, y) && y % period == 0 ==> within_wrapped(
                        start,
                        end,
                        x0,
                    ) || within_wrapped(start, end, x1),
            ensures
                !bit_falls(old, new, bit),
            decreases 1 - round,
        {
            if Self::in_wrapped_range(start, end, x) {
                proof {
                    assert(within_wrapped(((old + 1) % 0x10000) as u16, new, x));
                }
                return true;
            }
            x = x.wrapping_add(period);
            // Stop if next x is out of the wrapped range
            if !Self::in_wrapped_range(start, end, x) {
                proof {
                    assert forall|y: u16| !(#[trigger] within_wrapped(start, end, y) && (y as int)
                        % cycle(bit) == 0) by {
                        if within_wrapped(start, end, y) && (y as int) % cycle(bit) == 0 {
                            assert(y % period == 0);
                        }
                    }
                }
                break;
            }
            proof {
                round = 1;
            }
        }
        false
    }

    /// Is `x` in the wrapped range from `start` to `end`?
    pub fn in_wrapped_range(start: u16, end: u16, x: u16) -> (r: bool)
        ensures
            r == within_wrapped(start, end, x),
    {
        if start <= end {
            x >= start && x <= end
        } else {
            x >= start || x <= end
        }
    }

    /// Steps TIMA by one, wrapping; returns whether it overflowed to zero.
    fn timer_tick(&mut self) -> (r: bool)
        ensures
            *final(self) == (Timer { tima: ((old(self).tima + 1) % 256) as u8, ..*old(self) }),
            r == (final(self).tima == 0),
    {
        self.tima = self.tima.wrapping_add(1);
        if self.tima == 0 {
            return true;
        }
        false
    }

    /// The timer as the boot ROM leaves it.
    pub fn new() -> (r: Self)
        ensures
            r.tima() == 0,
            r.tma() == 0,
            r.tac() == 0xf8,
            r.clock() == 0xab00,
            !r.overflow_pending(),
            !r.tima_locked(),
    {
        Timer {
            tima: 0,
            tma: 0,
            tac: 0xf8,
            // helpers
            system_clock: 0xab00,
            tima_overflow_delay: false,
            lock_tima: false,
        }
    }
}

/// Is bit `bit` of `clock` set?
pub open spec fn clock_bit_set(clock: u16, bit: u8) -> bool {
    clock & (1u16 << bit) != 0
}

impl MemoryAccessor for Timer {
    /// DIV, TIMA, TMA and TAC are at 0xFF04-0xFF07.
    open spec fn readable(&self, location: usize) -> bool {
        0xff04 <= location <= 0xff07
    }

    open spec fn read_value(&self, location: usize) -> u8 {
        if location == 0xff04 {
            (self.clock() / 256) as u8
        } else if location == 0xff05 {
            self.tima()
        } else if location == 0xff06 {
            self.tma()
        } else {
            self.tac()
        }
    }

    open spec fn writable(&self, location: usize, value: u8) -> bool {
        0xff04 <= location <= 0xff07
    }

    /// A write to DIV clears the system clock; when the selected clock bit was
    /// set, its fall steps TIMA at once. A write to TIMA cancels a pending
    /// overflow and is ignored while TIMA is locked. TMA and TAC take the byte.
    open spec fn after_write(&self, post: Self, location: usize, value: u8) -> bool {
        if location == 0xff04 {
            &&& post.clock() == 0
            &&& post.tma() == self.tma()
            &&& post.tac() == self.tac()
            &&& post.tima_locked() == self.tima_locked()
            &&& if clock_bit_set(self.clock(), clock_bit(self.tac())) {
                &&& post.tima() == (self.tima() + 1) % 256
                &&& post.overflow_pending() == (self.overflow_pending() || post.tima() == 0)
            } else {
                &&& post.tima() == self.tima()
                &&& post.overflow_pending() == self.overflow_pending()
            }
        } else if location == 0xff05 {
            &&& post.clock() == self.clock()
            &&& post.tma() == self.tma()
            &&& post.tac() == self.tac()
            &&& post.tima_locked() == self.tima_locked()
            &&& !post.overflow_pending()
            &&& post.tima() == (if self.tima_locked() {
                self.tima()
            } else {
                value
            })
        } else {
            &&& post.clock() == self.clock()
            &&& post.tima() == self.tima()
            &&& post.tima_locked() == self.tima_locked()
            &&& post.overflow_pending() == self.overflow_pending()
            &&& post.tma() == (if location == 0xff06 {
                value
            } else {
                self.tma()
            })
            &&& post.tac() == (if location == 0xff07 {
                value
            } else {
                self.tac()
            })
        }
    }

    fn get(&self, location: usize) -> (r: u8) {
        if location == 0xFF04 {
            let c = self.system_clock;
            assert(c >> 8u16 == c / 256) by (bit_vector);
            (self.system_clock >> 8u16) as u8
        } else if location == 0xFF05 {
            self.tima
        } else if location == 0xFF06 {
            self.tma
        } else {
            self.tac
        }
    }

    fn write(&mut self, location: usize, value: u8) {
        if location == 0xFF04 {
            // If this causes the TIMA block-bit to lower, this can send a premature timer_tick
            if self.system_clock & (1u16 << self.tima_clock_bit()) > 0 {
                let overflowed = self.timer_tick();
                self.tima_overflow_delay = self.tima_overflow_delay || overflowed;
            }
            // writing any value resets it
            self.system_clock = 0;
        } else if location == 0xFF05 {
            // writing to TIMA while the overflow is pending, should act as if no overflow happens
            // but writing to TIMA right after the overflow executed (on that exact cycle), it should
            // be ignored.
            self.tima_overflow_delay = false;
            if !self.lock_tima {
                self.tima = value;
            }
        } else if location == 0xFF06 {
            self.tma = value;
        } else {
            self.tac = value;
        }
    }
}

/// A write of any value to DIV clears the divider.
pub proof fn div_write_clears(t: Timer, post: Timer, value: u8)
    requires
        t.after_write(post, 0xff04, value),
    ensures
        post.read_value(0xff04) == 0,
{
}

/// The rate of TIMA: with the clock started from 0 (DIV just written), the
/// selected clock bit falls within the first `n` dots exactly when `n`
/// reaches 1024, 16, 64 or 256 dots for clock selects 0, 1, 2 and 3.
pub proof fn tima_rate_law(tac: u8, n: u16)
    requires
        n >= 1,
    ensures
        bit_falls(0, n, clock_bit(tac)) == (n >= (if tac % 4 == 0 {
            1024u16
        } else if tac % 4 == 1 {
            16u16
        } else if tac % 4 == 2 {
            64u16
        } else {
            256u16
        })),
{
    assert(1u16 << 9u8 == 512 && 1u16 << 3u8 == 8 && 1u16 << 5u8 == 32 && 1u16 << 7u8 == 128)
        by (bit_vector);
    let p: u16 = if tac % 4 == 0 {
        1024
    } else if tac % 4 == 1 {
        16
    } else if tac % 4 == 2 {
        64
    } else {
        256
    };
    assert(cycle(clock_bit(tac)) == p);
    assert(((0u16 + 1) % 0x10000) as u16 == 1u16);
    if n >= p {
        assert(within_wrapped(1, n, p) && (p as int) % cycle(clock_bit(tac)) == 0);
    } else {
        assert forall|x: u16| #[trigger] within_wrapped(1, n, x) implies (x as int) % cycle(
            clock_bit(tac),
        ) != 0 by {
            assert(1 <= x < p);
        }
    }
}

} // verus!
