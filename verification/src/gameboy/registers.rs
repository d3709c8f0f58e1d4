//! CPU registers of the windowed emulator.
pub mod operations;

use crate::flags::{flag_c, flag_h, flag_n, flag_z, lemma_flag_byte_bits, lemma_set_flag_bits};
use crate::registers::{add16_spec, flag_set, lemma_pack_u16, pair, Flag};
use vstd::prelude::*;

verus! {

/// Sets or clears one flag of `f`, keeping every other bit.
pub fn set_flag(f: u8, flag: Flag, value: bool) -> (r: u8)
    ensures
        r == flag_set(f, flag, value),
        flag_z(r) == (if flag == Flag::Z { value } else { flag_z(f) }),
        flag_n(r) == (if flag == Flag::N { value } else { flag_n(f) }),
        flag_h(r) == (if flag == Flag::H { value } else { flag_h(f) }),
        flag_c(r) == (if flag == Flag::C { value } else { flag_c(f) }),
        r & 0x0f == f & 0x0f,
{
    let m = flag.mask();
    proof {
        lemma_set_flag_bits(f, m, value);
        lemma_flag_byte_bits(
            f,
            if m == 0x80 { value } else { flag_z(f) },
            if m == 0x40 { value } else { flag_n(f) },
            if m == 0x20 { value } else { flag_h(f) },
            if m == 0x10 { value } else { flag_c(f) },
        );
    }
    if value {
        f | m
    } else {
        f & !m
    }
}

/// The CPU registers; AF, BC, DE and HL are the 16-bit pairs of the 8-bit ones.
pub struct Registers {
    pub a: u8,
    pub f: u8,
    pub b: u8,
    pub c: u8,
    pub d: u8,
    pub e: u8,
    pub h: u8,
    pub l: u8,
    pub pc: u16,
    pub sp: u16,
}

impl Registers {
    pub fn set_hl(&mut self, v: u16)
        ensures
            *final(self) == (Registers { h: (v / 256) as u8, l: (v % 256) as u8, ..*old(self) }),
    {
        proof {
            lemma_pack_u16(0, 0, v);
        }
        self.h = (v >> 8) as u8;
        self.l = (v & 0x00FF) as u8;
    }

    pub fn get_hl(&self) -> (r: u16)
        ensures
            r == pair(self.h, self.l),
    {
        proof {
            lemma_pack_u16(self.h, self.l, 0);
        }
        (self.h as u16) << 8 | self.l as u16
    }

    pub fn set_af(&mut self, v: u16)
        ensures
            *final(self) == (Registers { a: (v / 256) as u8, f: (v % 256) as u8, ..*old(self) }),
    {
        proof {
            lemma_pack_u16(0, 0, v);
        }
        self.a = (v >> 8) as u8;
        self.f = (v & 0x00FF) as u8;
    }

    pub fn get_af(&self) -> (r: u16)
        ensures
            r == pair(self.a, self.f),
    {
        proof {
            lemma_pack_u16(self.a, self.f, 0);
        }
        (self.a as u16) << 8 | self.f as u16
    }

    pub fn set_bc(&mut self, v: u16)
        ensures
            *final(self) == (Registers { b: (v / 256) as u8, c: (v % 256) as u8, ..*old(self) }),
    {
        proof {
            lemma_pack_u16(0, 0, v);
        }
        self.b = (v >> 8) as u8;
        self.c = (v & 0x00FF) as u8;
    }

    pub fn get_bc(&self) -> (r: u16)
        ensures
            r == pair(self.b, self.c),
    {
        proof {
            lemma_pack_u16(self.b, self.c, 0);
        }
        (self.b as u16) << 8 | self.c as u16
    }

    pub fn set_de(&mut self, v: u16)
        ensures
            *final(self) == (Registers { d: (v / 256) as u8, e: (v % 256) as u8, ..*old(self) }),
    {
        proof {
            lemma_pack_u16(0, 0, v);
        }
        self.d = (v >> 8) as u8;
        self.e = (v & 0x00FF) as u8;
    }

    pub fn get_de(&self) -> (r: u16)
        ensures
            r == pair(self.d, self.e),
    {
        proof {
            lemma_pack_u16(self.d, self.e, 0);
        }
        (self.d as u16) << 8 | self.e as u16
    }

    /// Returns the current program counter and advances it by one.
    pub fn step_pc(&mut self) -> (r: usize)
        requires
            old(self).pc < 0xffff,
        ensures
            r == old(self).pc,
            *final(self) == (Registers { pc: (old(self).pc + 1) as u16, ..*old(self) }),
    {
        let current = self.pc;
        self.pc = self.pc + 1;
        current as usize
    }

    pub fn set_pc(&mut self, loc: u16)
        ensures
            *final(self) == (Registers { pc: loc, ..*old(self) }),
    {
        self.pc = loc;
    }

    /// 16-bit ADD of `a` and `b`, with the flags derived from `f`.
    pub fn add(a: u16, b: u16, f: u8) -> (r: (u16, u8))
        ensures
            r == add16_spec(a, b, f),
    {
        let result = a.wrapping_add(b);
        assert((a & 0x07FF) == a % 2048 && (b & 0x07FF) == b % 2048) by (bit_vector);
        let mut f = set_flag(f, Flag::H, (a & 0x07FF) + (b & 0x07FF) > 0x07FF);
        f = set_flag(f, Flag::C, a > 0xFFFF - b);
        f = set_flag(f, Flag::N, false);
        (result, f)
    }

    /// The registers after the boot ROM of the classic Game Boy.
    pub fn new() -> (r: Self)
        ensures
            r == (Registers {
                pc: 0x100,
                sp: 0xFFFE,
                a: 0x01,
                l: 0x4d,
                f: 0xB0,
                b: 0x00,
                c: 0x13,
                d: 0x00,
                e: 0xd8,
                h: 0x01,
            }),
    {
        Registers {
            // Classic
            pc: 0x100,
            sp: 0xFFFE,
            a: 0x01,  // 0xFF for GameBoy Pocket
            l: 0x4d,
            f: 0xB0,
            b: 0x00,
            c: 0x13,
            d: 0x00,
            e: 0xd8,
            h: 0x01,
        }
    }
}

} // verus!
