//! CPU registers and the 8-bit ALU operations on them.
use crate::flags::{flag_byte, flag_c, flag_h, flag_n, flag_z, flags, lemma_flag_byte_bits, lemma_low_nibble, lemma_set_flag_bits, with_flag};
use vstd::prelude::*;

verus! {

/// One of the four flags held in the upper nibble of register F.
#[derive(Copy, Clone, PartialEq, Eq, Structural)]
pub enum Flag {
    /// carry
    C,
    /// half-carry
    H,
    /// substraction
    N,
    /// zero - indicates that result was zero
    Z,
}

impl Flag {
    /// The bit of F that holds this flag.
    pub open spec fn spec_mask(self) -> u8 {
        match self {
            Flag::C => 0x10,
            Flag::H => 0x20,
            Flag::N => 0x40,
            Flag::Z => 0x80,
        }
    }

    /// The bit of F that holds this flag.
    #[verifier::when_used_as_spec(spec_mask)]
    pub fn mask(self) -> (m: u8)
        ensures
            m == self.spec_mask(),
    {
        match self {
            Flag::C => 0x10,
            Flag::H => 0x20,
            Flag::N => 0x40,
            Flag::Z => 0x80,
        }
    }
}

/// `f` with `flag` set to `value`.
pub open spec fn flag_set(f: u8, flag: Flag, value: bool) -> u8 {
    with_flag(f, flag.spec_mask(), value)
}

/// Is bit `i` of `x` set?
pub open spec fn bit_set(x: u8, i: u8) -> bool {
    (x >> i) & 1 == 1
}

/// Sets or clears one flag of `f`, keeping every other bit.
fn set_flag(f: u8, flag: Flag, value: bool) -> (r: u8)
    ensures
        r == flag_set(f, flag, value),
        flag_z(r) == (if flag == Flag::Z { value } else { flag_z(f) }),
        flag_n(r) == (if flag == Flag::N { value } else { flag_n(f) }),
        flag_h(r) == (if flag == Flag::H { value } else { flag_h(f) }),
        flag_c(r) == (if flag == Flag::C { value } else { flag_c(f) }),
        r & 0x0f == f & 0x0f,
{
    let m = flag.mask();
    proof {
        lemma_set_flag_bits(f, m, value);
        lemma_flag_byte_bits(
            f,
            if m == 0x80 { value } else { flag_z(f) },
            if m == 0x40 { value } else { flag_n(f) },
            if m == 0x20 { value } else { flag_h(f) },
            if m == 0x10 { value } else { flag_c(f) },
        );
    }
    if value {
        f | m
    } else {
        f & !m
    }
}

/// Setting bit `bit` of `a` to `value` changes that bit only.
pub proof fn lemma_write_bit(a: u8, bit: u8, value: bool, j: u8)
    requires
        bit < 8,
        j < 8,
    ensures
        bit_set(if value { a | (1u8 << bit) } else { a & !(1u8 << bit) }, j) == (if j == bit {
            value
        } else {
            bit_set(a, j)
        }),
        ((1u8 << bit) & a == 0) == !bit_set(a, bit),
        (a & (1u8 << bit) > 0) == bit_set(a, bit),
{
    assert(bit_set(if value { a | (1u8 << bit) } else { a & !(1u8 << bit) }, j) == (if j == bit {
        value
    } else {
        bit_set(a, j)
    }) && (((1u8 << bit) & a == 0) == !bit_set(a, bit)) && ((a & (1u8 << bit) > 0) == bit_set(
        a,
        bit,
    ))) by (bit_vector)
        requires
            bit < 8,
            j < 8,
    ;
}

/// The single-bit masks of a byte.
pub proof fn lemma_bit_masks()
    ensures
        1u8 << 0u8 == 0x01,
        1u8 << 1u8 == 0x02,
        1u8 << 2u8 == 0x04,
        1u8 << 3u8 == 0x08,
        1u8 << 4u8 == 0x10,
        1u8 << 5u8 == 0x20,
        1u8 << 6u8 == 0x40,
        1u8 << 7u8 == 0x80,
{
    assert(1u8 << 0u8 == 0x01 && 1u8 << 1u8 == 0x02 && 1u8 << 2u8 == 0x04 && 1u8 << 3u8 == 0x08
        && 1u8 << 4u8 == 0x10 && 1u8 << 5u8 == 0x20 && 1u8 << 6u8 == 0x40 && 1u8 << 7u8 == 0x80)
        by (bit_vector);
}

/// The 8-bit ALU operations of the CPU, applied to a register value.
pub trait RegisterOperation: Sized {
    fn xor(&mut self, b: u8) -> u8;

    fn or(&mut self, b: u8) -> u8;

    fn and(&mut self, b: u8) -> u8;

    fn add(&mut self, b: u8) -> u8;

    fn sub(&mut self, b: u8) -> u8;

    fn cp(self, b: u8) -> u8;

    fn inc(&mut self, f: u8) -> u8;

    fn dec(&mut self, f: u8) -> u8;

    fn complement(&mut self, f: u8) -> u8;

    fn set_bit(&mut self, bit: u8, value: bool)
        requires
            bit < 8,
    ;

    fn has_flag(self, flag: Flag) -> bool;

    // cb operations
    fn bit(self, bit: u8, f: u8) -> u8
        requires
            bit < 8,
    ;
}

impl RegisterOperation for u8 {
    /// OR: Z from the result, N, H, C cleared.
    fn or(&mut self, b: u8) -> (r: u8)
        ensures
            *final(self) == *old(self) | b,
            r == flags(*final(self) == 0, false, false, false),
    {
        *self = *self | b;
        let mut f = set_flag(0x0, Flag::Z, *self == 0);
        f = set_flag(f, Flag::N, false);
        f = set_flag(f, Flag::H, false);
        f = set_flag(f, Flag::C, false);
        f
    }

    /// AND: Z from the result, H set, N and C cleared.
    fn and(&mut self, b: u8) -> (r: u8)
        ensures
            *final(self) == *old(self) & b,
            r == flags(*final(self) == 0, false, true, false),
    {
        *self = *self & b;
        let mut f = set_flag(0x0, Flag::Z, *self == 0);
        f = set_flag(f, Flag::N, false);
        f = set_flag(f, Flag::H, true);
        f = set_flag(f, Flag::C, false);
        f
    }

    /// XOR: Z from the result, N, H, C cleared.
    fn xor(&mut self, b: u8) -> (r: u8)
        ensures
            *final(self) == *old(self) ^ b,
            r == flags(*final(self) == 0, false, false, false),
    {
        *self = *self ^ b;
        let mut f = set_flag(0x0, Flag::Z, *self == 0);
        f = set_flag(f, Flag::N, false);
        f = set_flag(f, Flag::H, false);
        f = set_flag(f, Flag::C, false);
        f
    }

    /// INC: adds one modulo 256; C and the low nibble of `f` are kept.
    fn inc(&mut self, f: u8) -> (r: u8)
        ensures
            *final(self) == (*old(self) + 1) % 256,
            r == flag_byte(f, *final(self) == 0, false, *old(self) % 16 == 15, flag_c(f)),
    {
        proof {
            lemma_low_nibble(*self);
        }
        let inc = (*self).wrapping_add(1);
        let mut f = set_flag(f, Flag::H, (*self & 0x0F) + 1 > 0x0F);
        f = set_flag(f, Flag::Z, inc == 0);
        f = set_flag(f, Flag::N, false);
        *self = inc;
        f
    }

    /// DEC: subtracts one modulo 256; C and the low nibble of `f` are kept.
    fn dec(&mut self, f: u8) -> (r: u8)
        ensures
            *final(self) == (*old(self) + 255) % 256,
            r == flag_byte(f, *final(self) == 0, true, *old(self) % 16 == 0, flag_c(f)),
    {
        proof {
            lemma_low_nibble(*self);
        }
        let mut f = set_flag(f, Flag::H, (*self & 0x0f) == 0);
        let dec = self.wrapping_sub(1);
        f = set_flag(f, Flag::Z, dec == 0);
        f = set_flag(f, Flag::N, true);
        *self = dec;
        f
    }

    /// CPL: complements every bit; sets H and N, keeps the rest of `f`.
    fn complement(&mut self, f: u8) -> (r: u8)
        ensures
            *final(self) == 255 - *old(self),
            r == flag_byte(f, flag_z(f), true, true, flag_c(f)),
    {
        let a = *self;
        assert(!a == 255 - a) by (bit_vector);
        *self = !*self;
        let mut f = set_flag(f, Flag::H, true);
        f = set_flag(f, Flag::N, true);
        f
    }

    /// CP: the flags of `self - b`, the register itself untouched.
    fn cp(self, b: u8) -> (r: u8)
        ensures
            r == flags(self == b, true, b % 16 > self % 16, self < b),
    {
        proof {
            lemma_low_nibble(self);
            lemma_low_nibble(b);
        }
        let a = self;
        let mut f = set_flag(0, Flag::C, a < b);
        f = set_flag(f, Flag::H, (b & 0x0f) > (a & 0x0f));
        f = set_flag(f, Flag::Z, a == b);
        f = set_flag(f, Flag::N, true);
        f
    }

    /// ADD: the sum modulo 256, with half-carry out of bit 3 and carry out of bit 7.
    fn add(&mut self, b: u8) -> (r: u8)
        ensures
            *final(self) == (*old(self) + b) % 256,
            r == flags(
                *final(self) == 0,
                false,
                *old(self) % 16 + b % 16 > 15,
                *old(self) + b > 255,
            ),
    {
        proof {
            lemma_low_nibble(*self);
            lemma_low_nibble(b);
        }
        let a = *self;
        let result = a.wrapping_add(b);
        let mut f = set_flag(0x0, Flag::Z, result == 0);
        f = set_flag(f, Flag::N, false);
        f = set_flag(f, Flag::H, (a & 0xF) + (b & 0xF) > 0xF);
        f = set_flag(f, Flag::C, (a as u16) + (b as u16) > 0xFF);
        *self = result;
        f
    }

    /// SUB: the difference modulo 256, with borrow flags.
    fn sub(&mut self, b: u8) -> (r: u8)
        ensures
            *final(self) == (*old(self) + 256 - b) % 256,
            r == flags(*final(self) == 0, true, b % 16 > *old(self) % 16, *old(self) < b),
    {
        proof {
            lemma_low_nibble(*self);
            lemma_low_nibble(b);
        }
        let a = *self;
        let mut f = set_flag(0x0, Flag::C, a < b);
        f = set_flag(f, Flag::H, (b & 0x0f) > (a & 0x0f));
        let result = a.wrapping_sub(b);
        f = set_flag(f, Flag::Z, result == 0);
        f = set_flag(f, Flag::N, true);
        *self = result;
        f
    }

    /// Sets bit `bit` to `value`, every other bit kept.
    fn set_bit(&mut self, bit: u8, value: bool)
        ensures
            forall|j: u8|
                j < 8 ==> bit_set(*final(self), j) == (if j == bit {
                    value
                } else {
                    bit_set(*old(self), j)
                }),
    {
        let a = *self;
        let n = if value {
            a | (1u8 << bit)
        } else {
            a & !(1u8 << bit)
        };
        assert forall|j: u8| j < 8 implies bit_set(n, j) == (if j == bit {
            value
        } else {
            bit_set(a, j)
        }) by {
            lemma_write_bit(a, bit, value, j);
        }
        *self = n;
    }

    /// Is `flag` set in this flag byte?
    fn has_flag(self, flag: Flag) -> (r: bool)
        ensures
            r == (self & flag.spec_mask() != 0),
    {
        (self & flag.mask()) > 0
    }

    /// BIT: Z is set when bit `bit` of the register is clear; N cleared, H set, C kept.
    fn bit(self, bit: u8, f: u8) -> (r: u8)
        ensures
            r == flag_byte(f, !bit_set(self, bit), false, true, flag_c(f)),
    {
        proof {
            lemma_write_bit(self, bit, true, 0);
        }
        let res = (1u8 << bit) & self;
        let mut f = set_flag(f, Flag::Z, res == 0);
        f = set_flag(f, Flag::N, false);
        f = set_flag(f, Flag::H, true);
        f
    }
}

/// Packing a high and a low byte into a 16-bit word, and splitting it back.
pub proof fn lemma_pack_u16(h: u8, l: u8, v: u16)
    ensures
        ((h as u16) << 8u16 | l as u16) == h * 256 + l,
        ((v >> 8u16) as u8) == v / 256,
        ((v & 0x00FF) as u8) == v % 256,
{
    assert(((h as u16) << 8u16 | l as u16) == h * 256 + l) by (bit_vector);
    assert(((v >> 8u16) as u8) == v / 256 && ((v & 0x00FF) as u8) == v % 256) by (bit_vector);
}

/// The CPU registers; AF, BC, DE and HL are the 16-bit pairs of the 8-bit ones.
pub struct Registers {
    pub a: u8,
    pub f: u8,
    pub b: u8,
    pub c: u8,
    pub d: u8,
    pub e: u8,
    pub h: u8,
    pub l: u8,
    pub pc: u16,
    pub sp: u16,
}

/// The 16-bit value of a register pair.
pub open spec fn pair(hi: u8, lo: u8) -> u16 {
    (hi * 256 + lo) as u16
}

/// The result of a 16-bit ADD and its flags: Z kept, N cleared, H the carry
/// out of bit 11, C the carry out of bit 15.
pub open spec fn add16_spec(a: u16, b: u16, f: u8) -> (u16, u8) {
    (
        ((a + b) % 65536) as u16,
        flag_byte(f, flag_z(f), false, a % 2048 + b % 2048 > 2047, a + b > 65535),
    )
}

impl Registers {
    pub fn set_hl(&mut self, v: u16)
        ensures
            *final(self) == (Registers { h: (v / 256) as u8, l: (v % 256) as u8, ..*old(self) }),
    {
        proof {
            lemma_pack_u16(0, 0, v);
        }
        self.h = (v >> 8) as u8;
        self.l = (v & 0x00FF) as u8;
    }

    pub fn get_hl(&self) -> (r: u16)
        ensures
            r == pair(self.h, self.l),
    {
        proof {
            lemma_pack_u16(self.h, self.l, 0);
        }
        (self.h as u16) << 8 | self.l as u16
    }

    pub fn set_af(&mut self, v: u16)
        ensures
            *final(self) == (Registers { a: (v / 256) as u8, f: (v % 256) as u8, ..*old(self) }),
    {
        proof {
            lemma_pack_u16(0, 0, v);
        }
        self.a = (v >> 8) as u8;
        self.f = (v & 0x00FF) as u8;
    }

    pub fn get_af(&self) -> (r: u16)
        ensures
            r == pair(self.a, self.f),
    {
        proof {
            lemma_pack_u16(self.a, self.f, 0);
        }
        (self.a as u16) << 8 | self.f as u16
    }

    pub fn set_bc(&mut self, v: u16)
        ensures
            *final(self) == (Registers { b: (v / 256) as u8, c: (v % 256) as u8, ..*old(self) }),
    {
        proof {
            lemma_pack_u16(0, 0, v);
        }
        self.b = (v >> 8) as u8;
        self.c = (v & 0x00FF) as u8;
    }

    pub fn get_bc(&self) -> (r: u16)
        ensures
            r == pair(self.b, self.c),
    {
        proof {
            lemma_pack_u16(self.b, self.c, 0);
        }
        (self.b as u16) << 8 | self.c as u16
    }

    pub fn set_de(&mut self, v: u16)
        ensures
            *final(self) == (Registers { d: (v / 256) as u8, e: (v % 256) as u8, ..*old(self) }),
    {
        proof {
            lemma_pack_u16(0, 0, v);
        }
        self.d = (v >> 8) as u8;
        self.e = (v & 0x00FF) as u8;
    }

    pub fn get_de(&self) -> (r: u16)
        ensures
            r == pair(self.d, self.e),
    {
        proof {
            lemma_pack_u16(self.d, self.e, 0);
        }
        (self.d as u16) << 8 | self.e as u16
    }

    /// Returns the current program counter and advances it by one.
    pub fn step_pc(&mut self) -> (r: usize)
        requires
            old(self).pc < 0xffff,
        ensures
            r == old(self).pc,
            *final(self) == (Registers { pc: (old(self).pc + 1) as u16, ..*old(self) }),
    {
        let current = self.pc;
        self.pc = self.pc + 1;
        current as usize
    }

    pub fn set_pc(&mut self, loc: u16)
        ensures
            *final(self) == (Registers { pc: loc, ..*old(self) }),
    {
        self.pc = loc;
    }

    /// 16-bit ADD of `a` and `b`, with the flags derived from `f`.
    pub fn add(a: u16, b: u16, f: u8) -> (r: (u16, u8))
        ensures
            r == add16_spec(a, b, f),
    {
        let result = a.wrapping_add(b);
        assert((a & 0x07FF) == a % 2048 && (b & 0x07FF) == b % 2048) by (bit_vector);
        let mut f = set_flag(f, Flag::H, (a & 0x07FF) + (b & 0x07FF) > 0x07FF);
        f = set_flag(f, Flag::C, a > 0xFFFF - b);
        f = set_flag(f, Flag::N, false);
        (result, f)
    }
}

/// Writing a register pair and reading it back gives the value written: the
/// high and low bytes that `set_*` stores make up `v` again.
pub proof fn pair_of_halves(v: u16)
    ensures
        pair((v / 256) as u8, (v % 256) as u8) == v,
{
}

/// Reading a register pair and writing it back leaves both registers as they were.
pub proof fn halves_of_pair(hi: u8, lo: u8)
    ensures
        (pair(hi, lo) / 256) as u8 == hi,
        (pair(hi, lo) % 256) as u8 == lo,
{
}

/// The 16-bit ADD: the sum wraps at 0x10000; H is set exactly when the low 11
/// bits carry (the sum of `a` and `b` modulo 2048 reaches 2048), C exactly
/// when the 16-bit sum carries, N is cleared, and Z and the low nibble of the
/// flag byte are kept. So 0x00FF + 0x0001 leaves H clear and 0x07FF + 0x0001
/// sets it.
pub proof fn add16_law(a: u16, b: u16, f: u8)
    ensures
        ({
            let (r, g) = add16_spec(a, b, f);
            &&& r as int + (if a as int + b as int > 0xffff { 0x10000int } else { 0 }) == a + b
            &&& flag_h(g) == (a % 2048 + b % 2048 >= 2048)
            &&& flag_c(g) == (a as int + b as int >= 0x10000)
            &&& !flag_n(g)
            &&& flag_z(g) == flag_z(f)
            &&& g & 0x0f == f & 0x0f
        }),
{
    lemma_flag_byte_bits(f, flag_z(f), false, a % 2048 + b % 2048 > 2047, a + b > 65535);
}

} // verus!
