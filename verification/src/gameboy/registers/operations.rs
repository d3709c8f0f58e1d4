//! The 8-bit ALU, rotate, shift and bit operations of the CPU, applied to a register value.
use super::set_flag;
use crate::flags::{
    flag_byte, flag_c, flag_h, flag_n, flag_z, flags, lemma_flag_byte_eq, lemma_low_nibble, lemma_u8_shifts, lemma_zero_flags,
};
use crate::registers::{bit_set, lemma_write_bit, Flag};
use vstd::prelude::*;

verus! {

/// Rotate left: bit 7 moves to bit 0.
pub open spec fn rotl(a: u8) -> u8 {
    ((2 * a) % 256 + a / 128) as u8
}

/// Rotate right: bit 0 moves to bit 7.
pub open spec fn rotr(a: u8) -> u8 {
    (a / 2 + 128 * (a % 2)) as u8
}

/// Rotate left through the carry `c`.
pub open spec fn rotl_carry(a: u8, c: bool) -> u8 {
    ((2 * a) % 256 + (if c { 1int } else { 0 })) as u8
}

/// Rotate right through the carry `c`.
pub open spec fn rotr_carry(a: u8, c: bool) -> u8 {
    (a / 2 + (if c { 128int } else { 0 })) as u8
}

/// The two nibbles of `a` exchanged.
pub open spec fn swapped(a: u8) -> u8 {
    ((a % 16) * 16 + a / 16) as u8
}

pub trait Operations: Sized {
    fn xor(&mut self, b: u8) -> u8;

    fn or(&mut self, b: u8) -> u8;

    fn and(&mut self, b: u8) -> u8;

    fn add(&mut self, b: u8) -> u8;

    fn adc(&mut self, b: u8, c: bool) -> u8;

    fn sub(&mut self, b: u8) -> u8;

    fn sbc(&mut self, b: u8, c: bool) -> u8;

    fn cp(self, b: u8) -> u8;

    fn inc(&mut self, f: &mut u8);

    fn dec(&mut self, f: &mut u8);

    fn complement(&mut self, f: u8) -> u8;

    fn set_bit(&mut self, bit: u8, value: bool)
        requires
            bit < 8,
    ;

    fn has_flag(self, flag: Flag) -> bool;

    fn rl(&mut self, f: &mut u8);

    fn rr(&mut self, f: &mut u8);

    // cb operations
    fn bit(self, bit: u8, f: u8) -> u8
        requires
            bit < 8,
    ;

    fn rlc(&mut self) -> u8;

    fn rrc(&mut self) -> u8;

    fn sla(&mut self) -> u8;

    fn sra(&mut self) -> u8;

    fn srl(&mut self) -> u8;

    fn swap(&mut self) -> u8;
}

impl Operations for u8 {
    /// OR: Z from the result, every other flag cleared.
    fn or(&mut self, b: u8) -> (r: u8)
        ensures
            *final(self) == *old(self) | b,
            r == flags(*final(self) == 0, false, false, false),
    {
        *self = *self | b;
        let f = set_flag(0x0, Flag::Z, *self == 0);
        proof {
            lemma_zero_flags();
            lemma_flag_byte_eq(f, 0, *self == 0, false, false, false);
        }
        f
    }

    /// AND: Z from the result, H set, N and C cleared.
    fn and(&mut self, b: u8) -> (r: u8)
        ensures
            *final(self) == *old(self) & b,
            r == flags(*final(self) == 0, false, true, false),
    {
        *self = *self & b;
        let mut f = set_flag(0x0, Flag::Z, *self == 0);
        f = set_flag(f, Flag::H, true);
        proof {
            lemma_zero_flags();
            lemma_flag_byte_eq(f, 0, *self == 0, false, true, false);
        }
        f
    }

    /// XOR: Z from the result, every other flag cleared.
    fn xor(&mut self, b: u8) -> (r: u8)
        ensures
            *final(self) == *old(self) ^ b,
            r == flags(*final(self) == 0, false, false, false),
    {
        *self = *self ^ b;
        let f = set_flag(0x0, Flag::Z, *self == 0);
        proof {
            lemma_zero_flags();
            lemma_flag_byte_eq(f, 0, *self == 0, false, false, false);
        }
        f
    }

    /// INC: adds one modulo 256; C and the low nibble of `f` are kept.
    fn inc(&mut self, f: &mut u8)
        ensures
            *final(self) == (*old(self) + 1) % 256,
            *final(f) == flag_byte(
                *old(f),
                *final(self) == 0,
                false,
                *old(self) % 16 == 15,
                flag_c(*old(f)),
            ),
    {
        proof {
            lemma_low_nibble(*self);
        }
        let inc = (*self).wrapping_add(1);
        let mut new_f = set_flag(*f, Flag::H, (*self & 0x0F) + 1 > 0x0F);
        new_f = set_flag(new_f, Flag::Z, inc == 0);
        new_f = set_flag(new_f, Flag::N, false);
        *self = inc;
        *f = new_f;
    }

    /// DEC: subtracts one modulo 256; C and the low nibble of `f` are kept.
    fn dec(&mut self, f: &mut u8)
        ensures
            *final(self) == (*old(self) + 255) % 256,
            *final(f) == flag_byte(
                *old(f),
                *final(self) == 0,
                true,
                *old(self) % 16 == 0,
                flag_c(*old(f)),
            ),
    {
        proof {
            lemma_low_nibble(*self);
        }
        let mut new_f = set_flag(*f, Flag::H, (*self & 0x0f) == 0);
        let dec = self.wrapping_sub(1);
        new_f = set_flag(new_f, Flag::Z, dec == 0);
        new_f = set_flag(new_f, Flag::N, true);
        *self = dec;
        *f = new_f;
    }

    /// CPL: complements every bit; sets H and N, keeps the rest of `f`.
    fn complement(&mut self, f: u8) -> (r: u8)
        ensures
            *final(self) == 255 - *old(self),
            r == flag_byte(f, crate::flags::flag_z(f), true, true, flag_c(f)),
    {
        let a = *self;
        assert(!a == 255 - a) by (bit_vector);
        *self = !*self;
        let mut f = set_flag(f, Flag::H, true);
        f = set_flag(f, Flag::N, true);
        f
    }

    /// CP: the flags of `self - b`, the register itself untouched.
    fn cp(self, b: u8) -> (r: u8)
        ensures
            r == flags(self == b, true, b % 16 > self % 16, self < b),
    {
        proof {
            lemma_low_nibble(self);
            lemma_low_nibble(b);
        }
        let a = self;
        let mut f = set_flag(0, Flag::C, a < b);
        f = set_flag(f, Flag::H, (b & 0x0f) > (a & 0x0f));
        f = set_flag(f, Flag::Z, a == b);
        f = set_flag(f, Flag::N, true);
        f
    }

    /// ADD: the sum modulo 256, with half-carry out of bit 3 and carry out of bit 7.
    fn add(&mut self, b: u8) -> (r: u8)
        ensures
            *final(self) == (*old(self) + b) % 256,
            r == flags(
                *final(self) == 0,
                false,
                *old(self) % 16 + b % 16 > 15,
                *old(self) + b > 255,
            ),
    {
        proof {
            lemma_low_nibble(*self);
            lemma_low_nibble(b);
        }
        let a = *self;
        let result = a.wrapping_add(b);
        let mut f = set_flag(0x0, Flag::Z, result == 0);
        f = set_flag(f, Flag::N, false);
        f = set_flag(f, Flag::H, (a & 0xF) + (b & 0xF) > 0xF);
        f = set_flag(f, Flag::C, (a as u16) + (b as u16) > 0xFF);
        *self = result;
        f
    }

    /// ADC: the sum with carry-in `c`, modulo 256, and its carries.
    fn adc(&mut self, b: u8, c: bool) -> (r: u8)
        ensures
            *final(self) == (*old(self) + b + (if c { 1int } else { 0 })) % 256,
            r == flags(
                *final(self) == 0,
                false,
                *old(self) % 16 + b % 16 + (if c { 1int } else { 0 }) > 15,
                *old(self) + b + (if c { 1int } else { 0 }) > 255,
            ),
    {
        proof {
            lemma_low_nibble(*self);
            lemma_low_nibble(b);
        }
        let a = *self;
        let result = a.wrapping_add(b).wrapping_add(c as u8);
        let mut f = set_flag(0x0, Flag::Z, result == 0);
        f = set_flag(f, Flag::N, false);
        f = set_flag(f, Flag::H, (a & 0xF) + (b & 0xF) + c as u8 > 0xF);
        f = set_flag(f, Flag::C, (a as u16) + (b as u16) + c as u16 > 0xFF);
        *self = result;
        f
    }

    /// SUB: the difference modulo 256, with borrow flags.
    fn sub(&mut self, b: u8) -> (r: u8)
        ensures
            *final(self) == (*old(self) + 256 - b) % 256,
            r == flags(*final(self) == 0, true, b % 16 > *old(self) % 16, *old(self) < b),
    {
        proof {
            lemma_low_nibble(*self);
            lemma_low_nibble(b);
        }
        let a = *self;
        let mut f = set_flag(0x0, Flag::C, a < b);
        f = set_flag(f, Flag::H, (b & 0x0f) > (a & 0x0f));
        let result = a.wrapping_sub(b);
        f = set_flag(f, Flag::Z, result == 0);
        f = set_flag(f, Flag::N, true);
        *self = result;
        f
    }

    /// SBC: the difference with borrow-in `c`, modulo 256, and its borrows.
    fn sbc(&mut self, b: u8, c: bool) -> (r: u8)
        ensures
            *final(self) == (*old(self) + 512 - b - (if c { 1int } else { 0 })) % 256,
            r == flags(
                *final(self) == 0,
                true,
                b % 16 + (if c { 1int } else { 0 }) > *old(self) % 16,
                *old(self) < b + (if c { 1int } else { 0 }),
            ),
    {
        proof {
            lemma_low_nibble(*self);
            lemma_low_nibble(b);
        }
        let a = *self;
        let mut f = set_flag(0x0, Flag::C, (a as u16) < b as u16 + c as u16);
        f = set_flag(f, Flag::H, (b & 0x0f) + c as u8 > (a & 0x0f));
        let result = a.wrapping_sub(b).wrapping_sub(c as u8);
        f = set_flag(f, Flag::Z, result == 0);
        f = set_flag(f, Flag::N, true);
        *self = result;
        f
    }

    /// Sets bit `bit` to `value`, every other bit kept.
    fn set_bit(&mut self, bit: u8, value: bool)
        ensures
            forall|j: u8|
                j < 8 ==> bit_set(*final(self), j) == (if j == bit {
                    value
                } else {
                    bit_set(*old(self), j)
                }),
    {
        let a = *self;
        let n = if value {
            a | (1u8 << bit)
        } else {
            a & !(1u8 << bit)
        };
        assert forall|j: u8| j < 8 implies bit_set(n, j) == (if j == bit {
            value
        } else {
            bit_set(a, j)
        }) by {
            lemma_write_bit(a, bit, value, j);
        }
        *self = n;
    }

    /// Is `flag` set in this flag byte?
    fn has_flag(self, flag: Flag) -> (r: bool)
        ensures
            r == (self & flag.spec_mask() != 0),
    {
        (self & flag.mask()) > 0
    }

    /// BIT: Z is set when bit `bit` of the register is clear; N cleared, H set, C kept.
    fn bit(self, bit: u8, f: u8) -> (r: u8)
        ensures
            r == flag_byte(f, !bit_set(self, bit), false, true, flag_c(f)),
    {
        proof {
            lemma_write_bit(self, bit, true, 0);
        }
        let res = (1u8 << bit) & self;
        let mut f = set_flag(f, Flag::Z, res == 0);
        f = set_flag(f, Flag::N, false);
        f = set_flag(f, Flag::H, true);
        f
    }

    /// RLC: rotates left; C is the bit that went round.
    fn rlc(&mut self) -> (r: u8)
        ensures
            *final(self) == rotl(*old(self)),
            r == flags(*final(self) == 0, false, false, *old(self) >= 128),
    {
        let mut a = *self;
        let new_c = a & 0x80 > 0;
        proof {
            lemma_u8_shifts(a, if a >= 128 { 1 } else { 0 });
        }
        a = a << 1u8 | (new_c as u8);
        let mut f = set_flag(0, Flag::C, new_c);
        f = set_flag(f, Flag::Z, a == 0);
        proof {
            lemma_zero_flags();
            lemma_flag_byte_eq(f, 0, flag_z(f), flag_n(f), flag_h(f), flag_c(f));
        }
        *self = a;
        f
    }

    /// RRC: rotates right; C is the bit that went round.
    fn rrc(&mut self) -> (r: u8)
        ensures
            *final(self) == rotr(*old(self)),
            r == flags(*final(self) == 0, false, false, *old(self) % 2 == 1),
    {
        let mut a = *self;
        let new_c = a & 1 > 0;
        proof {
            lemma_u8_shifts(a, a % 2);
        }
        a = a >> 1u8 | ((new_c as u8) << 7u8);
        let mut f = set_flag(0, Flag::C, new_c);
        f = set_flag(f, Flag::Z, a == 0);
        proof {
            lemma_zero_flags();
            lemma_flag_byte_eq(f, 0, flag_z(f), flag_n(f), flag_h(f), flag_c(f));
        }
        *self = a;
        f
    }

    /// SLA: shifts left; C is bit 7, bit 0 becomes 0.
    fn sla(&mut self) -> (r: u8)
        ensures
            *final(self) == (2 * *old(self)) % 256,
            r == flags(*final(self) == 0, false, false, *old(self) >= 128),
    {
        let mut a = *self;
        let c = a & 0x80 > 0;
        proof {
            lemma_u8_shifts(a, 0);
        }
        a = a << 1u8;
        let mut f = set_flag(0, Flag::Z, a == 0);
        f = set_flag(f, Flag::C, c);
        proof {
            lemma_zero_flags();
            lemma_flag_byte_eq(f, 0, flag_z(f), flag_n(f), flag_h(f), flag_c(f));
        }
        *self = a;
        f
    }

    /// SRA: shifts right keeping bit 7; C is bit 0.
    fn sra(&mut self) -> (r: u8)
        ensures
            *final(self) == *old(self) / 2 + (if *old(self) >= 128 { 128int } else { 0 }),
            r == flags(*final(self) == 0, false, false, *old(self) % 2 == 1),
    {
        let mut a = *self;
        let new_c = a & 0x01 > 0;
        proof {
            lemma_u8_shifts(a, 0);
        }
        let msb = a & 0x80;
        a = a >> 1u8 | msb;
        let mut f = set_flag(0x0, Flag::C, new_c);
        f = set_flag(f, Flag::Z, a == 0);
        proof {
            lemma_zero_flags();
            lemma_flag_byte_eq(f, 0, flag_z(f), flag_n(f), flag_h(f), flag_c(f));
        }
        *self = a;
        f
    }

    /// SWAP: exchanges the nibbles; Z from the result, every other flag cleared.
    fn swap(&mut self) -> (r: u8)
        ensures
            *final(self) == swapped(*old(self)),
            r == flags(*final(self) == 0, false, false, false),
    {
        let mut a = *self;
        proof {
            lemma_u8_shifts(a, 0);
        }
        a = (a >> 4u8) | (a << 4u8);
        let f = set_flag(0x0, Flag::Z, a == 0);
        proof {
            lemma_zero_flags();
            lemma_flag_byte_eq(f, 0, flag_z(f), flag_n(f), flag_h(f), flag_c(f));
        }
        *self = a;
        f
    }

    /// SRL: shifts right; C is bit 0, bit 7 becomes 0.
    fn srl(&mut self) -> (r: u8)
        ensures
            *final(self) == *old(self) / 2,
            r == flags(*final(self) == 0, false, false, *old(self) % 2 == 1),
    {
        let mut a = *self;
        proof {
            lemma_u8_shifts(a, 0);
        }
        let c = a & 0x01;
        a = a >> 1u8;
        let f = set_flag(0x0, Flag::C, c == 1);
        let f = set_flag(f, Flag::Z, a == 0);
        proof {
            lemma_zero_flags();
            lemma_flag_byte_eq(f, 0, flag_z(f), flag_n(f), flag_h(f), flag_c(f));
        }
        *self = a;
        f
    }

    /// RR: rotates right through the carry flag of `f`; `f` gets Z and the new C only.
    fn rr(&mut self, f: &mut u8)
        ensures
            *final(self) == rotr_carry(*old(self), flag_c(*old(f))),
            *final(f) == flags(*final(self) == 0, false, false, *old(self) % 2 == 1),
    {
        let mut a = *self;
        let new_c = a & 0x01;
        let old_c = (f.has_flag(Flag::C) as u8) << 7u8;
        proof {
            let oc: u8 = if flag_c(*f) { 1 } else { 0 };
            lemma_u8_shifts(a, oc);
            assert((oc << 7u8) == (if oc == 1 { 128u8 } else { 0u8 })) by (bit_vector)
                requires
                    oc <= 1,
            ;
        }
        a = a >> 1u8 | old_c;
        let new_f = set_flag(0x0, Flag::C, new_c == 1);
        *f = set_flag(new_f, Flag::Z, a == 0);
        proof {
            lemma_zero_flags();
            lemma_flag_byte_eq(*f, 0, flag_z(*f), flag_n(*f), flag_h(*f), flag_c(*f));
        }
        *self = a;
    }

    /// RL: rotates left through the carry flag of `f`; `f` gets Z and the new C only.
    fn rl(&mut self, f: &mut u8)
        ensures
            *final(self) == rotl_carry(*old(self), flag_c(*old(f))),
            *final(f) == flags(*final(self) == 0, false, false, *old(self) >= 128),
    {
        let mut a = *self;
        let new_c = a & 0x80 > 0;
        let old_c = f.has_flag(Flag::C);
        proof {
            lemma_u8_shifts(a, if old_c { 1 } else { 0 });
        }
        a = a << 1u8 | old_c as u8;
        let new_f = set_flag(0, Flag::Z, a == 0);
        *f = set_flag(new_f, Flag::C, new_c);
        proof {
            lemma_zero_flags();
            lemma_flag_byte_eq(*f, 0, flag_z(*f), flag_n(*f), flag_h(*f), flag_c(*f));
        }
        *self = a;
    }
}

/// SWAP undoes itself.
pub proof fn swap_swap(a: u8)
    ensures
        swapped(swapped(a)) == a,
{
}

/// RRC undoes RLC, and RLC undoes RRC.
pub proof fn rotations_undo(a: u8)
    ensures
        rotr(rotl(a)) == a,
        rotl(rotr(a)) == a,
{
}

/// RR through the carry that RL left undoes RL, and RL through the carry that
/// RR left undoes RR.
pub proof fn carry_rotations_undo(a: u8, c: bool)
    ensures
        rotr_carry(rotl_carry(a, c), a >= 128) == a,
        rotl_carry(rotr_carry(a, c), a % 2 == 1) == a,
{
}

} // verus!
