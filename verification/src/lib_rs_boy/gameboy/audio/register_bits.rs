//! The bit-field arithmetic of the sound registers.
use crate::registers::bit_set;
use vstd::prelude::*;

verus! {

/// A register made of a four-bit field `a`, a flag `b` in bit 3 and a
/// three-bit field `c` is their weighted sum, in either order of the `|`,
/// and with bit 7 set too when `a` has three bits.
pub proof fn lemma_field_pack(a: u8, b: bool, c: u8)
    by (bit_vector)
    requires
        a <= 15,
        c <= 7,
    ensures
        (a << 4u8) | ((b as u8) << 3u8) | c == a * 16 + (if b { 8int } else { 0 }) + c,
        c | ((b as u8) << 3u8) | (a << 4u8) == a * 16 + (if b { 8int } else { 0 }) + c,
        a <= 7 ==> 0x80u8 | (a << 4u8) | ((b as u8) << 3u8) | c == (0x80 + a * 16 + (if b {
            8int
        } else {
            0
        }) + c) as u8,
{
}

/// Flags and small fields placed above constant bits; a level read from a
/// duty pattern; and bit 3 of a value below 8.
pub proof fn lemma_flag_pack(b: bool, l: u8, d: u8, t: u8, pattern: u8, index: u8, v: u8)
    by (bit_vector)
    ensures
        ((b as u8) << 7u8) | 0x7fu8 == (if b { 0xffu8 } else { 0x7fu8 }),
        0x80u8 | ((b as u8) << 6u8) | 0x38u8 | 0x7u8 == (if b { 0xffu8 } else { 0xbfu8 }),
        0xbfu8 | ((b as u8) << 6u8) == (if b { 0xffu8 } else { 0xbfu8 }),
        0xffu8 & ((b as u8) << 6u8) == (if b { 0x40u8 } else { 0u8 }),
        l <= 3 ==> (l << 5u8) | 0x9fu8 == 0x9f + l * 32,
        d <= 3 ==> 0x3fu8 | (d << 6u8) == 0x3f + d * 64,
        (d <= 3 && t <= 63) ==> t | (d << 6u8) == t + d * 64,
        (pattern >> index) & 1 == (if (pattern >> index) & 1 == 1 { 1u8 } else { 0u8 }),
        v < 8 ==> !bit_set(v, 3),
{
}

/// The period registers: a shift never grows a value, the low byte and the
/// high bits of an 11-bit period, and the NRx4 read of the windowed channels.
pub proof fn lemma_period_bits(p: u16, k: u8, value: u8, trigger: bool, length: bool)
    by (bit_vector)
    ensures
        p >> k <= p,
        (p & 0xff) as u8 == p % 256,
        p < 2048 ==> (p & 0x700) | (value as u16) == (p / 256) * 256 + value,
        p < 2048 ==> (p & 0xff) | (((value as u16) & 7) << 8u16) == p % 256 + (value % 8) * 256,
        p < 2048 ==> ((trigger as u8) << 7u8) | ((length as u8) << 6u8) | ((p >> 8u16) as u8) == (
        if trigger {
            128int
        } else {
            0
        }) + (if length {
            64int
        } else {
            0
        }) + p / 256,
{
}

} // verus!
