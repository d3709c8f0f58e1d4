//! The CPU flag register F as a mathematical value.
//!
//! Bit 7 is the zero flag Z, bit 6 the subtraction flag N, bit 5 the
//! half-carry flag H and bit 4 the carry flag C. The low nibble is kept as it is.
use vstd::prelude::*;

verus! {

/// Is the zero flag (bit 7) set in `f`?
pub open spec fn flag_z(f: u8) -> bool {
    f & 0x80 != 0
}

/// Is the subtraction flag (bit 6) set in `f`?
pub open spec fn flag_n(f: u8) -> bool {
    f & 0x40 != 0
}

/// Is the half-carry flag (bit 5) set in `f`?
pub open spec fn flag_h(f: u8) -> bool {
    f & 0x20 != 0
}

/// Is the carry flag (bit 4) set in `f`?
pub open spec fn flag_c(f: u8) -> bool {
    f & 0x10 != 0
}

/// The byte whose four flag bits are `z`, `n`, `h`, `c` and whose low nibble is
/// the low nibble of `low`.
pub open spec fn flag_byte(low: u8, z: bool, n: bool, h: bool, c: bool) -> u8 {
    (low & 0x0f) | (if z { 0x80u8 } else { 0u8 }) | (if n { 0x40u8 } else { 0u8 }) | (if h {
        0x20u8
    } else {
        0u8
    }) | (if c { 0x10u8 } else { 0u8 })
}

/// A fresh flag byte: the four flags given, every other bit clear.
pub open spec fn flags(z: bool, n: bool, h: bool, c: bool) -> u8 {
    flag_byte(0, z, n, h, c)
}

/// `f` with the flag whose mask is `mask` (one of 0x80, 0x40, 0x20, 0x10) set to
/// `value`, every other bit kept.
pub open spec fn with_flag(f: u8, mask: u8, value: bool) -> u8 {
    flag_byte(
        f,
        if mask == 0x80 { value } else { flag_z(f) },
        if mask == 0x40 { value } else { flag_n(f) },
        if mask == 0x20 { value } else { flag_h(f) },
        if mask == 0x10 { value } else { flag_c(f) },
    )
}

/// The four flag bits and the low nibble of a flag byte are the ones it was built from.
pub proof fn lemma_flag_byte_bits(low: u8, z: bool, n: bool, h: bool, c: bool)
    ensures
        flag_z(flag_byte(low, z, n, h, c)) == z,
        flag_n(flag_byte(low, z, n, h, c)) == n,
        flag_h(flag_byte(low, z, n, h, c)) == h,
        flag_c(flag_byte(low, z, n, h, c)) == c,
        flag_byte(low, z, n, h, c) & 0x0f == low & 0x0f,
{
    assert(flag_z(flag_byte(low, z, n, h, c)) == z && flag_n(flag_byte(low, z, n, h, c)) == n
        && flag_h(flag_byte(low, z, n, h, c)) == h && flag_c(flag_byte(low, z, n, h, c)) == c
        && flag_byte(low, z, n, h, c) & 0x0f == low & 0x0f) by (bit_vector);
}

/// A byte whose four flag bits and low nibble are given is the flag byte built from them.
pub proof fn lemma_flag_byte_eq(r: u8, low: u8, z: bool, n: bool, h: bool, c: bool)
    requires
        flag_z(r) == z,
        flag_n(r) == n,
        flag_h(r) == h,
        flag_c(r) == c,
        r & 0x0f == low & 0x0f,
    ensures
        r == flag_byte(low, z, n, h, c),
{
    let y = flag_byte(low, z, n, h, c);
    lemma_flag_byte_bits(low, z, n, h, c);
    assert(r == y) by (bit_vector)
        requires
            (r & 0x80 != 0) == (y & 0x80 != 0),
            (r & 0x40 != 0) == (y & 0x40 != 0),
            (r & 0x20 != 0) == (y & 0x20 != 0),
            (r & 0x10 != 0) == (y & 0x10 != 0),
            r & 0x0f == y & 0x0f,
    ;
}

/// The zero byte has every flag clear.
pub proof fn lemma_zero_flags()
    ensures
        !flag_z(0),
        !flag_n(0),
        !flag_h(0),
        !flag_c(0),
        0u8 & 0x0f == 0,
{
    assert(0u8 & 0x80 == 0 && 0u8 & 0x40 == 0 && 0u8 & 0x20 == 0 && 0u8 & 0x10 == 0 && 0u8 & 0x0f
        == 0) by (bit_vector);
}

/// Setting or clearing one flag bit by `|` or `& !` is `with_flag`.
pub proof fn lemma_set_flag_bits(f: u8, mask: u8, value: bool)
    requires
        mask == 0x80 || mask == 0x40 || mask == 0x20 || mask == 0x10,
    ensures
        (if value { f | mask } else { f & !mask }) == with_flag(f, mask, value),
{
    assert((if value { f | mask } else { f & !mask }) == with_flag(f, mask, value)) by (bit_vector)
        requires
            mask == 0x80 || mask == 0x40 || mask == 0x20 || mask == 0x10,
    ;
}

/// Masking with 0x0f keeps the value modulo 16.
pub proof fn lemma_low_nibble(x: u8)
    ensures
        x & 0x0f == x % 16,
        x & 0xf0 == x - x % 16,
{
    assert(x & 0x0f == x % 16 && x & 0xf0 == x - x % 16) by (bit_vector);
}

/// Shifts and rotations of a byte as arithmetic; `c` is a carry bit.
pub proof fn lemma_u8_shifts(a: u8, c: u8)
    requires
        c <= 1,
    ensures
        a << 1u8 == (2 * a) % 256,
        a >> 1u8 == a / 2,
        (a << 1u8) | c == (2 * a) % 256 + c,
        (a >> 1u8) | (c << 7u8) == a / 2 + 128 * c,
        (a >> 4u8) | (a << 4u8) == (a % 16) * 16 + a / 16,
        (a >> 1u8) | (a & 0x80) == a / 2 + (if a >= 128 { 128int } else { 0 }),
        (a & 0x80 > 0) == (a >= 128),
        (a & 0x01 > 0) == (a % 2 == 1),
        a & 0x01 == a % 2,
{
    assert(a << 1u8 == (2 * a) % 256 && a >> 1u8 == a / 2 && (a << 1u8) | c == (2 * a) % 256 + c
        && (a >> 1u8) | (c << 7u8) == a / 2 + 128 * c) by (bit_vector)
        requires
            c <= 1,
    ;
    assert((a >> 4u8) | (a << 4u8) == (a % 16) * 16 + a / 16 && (a >> 1u8) | (a & 0x80) == a / 2 + (
    if a >= 128 {
        128int
    } else {
        0
    }) && (a & 0x80 > 0) == (a >= 128) && (a & 0x01 > 0) == (a % 2 == 1) && a & 0x01 == a % 2)
        by (bit_vector);
}

/// Masks and shifts of a byte as arithmetic.
pub proof fn lemma_u8_fields(x: u8)
    ensures
        x & 0x01 == x % 2,
        x & 0x03 == x % 4,
        x & 0x07 == x % 8,
        x & 0x0f == x % 16,
        x & 0x1f == x % 32,
        x & 0x3f == x % 64,
        x >> 3u8 == x / 8,
        x >> 4u8 == x / 16,
        x >> 5u8 == x / 32,
        x >> 6u8 == x / 64,
        x >> 7u8 == x / 128,
        (x >> 4u8) & 0x7 == (x / 16) % 8,
        (x & 0x60) >> 5u8 == (x / 32) % 4,
{
    assert(x & 0x01 == x % 2 && x & 0x03 == x % 4 && x & 0x07 == x % 8 && x & 0x0f == x % 16 && x
        & 0x1f == x % 32 && x & 0x3f == x % 64) by (bit_vector);
    assert(x >> 3u8 == x / 8 && x >> 4u8 == x / 16 && x >> 5u8 == x / 32 && x >> 6u8 == x / 64 && x
        >> 7u8 == x / 128 && (x >> 4u8) & 0x7 == (x / 16) % 8 && (x & 0x60) >> 5u8 == (x / 32) % 4)
        by (bit_vector);
}

} // verus!
