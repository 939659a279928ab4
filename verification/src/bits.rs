use vstd::prelude::*;

verus! {

/// The 16-bit value whose high byte is `hi` and whose low byte is `lo`.
#[verifier::opaque]
pub open spec fn pair(hi: u8, lo: u8) -> u16 {
    (hi * 256 + lo) as u16
}

#[verifier::opaque]
pub open spec fn high_byte(v: u16) -> u8 {
    (v / 256) as u8
}

#[verifier::opaque]
pub open spec fn low_byte(v: u16) -> u8 {
    (v % 256) as u8
}

/// `x + d` modulo 2^16, for any integer `d`.
#[verifier::opaque]
pub open spec fn add16(x: u16, d: int) -> u16 {
    ((x + d) % 0x1_0000) as u16
}

/// `x + d` modulo 2^64, for any integer `d`.
#[verifier::opaque]
pub open spec fn add64(x: u64, d: int) -> u64 {
    ((x + d) % 0x1_0000_0000_0000_0000) as u64
}

/// `x + d` modulo 2^8, for any integer `d`.
#[verifier::opaque]
pub open spec fn add8(x: u8, d: int) -> u8 {
    ((x + d) % 0x100) as u8
}

/// The value of an operand byte read as a two's complement number.
pub open spec fn signed8(b: u8) -> int {
    if b < 128 {
        b as int
    } else {
        b - 256
    }
}

/// The flag register: Z in bit 7, N in bit 6, H in bit 5, C in bit 4, the low nibble zero.
pub open spec fn flags_byte(zero: bool, subtract: bool, half_carry: bool, carry: bool) -> u8 {
    ((if zero { 0x80int } else { 0 }) + (if subtract { 0x40int } else { 0 }) + (if half_carry { 0x20int } else { 0 })
        + (if carry { 0x10int } else { 0 })) as u8
}

/// The wrapping sums and differences of the machine are sums modulo a power of two.
pub proof fn lemma_wrapping8(x: u8, y: u8)
    ensures
        x.wrapping_add(y) == add8(x, y as int),
        x.wrapping_sub(y) == add8(x, -(y as int)),
{
    reveal(add8);
}

pub proof fn lemma_wrapping16(x: u16, y: u16, d: i16)
    ensures
        x.wrapping_add(y) == add16(x, y as int),
        x.wrapping_sub(y) == add16(x, -(y as int)),
        x.wrapping_add_signed(d) == add16(x, d as int),
{
    reveal(add16);
}

pub proof fn lemma_wrapping64(x: u64, y: u64)
    ensures
        x.wrapping_add(y) == add64(x, y as int),
{
    reveal(add64);
}

/// Adding `a` and then `b` modulo a power of two is adding `a + b`, and adding 0 changes
/// nothing.
pub proof fn lemma_add8_add(x: u8, a: int, b: int)
    ensures
        add8(add8(x, a), b) == add8(x, a + b),
        add8(x, 0) == x,
{
    reveal(add8);
}

pub proof fn lemma_add16_add(x: u16, a: int, b: int)
    ensures
        add16(add16(x, a), b) == add16(x, a + b),
        add16(x, 0) == x,
{
    reveal(add16);
}

pub proof fn lemma_add64_add(x: u64, a: int, b: int)
    ensures
        add64(add64(x, a), b) == add64(x, a + b),
        add64(x, 0) == x,
{
    reveal(add64);
}

/// A 16-bit value is the pair of its two bytes.
pub proof fn lemma_pair_split(v: u16)
    ensures
        pair(high_byte(v), low_byte(v)) == v,
{
    reveal(pair);
    reveal(high_byte);
    reveal(low_byte);
}

/// The two bytes of a pair are the bytes that it was made of.
pub proof fn lemma_split_pair(hi: u8, lo: u8)
    ensures
        high_byte(pair(hi, lo)) == hi,
        low_byte(pair(hi, lo)) == lo,
{
    reveal(pair);
    reveal(high_byte);
    reveal(low_byte);
}

/// The flag register never has a bit of its low nibble set, and each flag is read back from its bit.
pub proof fn lemma_flags_byte(zero: bool, subtract: bool, half_carry: bool, carry: bool)
    ensures
        flags_byte(zero, subtract, half_carry, carry) & 0x0F == 0,
        (flags_byte(zero, subtract, half_carry, carry) & 0x80 != 0) == zero,
        (flags_byte(zero, subtract, half_carry, carry) & 0x40 != 0) == subtract,
        (flags_byte(zero, subtract, half_carry, carry) & 0x20 != 0) == half_carry,
        (flags_byte(zero, subtract, half_carry, carry) & 0x10 != 0) == carry,
{
    let f = flags_byte(zero, subtract, half_carry, carry);
    assert(f == (if zero { 0x80u8 } else { 0 }) + (if subtract { 0x40u8 } else { 0 }) + (if half_carry { 0x20u8 } else { 0 })
        + (if carry { 0x10u8 } else { 0 }));
    lemma_flags_byte_bits(f, zero, subtract, half_carry, carry);
}

proof fn lemma_flags_byte_bits(f: u8, zero: bool, subtract: bool, half_carry: bool, carry: bool)
    by (bit_vector)
    requires
        f == (if zero { 0x80u8 } else { 0 }) + (if subtract { 0x40u8 } else { 0 }) + (if half_carry { 0x20u8 } else { 0 })
            + (if carry { 0x10u8 } else { 0 }),
    ensures
        f & 0x0F == 0,
        (f & 0x80 != 0) == zero,
        (f & 0x40 != 0) == subtract,
        (f & 0x20 != 0) == half_carry,
        (f & 0x10 != 0) == carry,
{
}

/// A byte with a clear low nibble is the flag register made of its four top bits.
pub proof fn lemma_flags_byte_of_bits(f: u8)
    requires
        f & 0x0F == 0,
    ensures
        f == flags_byte(f & 0x80 != 0, f & 0x40 != 0, f & 0x20 != 0, f & 0x10 != 0),
{
    assert(f == (if f & 0x80 != 0 { 0x80u8 } else { 0 }) + (if f & 0x40 != 0 { 0x40u8 } else { 0 }) + (if f & 0x20 != 0 {
        0x20u8
    } else {
        0
    }) + (if f & 0x10 != 0 { 0x10u8 } else { 0 })) by (bit_vector)
        requires
            f & 0x0F == 0,
    ;
}

/// Shifts, masks and truncations of a 16-bit value, as arithmetic.
pub proof fn lemma_pair_bits(v: u16, hi: u8, lo: u8)
    by (bit_vector)
    ensures
        (v >> 8) < 256,
        (v >> 8) as u8 == v / 256,
        v as u8 == v % 256,
        (v & 0xFF) == v % 256,
        ((hi as u16) << 8) | (lo as u16) == hi * 256 + lo,
        v & 0xFFF0 == (v / 16) * 16,
{
}

/// The shifts, masks and truncations by which the machine splits a 16-bit value and makes
/// one of two bytes.
pub proof fn lemma_pair_exec(v: u16, hi: u8, lo: u8)
    ensures
        (v >> 8) as u8 == high_byte(v),
        v as u8 == low_byte(v),
        (v / 256) as u8 == high_byte(v),
        (v % 256) as u8 == low_byte(v),
        ((hi as u16) << 8) | (lo as u16) == pair(hi, lo),
{
    reveal(pair);
    reveal(high_byte);
    reveal(low_byte);
    lemma_pair_bits(v, hi, lo);
}

} // verus!
