use vstd::prelude::*;

verus! {

/// What masks and shifts of a byte mean as arithmetic.
pub proof fn lemma_byte_bits(v: u8)
    by (bit_vector)
    ensures
        (v & 0x80 != 0) == (v >= 0x80),
        (v & 0x01 != 0) == (v % 2 == 1),
        v >> 1 == v / 2,
        (v as u16) << 1 == 2 * (v as u16),
        (v as u16) ^ 0x00FF == 0xFF - (v as u16),
        ((v as u16) & 0x80 != 0) == (v >= 0x80),
        (v as u16) | 0xFF00 == 0xFF00 + (v as u16),
        (v as u16) & 0x00FF == v as u16,
{
}

/// What masks and shifts of a 16-bit value mean as arithmetic.
pub proof fn lemma_word_bits(w: u16)
    by (bit_vector)
    ensures
        w & 0x00FF == w % 0x100,
        (w >> 8) & 0x00FF == w / 0x100,
        w & 0xFF00 == (w / 0x100) * 0x100,
        (w & 0xFF00 != 0) == (w > 0xFF),
        (w & 0x0080 != 0) == (w % 0x100 >= 0x80),
{
}

/// Two bytes joined by shift and OR make the value with those bytes.
pub proof fn lemma_join_bytes(lo: u8, hi: u8)
    by (bit_vector)
    ensures
        ((hi as u16) << 8) | (lo as u16) == (hi as u16) * 0x100 + (lo as u16),
        (hi as u16) << 8 == (hi as u16) * 0x100,
{
}

/// A carry bit joined to a shifted byte by OR is added to it.
pub proof fn lemma_rotate_bits(m: u8, c: u8)
    by (bit_vector)
    requires
        c <= 1,
    ensures
        ((m as u16) << 1) | (c as u16) == 2 * (m as u16) + (c as u16),
        (c << 7) | (m >> 1) == c * 0x80 + m / 2,
        c * 0x80 + m / 2 <= 0xFF,
{
}

/// The two bit formulas for signed overflow both say: the operands have the
/// same sign bit, and the result has the other one.
pub proof fn lemma_overflow_bits(a: u8, m: u8, t: u16)
    by (bit_vector)
    ensures
        ((!((a as u16) ^ (m as u16)) & ((a as u16) ^ t)) & 0x0080 != 0) == (((a >= 0x80) == (m
            >= 0x80)) && ((t % 0x100 >= 0x80) != (a >= 0x80))),
        ((t ^ (a as u16)) & (t ^ (m as u16)) & 0x0080 != 0) == (((a >= 0x80) == (m >= 0x80)) && ((t
            % 0x100 >= 0x80) != (a >= 0x80))),
{
}

/// AND of two hints that are each 0 or 1 is 1 exactly when both are.
pub proof fn lemma_and_of_hints(p: u8, q: u8)
    by (bit_vector)
    requires
        p <= 1,
        q <= 1,
    ensures
        p & q == (if p == 1 && q == 1 { 1u8 } else { 0u8 }),
{
}

} // verus!
