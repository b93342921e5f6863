use vstd::prelude::*;

verus! {

/// Bit masks of the status register, one per flag.
pub struct Flags6502;

impl Flags6502 {
    /// Carry.
    pub const C: u8 = 0x01;

    /// Zero.
    pub const Z: u8 = 0x02;

    /// Interrupt disable.
    pub const I: u8 = 0x04;

    /// Decimal mode. The flag is kept, but arithmetic never consults it.
    pub const D: u8 = 0x08;

    /// Break.
    pub const B: u8 = 0x10;

    /// Unused; reads back set whenever the register is reloaded.
    pub const U: u8 = 0x20;

    /// Overflow.
    pub const V: u8 = 0x40;

    /// Negative.
    pub const N: u8 = 0x80;
}

/// Whether `f` is the mask of exactly one flag.
pub open spec fn is_flag(f: u8) -> bool {
    ||| f == Flags6502::C
    ||| f == Flags6502::Z
    ||| f == Flags6502::I
    ||| f == Flags6502::D
    ||| f == Flags6502::B
    ||| f == Flags6502::U
    ||| f == Flags6502::V
    ||| f == Flags6502::N
}

/// Whether any bit of `f` is set in the status byte `sr`.
pub open spec fn flag_is_set(sr: u8, f: u8) -> bool {
    sr & f != 0
}

/// The status byte `sr` with the bits of `f` set (`v`) or cleared (`!v`).
pub open spec fn with_flag(sr: u8, f: u8, v: bool) -> u8 {
    if v {
        sr | f
    } else {
        sr & !f
    }
}

/// Writing a flag makes it read back as written.
pub proof fn lemma_with_flag_reads_back(sr: u8, f: u8, v: bool)
    requires
        is_flag(f),
    ensures
        flag_is_set(with_flag(sr, f, v), f) == v,
{
    assert((sr | f) & f != 0) by (bit_vector)
        requires
            f != 0,
    ;
    assert((sr & !f) & f == 0) by (bit_vector);
}

/// Writing one flag leaves every other flag as it was.
pub proof fn lemma_with_flag_keeps_others(sr: u8, f: u8, g: u8, v: bool)
    requires
        is_flag(f),
        is_flag(g),
        f != g,
    ensures
        flag_is_set(with_flag(sr, f, v), g) == flag_is_set(sr, g),
{
    assert(f & g == 0) by (bit_vector)
        requires
            is_flag(f),
            is_flag(g),
            f != g,
    ;
    assert((sr | f) & g == sr & g && (sr & !f) & g == sr & g) by (bit_vector)
        requires
            f & g == 0,
    ;
}

/// Reading flag `g` after writing flag `f`: what was written if they are
/// the same flag, and what was there before otherwise.
pub broadcast proof fn lemma_flag_after_write(sr: u8, f: u8, v: bool, g: u8)
    requires
        is_flag(f),
        is_flag(g),
    ensures
        #[trigger] flag_is_set(with_flag(sr, f, v), g) == (if f == g {
            v
        } else {
            flag_is_set(sr, g)
        }),
{
    if f == g {
        lemma_with_flag_reads_back(sr, f, v);
    } else {
        lemma_with_flag_keeps_others(sr, f, g, v);
    }
}

/// Setting the break flag and clearing it again leaves the register as
/// clearing it alone would.
pub proof fn lemma_break_cleared(sr: u8)
    ensures
        with_flag(with_flag(sr, Flags6502::B, true), Flags6502::B, false) == with_flag(
            sr,
            Flags6502::B,
            false,
        ),
{
    assert((sr | Flags6502::B) & !Flags6502::B == sr & !Flags6502::B) by (bit_vector);
}

/// A status byte holding only the unused flag has that flag and no other.
pub proof fn lemma_only_unused_set(f: u8)
    requires
        is_flag(f),
    ensures
        flag_is_set(Flags6502::U, f) == (f == Flags6502::U),
{
    assert((Flags6502::U & f != 0) == (f == Flags6502::U)) by (bit_vector)
        requires
            is_flag(f),
    ;
}

} // verus!
