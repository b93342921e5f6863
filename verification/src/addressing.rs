use vstd::prelude::*;
use crate::instruction::AddrMode;
use crate::state::{high_byte, low_byte, sign_extend, word, wrap16, wrap8, CpuState};

verus! {

/// The program counter moved forward over `n` operand bytes.
pub open spec fn advance(s: CpuState, n: int) -> CpuState {
    CpuState { pc: wrap16(s.pc + n), ..s }
}

/// The byte at the program counter plus `i`: the `i`-th operand byte.
pub open spec fn operand_byte(s: CpuState, i: int) -> u8 {
    s.read(wrap16(s.pc + i))
}

/// The two operand bytes read as an address, low byte first.
pub open spec fn operand_word(s: CpuState) -> u16 {
    word(operand_byte(s, 0), operand_byte(s, 1))
}

/// Whether adding `index` to `base` leaves the page of `base`.
pub open spec fn crosses_page(base: u16, index: u8) -> bool {
    high_byte(wrap16(base + index)) != high_byte(base)
}

/// Implied: no operand bytes; the accumulator is latched as the operand.
pub open spec fn mode_imp(s: CpuState) -> CpuState {
    CpuState { fetched: s.a, ..s }
}

/// Immediate: the operand is the next byte itself.
pub open spec fn mode_imm(s: CpuState) -> CpuState {
    CpuState { addr_abs: s.pc, ..advance(s, 1) }
}

/// Zero page: the next byte is an address in page zero.
pub open spec fn mode_zp0(s: CpuState) -> CpuState {
    CpuState { addr_abs: operand_byte(s, 0) as u16, ..advance(s, 1) }
}

/// Zero page indexed: the next byte plus `index`, without carry into the
/// high byte, so the address stays in page zero.
pub open spec fn mode_zp_indexed(s: CpuState, index: u8) -> CpuState {
    CpuState { addr_abs: wrap8(operand_byte(s, 0) + index) as u16, ..advance(s, 1) }
}

/// Relative: the next byte is a signed displacement.
pub open spec fn mode_rel(s: CpuState) -> CpuState {
    CpuState { addr_rel: sign_extend(operand_byte(s, 0)), ..advance(s, 1) }
}

/// Absolute: the next two bytes are the address.
pub open spec fn mode_abs(s: CpuState) -> CpuState {
    CpuState { addr_abs: operand_word(s), ..advance(s, 2) }
}

/// Absolute indexed: the next two bytes plus `index`.
pub open spec fn mode_abs_indexed(s: CpuState, index: u8) -> CpuState {
    CpuState { addr_abs: wrap16(operand_word(s) + index), ..advance(s, 2) }
}

/// Where the indirect mode reads the high byte of the target when the
/// pointer is `ptr`: one past the pointer, but without carry into the
/// pointer's high byte. A pointer at the last byte of a page therefore
/// takes its high byte from the first byte of the same page.
pub open spec fn indirect_high_addr(ptr: u16) -> u16 {
    word(wrap8(low_byte(ptr) + 1), high_byte(ptr))
}

/// Indirect: the next two bytes point at the address.
pub open spec fn mode_ind(s: CpuState) -> CpuState {
    let ptr = operand_word(s);
    CpuState { addr_abs: s.read_word(ptr, indirect_high_addr(ptr)), ..advance(s, 2) }
}

/// Indexed indirect: the next byte plus X names a pointer in page zero;
/// both of its bytes are read from page zero.
pub open spec fn mode_izx(s: CpuState) -> CpuState {
    let t = operand_byte(s, 0);
    CpuState {
        addr_abs: s.read_word(wrap8(t + s.x) as u16, wrap8(t + s.x + 1) as u16),
        ..advance(s, 1)
    }
}

/// The pointer that indirect indexed mode reads from page zero.
pub open spec fn izy_base(s: CpuState) -> u16 {
    let t = operand_byte(s, 0);
    s.read_word(t as u16, wrap8(t + 1) as u16)
}

/// Indirect indexed: the next byte names a pointer in page zero; Y is
/// added to the address it holds.
pub open spec fn mode_izy(s: CpuState) -> CpuState {
    CpuState { addr_abs: wrap16(izy_base(s) + s.y), ..advance(s, 1) }
}

/// The state after the addressing mode `mode` has consumed its operand bytes.
#[verifier::opaque]
pub open spec fn resolve(mode: AddrMode, s: CpuState) -> CpuState {
    match mode {
        AddrMode::Imp => mode_imp(s),
        AddrMode::Imm => mode_imm(s),
        AddrMode::Zp0 => mode_zp0(s),
        AddrMode::Zpx => mode_zp_indexed(s, s.x),
        AddrMode::Zpy => mode_zp_indexed(s, s.y),
        AddrMode::Rel => mode_rel(s),
        AddrMode::Abs => mode_abs(s),
        AddrMode::Abx => mode_abs_indexed(s, s.x),
        AddrMode::Aby => mode_abs_indexed(s, s.y),
        AddrMode::Ind => mode_ind(s),
        AddrMode::Izx => mode_izx(s),
        AddrMode::Izy => mode_izy(s),
    }
}

/// Whether resolving `mode` in state `s` crossed a page, so that an
/// operation sensitive to it takes one more cycle.
pub open spec fn resolve_crosses_page(mode: AddrMode, s: CpuState) -> bool {
    match mode {
        AddrMode::Abx => crosses_page(operand_word(s), s.x),
        AddrMode::Aby => crosses_page(operand_word(s), s.y),
        AddrMode::Izy => crosses_page(izy_base(s), s.y),
        _ => false,
    }
}

/// Number of operand bytes that follow an opcode with addressing mode `mode`.
pub open spec fn operand_len(mode: AddrMode) -> int {
    match mode {
        AddrMode::Imp => 0,
        AddrMode::Abs | AddrMode::Abx | AddrMode::Aby | AddrMode::Ind => 2,
        _ => 1,
    }
}

} // verus!
