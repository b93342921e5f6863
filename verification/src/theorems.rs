use vstd::prelude::*;
use crate::addressing::{
    indirect_high_addr, mode_imp, mode_zp_indexed, operand_byte, resolve, resolve_crosses_page,
};
use crate::flags::{
    flag_is_set, is_flag, lemma_flag_after_write, lemma_only_unused_set, with_flag, Flags6502,
};
use crate::instruction::{
    base_cycles, is_documented, lemma_base_cycles_bounds, lemma_mnemonic_len, mnemonic_of,
    mode_of, operation_of, AddrMode, Operation,
};
use crate::operations::{
    add_with_carry, branch, clock_step, compare, dispatch, execute, fetch, interrupt, is_branch,
    lemma_execute_cycles, lemma_resolve_keeps_cycles, nop_takes_penalty, op_adc, op_and, op_asl,
    op_bit, op_brk, op_cmp, op_cpx, op_cpy, op_dec, op_eor, op_inc, op_jsr, op_lda, op_ldx,
    op_ldy, op_lsr, op_ora, op_pha, op_php, op_pla, op_plp, op_rol, op_ror, op_rti, op_rts,
    op_sbc, op_sta, op_stx, op_sty, push_pc, reset_state, run, takes_page_penalty,
};
use crate::state::{high_byte, is_negative, low_byte, signed, word, wrap16, wrap8, CpuState};

verus! {

/// Every opcode has a table entry that can run: its operation and its
/// addressing mode are total functions of the state, it takes at least one
/// cycle, and it has a name of three letters. An opcode outside the
/// documented instruction set takes no operand and changes nothing; only
/// where it is one of the no-ops does it take the page-crossing cycle.
pub proof fn lemma_table_is_total(opcode: u8, s: CpuState)
    ensures
        base_cycles(opcode) >= 1,
        mnemonic_of(opcode).len() == 3,
        !is_documented(opcode) ==> execute(operation_of(opcode), s) == s,
        !is_documented(opcode) ==> mode_of(opcode) == AddrMode::Imp,
        !is_documented(opcode) ==> resolve(mode_of(opcode), s) == mode_imp(s),
        !is_documented(opcode) && takes_page_penalty(operation_of(opcode), opcode)
            ==> operation_of(opcode) == Operation::Nop && nop_takes_penalty(opcode),
{
    lemma_base_cycles_bounds(opcode);
    lemma_mnemonic_len(operation_of(opcode));
    reveal(execute);
    reveal(resolve);
}

/// After a reset the stack pointer is 0xFD, the unused flag is the only
/// flag set, and the program counter is the little-endian value held at
/// 0xFFFC and 0xFFFD, whatever the state was before.
pub proof fn lemma_reset(s: CpuState, f: u8)
    requires
        is_flag(f),
    ensures
        reset_state(s).sp == 0xFD,
        reset_state(s).flag(f) == (f == Flags6502::U),
        reset_state(s).pc == s.mem[0xFFFD] * 0x100 + s.mem[0xFFFC],
        reset_state(s).mem == s.mem,
{
    lemma_only_unused_set(f);
}

/// What a branch does to the state it finds after its operand. One that
/// is not taken changes nothing. One that is taken continues at the
/// program counter plus the displacement, and adds to the cycle counter
/// one cycle when that target lies in the page of the program counter and
/// two when it does not; registers, flags and memory stay as they are.
pub proof fn lemma_branch(s: CpuState, taken: bool)
    ensures
        !taken ==> branch(s, taken) == s,
        taken ==> ({
            let t = branch(s, taken);
            let target = wrap16(s.pc + s.addr_rel);
            let spent: int = if high_byte(target) == high_byte(s.pc) {
                1
            } else {
                2
            };
            &&& t.pc == target
            &&& t.cycles == (s.cycles + spent) % 0x100
            &&& s.cycles + spent <= 0xFF ==> t.cycles == s.cycles + spent
            &&& t.a == s.a && t.x == s.x && t.y == s.y && t.sp == s.sp && t.sr == s.sr
            &&& t.mem == s.mem
        }),
{
}

/// Whether the branch `operation` is taken in state `s`.
pub open spec fn branch_condition(operation: Operation, s: CpuState) -> bool {
    match operation {
        Operation::Bcc => !s.flag(Flags6502::C),
        Operation::Bcs => s.flag(Flags6502::C),
        Operation::Beq => s.flag(Flags6502::Z),
        Operation::Bmi => s.flag(Flags6502::N),
        Operation::Bne => !s.flag(Flags6502::Z),
        Operation::Bpl => !s.flag(Flags6502::N),
        Operation::Bvc => !s.flag(Flags6502::V),
        _ => s.flag(Flags6502::V),
    }
}

/// Where a taken branch at the program counter of `s` leads: the signed
/// displacement is counted from the instruction that follows the branch.
pub open spec fn branch_target(s: CpuState) -> u16 {
    wrap16(s.pc + 2 + signed(s.read(wrap16(s.pc + 1))))
}

/// Cycles of a branch. A branch that is not taken takes its base cycles
/// and falls through. A taken one takes one cycle more when its target
/// lies in the page of the instruction that follows the branch, and two
/// more when it does not.
pub proof fn lemma_branch_cycles(s: CpuState)
    requires
        s.well_formed(),
        is_branch(operation_of(s.read(s.pc))),
    ensures
        ({
            let opcode = s.read(s.pc);
            let next = wrap16(s.pc + 2);
            let target = branch_target(s);
            let t = dispatch(s);
            &&& base_cycles(opcode) == 2
            &&& !branch_condition(operation_of(opcode), s) ==> t.cycles == base_cycles(opcode)
                && t.pc == next
            &&& branch_condition(operation_of(opcode), s) && high_byte(target) == high_byte(next)
                ==> t.cycles == base_cycles(opcode) + 1 && t.pc == target
            &&& branch_condition(operation_of(opcode), s) && high_byte(target) != high_byte(next)
                ==> t.cycles == base_cycles(opcode) + 2 && t.pc == target
        }),
{
    reveal(resolve);
    reveal(execute);
    let opcode = s.read(s.pc);
    let s1 = CpuState { opcode: opcode, pc: wrap16(s.pc + 1), cycles: base_cycles(opcode), ..s };
    assert(mode_of(opcode) == AddrMode::Rel);
    let s2 = resolve(mode_of(opcode), s1);
    assert(s2.pc == wrap16(s.pc + 2));
    assert(s2.sr == s.sr);
    let b = s.read(wrap16(s.pc + 1));
    assert(wrap16(s2.pc + s2.addr_rel) == wrap16(s2.pc + signed(b)));
}

/// Cycles of a branch, by the page of the branch itself: two more than
/// the base cycles when the target lies in another page than the branch,
/// one more when it lies in the same page, none when the branch is not
/// taken. A taken branch in the last two bytes of a page is left out: the
/// instruction that follows it lies in the next page, and that page
/// decides.
pub proof fn lemma_branch_cycles_by_own_page(s: CpuState)
    requires
        s.well_formed(),
        is_branch(operation_of(s.read(s.pc))),
        branch_condition(operation_of(s.read(s.pc)), s) ==> s.pc % 0x100 < 0xFE,
    ensures
        dispatch(s).cycles == base_cycles(s.read(s.pc)) + (if !branch_condition(
            operation_of(s.read(s.pc)),
            s,
        ) {
            0int
        } else if high_byte(branch_target(s)) != high_byte(s.pc) {
            2int
        } else {
            1int
        }),
{
    lemma_branch_cycles(s);
}

/// Pushing the accumulator and pulling it again brings back its value and
/// the stack pointer, whatever the registers held in between, and leaves
/// the zero and negative flags describing the value pulled.
pub proof fn lemma_push_pull_round_trip(s: CpuState, between: CpuState)
    requires
        s.well_formed(),
        between.mem == op_pha(s).mem,
        between.sp == op_pha(s).sp,
    ensures
        op_pha(s).sp == wrap8(s.sp - 1),
        op_pla(between).a == s.a,
        op_pla(between).sp == s.sp,
        op_pla(between).flag(Flags6502::Z) == (s.a == 0),
        op_pla(between).flag(Flags6502::N) == is_negative(s.a),
{
    broadcast use lemma_flag_after_write;

    let s1 = between.pop();
    assert(s1.sp == s.sp);
    assert(s1.top() == s.a);
}

/// What add-with-carry computes, as arithmetic: the accumulator takes the
/// sum modulo 256, the carry flag tells that the unsigned sum passed 255,
/// and the overflow flag tells that the signed sum left -128 to 127.
pub proof fn lemma_add_with_carry(s: CpuState, m: u8)
    ensures
        ({
            let t = add_with_carry(s, m);
            let sum = s.a + m + s.carry();
            let signed_sum = signed(s.a) + signed(m) + s.carry();
            &&& t.a == sum % 0x100
            &&& t.flag(Flags6502::C) == (sum > 0xFF)
            &&& t.flag(Flags6502::Z) == (t.a == 0)
            &&& t.flag(Flags6502::N) == is_negative(t.a)
            &&& t.flag(Flags6502::V) == !(-128 <= signed_sum <= 127)
            &&& t.mem == s.mem
        }),
{
    broadcast use lemma_flag_after_write;

}

/// What subtract-with-borrow computes, as arithmetic. With the borrow
/// being one when the carry flag is clear: the accumulator takes the
/// difference modulo 256, the carry flag tells that no borrow was needed,
/// and the overflow flag tells that the signed difference left -128 to 127.
pub proof fn lemma_subtract_with_borrow(s: CpuState)
    requires
        mode_of(s.opcode) != AddrMode::Imp,
    ensures
        ({
            let t = op_sbc(s);
            let m = s.read(s.addr_abs);
            let borrow = 1 - s.carry();
            let difference = s.a - m - borrow;
            let signed_difference = signed(s.a) - signed(m) - borrow;
            &&& t.a == difference % 0x100
            &&& t.flag(Flags6502::C) == (difference >= 0)
            &&& t.flag(Flags6502::Z) == (t.a == 0)
            &&& t.flag(Flags6502::N) == is_negative(t.a)
            &&& t.flag(Flags6502::V) == !(-128 <= signed_difference <= 127)
        }),
{
    let s1 = fetch(s);
    lemma_add_with_carry(s1, (0xFF - s1.fetched) as u8);
}

/// What a comparison tells: carry when the register is not below the
/// operand, zero when the two are equal, negative from bit 7 of their
/// difference. No register and no memory changes.
pub proof fn lemma_compare(s: CpuState, reg: u8)
    requires
        mode_of(s.opcode) != AddrMode::Imp,
    ensures
        ({
            let t = compare(s, reg);
            let m = s.read(s.addr_abs);
            &&& t.flag(Flags6502::C) == (reg >= m)
            &&& t.flag(Flags6502::Z) == (reg == m)
            &&& t.flag(Flags6502::N) == is_negative(wrap8(reg - m))
            &&& t.a == s.a && t.x == s.x && t.y == s.y && t.mem == s.mem
        }),
{
    broadcast use lemma_flag_after_write;

}

/// The indirect mode never carries from the low byte of its pointer into
/// the high byte. A pointer that ends a page takes the high byte of the
/// target from the start of that page, not from the next page; any other
/// pointer takes it from the byte that follows.
pub proof fn lemma_indirect_page_wrap(ptr: u16)
    ensures
        low_byte(ptr) == 0xFF ==> indirect_high_addr(ptr) == ptr - 0xFF,
        low_byte(ptr) != 0xFF ==> indirect_high_addr(ptr) == ptr + 1,
        high_byte(indirect_high_addr(ptr)) == high_byte(ptr),
{
}

/// Zero-page indexed addresses stay in page zero, whatever the index.
pub proof fn lemma_zero_page_indexed_wraps(s: CpuState, index: u8)
    ensures
        mode_zp_indexed(s, index).addr_abs < 0x100,
        mode_zp_indexed(s, index).addr_abs == (operand_byte(s, 0) + index) % 0x100,
{
}

/// While an instruction has cycles left, a clock cycle counts one down and
/// changes nothing else.
pub proof fn lemma_clock_counts_down(s: CpuState)
    requires
        s.cycles > 0,
    ensures
        clock_step(s) == (CpuState { cycles: (s.cycles - 1) as u8, ..s }),
{
}

/// An instruction takes its base cycles, at most two more for a taken
/// branch, and at most one more for a page crossed; the clock cycle that
/// dispatches it spends the first of them.
pub proof fn lemma_clock_dispatches(s: CpuState)
    requires
        s.well_formed(),
        s.cycles == 0,
    ensures
        ({
            let opcode = s.read(s.pc);
            &&& clock_step(s).opcode == opcode
            &&& clock_step(s).cycles == dispatch(s).cycles - 1
            &&& base_cycles(opcode) <= dispatch(s).cycles <= base_cycles(opcode) + 2
            &&& !is_branch(operation_of(opcode)) ==> dispatch(s).cycles <= base_cycles(opcode) + 1
        }),
{
    let opcode = s.read(s.pc);
    let s1 = CpuState { opcode: opcode, pc: wrap16(s.pc + 1), cycles: base_cycles(opcode), ..s };
    lemma_base_cycles_bounds(opcode);
    lemma_resolve_keeps_cycles(mode_of(opcode), s1);
    lemma_execute_cycles(operation_of(opcode), resolve(mode_of(opcode), s1));
    lemma_execute_keeps_opcode(operation_of(opcode), resolve(mode_of(opcode), s1));
    if is_branch(operation_of(opcode)) {
        assert(mode_of(opcode) == AddrMode::Rel);
    }
}

/// While an instruction has `n` cycles or more left, `n` clock cycles
/// count them down and change nothing else.
pub proof fn lemma_run_counts_down(s: CpuState, n: nat)
    requires
        n <= s.cycles,
    ensures
        run(s, n) == (CpuState { cycles: (s.cycles - n) as u8, ..s }),
    decreases n,
{
    if n > 0 {
        lemma_clock_counts_down(s);
        lemma_run_counts_down(clock_step(s), (n - 1) as nat);
    }
}

/// An instruction takes as many clock cycles as its cycle count says: the
/// first runs it, the others only count down, and the processor is ready
/// for the next instruction after the last of them and not before.
pub proof fn lemma_instruction_takes_its_cycles(s: CpuState, k: nat)
    requires
        s.well_formed(),
        s.cycles == 0,
        0 < k <= dispatch(s).cycles,
    ensures
        run(s, k) == (CpuState { cycles: (dispatch(s).cycles - k) as u8, ..dispatch(s) }),
        run(s, k).cycles == 0 <==> k == dispatch(s).cycles,
{
    lemma_clock_dispatches(s);
    lemma_run_counts_down(clock_step(s), (k - 1) as nat);
}

/// No operation changes the opcode latched for it.
pub proof fn lemma_execute_keeps_opcode(operation: Operation, s: CpuState)
    ensures
        execute(operation, s).opcode == s.opcode,
{
    reveal(execute);
}

/// Writing any flag but the unused one keeps the unused flag.
proof fn lemma_set_flag_keeps_unused(s: CpuState, f: u8, v: bool)
    requires
        s.flag(Flags6502::U),
        is_flag(f),
        f != Flags6502::U || v,
    ensures
        s.set_flag(f, v).flag(Flags6502::U),
{
    broadcast use lemma_flag_after_write;

}

/// Arithmetic and comparisons keep the unused flag.
proof fn lemma_arithmetic_keeps_unused(s: CpuState, m: u8)
    requires
        s.flag(Flags6502::U),
    ensures
        add_with_carry(s, m).flag(Flags6502::U),
        compare(s, m).flag(Flags6502::U),
        s.set_zn(m).flag(Flags6502::U),
{
    broadcast use lemma_flag_after_write;

}

/// Shifts, rotates and the bit test keep the unused flag.
proof fn lemma_shifts_keep_unused(s: CpuState)
    requires
        s.flag(Flags6502::U),
    ensures
        op_asl(s).flag(Flags6502::U),
        op_lsr(s).flag(Flags6502::U),
        op_rol(s).flag(Flags6502::U),
        op_ror(s).flag(Flags6502::U),
        op_bit(s).flag(Flags6502::U),
{
    broadcast use lemma_flag_after_write;

}

/// The unused flag, once set, stays set: no operation clears it, and every
/// reload of the status register forces it on.
pub proof fn lemma_unused_flag_stays_set(operation: Operation, s: CpuState)
    requires
        s.flag(Flags6502::U),
    ensures
        execute(operation, s).flag(Flags6502::U),
{
    reveal(execute);
    match operation {
        Operation::Adc | Operation::Sbc => {
            let s1 = fetch(s);
            lemma_arithmetic_keeps_unused(s1, s1.fetched);
            lemma_arithmetic_keeps_unused(s1, (0xFF - s1.fetched) as u8);
        },
        Operation::Cmp | Operation::Cpx | Operation::Cpy => {
            lemma_arithmetic_keeps_unused(s, s.a);
            lemma_arithmetic_keeps_unused(s, s.x);
            lemma_arithmetic_keeps_unused(s, s.y);
        },
        Operation::Asl | Operation::Lsr | Operation::Rol | Operation::Ror | Operation::Bit => {
            lemma_shifts_keep_unused(s);
        },
        Operation::And | Operation::Eor | Operation::Ora | Operation::Lda | Operation::Ldx
        | Operation::Ldy => {
            let s1 = fetch(s);
            lemma_arithmetic_keeps_unused(CpuState { a: s1.a & s1.fetched, ..s1 }, s1.a & s1.fetched);
            lemma_arithmetic_keeps_unused(CpuState { a: s1.a ^ s1.fetched, ..s1 }, s1.a ^ s1.fetched);
            lemma_arithmetic_keeps_unused(CpuState { a: s1.a | s1.fetched, ..s1 }, s1.a | s1.fetched);
            lemma_arithmetic_keeps_unused(CpuState { a: s1.fetched, ..s1 }, s1.fetched);
            lemma_arithmetic_keeps_unused(CpuState { x: s1.fetched, ..s1 }, s1.fetched);
            lemma_arithmetic_keeps_unused(CpuState { y: s1.fetched, ..s1 }, s1.fetched);
        },
        Operation::Dec | Operation::Inc => {
            let s1 = fetch(s);
            let down = wrap8(s1.fetched - 1);
            let up = wrap8(s1.fetched + 1);
            lemma_arithmetic_keeps_unused(
                CpuState { temp: down as u16, ..s1.write(s1.addr_abs, down) },
                down,
            );
            lemma_arithmetic_keeps_unused(
                CpuState { temp: up as u16, ..s1.write(s1.addr_abs, up) },
                up,
            );
        },
        Operation::Dex | Operation::Inx | Operation::Tax | Operation::Tsx => {
            lemma_arithmetic_keeps_unused(CpuState { x: wrap8(s.x - 1), ..s }, wrap8(s.x - 1));
            lemma_arithmetic_keeps_unused(CpuState { x: wrap8(s.x + 1), ..s }, wrap8(s.x + 1));
            lemma_arithmetic_keeps_unused(CpuState { x: s.a, ..s }, s.a);
            lemma_arithmetic_keeps_unused(CpuState { x: s.sp, ..s }, s.sp);
        },
        Operation::Dey | Operation::Iny | Operation::Tay => {
            lemma_arithmetic_keeps_unused(CpuState { y: wrap8(s.y - 1), ..s }, wrap8(s.y - 1));
            lemma_arithmetic_keeps_unused(CpuState { y: wrap8(s.y + 1), ..s }, wrap8(s.y + 1));
            lemma_arithmetic_keeps_unused(CpuState { y: s.a, ..s }, s.a);
        },
        Operation::Txa | Operation::Tya => {
            lemma_arithmetic_keeps_unused(CpuState { a: s.x, ..s }, s.x);
            lemma_arithmetic_keeps_unused(CpuState { a: s.y, ..s }, s.y);
        },
        Operation::Pla => {
            let s1 = s.pop();
            lemma_arithmetic_keeps_unused(CpuState { a: s1.top(), ..s1 }, s1.top());
        },
        Operation::Plp | Operation::Rti => {
            lemma_reload_sets_unused_flag(s, 0);
        },
        Operation::Brk => {
            let s0 = CpuState { pc: wrap16(s.pc + 1), ..s };
            lemma_set_flag_keeps_unused(s0, Flags6502::I, true);
            let s1 = push_pc(s0.set_flag(Flags6502::I, true));
            lemma_set_flag_keeps_unused(
                s1.push(with_flag(s1.sr, Flags6502::B, true)),
                Flags6502::B,
                false,
            );
        },
        Operation::Clc | Operation::Sec => {
            lemma_set_flag_keeps_unused(s, Flags6502::C, false);
            lemma_set_flag_keeps_unused(s, Flags6502::C, true);
        },
        Operation::Cld | Operation::Sed => {
            lemma_set_flag_keeps_unused(s, Flags6502::D, false);
            lemma_set_flag_keeps_unused(s, Flags6502::D, true);
        },
        Operation::Cli | Operation::Sei => {
            lemma_set_flag_keeps_unused(s, Flags6502::I, false);
            lemma_set_flag_keeps_unused(s, Flags6502::I, true);
        },
        Operation::Clv => {
            lemma_set_flag_keeps_unused(s, Flags6502::V, false);
        },
        Operation::Bcc | Operation::Bcs | Operation::Beq | Operation::Bmi | Operation::Bne
        | Operation::Bpl | Operation::Bvc | Operation::Bvs => {
            lemma_branch(s, true);
            lemma_branch(s, false);
        },
        _ => {},
    }
}

/// No addressing mode touches a register other than the program counter,
/// nor memory.
pub proof fn lemma_resolve_keeps_registers(mode: AddrMode, s: CpuState)
    ensures
        ({
            let t = resolve(mode, s);
            t.a == s.a && t.x == s.x && t.y == s.y && t.sp == s.sp && t.sr == s.sr && t.mem
                == s.mem
        }),
{
    reveal(resolve);
}

/// The unused flag, once set, stays set from one clock cycle to the next.
pub proof fn lemma_clock_keeps_unused_flag(s: CpuState)
    requires
        s.flag(Flags6502::U),
    ensures
        clock_step(s).flag(Flags6502::U),
{
    if s.cycles == 0 {
        let opcode = s.read(s.pc);
        let s1 = CpuState {
            opcode: opcode,
            pc: wrap16(s.pc + 1),
            cycles: base_cycles(opcode),
            ..s
        };
        lemma_resolve_keeps_registers(mode_of(opcode), s1);
        lemma_unused_flag_stays_set(operation_of(opcode), resolve(mode_of(opcode), s1));
    }
}

/// Every reload of the status register sets the unused flag: a reset, an
/// interrupt, and the two instructions that pull the status.
pub proof fn lemma_reload_sets_unused_flag(s: CpuState, vector: u16)
    ensures
        reset_state(s).flag(Flags6502::U),
        interrupt(s, vector).flag(Flags6502::U),
        op_plp(s).flag(Flags6502::U),
        op_rti(s).flag(Flags6502::U),
{
    broadcast use lemma_flag_after_write;

    lemma_only_unused_set(Flags6502::U);
}

/// An interrupt saves what the return needs: the program counter and the
/// status lie on the stack, high byte of the counter first, the status
/// with break clear, unused set and the other flags as they were; and
/// execution continues at the vector's address with interrupts disabled.
pub proof fn lemma_interrupt(s: CpuState, vector: u16, f: u8)
    requires
        s.well_formed(),
        vector < 0xFFFF,
        is_flag(f),
    ensures
        ({
            let t = interrupt(s, vector);
            let status = t.mem[0x0100 + wrap8(s.sp - 2)];
            &&& t.sp == wrap8(s.sp - 3)
            &&& t.mem[0x0100 + s.sp] == high_byte(s.pc)
            &&& t.mem[0x0100 + wrap8(s.sp - 1)] == low_byte(s.pc)
            &&& flag_is_set(status, f) == (if f == Flags6502::B {
                false
            } else if f == Flags6502::U {
                true
            } else {
                s.flag(f)
            })
            &&& t.flag(Flags6502::I)
            &&& t.pc == word(t.mem[vector as int], t.mem[vector + 1])
            &&& t.cycles == 7
        }),
{
    broadcast use lemma_flag_after_write;

}

/// What RTI takes from the stack: the status from the byte above the
/// stack pointer, with break cleared and unused forced on, and the program
/// counter from the two bytes above that.
pub proof fn lemma_return_from_interrupt(t: CpuState, f: u8)
    requires
        is_flag(f),
    ensures
        op_rti(t).sp == wrap8(t.sp + 3),
        op_rti(t).pc == word(
            t.mem[0x0100 + wrap8(t.sp + 2)],
            t.mem[0x0100 + wrap8(t.sp + 3)],
        ),
        op_rti(t).flag(f) == (if f == Flags6502::B {
            false
        } else if f == Flags6502::U {
            true
        } else {
            flag_is_set(t.mem[0x0100 + wrap8(t.sp + 1)], f)
        }),
        op_rti(t).mem == t.mem,
{
    broadcast use lemma_flag_after_write;

    let s1 = t.pop();
    let s2 = s1.pop();
    let s3 = s2.pop();
    assert(s1.sp == wrap8(t.sp + 1));
    assert(s2.sp == wrap8(t.sp + 2));
    assert(s3.sp == wrap8(t.sp + 3));
}

/// RTI undoes three pushes: with the stack pointer three below `sp`, and
/// the bytes of `pc` where pushing them from `sp` on puts them, it
/// continues at `pc` with the stack pointer at `sp`, and takes the flags
/// from the byte pushed last.
pub proof fn lemma_return_to(t: CpuState, sp: u8, pc: u16, f: u8)
    requires
        t.sp == wrap8(sp - 3),
        t.mem[0x0100 + sp] == high_byte(pc),
        t.mem[0x0100 + wrap8(sp - 1)] == low_byte(pc),
        is_flag(f),
    ensures
        op_rti(t).pc == pc,
        op_rti(t).sp == sp,
        op_rti(t).flag(f) == (if f == Flags6502::B {
            false
        } else if f == Flags6502::U {
            true
        } else {
            flag_is_set(t.mem[0x0100 + wrap8(sp - 2)], f)
        }),
{
    lemma_return_from_interrupt(t, f);
    assert(wrap8(t.sp + 1) == wrap8(sp - 2));
    assert(wrap8(t.sp + 2) == wrap8(sp - 1));
    assert(wrap8(t.sp + 3) == sp);
}

/// Returning from an interrupt brings back the program counter and the
/// stack pointer of the interrupted program, and its flags but for break,
/// which is clear, and unused, which is set.
pub proof fn lemma_interrupt_then_return(s: CpuState, vector: u16, f: u8)
    requires
        s.well_formed(),
        vector < 0xFFFF,
        is_flag(f),
    ensures
        op_rti(interrupt(s, vector)).pc == s.pc,
        op_rti(interrupt(s, vector)).sp == s.sp,
        op_rti(interrupt(s, vector)).flag(f) == (if f == Flags6502::B {
            false
        } else if f == Flags6502::U {
            true
        } else {
            s.flag(f)
        }),
{
    lemma_interrupt(s, vector, f);
    lemma_return_to(interrupt(s, vector), s.sp, s.pc, f);
}

/// BRK pushes the program counter one byte further on, and the status
/// with break set; it disables interrupts and continues at the address
/// held at 0xFFFE.
pub proof fn lemma_brk(s: CpuState)
    requires
        s.well_formed(),
    ensures
        ({
            let t = op_brk(s);
            &&& t.pc == word(s.mem[0xFFFE], s.mem[0xFFFF])
            &&& t.sp == wrap8(s.sp - 3)
            &&& t.mem[0x0100 + s.sp] == high_byte(wrap16(s.pc + 1))
            &&& t.mem[0x0100 + wrap8(s.sp - 1)] == low_byte(wrap16(s.pc + 1))
            &&& flag_is_set(t.mem[0x0100 + wrap8(s.sp - 2)], Flags6502::B)
            &&& flag_is_set(t.mem[0x0100 + wrap8(s.sp - 2)], Flags6502::I)
            &&& t.flag(Flags6502::I)
            &&& !t.flag(Flags6502::B)
        }),
{
    broadcast use lemma_flag_after_write;

    let pushed = wrap16(s.pc + 1);
    let s0 = CpuState { pc: pushed, ..s }.set_flag(Flags6502::I, true);
    let s1 = push_pc(s0);
    assert(s1.sp == wrap8(s.sp - 2));
    assert(s1.mem[0x0100 + s.sp] == high_byte(pushed));
    assert(s1.mem[0x0100 + wrap8(s.sp - 1)] == low_byte(pushed));
    assert(s1.mem[0xFFFE] == s.mem[0xFFFE] && s1.mem[0xFFFF] == s.mem[0xFFFF]);
    let status = with_flag(s1.sr, Flags6502::B, true);
    let s2 = s1.push(status);
    assert(s2.sp == wrap8(s.sp - 3));
    assert(s2.mem[0x0100 + wrap8(s.sp - 2)] == status);
    assert(s2.mem[0x0100 + s.sp] == high_byte(pushed));
    assert(s2.mem[0x0100 + wrap8(s.sp - 1)] == low_byte(pushed));
    assert(s2.mem[0xFFFE] == s.mem[0xFFFE] && s2.mem[0xFFFF] == s.mem[0xFFFF]);
    let t = op_brk(s);
    assert(t.mem == s2.mem);
    assert(t.sp == s2.sp);
}

/// Returning from BRK continues at the address that BRK pushed, with the
/// stack pointer as it was.
pub proof fn lemma_brk_then_return(s: CpuState)
    requires
        s.well_formed(),
    ensures
        op_rti(op_brk(s)).pc == wrap16(s.pc + 1),
        op_rti(op_brk(s)).sp == s.sp,
{
    lemma_brk(s);
    lemma_return_to(op_brk(s), s.sp, wrap16(s.pc + 1), Flags6502::B);
}

/// A subroutine that returns continues after the call, with the stack
/// pointer as it was before the call.
pub proof fn lemma_call_then_return(s: CpuState)
    requires
        s.well_formed(),
    ensures
        op_jsr(s).pc == s.addr_abs,
        op_jsr(s).sp == wrap8(s.sp - 2),
        op_rts(op_jsr(s)).pc == s.pc,
        op_rts(op_jsr(s)).sp == s.sp,
{
    let t = op_jsr(s);
    let pushed = wrap16(s.pc - 1);
    assert(t.mem[0x0100 + s.sp] == high_byte(pushed));
    assert(t.mem[0x0100 + wrap8(s.sp - 1)] == low_byte(pushed));
    let s1 = t.pop();
    let s2 = s1.pop();
    assert(s1.sp == wrap8(s.sp - 1));
    assert(s2.sp == s.sp);
}

/// Pushing the status leaves the register alone; pulling it again sets
/// break and unused beside what was there.
pub proof fn lemma_push_pull_status(s: CpuState, f: u8)
    requires
        s.well_formed(),
        is_flag(f),
    ensures
        op_php(s).sr == s.sr,
        op_plp(op_php(s)).sp == s.sp,
        op_plp(op_php(s)).flag(f) == (f == Flags6502::B || f == Flags6502::U || s.flag(f)),
{
    broadcast use lemma_flag_after_write;

    let t = op_php(s);
    let pushed = s.sr | Flags6502::B | Flags6502::U;
    assert(t.pop().top() == pushed);
    lemma_pushed_status(s.sr, f);
}

/// The copy of the status that goes on the stack has break and unused
/// set, and the other flags as they are.
proof fn lemma_pushed_status(sr: u8, f: u8)
    by (bit_vector)
    requires
        is_flag(f),
    ensures
        flag_is_set(sr | Flags6502::B | Flags6502::U, f) == (f == Flags6502::B || f
            == Flags6502::U || flag_is_set(sr, f)),
{
}

/// A clock cycle leaves memory its size.
pub proof fn lemma_clock_keeps_well_formed(s: CpuState)
    requires
        s.well_formed(),
    ensures
        clock_step(s).well_formed(),
        reset_state(s).well_formed(),
        interrupt(s, 0xFFFA).well_formed(),
        interrupt(s, 0xFFFE).well_formed(),
{
    let opcode = s.read(s.pc);
    let s1 = CpuState { opcode: opcode, pc: wrap16(s.pc + 1), cycles: base_cycles(opcode), ..s };
    lemma_resolve_keeps_registers(mode_of(opcode), s1);
    lemma_execute_keeps_well_formed(operation_of(opcode), resolve(mode_of(opcode), s1));
}

/// The operations that work on the operand alone leave memory its size.
proof fn lemma_operand_operations_keep_well_formed(s: CpuState)
    requires
        s.well_formed(),
    ensures
        op_asl(s).well_formed(),
        op_lsr(s).well_formed(),
        op_rol(s).well_formed(),
        op_ror(s).well_formed(),
        op_inc(s).well_formed(),
        op_dec(s).well_formed(),
{
}

/// The operations that store or push leave memory its size.
proof fn lemma_storing_operations_keep_well_formed(s: CpuState)
    requires
        s.well_formed(),
    ensures
        op_sta(s).well_formed(),
        op_stx(s).well_formed(),
        op_sty(s).well_formed(),
        op_pha(s).well_formed(),
        op_php(s).well_formed(),
        op_jsr(s).well_formed(),
        op_brk(s).well_formed(),
{
}

/// The operations that only read memory leave it as it is.
proof fn lemma_reading_operations_keep_memory(s: CpuState)
    ensures
        op_adc(s).mem == s.mem,
        op_sbc(s).mem == s.mem,
        op_and(s).mem == s.mem,
        op_eor(s).mem == s.mem,
        op_ora(s).mem == s.mem,
        op_bit(s).mem == s.mem,
        op_cmp(s).mem == s.mem,
        op_cpx(s).mem == s.mem,
        op_cpy(s).mem == s.mem,
        op_lda(s).mem == s.mem,
        op_ldx(s).mem == s.mem,
        op_ldy(s).mem == s.mem,
        op_pla(s).mem == s.mem,
        op_plp(s).mem == s.mem,
        op_rti(s).mem == s.mem,
        op_rts(s).mem == s.mem,
{
}

/// No operation changes the size of memory.
pub proof fn lemma_execute_keeps_well_formed(operation: Operation, s: CpuState)
    requires
        s.well_formed(),
    ensures
        execute(operation, s).well_formed(),
{
    reveal(execute);
    lemma_operand_operations_keep_well_formed(s);
    lemma_storing_operations_keep_well_formed(s);
    lemma_reading_operations_keep_memory(s);
}

/// An instruction that is no branch takes its base cycles, and one more
/// exactly when its addressing mode crossed a page and its operation
/// reads the operand there.
pub proof fn lemma_page_penalty(s: CpuState)
    requires
        s.well_formed(),
        !is_branch(operation_of(s.read(s.pc))),
    ensures
        ({
            let opcode = s.read(s.pc);
            let crossed = resolve_crosses_page(
                mode_of(opcode),
                CpuState { opcode: opcode, pc: wrap16(s.pc + 1), cycles: base_cycles(opcode), ..s },
            );
            dispatch(s).cycles == base_cycles(opcode) + (if crossed && takes_page_penalty(
                operation_of(opcode),
                opcode,
            ) {
                1int
            } else {
                0int
            })
        }),
{
    let opcode = s.read(s.pc);
    let s1 = CpuState { opcode: opcode, pc: wrap16(s.pc + 1), cycles: base_cycles(opcode), ..s };
    lemma_base_cycles_bounds(opcode);
    lemma_resolve_keeps_cycles(mode_of(opcode), s1);
    lemma_execute_cycles(operation_of(opcode), resolve(mode_of(opcode), s1));
}

} // verus!
