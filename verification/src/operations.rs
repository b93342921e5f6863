use vstd::prelude::*;
use crate::addressing::{resolve, resolve_crosses_page};
use crate::flags::{flag_is_set, with_flag, Flags6502};
use crate::instruction::{base_cycles, mode_of, operation_of, AddrMode, Operation};
use crate::state::{
    high_byte, is_negative, low_byte, word, wrap16, wrap8, CpuState, IRQ_VECTOR, NMI_VECTOR,
    RESET_VECTOR,
};

verus! {

/// The state after the operand has been latched: read from the resolved
/// address, unless the instruction is implied, where the value latched by
/// the addressing mode stays.
pub open spec fn fetch(s: CpuState) -> CpuState {
    if mode_of(s.opcode) == AddrMode::Imp {
        s
    } else {
        CpuState { fetched: s.read(s.addr_abs), ..s }
    }
}

/// The state after a shift or rotate has put its result `v` back where the
/// operand came from: the accumulator for an implied instruction, memory
/// otherwise.
pub open spec fn write_back(s: CpuState, v: u8) -> CpuState {
    if mode_of(s.opcode) == AddrMode::Imp {
        CpuState { a: v, ..s }
    } else {
        s.write(s.addr_abs, v)
    }
}

/// Whether `a` and `m` have the same sign and `r` has the other one: the
/// sum `r` of `a` and `m` left the signed range.
pub open spec fn sign_overflow(a: u8, m: u8, r: u8) -> bool {
    is_negative(a) == is_negative(m) && is_negative(r) != is_negative(a)
}

/// The accumulator plus `m` plus the carry. The carry flag takes bit 8 of
/// the sum, the accumulator its low byte.
pub open spec fn add_with_carry(s: CpuState, m: u8) -> CpuState {
    let sum = s.a + m + s.carry();
    let r = wrap8(sum);
    CpuState {
        a: r,
        temp: sum as u16,
        ..s.set_flag(Flags6502::C, sum > 0xFF).set_flag(Flags6502::Z, r == 0).set_flag(
            Flags6502::V,
            sign_overflow(s.a, m, r),
        ).set_flag(Flags6502::N, is_negative(r))
    }
}

/// The flags after comparing `reg` with the operand: carry when `reg` is
/// not below it, zero and negative from the wrapped difference.
pub open spec fn compare(s: CpuState, reg: u8) -> CpuState {
    let s1 = fetch(s);
    let m = s1.fetched;
    let d = wrap8(reg - m);
    CpuState {
        temp: wrap16(reg - m),
        ..s1.set_flag(Flags6502::C, reg >= m).set_flag(Flags6502::Z, d == 0).set_flag(
            Flags6502::N,
            is_negative(d),
        )
    }
}

/// A taken branch: the displacement is added to the program counter, at
/// the cost of one cycle, and of one more when the target lies in another
/// page than the instruction that follows the branch. The cycle counter
/// wraps like every register.
pub open spec fn branch_taken(s: CpuState) -> CpuState {
    let target = wrap16(s.pc + s.addr_rel);
    let spent: int = if high_byte(target) != high_byte(s.pc) {
        2
    } else {
        1
    };
    CpuState { pc: target, addr_abs: target, cycles: wrap8(s.cycles + spent), ..s }
}

/// A branch that is taken when `taken` holds.
pub open spec fn branch(s: CpuState, taken: bool) -> CpuState {
    if taken {
        branch_taken(s)
    } else {
        s
    }
}

/// The state after the program counter has been pushed, high byte first.
pub open spec fn push_pc(s: CpuState) -> CpuState {
    s.push(high_byte(s.pc)).push(low_byte(s.pc))
}

/// The state after a 16-bit value has been pulled, low byte first, together
/// with that value.
pub open spec fn pull_word(s: CpuState) -> (CpuState, u16) {
    let s1 = s.pop();
    let s2 = s1.pop();
    (s2, word(s1.top(), s2.top()))
}

/// What IRQ and NMI have in common: the program counter goes on the
/// stack, then the status with break clear and unused set; after that
/// interrupts are disabled, and execution continues at the address held at
/// `vector`.
pub open spec fn interrupt(s: CpuState, vector: u16) -> CpuState {
    let s1 = push_pc(s).set_flag(Flags6502::B, false).set_flag(Flags6502::U, true);
    let s2 = s1.push(s1.sr).set_flag(Flags6502::I, true);
    CpuState { addr_abs: vector, pc: s2.read_vector(vector), cycles: 7, ..s2 }
}

/// ADC: the operand and the carry are added to the accumulator.
pub open spec fn op_adc(s: CpuState) -> CpuState {
    let s1 = fetch(s);
    add_with_carry(s1, s1.fetched)
}

/// SBC: the operand and the borrow are taken from the accumulator, by
/// adding the complement of the operand; the carry flag then means that no
/// borrow was needed.
pub open spec fn op_sbc(s: CpuState) -> CpuState {
    let s1 = fetch(s);
    add_with_carry(s1, (0xFF - s1.fetched) as u8)
}

/// AND: the accumulator keeps the bits it shares with the operand.
pub open spec fn op_and(s: CpuState) -> CpuState {
    let s1 = fetch(s);
    let r = s1.a & s1.fetched;
    CpuState { a: r, ..s1 }.set_zn(r)
}

/// EOR: the accumulator keeps the bits in which it differs from the operand.
pub open spec fn op_eor(s: CpuState) -> CpuState {
    let s1 = fetch(s);
    let r = s1.a ^ s1.fetched;
    CpuState { a: r, ..s1 }.set_zn(r)
}

/// ORA: the accumulator gains the bits of the operand.
pub open spec fn op_ora(s: CpuState) -> CpuState {
    let s1 = fetch(s);
    let r = s1.a | s1.fetched;
    CpuState { a: r, ..s1 }.set_zn(r)
}

/// ASL: bit 7 of the operand leaves into the carry; bit 0 is filled with
/// zero.
pub open spec fn op_asl(s: CpuState) -> CpuState {
    let s1 = fetch(s);
    let m = s1.fetched;
    let r = wrap8(m * 2);
    write_back(
        CpuState {
            temp: (m * 2) as u16,
            ..s1.set_flag(Flags6502::C, is_negative(m)).set_flag(Flags6502::Z, r == 0).set_flag(
                Flags6502::N,
                is_negative(r),
            )
        },
        r,
    )
}

/// LSR: bit 0 of the operand leaves into the carry; bit 7 is filled with
/// zero.
pub open spec fn op_lsr(s: CpuState) -> CpuState {
    let s1 = fetch(s);
    let m = s1.fetched;
    let r = m / 2;
    write_back(
        CpuState {
            temp: r as u16,
            ..s1.set_flag(Flags6502::C, m % 2 == 1).set_flag(Flags6502::Z, r == 0).set_flag(
                Flags6502::N,
                is_negative(r),
            )
        },
        r,
    )
}

/// ROL: bit 7 of the operand leaves into the carry; bit 0 is filled with
/// the carry that was there before.
pub open spec fn op_rol(s: CpuState) -> CpuState {
    let s1 = fetch(s);
    let m = s1.fetched;
    let wide = m * 2 + s1.carry();
    let r = wrap8(wide);
    write_back(
        CpuState {
            temp: wide as u16,
            ..s1.set_flag(Flags6502::C, is_negative(m)).set_flag(Flags6502::Z, r == 0).set_flag(
                Flags6502::N,
                is_negative(r),
            )
        },
        r,
    )
}

/// ROR: bit 0 of the operand leaves into the carry; bit 7 is filled with
/// the carry that was there before.
pub open spec fn op_ror(s: CpuState) -> CpuState {
    let s1 = fetch(s);
    let m = s1.fetched;
    let r = (s1.carry() * 0x80 + m / 2) as u8;
    write_back(
        CpuState {
            temp: r as u16,
            ..s1.set_flag(Flags6502::C, m % 2 == 1).set_flag(Flags6502::Z, r == 0).set_flag(
                Flags6502::N,
                is_negative(r),
            )
        },
        r,
    )
}

/// BIT: zero tells whether the accumulator and the operand share no set
/// bit; negative and overflow copy bits 7 and 6 of the operand.
pub open spec fn op_bit(s: CpuState) -> CpuState {
    let s1 = fetch(s);
    let m = s1.fetched;
    CpuState {
        temp: (s1.a & m) as u16,
        ..s1.set_flag(Flags6502::Z, s1.a & m == 0).set_flag(
            Flags6502::N,
            flag_is_set(m, Flags6502::N),
        ).set_flag(Flags6502::V, flag_is_set(m, Flags6502::V))
    }
}

/// BRK: the program counter steps over one more byte and interrupts are
/// disabled; then the counter and the status go on the stack, the status
/// with break set in the pushed copy only; and execution continues at the
/// address the interrupt request vector holds.
pub open spec fn op_brk(s: CpuState) -> CpuState {
    let s1 = push_pc(CpuState { pc: wrap16(s.pc + 1), ..s }.set_flag(Flags6502::I, true));
    let s2 = s1.push(with_flag(s1.sr, Flags6502::B, true)).set_flag(Flags6502::B, false);
    CpuState { pc: s2.read_vector(IRQ_VECTOR), ..s2 }
}

/// CMP: the accumulator is compared with the operand.
pub open spec fn op_cmp(s: CpuState) -> CpuState {
    compare(s, s.a)
}

/// CPX: X is compared with the operand.
pub open spec fn op_cpx(s: CpuState) -> CpuState {
    compare(s, s.x)
}

/// CPY: Y is compared with the operand.
pub open spec fn op_cpy(s: CpuState) -> CpuState {
    compare(s, s.y)
}

/// Memory at the resolved address changes by `delta`, wrapping.
pub open spec fn step_memory(s: CpuState, delta: int) -> CpuState {
    let s1 = fetch(s);
    let r = wrap8(s1.fetched + delta);
    CpuState { temp: r as u16, ..s1.write(s1.addr_abs, r) }.set_zn(r)
}

/// DEC: memory at the resolved address goes down by one.
pub open spec fn op_dec(s: CpuState) -> CpuState {
    step_memory(s, -1)
}

/// INC: memory at the resolved address goes up by one.
pub open spec fn op_inc(s: CpuState) -> CpuState {
    step_memory(s, 1)
}

/// DEX: X goes down by one.
pub open spec fn op_dex(s: CpuState) -> CpuState {
    let r = wrap8(s.x - 1);
    CpuState { x: r, ..s }.set_zn(r)
}

/// DEY: Y goes down by one.
pub open spec fn op_dey(s: CpuState) -> CpuState {
    let r = wrap8(s.y - 1);
    CpuState { y: r, ..s }.set_zn(r)
}

/// INX: X goes up by one.
pub open spec fn op_inx(s: CpuState) -> CpuState {
    let r = wrap8(s.x + 1);
    CpuState { x: r, ..s }.set_zn(r)
}

/// INY: Y goes up by one.
pub open spec fn op_iny(s: CpuState) -> CpuState {
    let r = wrap8(s.y + 1);
    CpuState { y: r, ..s }.set_zn(r)
}

/// JMP: execution continues at the resolved address.
pub open spec fn op_jmp(s: CpuState) -> CpuState {
    CpuState { pc: s.addr_abs, ..s }
}

/// JSR: the address of the last byte of the instruction goes on the
/// stack, and execution continues at the resolved address.
pub open spec fn op_jsr(s: CpuState) -> CpuState {
    CpuState { pc: s.addr_abs, ..push_pc(CpuState { pc: wrap16(s.pc - 1), ..s }) }
}

/// LDA: the accumulator takes the operand.
pub open spec fn op_lda(s: CpuState) -> CpuState {
    let s1 = fetch(s);
    CpuState { a: s1.fetched, ..s1 }.set_zn(s1.fetched)
}

/// LDX: X takes the operand.
pub open spec fn op_ldx(s: CpuState) -> CpuState {
    let s1 = fetch(s);
    CpuState { x: s1.fetched, ..s1 }.set_zn(s1.fetched)
}

/// LDY: Y takes the operand.
pub open spec fn op_ldy(s: CpuState) -> CpuState {
    let s1 = fetch(s);
    CpuState { y: s1.fetched, ..s1 }.set_zn(s1.fetched)
}

/// PHA: the accumulator goes on the stack.
pub open spec fn op_pha(s: CpuState) -> CpuState {
    s.push(s.a)
}

/// PHP: the status goes on the stack. The pushed copy has break and
/// unused set; the register itself keeps its value.
pub open spec fn op_php(s: CpuState) -> CpuState {
    s.push(s.sr | Flags6502::B | Flags6502::U)
}

/// PLA: the accumulator is pulled from the stack.
pub open spec fn op_pla(s: CpuState) -> CpuState {
    let s1 = s.pop();
    CpuState { a: s1.top(), ..s1 }.set_zn(s1.top())
}

/// PLP: the status is reloaded from the stack, and the unused flag forced
/// on.
pub open spec fn op_plp(s: CpuState) -> CpuState {
    let s1 = s.pop();
    CpuState { sr: s1.top(), ..s1 }.set_flag(Flags6502::U, true)
}

/// RTI: the status is reloaded from the stack with break cleared and the
/// unused flag forced on; then the program counter is pulled.
pub open spec fn op_rti(s: CpuState) -> CpuState {
    let s1 = s.pop();
    let s2 = CpuState { sr: s1.top(), ..s1 }.set_flag(Flags6502::B, false).set_flag(
        Flags6502::U,
        true,
    );
    let (s3, pc) = pull_word(s2);
    CpuState { pc: pc, ..s3 }
}

/// RTS: execution continues one past the address pulled from the stack.
pub open spec fn op_rts(s: CpuState) -> CpuState {
    let (s1, pc) = pull_word(s);
    CpuState { pc: wrap16(pc + 1), ..s1 }
}

/// STA: the accumulator is stored at the resolved address.
pub open spec fn op_sta(s: CpuState) -> CpuState {
    s.write(s.addr_abs, s.a)
}

/// STX: X is stored at the resolved address.
pub open spec fn op_stx(s: CpuState) -> CpuState {
    s.write(s.addr_abs, s.x)
}

/// STY: Y is stored at the resolved address.
pub open spec fn op_sty(s: CpuState) -> CpuState {
    s.write(s.addr_abs, s.y)
}

/// TAX: X takes the accumulator.
pub open spec fn op_tax(s: CpuState) -> CpuState {
    CpuState { x: s.a, ..s }.set_zn(s.a)
}

/// TAY: Y takes the accumulator.
pub open spec fn op_tay(s: CpuState) -> CpuState {
    CpuState { y: s.a, ..s }.set_zn(s.a)
}

/// TSX: X takes the stack pointer.
pub open spec fn op_tsx(s: CpuState) -> CpuState {
    CpuState { x: s.sp, ..s }.set_zn(s.sp)
}

/// TXA: the accumulator takes X.
pub open spec fn op_txa(s: CpuState) -> CpuState {
    CpuState { a: s.x, ..s }.set_zn(s.x)
}

/// TXS: the stack pointer takes X; no flag changes.
pub open spec fn op_txs(s: CpuState) -> CpuState {
    CpuState { sp: s.x, ..s }
}

/// TYA: the accumulator takes Y.
pub open spec fn op_tya(s: CpuState) -> CpuState {
    CpuState { a: s.y, ..s }.set_zn(s.y)
}

/// Whether the undocumented no-op `opcode` is one of those that take the
/// page-crossing cycle.
pub open spec fn nop_takes_penalty(opcode: u8) -> bool {
    match opcode {
        0x1C | 0x3C | 0x5C | 0x7C | 0xDC | 0xFC => true,
        _ => false,
    }
}

/// The state after `operation` has run on state `s`, in which the
/// addressing mode has been resolved.
#[verifier::opaque]
pub open spec fn execute(operation: Operation, s: CpuState) -> CpuState {
    match operation {
        Operation::Adc => op_adc(s),
        Operation::And => op_and(s),
        Operation::Asl => op_asl(s),
        Operation::Bcc => branch(s, !s.flag(Flags6502::C)),
        Operation::Bcs => branch(s, s.flag(Flags6502::C)),
        Operation::Beq => branch(s, s.flag(Flags6502::Z)),
        Operation::Bit => op_bit(s),
        Operation::Bmi => branch(s, s.flag(Flags6502::N)),
        Operation::Bne => branch(s, !s.flag(Flags6502::Z)),
        Operation::Bpl => branch(s, !s.flag(Flags6502::N)),
        Operation::Brk => op_brk(s),
        Operation::Bvc => branch(s, !s.flag(Flags6502::V)),
        Operation::Bvs => branch(s, s.flag(Flags6502::V)),
        Operation::Clc => s.set_flag(Flags6502::C, false),
        Operation::Cld => s.set_flag(Flags6502::D, false),
        Operation::Cli => s.set_flag(Flags6502::I, false),
        Operation::Clv => s.set_flag(Flags6502::V, false),
        Operation::Cmp => op_cmp(s),
        Operation::Cpx => op_cpx(s),
        Operation::Cpy => op_cpy(s),
        Operation::Dec => op_dec(s),
        Operation::Dex => op_dex(s),
        Operation::Dey => op_dey(s),
        Operation::Eor => op_eor(s),
        Operation::Inc => op_inc(s),
        Operation::Inx => op_inx(s),
        Operation::Iny => op_iny(s),
        Operation::Jmp => op_jmp(s),
        Operation::Jsr => op_jsr(s),
        Operation::Lda => op_lda(s),
        Operation::Ldx => op_ldx(s),
        Operation::Ldy => op_ldy(s),
        Operation::Lsr => op_lsr(s),
        Operation::Nop => s,
        Operation::Ora => op_ora(s),
        Operation::Pha => op_pha(s),
        Operation::Php => op_php(s),
        Operation::Pla => op_pla(s),
        Operation::Plp => op_plp(s),
        Operation::Rol => op_rol(s),
        Operation::Ror => op_ror(s),
        Operation::Rti => op_rti(s),
        Operation::Rts => op_rts(s),
        Operation::Sbc => op_sbc(s),
        Operation::Sec => s.set_flag(Flags6502::C, true),
        Operation::Sed => s.set_flag(Flags6502::D, true),
        Operation::Sei => s.set_flag(Flags6502::I, true),
        Operation::Sta => op_sta(s),
        Operation::Stx => op_stx(s),
        Operation::Sty => op_sty(s),
        Operation::Tax => op_tax(s),
        Operation::Tay => op_tay(s),
        Operation::Tsx => op_tsx(s),
        Operation::Txa => op_txa(s),
        Operation::Txs => op_txs(s),
        Operation::Tya => op_tya(s),
        Operation::Xxx => s,
    }
}

/// Whether `operation`, run for `opcode`, takes one more cycle when its
/// addressing mode crossed a page.
pub open spec fn takes_page_penalty(operation: Operation, opcode: u8) -> bool {
    match operation {
        Operation::Adc | Operation::And | Operation::Cmp | Operation::Eor | Operation::Lda
        | Operation::Ldx | Operation::Ldy | Operation::Ora | Operation::Sbc => true,
        Operation::Nop => nop_takes_penalty(opcode),
        _ => false,
    }
}

/// The state after the opcode at the program counter has been fetched and
/// its instruction run: the addressing mode first, then the operation.
/// The cycle counter holds the instruction's base cycles, what a taken
/// branch added, and one more if the addressing mode crossed a page and the
/// operation is sensitive to that.
pub open spec fn dispatch(s: CpuState) -> CpuState {
    let opcode = s.read(s.pc);
    let s1 = CpuState { opcode: opcode, pc: wrap16(s.pc + 1), cycles: base_cycles(opcode), ..s };
    let s2 = resolve(mode_of(opcode), s1);
    let s3 = execute(operation_of(opcode), s2);
    let penalty: int = if resolve_crosses_page(mode_of(opcode), s1) && takes_page_penalty(
        operation_of(opcode),
        opcode,
    ) {
        1
    } else {
        0
    };
    CpuState { cycles: (s3.cycles + penalty) as u8, ..s3 }
}

/// The state one clock cycle later. With no cycle pending the next
/// instruction is dispatched first; in either case one cycle is spent.
pub open spec fn clock_step(s: CpuState) -> CpuState {
    let t = if s.cycles == 0 {
        dispatch(s)
    } else {
        s
    };
    CpuState { cycles: (t.cycles - 1) as u8, ..t }
}

/// The state `n` clock cycles later.
pub open spec fn run(s: CpuState, n: nat) -> CpuState
    decreases n,
{
    if n == 0 {
        s
    } else {
        run(clock_step(s), (n - 1) as nat)
    }
}

/// The state after a reset: registers cleared, the stack pointer at 0xFD,
/// only the unused flag set, the program counter loaded from the reset
/// vector, and eight cycles pending. Memory is untouched.
pub open spec fn reset_state(s: CpuState) -> CpuState {
    CpuState {
        a: 0,
        x: 0,
        y: 0,
        sp: 0xFD,
        sr: Flags6502::U,
        pc: s.read_vector(RESET_VECTOR),
        addr_rel: 0,
        addr_abs: 0,
        fetched: 0,
        cycles: 8,
        ..s
    }
}

/// The state after an interrupt request: ignored while interrupts are
/// disabled.
pub open spec fn irq_state(s: CpuState) -> CpuState {
    if s.flag(Flags6502::I) {
        s
    } else {
        interrupt(s, IRQ_VECTOR)
    }
}

/// The state after a non-maskable interrupt.
pub open spec fn nmi_state(s: CpuState) -> CpuState {
    interrupt(s, NMI_VECTOR)
}

/// Whether `operation` is one of the eight branches.
pub open spec fn is_branch(operation: Operation) -> bool {
    match operation {
        Operation::Bcc | Operation::Bcs | Operation::Beq | Operation::Bmi | Operation::Bne
        | Operation::Bpl | Operation::Bvc | Operation::Bvs => true,
        _ => false,
    }
}

/// No addressing mode touches the cycle counter.
pub proof fn lemma_resolve_keeps_cycles(mode: AddrMode, s: CpuState)
    ensures
        resolve(mode, s).cycles == s.cycles,
        resolve(mode, s).opcode == s.opcode,
{
    reveal(resolve);
}

/// Only a branch touches the cycle counter, and it adds at most two.
pub proof fn lemma_execute_cycles(operation: Operation, s: CpuState)
    requires
        s.cycles <= 253,
    ensures
        s.cycles <= execute(operation, s).cycles <= s.cycles + 2,
        !is_branch(operation) ==> execute(operation, s).cycles == s.cycles,
{
    reveal(execute);
}

} // verus!
