use vstd::prelude::*;
use crate::addressing::{
    crosses_page, izy_base, mode_abs, mode_abs_indexed, mode_imm, mode_imp, mode_ind, mode_izx,
    mode_izy, mode_rel, mode_zp0, mode_zp_indexed, operand_word, resolve, resolve_crosses_page,
};
use crate::bits::{
    lemma_and_of_hints, lemma_byte_bits, lemma_join_bytes, lemma_overflow_bits,
    lemma_rotate_bits, lemma_word_bits,
};
use crate::bus::Bus;
use crate::flags::{lemma_break_cleared, Flags6502};
use crate::instruction::{lemma_base_cycles_bounds, AddrMode, Instruction, Operation};
use crate::operations::{
    add_with_carry, branch, clock_step, compare, execute, fetch, interrupt, irq_state,
    lemma_execute_cycles, lemma_resolve_keeps_cycles, nmi_state, nop_takes_penalty, op_adc, op_and,
    op_asl, op_bit, op_brk, op_cmp, op_cpx, op_cpy, op_dec, op_dex, op_dey, op_eor, op_inc,
    op_inx, op_iny, op_jmp, op_jsr, op_lda, op_ldx, op_ldy, op_lsr, op_ora, op_pha, op_php,
    op_pla, op_plp, op_rol, op_ror, op_rti, op_rts, op_sbc, op_sta, op_stx, op_sty, op_tax,
    op_tay, op_tsx, op_txa, op_txs, op_tya, pull_word, push_pc, reset_state, takes_page_penalty,
    write_back,
};
use crate::state::{
    high_byte, low_byte, word, CpuState, IRQ_VECTOR, NMI_VECTOR, RESET_VECTOR, STACK_BASE,
};

verus! {

/// The processor: its registers, the scratch values that the two phases of
/// an instruction share, and the bus it is wired to.
pub struct Cpu6502 {
    /// Accumulator.
    pub a: u8,
    /// Index register X.
    pub x: u8,
    /// Index register Y.
    pub y: u8,
    /// Program counter.
    pub pc: u16,
    /// Stack pointer.
    pub sp: u8,
    /// Status register.
    pub sr: u8,
    /// The memory bus.
    pub bus: Bus,
    /// Operand latched for the running instruction.
    pub fetched: u8,
    /// Wide scratch value of the last arithmetic.
    pub temp: u16,
    /// Address resolved by the addressing mode.
    pub addr_abs: u16,
    /// Branch displacement, sign-extended.
    pub addr_rel: u16,
    /// Opcode of the running instruction.
    pub opcode: u8,
    /// Cycles the running instruction still has to spend.
    pub cycles: u8,
}

impl View for Cpu6502 {
    type V = CpuState;

    open spec fn view(&self) -> CpuState {
        CpuState {
            a: self.a,
            x: self.x,
            y: self.y,
            pc: self.pc,
            sp: self.sp,
            sr: self.sr,
            mem: self.bus@,
            fetched: self.fetched,
            temp: self.temp,
            addr_abs: self.addr_abs,
            addr_rel: self.addr_rel,
            opcode: self.opcode,
            cycles: self.cycles,
        }
    }
}

/// The 16-bit value with the given low and high bytes.
pub fn join_bytes(lo: u8, hi: u8) -> (w: u16)
    ensures
        w == word(lo, hi),
{
    proof {
        lemma_join_bytes(lo, hi);
    }
    ((hi as u16) << 8) | (lo as u16)
}

/// The high byte of `w`.
pub fn high_byte_of(w: u16) -> (b: u8)
    ensures
        b == high_byte(w),
{
    proof {
        lemma_word_bits(w);
    }
    ((w >> 8) & 0x00FF) as u8
}

/// The low byte of `w`.
pub fn low_byte_of(w: u16) -> (b: u8)
    ensures
        b == low_byte(w),
{
    proof {
        lemma_word_bits(w);
    }
    (w & 0x00FF) as u8
}

impl Cpu6502 {
    /// The state of a processor that has just been made: every register
    /// zero, no cycle pending, memory all zero.
    pub open spec fn new_state() -> CpuState {
        CpuState {
            a: 0,
            x: 0,
            y: 0,
            pc: 0,
            sp: 0,
            sr: 0,
            mem: Seq::new(0x10000, |i: int| 0u8),
            fetched: 0,
            temp: 0,
            addr_abs: 0,
            addr_rel: 0,
            opcode: 0,
            cycles: 0,
        }
    }

    /// A processor with every register zero and no cycle pending, wired to
    /// a bus whose memory is all zero.
    pub fn new() -> (cpu: Self)
        ensures
            cpu@ == Self::new_state(),
    {
        let cpu = Self {
            a: 0x00,
            x: 0x00,
            y: 0x00,
            pc: 0x0000,
            sp: 0x00,
            sr: 0x00,
            bus: Bus::new(),
            fetched: 0x00,
            temp: 0x0000,
            addr_abs: 0x0000,
            addr_rel: 0x0000,
            opcode: 0x00,
            cycles: 0,
        };
        assert(cpu@.mem =~= Seq::new(0x10000, |i: int| 0u8));
        cpu
    }

    /// The byte at `addr`.
    pub fn read(&self, addr: u16) -> (data: u8)
        ensures
            data == self@.read(addr),
    {
        self.bus.read(addr, false)
    }

    /// Stores `data` at `addr`.
    pub fn write(&mut self, addr: u16, data: u8)
        ensures
            final(self)@ == old(self)@.write(addr, data),
    {
        self.bus.write(addr, data);
    }

    /// 1 if flag `f` is set, else 0.
    pub fn get_flag(&self, f: u8) -> (bit: u8)
        ensures
            bit == (if self@.flag(f) { 1u8 } else { 0u8 }),
    {
        if (self.sr & f) > 0 {
            1
        } else {
            0
        }
    }

    /// Sets flag `f` if `v` holds, and clears it otherwise.
    pub fn set_flag(&mut self, f: u8, v: bool)
        ensures
            final(self)@ == old(self)@.set_flag(f, v),
    {
        if v {
            self.sr |= f;
        } else {
            self.sr &= !f;
        }
    }

    /// Whether the running instruction has spent all its cycles.
    pub fn complete(&self) -> (done: bool)
        ensures
            done == (self@.cycles == 0),
    {
        self.cycles == 0
    }

    /// Implied addressing. Never asks for an extra cycle.
    pub fn imp(&mut self) -> (extra: u8)
        ensures
            final(self)@ == mode_imp(old(self)@),
            extra == 0,
    {
        self.fetched = self.a;
        0
    }

    /// Immediate addressing. Never asks for an extra cycle.
    pub fn imm(&mut self) -> (extra: u8)
        ensures
            final(self)@ == mode_imm(old(self)@),
            extra == 0,
    {
        self.addr_abs = self.pc;
        self.pc = self.pc.wrapping_add(1);
        0
    }

    /// Zero-page addressing. Never asks for an extra cycle.
    pub fn zp0(&mut self) -> (extra: u8)
        ensures
            final(self)@ == mode_zp0(old(self)@),
            extra == 0,
    {
        self.addr_abs = self.read(self.pc) as u16;
        self.pc = self.pc.wrapping_add(1);
        proof {
            lemma_word_bits(self.addr_abs);
        }
        self.addr_abs &= 0x00FF;
        0
    }

    /// Zero-page addressing indexed by X. Never asks for an extra cycle.
    pub fn zpx(&mut self) -> (extra: u8)
        ensures
            final(self)@ == mode_zp_indexed(old(self)@, old(self)@.x),
            extra == 0,
    {
        self.addr_abs = self.read(self.pc).wrapping_add(self.x) as u16;
        self.pc = self.pc.wrapping_add(1);
        proof {
            lemma_word_bits(self.addr_abs);
        }
        self.addr_abs &= 0x00FF;
        0
    }

    /// Zero-page addressing indexed by Y. Never asks for an extra cycle.
    pub fn zpy(&mut self) -> (extra: u8)
        ensures
            final(self)@ == mode_zp_indexed(old(self)@, old(self)@.y),
            extra == 0,
    {
        self.addr_abs = self.read(self.pc).wrapping_add(self.y) as u16;
        self.pc = self.pc.wrapping_add(1);
        proof {
            lemma_word_bits(self.addr_abs);
        }
        self.addr_abs &= 0x00FF;
        0
    }

    /// Relative addressing, for branches. Never asks for an extra cycle.
    pub fn rel(&mut self) -> (extra: u8)
        ensures
            final(self)@ == mode_rel(old(self)@),
            extra == 0,
    {
        let offset = self.read(self.pc);
        self.addr_rel = offset as u16;
        self.pc = self.pc.wrapping_add(1);
        proof {
            lemma_byte_bits(offset);
        }
        if (self.addr_rel & 0x80) != 0 {
            self.addr_rel |= 0xFF00;
        }
        0
    }

    /// Relative addressing under its second name.
    pub fn red(&mut self) -> (extra: u8)
        ensures
            final(self)@ == mode_rel(old(self)@),
            extra == 0,
    {
        self.rel()
    }

    /// Absolute addressing. Never asks for an extra cycle.
    pub fn abs(&mut self) -> (extra: u8)
        ensures
            final(self)@ == mode_abs(old(self)@),
            extra == 0,
    {
        let lo = self.read(self.pc);
        self.pc = self.pc.wrapping_add(1);
        let hi = self.read(self.pc);
        self.pc = self.pc.wrapping_add(1);

        self.addr_abs = join_bytes(lo, hi);
        0
    }

    /// Absolute addressing indexed by X. Asks for an extra cycle when the
    /// index carries into the high byte of the address.
    pub fn abx(&mut self) -> (extra: u8)
        ensures
            final(self)@ == mode_abs_indexed(old(self)@, old(self)@.x),
            extra == (if crosses_page(operand_word(old(self)@), old(self)@.x) { 1u8 } else { 0u8 }),
    {
        let lo = self.read(self.pc);
        self.pc = self.pc.wrapping_add(1);
        let hi = self.read(self.pc);
        self.pc = self.pc.wrapping_add(1);

        self.addr_abs = join_bytes(lo, hi);
        self.addr_abs = self.addr_abs.wrapping_add(self.x as u16);

        proof {
            lemma_word_bits(self.addr_abs);
            lemma_join_bytes(lo, hi);
        }
        if (self.addr_abs & 0xFF00) != ((hi as u16) << 8) {
            1
        } else {
            0
        }
    }

    /// Absolute addressing indexed by Y. Asks for an extra cycle when the
    /// index carries into the high byte of the address.
    pub fn aby(&mut self) -> (extra: u8)
        ensures
            final(self)@ == mode_abs_indexed(old(self)@, old(self)@.y),
            extra == (if crosses_page(operand_word(old(self)@), old(self)@.y) { 1u8 } else { 0u8 }),
    {
        let lo = self.read(self.pc);
        self.pc = self.pc.wrapping_add(1);
        let hi = self.read(self.pc);
        self.pc = self.pc.wrapping_add(1);

        self.addr_abs = join_bytes(lo, hi);
        self.addr_abs = self.addr_abs.wrapping_add(self.y as u16);

        proof {
            lemma_word_bits(self.addr_abs);
            lemma_join_bytes(lo, hi);
        }
        if (self.addr_abs & 0xFF00) != ((hi as u16) << 8) {
            1
        } else {
            0
        }
    }

    /// Indirect addressing. A pointer in the last byte of a page takes its
    /// high byte from the first byte of the same page, as the hardware does.
    /// Never asks for an extra cycle.
    pub fn ind(&mut self) -> (extra: u8)
        ensures
            final(self)@ == mode_ind(old(self)@),
            extra == 0,
    {
        let ptr_lo = self.read(self.pc);
        self.pc = self.pc.wrapping_add(1);
        let ptr_hi = self.read(self.pc);
        self.pc = self.pc.wrapping_add(1);

        let ptr = join_bytes(ptr_lo, ptr_hi);

        proof {
            lemma_word_bits(ptr);
        }
        if ptr_lo == 0xFF {
            // the pointer's low byte wraps; its high byte stays
            self.addr_abs = join_bytes(self.read(ptr), self.read(ptr & 0xFF00));
        } else {
            self.addr_abs = join_bytes(self.read(ptr), self.read(ptr + 1));
        }
        0
    }

    /// Indexed indirect addressing. Never asks for an extra cycle.
    pub fn izx(&mut self) -> (extra: u8)
        ensures
            final(self)@ == mode_izx(old(self)@),
            extra == 0,
    {
        let t = self.read(self.pc);
        self.pc = self.pc.wrapping_add(1);

        let at = t.wrapping_add(self.x);
        let lo = self.read(at as u16);
        let hi = self.read(at.wrapping_add(1) as u16);

        self.addr_abs = join_bytes(lo, hi);
        0
    }

    /// Indirect indexed addressing. Asks for an extra cycle when the index
    /// carries into the high byte of the address.
    pub fn izy(&mut self) -> (extra: u8)
        ensures
            final(self)@ == mode_izy(old(self)@),
            extra == (if crosses_page(izy_base(old(self)@), old(self)@.y) { 1u8 } else { 0u8 }),
    {
        let t = self.read(self.pc);
        self.pc = self.pc.wrapping_add(1);

        let lo = self.read(t as u16);
        let hi = self.read(t.wrapping_add(1) as u16);

        self.addr_abs = join_bytes(lo, hi);
        assert(self.addr_abs == izy_base(old(self)@));
        self.addr_abs = self.addr_abs.wrapping_add(self.y as u16);

        proof {
            lemma_word_bits(self.addr_abs);
            lemma_join_bytes(lo, hi);
            assert(high_byte(izy_base(old(self)@)) == hi);
        }
        if (self.addr_abs & 0xFF00) != ((hi as u16) << 8) {
            1
        } else {
            0
        }
    }

    /// Latches the operand of the running instruction and returns it.
    /// An implied instruction keeps what its addressing mode latched; any
    /// other reads the resolved address.
    pub fn fetch(&mut self) -> (data: u8)
        ensures
            final(self)@ == fetch(old(self)@),
            data == final(self)@.fetched,
    {
        if Instruction::lookup(self.opcode).addrmode != AddrMode::Imp {
            self.fetched = self.read(self.addr_abs);
        }
        self.fetched
    }

    /// Puts the result of a shift or rotate back where its operand came from.
    fn write_back(&mut self, v: u8)
        ensures
            final(self)@ == write_back(old(self)@, v),
    {
        if Instruction::lookup(self.opcode).addrmode == AddrMode::Imp {
            self.a = v;
        } else {
            self.write(self.addr_abs, v);
        }
    }

    /// Sets the zero and negative flags to describe `v`.
    fn set_zn(&mut self, v: u8)
        ensures
            final(self)@ == old(self)@.set_zn(v),
    {
        proof {
            lemma_byte_bits(v);
        }
        self.set_flag(Flags6502::Z, v == 0x00);
        self.set_flag(Flags6502::N, (v & 0x80) != 0);
    }

    /// Pushes `data` on the stack.
    fn push(&mut self, data: u8)
        ensures
            final(self)@ == old(self)@.push(data),
    {
        self.write(STACK_BASE + self.sp as u16, data);
        self.sp = self.sp.wrapping_sub(1);
    }

    /// Moves the stack pointer up and returns the byte it then names.
    fn pull(&mut self) -> (data: u8)
        ensures
            final(self)@ == old(self)@.pop(),
            data == final(self)@.top(),
    {
        self.sp = self.sp.wrapping_add(1);
        self.read(STACK_BASE + self.sp as u16)
    }

    /// Pushes the program counter, high byte first.
    fn push_pc(&mut self)
        ensures
            final(self)@ == push_pc(old(self)@),
    {
        self.push(high_byte_of(self.pc));
        self.push(low_byte_of(self.pc));
    }

    /// Pulls a 16-bit value, low byte first.
    fn pull_word(&mut self) -> (w: u16)
        ensures
            final(self)@ == pull_word(old(self)@).0,
            w == pull_word(old(self)@).1,
    {
        let lo = self.pull();
        let hi = self.pull();
        join_bytes(lo, hi)
    }

    /// Adds `m` and the carry to the accumulator.
    fn add_with_carry(&mut self, m: u8)
        ensures
            final(self)@ == add_with_carry(old(self)@, m),
    {
        // the sum is taken in 16 bits, so that the carry shows in bit 8
        self.temp = self.a as u16 + m as u16 + self.get_flag(Flags6502::C) as u16;
        proof {
            lemma_word_bits(self.temp);
            lemma_overflow_bits(self.a, m, self.temp);
        }
        self.set_flag(Flags6502::C, self.temp > 255);
        self.set_flag(Flags6502::Z, (self.temp & 0x00FF) == 0);
        self.set_flag(
            Flags6502::V,
            ((!(self.a as u16 ^ m as u16) & (self.a as u16 ^ self.temp)) & 0x0080) != 0,
        );
        self.set_flag(Flags6502::N, (self.temp & 0x80) != 0);
        self.a = (self.temp & 0x00FF) as u8;
    }

    /// ADC: add memory to the accumulator with carry. Takes the
    /// page-crossing cycle.
    pub fn adc(&mut self) -> (extra: u8)
        ensures
            final(self)@ == op_adc(old(self)@),
            extra == 1,
    {
        let m = self.fetch();
        self.add_with_carry(m);
        1
    }

    /// SBC: subtract memory from the accumulator with borrow, by adding the
    /// complement of the operand. Takes the page-crossing cycle.
    pub fn sbc(&mut self) -> (extra: u8)
        ensures
            final(self)@ == op_sbc(old(self)@),
            extra == 1,
    {
        let m = self.fetch();
        proof {
            lemma_byte_bits(m);
        }
        // inverting the low eight bits turns the addition into a subtraction
        let value: u16 = (m as u16) ^ 0x00FF;
        self.add_with_carry(value as u8);
        1
    }

    /// AND: bitwise AND into the accumulator. Takes the page-crossing cycle.
    pub fn and(&mut self) -> (extra: u8)
        ensures
            final(self)@ == op_and(old(self)@),
            extra == 1,
    {
        self.fetch();
        self.a = self.a & self.fetched;
        self.set_zn(self.a);
        1
    }

    /// ASL: shift left, into the carry.
    pub fn asl(&mut self) -> (extra: u8)
        ensures
            final(self)@ == op_asl(old(self)@),
            extra == 0,
    {
        self.fetch();
        proof {
            lemma_byte_bits(self.fetched);
        }
        self.temp = (self.fetched as u16) << 1;
        proof {
            lemma_word_bits(self.temp);
        }
        self.set_flag(Flags6502::C, (self.temp & 0xFF00) > 0);
        self.set_flag(Flags6502::Z, (self.temp & 0x00FF) == 0x00);
        self.set_flag(Flags6502::N, (self.temp & 0x80) != 0);
        self.write_back((self.temp & 0x00FF) as u8);
        0
    }

    /// Takes the branch if `taken` holds: one cycle more, and another if
    /// the target is in another page.
    fn branch(&mut self, taken: bool)
        ensures
            final(self)@ == branch(old(self)@, taken),
    {
        if taken {
            self.cycles = self.cycles.wrapping_add(1);
            self.addr_abs = self.pc.wrapping_add(self.addr_rel);

            proof {
                lemma_word_bits(self.addr_abs);
                lemma_word_bits(self.pc);
            }
            if (self.addr_abs & 0xFF00) != (self.pc & 0xFF00) {
                self.cycles = self.cycles.wrapping_add(1);
            }
            self.pc = self.addr_abs;
        }
    }

    /// BCC: branch if carry clear.
    pub fn bcc(&mut self) -> (extra: u8)
        ensures
            final(self)@ == branch(old(self)@, !old(self)@.flag(Flags6502::C)),
            extra == 0,
    {
        self.branch(self.get_flag(Flags6502::C) == 0);
        0
    }

    /// BCS: branch if carry set.
    pub fn bcs(&mut self) -> (extra: u8)
        ensures
            final(self)@ == branch(old(self)@, old(self)@.flag(Flags6502::C)),
            extra == 0,
    {
        self.branch(self.get_flag(Flags6502::C) == 1);
        0
    }

    /// BEQ: branch if zero set.
    pub fn beq(&mut self) -> (extra: u8)
        ensures
            final(self)@ == branch(old(self)@, old(self)@.flag(Flags6502::Z)),
            extra == 0,
    {
        self.branch(self.get_flag(Flags6502::Z) == 1);
        0
    }

    /// BIT: test bits of memory against the accumulator.
    pub fn bit(&mut self) -> (extra: u8)
        ensures
            final(self)@ == op_bit(old(self)@),
            extra == 0,
    {
        self.fetch();
        self.temp = (self.a & self.fetched) as u16;
        self.set_flag(Flags6502::Z, (self.a & self.fetched) == 0x00);
        self.set_flag(Flags6502::N, (self.fetched & Flags6502::N) != 0);
        self.set_flag(Flags6502::V, (self.fetched & Flags6502::V) != 0);
        0
    }

    /// BMI: branch if negative set.
    pub fn bmi(&mut self) -> (extra: u8)
        ensures
            final(self)@ == branch(old(self)@, old(self)@.flag(Flags6502::N)),
            extra == 0,
    {
        self.branch(self.get_flag(Flags6502::N) == 1);
        0
    }

    /// BNE: branch if zero clear.
    pub fn bne(&mut self) -> (extra: u8)
        ensures
            final(self)@ == branch(old(self)@, !old(self)@.flag(Flags6502::Z)),
            extra == 0,
    {
        self.branch(self.get_flag(Flags6502::Z) == 0);
        0
    }

    /// BPL: branch if negative clear.
    pub fn bpl(&mut self) -> (extra: u8)
        ensures
            final(self)@ == branch(old(self)@, !old(self)@.flag(Flags6502::N)),
            extra == 0,
    {
        self.branch(self.get_flag(Flags6502::N) == 0);
        0
    }

    /// BRK: software interrupt through the interrupt request vector.
    pub fn brk(&mut self) -> (extra: u8)
        ensures
            final(self)@ == op_brk(old(self)@),
            extra == 0,
    {
        self.pc = self.pc.wrapping_add(1);

        self.set_flag(Flags6502::I, true);
        self.push_pc();

        proof {
            lemma_break_cleared(self.sr);
        }
        self.set_flag(Flags6502::B, true);
        self.push(self.sr);
        self.set_flag(Flags6502::B, false);

        self.pc = join_bytes(self.read(IRQ_VECTOR), self.read(IRQ_VECTOR + 1));
        0
    }

    /// BVC: branch if overflow clear.
    pub fn bvc(&mut self) -> (extra: u8)
        ensures
            final(self)@ == branch(old(self)@, !old(self)@.flag(Flags6502::V)),
            extra == 0,
    {
        self.branch(self.get_flag(Flags6502::V) == 0);
        0
    }

    /// BVS: branch if overflow set.
    pub fn bvs(&mut self) -> (extra: u8)
        ensures
            final(self)@ == branch(old(self)@, old(self)@.flag(Flags6502::V)),
            extra == 0,
    {
        self.branch(self.get_flag(Flags6502::V) == 1);
        0
    }

    /// CLC: clear carry.
    pub fn clc(&mut self) -> (extra: u8)
        ensures
            final(self)@ == old(self)@.set_flag(Flags6502::C, false),
            extra == 0,
    {
        self.set_flag(Flags6502::C, false);
        0
    }

    /// CLD: clear decimal mode.
    pub fn cld(&mut self) -> (extra: u8)
        ensures
            final(self)@ == old(self)@.set_flag(Flags6502::D, false),
            extra == 0,
    {
        self.set_flag(Flags6502::D, false);
        0
    }

    /// CLI: clear interrupt disable.
    pub fn cli(&mut self) -> (extra: u8)
        ensures
            final(self)@ == old(self)@.set_flag(Flags6502::I, false),
            extra == 0,
    {
        self.set_flag(Flags6502::I, false);
        0
    }

    /// CLV: clear overflow.
    pub fn clv(&mut self) -> (extra: u8)
        ensures
            final(self)@ == old(self)@.set_flag(Flags6502::V, false),
            extra == 0,
    {
        self.set_flag(Flags6502::V, false);
        0
    }

    /// Compares `reg` with the operand.
    fn compare_register(&mut self, reg: u8)
        ensures
            final(self)@ == compare(old(self)@, reg),
    {
        self.fetch();
        self.temp = (reg as u16).wrapping_sub(self.fetched as u16);
        proof {
            lemma_word_bits(self.temp);
        }
        self.set_flag(Flags6502::C, reg >= self.fetched);
        self.set_flag(Flags6502::Z, (self.temp & 0x00FF) == 0x0000);
        self.set_flag(Flags6502::N, (self.temp & 0x0080) != 0);
    }

    /// CMP: compare memory with the accumulator. Takes the page-crossing
    /// cycle.
    pub fn cmp(&mut self) -> (extra: u8)
        ensures
            final(self)@ == op_cmp(old(self)@),
            extra == 1,
    {
        self.compare_register(self.a);
        1
    }

    /// CPX: compare memory with X.
    pub fn cpx(&mut self) -> (extra: u8)
        ensures
            final(self)@ == op_cpx(old(self)@),
            extra == 0,
    {
        self.compare_register(self.x);
        0
    }

    /// CPY: compare memory with Y.
    pub fn cpy(&mut self) -> (extra: u8)
        ensures
            final(self)@ == op_cpy(old(self)@),
            extra == 0,
    {
        self.compare_register(self.y);
        0
    }

    /// DEC: decrement memory.
    pub fn dec(&mut self) -> (extra: u8)
        ensures
            final(self)@ == op_dec(old(self)@),
            extra == 0,
    {
        self.fetch();
        self.temp = self.fetched.wrapping_sub(1) as u16;
        proof {
            lemma_word_bits(self.temp);
        }
        self.write(self.addr_abs, (self.temp & 0x00FF) as u8);
        self.set_flag(Flags6502::Z, (self.temp & 0x00FF) == 0x0000);
        self.set_flag(Flags6502::N, (self.temp & 0x0080) != 0);
        0
    }

    /// DEX: decrement X.
    pub fn dex(&mut self) -> (extra: u8)
        ensures
            final(self)@ == op_dex(old(self)@),
            extra == 0,
    {
        self.x = self.x.wrapping_sub(1);
        self.set_zn(self.x);
        0
    }

    /// DEY: decrement Y.
    pub fn dey(&mut self) -> (extra: u8)
        ensures
            final(self)@ == op_dey(old(self)@),
            extra == 0,
    {
        self.y = self.y.wrapping_sub(1);
        self.set_zn(self.y);
        0
    }

    /// EOR: bitwise exclusive OR into the accumulator. Takes the
    /// page-crossing cycle.
    pub fn eor(&mut self) -> (extra: u8)
        ensures
            final(self)@ == op_eor(old(self)@),
            extra == 1,
    {
        self.fetch();
        self.a = self.a ^ self.fetched;
        self.set_zn(self.a);
        1
    }

    /// INC: increment memory.
    pub fn inc(&mut self) -> (extra: u8)
        ensures
            final(self)@ == op_inc(old(self)@),
            extra == 0,
    {
        self.fetch();
        self.temp = self.fetched.wrapping_add(1) as u16;
        proof {
            lemma_word_bits(self.temp);
        }
        self.write(self.addr_abs, (self.temp & 0x00FF) as u8);
        self.set_flag(Flags6502::Z, (self.temp & 0x00FF) == 0x0000);
        self.set_flag(Flags6502::N, (self.temp & 0x0080) != 0);
        0
    }

    /// INX: increment X.
    pub fn inx(&mut self) -> (extra: u8)
        ensures
            final(self)@ == op_inx(old(self)@),
            extra == 0,
    {
        self.x = self.x.wrapping_add(1);
        self.set_zn(self.x);
        0
    }

    /// INY: increment Y.
    pub fn iny(&mut self) -> (extra: u8)
        ensures
            final(self)@ == op_iny(old(self)@),
            extra == 0,
    {
        self.y = self.y.wrapping_add(1);
        self.set_zn(self.y);
        0
    }

    /// JMP: continue at the resolved address.
    pub fn jmp(&mut self) -> (extra: u8)
        ensures
            final(self)@ == op_jmp(old(self)@),
            extra == 0,
    {
        self.pc = self.addr_abs;
        0
    }

    /// JSR: push the return address and continue at the resolved address.
    pub fn jsr(&mut self) -> (extra: u8)
        ensures
            final(self)@ == op_jsr(old(self)@),
            extra == 0,
    {
        self.pc = self.pc.wrapping_sub(1);
        self.push_pc();
        self.pc = self.addr_abs;
        0
    }

    /// LDA: load the accumulator. Takes the page-crossing cycle.
    pub fn lda(&mut self) -> (extra: u8)
        ensures
            final(self)@ == op_lda(old(self)@),
            extra == 1,
    {
        self.fetch();
        self.a = self.fetched;
        self.set_zn(self.a);
        1
    }

    /// LDX: load X. Takes the page-crossing cycle.
    pub fn ldx(&mut self) -> (extra: u8)
        ensures
            final(self)@ == op_ldx(old(self)@),
            extra == 1,
    {
        self.fetch();
        self.x = self.fetched;
        self.set_zn(self.x);
        1
    }

    /// LDY: load Y. Takes the page-crossing cycle.
    pub fn ldy(&mut self) -> (extra: u8)
        ensures
            final(self)@ == op_ldy(old(self)@),
            extra == 1,
    {
        self.fetch();
        self.y = self.fetched;
        self.set_zn(self.y);
        1
    }

    /// LSR: shift right, into the carry.
    pub fn lsr(&mut self) -> (extra: u8)
        ensures
            final(self)@ == op_lsr(old(self)@),
            extra == 0,
    {
        self.fetch();
        proof {
            lemma_byte_bits(self.fetched);
        }
        self.set_flag(Flags6502::C, (self.fetched & 0x01) != 0);
        self.temp = (self.fetched >> 1) as u16;
        proof {
            lemma_word_bits(self.temp);
        }
        self.set_flag(Flags6502::Z, (self.temp & 0x00FF) == 0x0000);
        self.set_flag(Flags6502::N, (self.temp & 0x0080) != 0);
        self.write_back((self.temp & 0x00FF) as u8);
        0
    }

    /// NOP: no operation. A few undocumented encodings take the
    /// page-crossing cycle.
    pub fn nop(&mut self) -> (extra: u8)
        ensures
            final(self)@ == old(self)@,
            extra == (if nop_takes_penalty(old(self)@.opcode) { 1u8 } else { 0u8 }),
    {
        match self.opcode {
            0x1C | 0x3C | 0x5C | 0x7C | 0xDC | 0xFC => 1,
            _ => 0,
        }
    }

    /// ORA: bitwise OR into the accumulator. Takes the page-crossing cycle.
    pub fn ora(&mut self) -> (extra: u8)
        ensures
            final(self)@ == op_ora(old(self)@),
            extra == 1,
    {
        self.fetch();
        self.a = self.a | self.fetched;
        self.set_zn(self.a);
        1
    }

    /// PHA: push the accumulator.
    pub fn pha(&mut self) -> (extra: u8)
        ensures
            final(self)@ == op_pha(old(self)@),
            extra == 0,
    {
        self.push(self.a);
        0
    }

    /// PHP: push the status register, with break and unused set in the
    /// pushed copy only.
    pub fn php(&mut self) -> (extra: u8)
        ensures
            final(self)@ == op_php(old(self)@),
            extra == 0,
    {
        self.push(self.sr | Flags6502::B | Flags6502::U);
        0
    }

    /// PLA: pull the accumulator.
    pub fn pla(&mut self) -> (extra: u8)
        ensures
            final(self)@ == op_pla(old(self)@),
            extra == 0,
    {
        self.a = self.pull();
        self.set_zn(self.a);
        0
    }

    /// PLP: pull the status register.
    pub fn plp(&mut self) -> (extra: u8)
        ensures
            final(self)@ == op_plp(old(self)@),
            extra == 0,
    {
        self.sr = self.pull();
        self.set_flag(Flags6502::U, true);
        0
    }

    /// ROL: rotate left through the carry.
    pub fn rol(&mut self) -> (extra: u8)
        ensures
            final(self)@ == op_rol(old(self)@),
            extra == 0,
    {
        self.fetch();
        let carry = self.get_flag(Flags6502::C);
        proof {
            lemma_rotate_bits(self.fetched, carry);
        }
        self.temp = ((self.fetched as u16) << 1) | (carry as u16);
        proof {
            lemma_word_bits(self.temp);
        }
        self.set_flag(Flags6502::C, (self.temp & 0xFF00) != 0);
        self.set_flag(Flags6502::Z, (self.temp & 0x00FF) == 0x0000);
        self.set_flag(Flags6502::N, (self.temp & 0x0080) != 0);
        self.write_back((self.temp & 0x00FF) as u8);
        0
    }

    /// ROR: rotate right through the carry.
    pub fn ror(&mut self) -> (extra: u8)
        ensures
            final(self)@ == op_ror(old(self)@),
            extra == 0,
    {
        self.fetch();
        let carry = self.get_flag(Flags6502::C);
        proof {
            lemma_rotate_bits(self.fetched, carry);
            lemma_byte_bits(self.fetched);
        }
        self.temp = ((carry << 7) | (self.fetched >> 1)) as u16;
        proof {
            lemma_word_bits(self.temp);
        }
        self.set_flag(Flags6502::C, (self.fetched & 0x01) != 0);
        self.set_flag(Flags6502::Z, (self.temp & 0x00FF) == 0x00);
        self.set_flag(Flags6502::N, (self.temp & 0x0080) != 0);
        self.write_back((self.temp & 0x00FF) as u8);
        0
    }

    /// RTI: return from interrupt.
    pub fn rti(&mut self) -> (extra: u8)
        ensures
            final(self)@ == op_rti(old(self)@),
            extra == 0,
    {
        self.sr = self.pull();
        self.set_flag(Flags6502::B, false);
        self.set_flag(Flags6502::U, true);

        self.pc = self.pull_word();
        0
    }

    /// RTS: return from subroutine.
    pub fn rts(&mut self) -> (extra: u8)
        ensures
            final(self)@ == op_rts(old(self)@),
            extra == 0,
    {
        self.pc = self.pull_word();
        self.pc = self.pc.wrapping_add(1);
        0
    }

    /// SEC: set carry.
    pub fn sec(&mut self) -> (extra: u8)
        ensures
            final(self)@ == old(self)@.set_flag(Flags6502::C, true),
            extra == 0,
    {
        self.set_flag(Flags6502::C, true);
        0
    }

    /// SED: set decimal mode.
    pub fn sed(&mut self) -> (extra: u8)
        ensures
            final(self)@ == old(self)@.set_flag(Flags6502::D, true),
            extra == 0,
    {
        self.set_flag(Flags6502::D, true);
        0
    }

    /// SEI: set interrupt disable.
    pub fn sei(&mut self) -> (extra: u8)
        ensures
            final(self)@ == old(self)@.set_flag(Flags6502::I, true),
            extra == 0,
    {
        self.set_flag(Flags6502::I, true);
        0
    }

    /// STA: store the accumulator.
    pub fn sta(&mut self) -> (extra: u8)
        ensures
            final(self)@ == op_sta(old(self)@),
            extra == 0,
    {
        self.write(self.addr_abs, self.a);
        0
    }

    /// STX: store X.
    pub fn stx(&mut self) -> (extra: u8)
        ensures
            final(self)@ == op_stx(old(self)@),
            extra == 0,
    {
        self.write(self.addr_abs, self.x);
        0
    }

    /// STY: store Y.
    pub fn sty(&mut self) -> (extra: u8)
        ensures
            final(self)@ == op_sty(old(self)@),
            extra == 0,
    {
        self.write(self.addr_abs, self.y);
        0
    }

    /// TAX: transfer the accumulator to X.
    pub fn tax(&mut self) -> (extra: u8)
        ensures
            final(self)@ == op_tax(old(self)@),
            extra == 0,
    {
        self.x = self.a;
        self.set_zn(self.x);
        0
    }

    /// TAY: transfer the accumulator to Y.
    pub fn tay(&mut self) -> (extra: u8)
        ensures
            final(self)@ == op_tay(old(self)@),
            extra == 0,
    {
        self.y = self.a;
        self.set_zn(self.y);
        0
    }

    /// TSX: transfer the stack pointer to X.
    pub fn tsx(&mut self) -> (extra: u8)
        ensures
            final(self)@ == op_tsx(old(self)@),
            extra == 0,
    {
        self.x = self.sp;
        self.set_zn(self.x);
        0
    }

    /// TXA: transfer X to the accumulator.
    pub fn txa(&mut self) -> (extra: u8)
        ensures
            final(self)@ == op_txa(old(self)@),
            extra == 0,
    {
        self.a = self.x;
        self.set_zn(self.a);
        0
    }

    /// TXS: transfer X to the stack pointer. No flag changes.
    pub fn txs(&mut self) -> (extra: u8)
        ensures
            final(self)@ == op_txs(old(self)@),
            extra == 0,
    {
        self.sp = self.x;
        0
    }

    /// TYA: transfer Y to the accumulator.
    pub fn tya(&mut self) -> (extra: u8)
        ensures
            final(self)@ == op_tya(old(self)@),
            extra == 0,
    {
        self.a = self.y;
        self.set_zn(self.a);
        0
    }

    /// Stands in every slot of the table that has no instruction: no effect.
    pub fn xxx(&mut self) -> (extra: u8)
        ensures
            final(self)@ == old(self)@,
            extra == 0,
    {
        0
    }

    /// Runs the addressing mode `mode`, and says whether it asks for an
    /// extra cycle.
    pub fn resolve(&mut self, mode: AddrMode) -> (extra: u8)
        ensures
            final(self)@ == resolve(mode, old(self)@),
            extra == (if resolve_crosses_page(mode, old(self)@) { 1u8 } else { 0u8 }),
    {
        reveal(resolve);
        match mode {
            AddrMode::Imp => self.imp(),
            AddrMode::Imm => self.imm(),
            AddrMode::Zp0 => self.zp0(),
            AddrMode::Zpx => self.zpx(),
            AddrMode::Zpy => self.zpy(),
            AddrMode::Rel => self.rel(),
            AddrMode::Abs => self.abs(),
            AddrMode::Abx => self.abx(),
            AddrMode::Aby => self.aby(),
            AddrMode::Ind => self.ind(),
            AddrMode::Izx => self.izx(),
            AddrMode::Izy => self.izy(),
        }
    }

    /// Runs `operation`, and says whether it takes the extra cycle that a
    /// page-crossing addressing mode asks for.
    pub fn operate(&mut self, operation: Operation) -> (extra: u8)
        ensures
            final(self)@ == execute(operation, old(self)@),
            extra == (if takes_page_penalty(operation, old(self)@.opcode) { 1u8 } else { 0u8 }),
    {
        reveal(execute);
        match operation {
            Operation::Adc => self.adc(),
            Operation::And => self.and(),
            Operation::Asl => self.asl(),
            Operation::Bcc => self.bcc(),
            Operation::Bcs => self.bcs(),
            Operation::Beq => self.beq(),
            Operation::Bit => self.bit(),
            Operation::Bmi => self.bmi(),
            Operation::Bne => self.bne(),
            Operation::Bpl => self.bpl(),
            Operation::Brk => self.brk(),
            Operation::Bvc => self.bvc(),
            Operation::Bvs => self.bvs(),
            Operation::Clc => self.clc(),
            Operation::Cld => self.cld(),
            Operation::Cli => self.cli(),
            Operation::Clv => self.clv(),
            Operation::Cmp => self.cmp(),
            Operation::Cpx => self.cpx(),
            Operation::Cpy => self.cpy(),
            Operation::Dec => self.dec(),
            Operation::Dex => self.dex(),
            Operation::Dey => self.dey(),
            Operation::Eor => self.eor(),
            Operation::Inc => self.inc(),
            Operation::Inx => self.inx(),
            Operation::Iny => self.iny(),
            Operation::Jmp => self.jmp(),
            Operation::Jsr => self.jsr(),
            Operation::Lda => self.lda(),
            Operation::Ldx => self.ldx(),
            Operation::Ldy => self.ldy(),
            Operation::Lsr => self.lsr(),
            Operation::Nop => self.nop(),
            Operation::Ora => self.ora(),
            Operation::Pha => self.pha(),
            Operation::Php => self.php(),
            Operation::Pla => self.pla(),
            Operation::Plp => self.plp(),
            Operation::Rol => self.rol(),
            Operation::Ror => self.ror(),
            Operation::Rti => self.rti(),
            Operation::Rts => self.rts(),
            Operation::Sbc => self.sbc(),
            Operation::Sec => self.sec(),
            Operation::Sed => self.sed(),
            Operation::Sei => self.sei(),
            Operation::Sta => self.sta(),
            Operation::Stx => self.stx(),
            Operation::Sty => self.sty(),
            Operation::Tax => self.tax(),
            Operation::Tay => self.tay(),
            Operation::Tsx => self.tsx(),
            Operation::Txa => self.txa(),
            Operation::Txs => self.txs(),
            Operation::Tya => self.tya(),
            Operation::Xxx => self.xxx(),
        }
    }

    /// Advances the processor by one clock cycle. When the running
    /// instruction has no cycle left, the next one is fetched and run at
    /// once, and its cycles are then counted down, this call spending the
    /// first of them.
    pub fn clock(&mut self)
        ensures
            final(self)@ == clock_step(old(self)@),
    {
        if self.cycles == 0 {
            self.opcode = self.read(self.pc);
            self.pc = self.pc.wrapping_add(1);

            let instruction = Instruction::lookup(self.opcode);
            self.cycles = instruction.cycles;
            proof {
                lemma_base_cycles_bounds(self.opcode);
                lemma_resolve_keeps_cycles(instruction.addrmode, self@);
            }
            let extra_cycle_1 = self.resolve(instruction.addrmode);
            proof {
                lemma_execute_cycles(instruction.operate, self@);
            }
            let extra_cycle_2 = self.operate(instruction.operate);

            proof {
                lemma_and_of_hints(extra_cycle_1, extra_cycle_2);
            }
            self.cycles += extra_cycle_1 & extra_cycle_2;
        }
        self.cycles -= 1;
    }

    /// Forces the processor into its known start state, and continues at
    /// the address that the reset vector holds.
    pub fn reset(&mut self)
        ensures
            final(self)@ == reset_state(old(self)@),
    {
        self.a = 0;
        self.x = 0;
        self.y = 0;
        self.sp = 0xFD;
        self.sr = Flags6502::U;

        self.addr_abs = RESET_VECTOR;
        let lo = self.read(self.addr_abs);
        let hi = self.read(self.addr_abs + 1);
        self.pc = join_bytes(lo, hi);

        self.addr_rel = 0x0000;
        self.addr_abs = 0x0000;
        self.fetched = 0x00;

        self.cycles = 8;
    }

    /// Saves the program counter and the status on the stack, then
    /// disables interrupts and continues at the address held at `vector`.
    fn interrupt(&mut self, vector: u16)
        requires
            vector < 0xFFFF,
        ensures
            final(self)@ == interrupt(old(self)@, vector),
    {
        self.push_pc();

        self.set_flag(Flags6502::B, false);
        self.set_flag(Flags6502::U, true);
        self.push(self.sr);
        self.set_flag(Flags6502::I, true);

        self.addr_abs = vector;
        let lo = self.read(self.addr_abs);
        let hi = self.read(self.addr_abs + 1);
        self.pc = join_bytes(lo, hi);

        self.cycles = 7;
    }

    /// Interrupt request: taken unless interrupts are disabled. To be
    /// called only between instructions.
    pub fn irq(&mut self)
        requires
            old(self)@.cycles == 0,
        ensures
            final(self)@ == irq_state(old(self)@),
    {
        if self.get_flag(Flags6502::I) == 0 {
            self.interrupt(IRQ_VECTOR);
        }
    }

    /// Non-maskable interrupt: always taken. To be called only between
    /// instructions.
    pub fn nmi(&mut self)
        requires
            old(self)@.cycles == 0,
        ensures
            final(self)@ == nmi_state(old(self)@),
    {
        self.interrupt(NMI_VECTOR);
    }
}

} // verus!
