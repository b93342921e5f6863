use vstd::prelude::*;
use crate::flags::{flag_is_set, with_flag, Flags6502};

verus! {

/// First address of the stack page.
pub const STACK_BASE: u16 = 0x0100;

/// Address of the non-maskable interrupt vector.
pub const NMI_VECTOR: u16 = 0xFFFA;

/// Address of the reset vector.
pub const RESET_VECTOR: u16 = 0xFFFC;

/// Address of the interrupt request vector, which BRK shares.
pub const IRQ_VECTOR: u16 = 0xFFFE;

/// The low eight bits of an integer.
pub open spec fn wrap8(v: int) -> u8 {
    (v % 0x100) as u8
}

/// The low sixteen bits of an integer.
pub open spec fn wrap16(v: int) -> u16 {
    (v % 0x10000) as u16
}

/// The 16-bit value with the given low and high bytes.
pub open spec fn word(lo: u8, hi: u8) -> u16 {
    (hi * 0x100 + lo) as u16
}

/// The low byte of a 16-bit value.
pub open spec fn low_byte(w: u16) -> u8 {
    (w % 0x100) as u8
}

/// The high byte of a 16-bit value, which is the number of its page.
pub open spec fn high_byte(w: u16) -> u8 {
    (w / 0x100) as u8
}

/// Whether bit 7 is set, which makes a byte negative when read as signed.
pub open spec fn is_negative(v: u8) -> bool {
    v >= 0x80
}

/// The value of a byte read as a signed number.
pub open spec fn signed(v: u8) -> int {
    if v >= 0x80 {
        v - 0x100
    } else {
        v as int
    }
}

/// A branch displacement widened to 16 bits with its sign kept.
pub open spec fn sign_extend(b: u8) -> u16 {
    if b >= 0x80 {
        (0xFF00 + b) as u16
    } else {
        b as u16
    }
}

/// The whole state of the processor and its memory, as a mathematical value.
#[verifier::ext_equal]
pub struct CpuState {
    /// Accumulator.
    pub a: u8,
    /// Index register X.
    pub x: u8,
    /// Index register Y.
    pub y: u8,
    /// Program counter.
    pub pc: u16,
    /// Stack pointer, an offset into page one.
    pub sp: u8,
    /// Status register.
    pub sr: u8,
    /// Memory, one byte per address.
    pub mem: Seq<u8>,
    /// Operand latched for the running instruction.
    pub fetched: u8,
    /// Wide scratch value of the last arithmetic.
    pub temp: u16,
    /// Address resolved by the addressing mode.
    pub addr_abs: u16,
    /// Branch displacement, sign-extended.
    pub addr_rel: u16,
    /// Opcode of the running instruction.
    pub opcode: u8,
    /// Cycles the running instruction still has to spend.
    pub cycles: u8,
}

impl CpuState {
    /// Memory covers the whole address space.
    pub open spec fn well_formed(self) -> bool {
        self.mem.len() == 0x10000
    }

    /// The byte at `addr`.
    pub open spec fn read(self, addr: u16) -> u8 {
        self.mem[addr as int]
    }

    /// This state with `data` stored at `addr`.
    pub open spec fn write(self, addr: u16, data: u8) -> CpuState {
        CpuState { mem: self.mem.update(addr as int, data), ..self }
    }

    /// The 16-bit value whose low byte is at `lo_addr` and whose high byte
    /// is at `hi_addr`.
    pub open spec fn read_word(self, lo_addr: u16, hi_addr: u16) -> u16 {
        word(self.read(lo_addr), self.read(hi_addr))
    }

    /// The address held by the vector at `vector`, low byte first.
    pub open spec fn read_vector(self, vector: u16) -> u16 {
        self.read_word(vector, (vector + 1) as u16)
    }

    /// Whether flag `f` is set.
    pub open spec fn flag(self, f: u8) -> bool {
        flag_is_set(self.sr, f)
    }

    /// This state with flag `f` set to `v`.
    pub open spec fn set_flag(self, f: u8, v: bool) -> CpuState {
        CpuState { sr: with_flag(self.sr, f, v), ..self }
    }

    /// This state with the zero and negative flags describing `v`.
    pub open spec fn set_zn(self, v: u8) -> CpuState {
        self.set_flag(Flags6502::Z, v == 0).set_flag(Flags6502::N, is_negative(v))
    }

    /// The carry flag as a number.
    pub open spec fn carry(self) -> int {
        if self.flag(Flags6502::C) {
            1
        } else {
            0
        }
    }

    /// The address the stack pointer names.
    pub open spec fn stack_addr(self) -> u16 {
        (STACK_BASE + self.sp) as u16
    }

    /// This state after pushing `data`: it is stored where the stack pointer
    /// names, and the pointer then moves down.
    pub open spec fn push(self, data: u8) -> CpuState {
        CpuState { sp: wrap8(self.sp - 1), ..self.write(self.stack_addr(), data) }
    }

    /// This state with the stack pointer moved up by one, so that it names
    /// the byte to pull.
    pub open spec fn pop(self) -> CpuState {
        CpuState { sp: wrap8(self.sp + 1), ..self }
    }

    /// The byte the stack pointer names.
    pub open spec fn top(self) -> u8 {
        self.read(self.stack_addr())
    }
}

} // verus!
