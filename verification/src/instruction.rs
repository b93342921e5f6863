use vstd::prelude::*;

verus! {

/// How an instruction locates its operand.
#[derive(Clone, Copy, Debug, PartialEq, Eq, Structural)]
pub enum AddrMode {
    /// No operand bytes; the accumulator is latched.
    Imp,
    /// The operand is the byte after the opcode.
    Imm,
    /// One byte naming an address in page zero.
    Zp0,
    /// Page-zero address plus X, wrapping within page zero.
    Zpx,
    /// Page-zero address plus Y, wrapping within page zero.
    Zpy,
    /// One signed byte, a displacement for a branch.
    Rel,
    /// Two bytes, a full address, low byte first.
    Abs,
    /// Full address plus X.
    Abx,
    /// Full address plus Y.
    Aby,
    /// Two bytes pointing at the address to use.
    Ind,
    /// Page-zero pointer, offset by X before it is followed.
    Izx,
    /// Page-zero pointer, followed and then offset by Y.
    Izy,
}

/// What an instruction does once its operand is located.
#[derive(Clone, Copy, Debug, PartialEq, Eq, Structural)]
pub enum Operation {
    /// Add memory to the accumulator with carry.
    Adc,
    /// Bitwise AND of memory with the accumulator.
    And,
    /// Shift left one bit.
    Asl,
    /// Branch if carry clear.
    Bcc,
    /// Branch if carry set.
    Bcs,
    /// Branch if zero set.
    Beq,
    /// Test bits of memory against the accumulator.
    Bit,
    /// Branch if negative set.
    Bmi,
    /// Branch if zero clear.
    Bne,
    /// Branch if negative clear.
    Bpl,
    /// Software interrupt.
    Brk,
    /// Branch if overflow clear.
    Bvc,
    /// Branch if overflow set.
    Bvs,
    /// Clear carry.
    Clc,
    /// Clear decimal mode.
    Cld,
    /// Clear interrupt disable.
    Cli,
    /// Clear overflow.
    Clv,
    /// Compare memory with the accumulator.
    Cmp,
    /// Compare memory with X.
    Cpx,
    /// Compare memory with Y.
    Cpy,
    /// Decrement memory.
    Dec,
    /// Decrement X.
    Dex,
    /// Decrement Y.
    Dey,
    /// Bitwise exclusive OR of memory with the accumulator.
    Eor,
    /// Increment memory.
    Inc,
    /// Increment X.
    Inx,
    /// Increment Y.
    Iny,
    /// Jump.
    Jmp,
    /// Jump to subroutine.
    Jsr,
    /// Load the accumulator.
    Lda,
    /// Load X.
    Ldx,
    /// Load Y.
    Ldy,
    /// Shift right one bit.
    Lsr,
    /// No operation.
    Nop,
    /// Bitwise OR of memory with the accumulator.
    Ora,
    /// Push the accumulator.
    Pha,
    /// Push the status register.
    Php,
    /// Pull the accumulator.
    Pla,
    /// Pull the status register.
    Plp,
    /// Rotate left through carry.
    Rol,
    /// Rotate right through carry.
    Ror,
    /// Return from interrupt.
    Rti,
    /// Return from subroutine.
    Rts,
    /// Subtract memory from the accumulator with borrow.
    Sbc,
    /// Set carry.
    Sec,
    /// Set decimal mode.
    Sed,
    /// Set interrupt disable.
    Sei,
    /// Store the accumulator.
    Sta,
    /// Store X.
    Stx,
    /// Store Y.
    Sty,
    /// Transfer the accumulator to X.
    Tax,
    /// Transfer the accumulator to Y.
    Tay,
    /// Transfer the stack pointer to X.
    Tsx,
    /// Transfer X to the accumulator.
    Txa,
    /// Transfer X to the stack pointer.
    Txs,
    /// Transfer Y to the accumulator.
    Tya,
    /// Placeholder for an opcode with no defined effect.
    Xxx,
}

impl Operation {
    /// The three-letter mnemonic of a documented operation.
    pub open spec fn mnemonic(self) -> Seq<char> {
        match self {
            Operation::Adc => "ADC"@,
            Operation::And => "AND"@,
            Operation::Asl => "ASL"@,
            Operation::Bcc => "BCC"@,
            Operation::Bcs => "BCS"@,
            Operation::Beq => "BEQ"@,
            Operation::Bit => "BIT"@,
            Operation::Bmi => "BMI"@,
            Operation::Bne => "BNE"@,
            Operation::Bpl => "BPL"@,
            Operation::Brk => "BRK"@,
            Operation::Bvc => "BVC"@,
            Operation::Bvs => "BVS"@,
            Operation::Clc => "CLC"@,
            Operation::Cld => "CLD"@,
            Operation::Cli => "CLI"@,
            Operation::Clv => "CLV"@,
            Operation::Cmp => "CMP"@,
            Operation::Cpx => "CPX"@,
            Operation::Cpy => "CPY"@,
            Operation::Dec => "DEC"@,
            Operation::Dex => "DEX"@,
            Operation::Dey => "DEY"@,
            Operation::Eor => "EOR"@,
            Operation::Inc => "INC"@,
            Operation::Inx => "INX"@,
            Operation::Iny => "INY"@,
            Operation::Jmp => "JMP"@,
            Operation::Jsr => "JSR"@,
            Operation::Lda => "LDA"@,
            Operation::Ldx => "LDX"@,
            Operation::Ldy => "LDY"@,
            Operation::Lsr => "LSR"@,
            Operation::Nop => "NOP"@,
            Operation::Ora => "ORA"@,
            Operation::Pha => "PHA"@,
            Operation::Php => "PHP"@,
            Operation::Pla => "PLA"@,
            Operation::Plp => "PLP"@,
            Operation::Rol => "ROL"@,
            Operation::Ror => "ROR"@,
            Operation::Rti => "RTI"@,
            Operation::Rts => "RTS"@,
            Operation::Sbc => "SBC"@,
            Operation::Sec => "SEC"@,
            Operation::Sed => "SED"@,
            Operation::Sei => "SEI"@,
            Operation::Sta => "STA"@,
            Operation::Stx => "STX"@,
            Operation::Sty => "STY"@,
            Operation::Tax => "TAX"@,
            Operation::Tay => "TAY"@,
            Operation::Tsx => "TSX"@,
            Operation::Txa => "TXA"@,
            Operation::Txs => "TXS"@,
            Operation::Tya => "TYA"@,
            Operation::Xxx => "???"@,
        }
    }
}

/// One slot of the opcode table.
#[derive(Clone, Copy, Debug)]
pub struct Instruction {
    /// Mnemonic, for display only.
    pub name: &'static str,
    /// The operation to run.
    pub operate: Operation,
    /// The addressing mode that locates the operand.
    pub addrmode: AddrMode,
    /// Clock cycles the instruction takes before any penalty.
    pub cycles: u8,
}

/// The operation each opcode selects, instruction by instruction. Opcodes
/// that appear under no instruction have no defined effect.
pub open spec fn operation_of(opcode: u8) -> Operation {
    match opcode {
        0x61 | 0x65 | 0x69 | 0x6D | 0x71 | 0x75 | 0x79 | 0x7D => Operation::Adc,
        0x21 | 0x25 | 0x29 | 0x2D | 0x31 | 0x35 | 0x39 | 0x3D => Operation::And,
        0x06 | 0x0A | 0x0E | 0x16 | 0x1E => Operation::Asl,
        0x90 => Operation::Bcc,
        0xB0 => Operation::Bcs,
        0xF0 => Operation::Beq,
        0x24 | 0x2C => Operation::Bit,
        0x30 => Operation::Bmi,
        0xD0 => Operation::Bne,
        0x10 => Operation::Bpl,
        0x00 => Operation::Brk,
        0x50 => Operation::Bvc,
        0x70 => Operation::Bvs,
        0x18 => Operation::Clc,
        0xD8 => Operation::Cld,
        0x58 => Operation::Cli,
        0xB8 => Operation::Clv,
        0xC1 | 0xC5 | 0xC9 | 0xCD | 0xD1 | 0xD5 | 0xD9 | 0xDD => Operation::Cmp,
        0xE0 | 0xE4 | 0xEC => Operation::Cpx,
        0xC0 | 0xC4 | 0xCC => Operation::Cpy,
        0xC6 | 0xCE | 0xD6 | 0xDE => Operation::Dec,
        0xCA => Operation::Dex,
        0x88 => Operation::Dey,
        0x41 | 0x45 | 0x49 | 0x4D | 0x51 | 0x55 | 0x59 | 0x5D => Operation::Eor,
        0xE6 | 0xEE | 0xF6 | 0xFE => Operation::Inc,
        0xE8 => Operation::Inx,
        0xC8 => Operation::Iny,
        0x4C | 0x6C => Operation::Jmp,
        0x20 => Operation::Jsr,
        0xA1 | 0xA5 | 0xA9 | 0xAD | 0xB1 | 0xB5 | 0xB9 | 0xBD => Operation::Lda,
        0xA2 | 0xA6 | 0xAE | 0xB6 | 0xBE => Operation::Ldx,
        0xA0 | 0xA4 | 0xAC | 0xB4 | 0xBC => Operation::Ldy,
        0x46 | 0x4A | 0x4E | 0x56 | 0x5E => Operation::Lsr,
        0x04 | 0x0C | 0x14 | 0x1A | 0x1C | 0x34 | 0x3A | 0x3C | 0x44 | 0x54 | 0x5A | 0x5C
        | 0x64 | 0x74 | 0x7A | 0x7C | 0x80 | 0x82 | 0x89 | 0x9C | 0xC2 | 0xD4 | 0xDA | 0xDC
        | 0xE2 | 0xEA | 0xF4 | 0xFA | 0xFC => Operation::Nop,
        0x01 | 0x05 | 0x09 | 0x0D | 0x11 | 0x15 | 0x19 | 0x1D => Operation::Ora,
        0x48 => Operation::Pha,
        0x08 => Operation::Php,
        0x68 => Operation::Pla,
        0x28 => Operation::Plp,
        0x26 | 0x2A | 0x2E | 0x36 | 0x3E => Operation::Rol,
        0x66 | 0x6A | 0x6E | 0x76 | 0x7E => Operation::Ror,
        0x40 => Operation::Rti,
        0x60 => Operation::Rts,
        0xE1 | 0xE5 | 0xE9 | 0xED | 0xF1 | 0xF5 | 0xF9 | 0xFD => Operation::Sbc,
        0x38 => Operation::Sec,
        0xF8 => Operation::Sed,
        0x78 => Operation::Sei,
        0x81 | 0x85 | 0x8D | 0x91 | 0x95 | 0x99 | 0x9D => Operation::Sta,
        0x86 | 0x8E | 0x96 => Operation::Stx,
        0x84 | 0x8C | 0x94 => Operation::Sty,
        0xAA => Operation::Tax,
        0xA8 => Operation::Tay,
        0xBA => Operation::Tsx,
        0x8A => Operation::Txa,
        0x9A => Operation::Txs,
        0x98 => Operation::Tya,
        _ => Operation::Xxx,
    }
}

/// The addressing mode each opcode selects, mode by mode. Every other
/// opcode takes no operand bytes.
pub open spec fn mode_of(opcode: u8) -> AddrMode {
    match opcode {
        0x00 | 0x09 | 0x29 | 0x49 | 0x69 | 0xA0 | 0xA2 | 0xA9 | 0xC0 | 0xC9 | 0xE0 | 0xE9 => AddrMode::Imm,
        0x05 | 0x06 | 0x24 | 0x25 | 0x26 | 0x45 | 0x46 | 0x65 | 0x66 | 0x84 | 0x85 | 0x86
        | 0xA4 | 0xA5 | 0xA6 | 0xC4 | 0xC5 | 0xC6 | 0xE4 | 0xE5 | 0xE6 => AddrMode::Zp0,
        0x15 | 0x16 | 0x35 | 0x36 | 0x55 | 0x56 | 0x75 | 0x76 | 0x94 | 0x95 | 0xB4 | 0xB5
        | 0xD5 | 0xD6 | 0xF5 | 0xF6 => AddrMode::Zpx,
        0x96 | 0xB6 => AddrMode::Zpy,
        0x10 | 0x30 | 0x50 | 0x70 | 0x90 | 0xB0 | 0xD0 | 0xF0 => AddrMode::Rel,
        0x0D | 0x0E | 0x20 | 0x2C | 0x2D | 0x2E | 0x4C | 0x4D | 0x4E | 0x6D | 0x6E | 0x8C
        | 0x8D | 0x8E | 0xAC | 0xAD | 0xAE | 0xCC | 0xCD | 0xCE | 0xEC | 0xED | 0xEE => AddrMode::Abs,
        0x1D | 0x1E | 0x3D | 0x3E | 0x5D | 0x5E | 0x7D | 0x7E | 0x9D | 0xBC | 0xBD | 0xDD
        | 0xDE | 0xFD | 0xFE => AddrMode::Abx,
        0x19 | 0x39 | 0x59 | 0x79 | 0x99 | 0xB9 | 0xBE | 0xD9 | 0xF9 => AddrMode::Aby,
        0x6C => AddrMode::Ind,
        0x01 | 0x21 | 0x41 | 0x61 | 0x81 | 0xA1 | 0xC1 | 0xE1 => AddrMode::Izx,
        0x11 | 0x31 | 0x51 | 0x71 | 0x91 | 0xB1 | 0xD1 | 0xF1 => AddrMode::Izy,
        _ => AddrMode::Imp,
    }
}

/// Whether the opcode belongs to the documented instruction set. The
/// opcodes listed here are the undocumented no-ops: they have a place
/// under NOP, but no name. Every other opcode is documented if it has an
/// instruction.
pub open spec fn is_documented(opcode: u8) -> bool {
    match opcode {
        0x04 | 0x0C | 0x14 | 0x1A | 0x1C | 0x34 | 0x3A | 0x3C | 0x44 | 0x54 | 0x5A | 0x5C
        | 0x64 | 0x74 | 0x7A | 0x7C | 0x80 | 0x82 | 0x89 | 0x9C | 0xC2 | 0xD4 | 0xDC | 0xE2
        | 0xF4 | 0xFC => false,
        _ => operation_of(opcode) != Operation::Xxx,
    }
}

/// Base cycles of a documented instruction, by what it does to memory
/// and how it reaches it.
pub open spec fn documented_cycles(operation: Operation, mode: AddrMode) -> u8 {
    match operation {
        Operation::Brk => 7,
        Operation::Jsr | Operation::Rti | Operation::Rts => 6,
        Operation::Pha | Operation::Php => 3,
        Operation::Pla | Operation::Plp => 4,
        Operation::Jmp => match mode {
            AddrMode::Abs => 3,
            _ => 5,
        },
        // read-modify-write
        Operation::Asl | Operation::Lsr | Operation::Rol | Operation::Ror | Operation::Inc
        | Operation::Dec => match mode {
            AddrMode::Imp => 2,
            AddrMode::Zp0 => 5,
            AddrMode::Zpx | AddrMode::Abs => 6,
            _ => 7,
        },
        // stores never skip the page-crossing cycle
        Operation::Sta | Operation::Stx | Operation::Sty => match mode {
            AddrMode::Zp0 => 3,
            AddrMode::Zpx | AddrMode::Zpy | AddrMode::Abs => 4,
            AddrMode::Abx | AddrMode::Aby => 5,
            _ => 6,
        },
        // register-only operations, branches and reads
        _ => match mode {
            AddrMode::Imp | AddrMode::Imm | AddrMode::Rel => 2,
            AddrMode::Zp0 => 3,
            AddrMode::Zpx | AddrMode::Zpy | AddrMode::Abs | AddrMode::Abx | AddrMode::Aby => 4,
            AddrMode::Izy | AddrMode::Ind => 5,
            AddrMode::Izx => 6,
        },
    }
}

/// Base cycles of an undocumented opcode, from observed hardware timing.
pub open spec fn undocumented_cycles(opcode: u8) -> u8 {
    match opcode {
        0x04 | 0x44 | 0x64 | 0x87 | 0xA7 => 3,
        0x0C | 0x14 | 0x1C | 0x34 | 0x3C | 0x54 | 0x5C | 0x74 | 0x7C | 0x8F | 0x97 | 0xAF
        | 0xB7 | 0xBB | 0xBF | 0xD4 | 0xDC | 0xF4 | 0xFC => 4,
        0x07 | 0x27 | 0x47 | 0x67 | 0x9B | 0x9C | 0x9E | 0x9F | 0xB3 | 0xC7 | 0xE7 => 5,
        0x0F | 0x17 | 0x2F | 0x37 | 0x4F | 0x57 | 0x6F | 0x77 | 0x83 | 0x93 | 0xA3 | 0xCF
        | 0xD7 | 0xEF | 0xF7 => 6,
        0x1B | 0x1F | 0x3B | 0x3F | 0x5B | 0x5F | 0x7B | 0x7F | 0xDB | 0xDF | 0xFB | 0xFF => 7,
        0x03 | 0x13 | 0x23 | 0x33 | 0x43 | 0x53 | 0x63 | 0x73 | 0xC3 | 0xD3 | 0xE3 | 0xF3 => 8,
        _ => 2,
    }
}

/// Base cycles of any opcode.
pub open spec fn base_cycles(opcode: u8) -> u8 {
    if is_documented(opcode) {
        documented_cycles(operation_of(opcode), mode_of(opcode))
    } else {
        undocumented_cycles(opcode)
    }
}

/// The mnemonic shown for an opcode: `???` unless it is documented.
pub open spec fn mnemonic_of(opcode: u8) -> Seq<char> {
    if is_documented(opcode) {
        operation_of(opcode).mnemonic()
    } else {
        "???"@
    }
}

impl Instruction {
    /// Whether this is the table's entry for `opcode`.
    pub open spec fn is_entry_for(self, opcode: u8) -> bool {
        &&& self.name@ == mnemonic_of(opcode)
        &&& self.operate == operation_of(opcode)
        &&& self.addrmode == mode_of(opcode)
        &&& self.cycles == base_cycles(opcode)
    }

    /// The opcode table: the instruction in the slot that `opcode` indexes.
    /// Every one of the 256 slots is filled.
    pub fn lookup(opcode: u8) -> (instruction: Instruction)
        ensures
            instruction.is_entry_for(opcode),
    {
        match opcode {
            0x00 => Instruction { name: "BRK", operate: Operation::Brk, addrmode: AddrMode::Imm, cycles: 7 },
            0x01 => Instruction { name: "ORA", operate: Operation::Ora, addrmode: AddrMode::Izx, cycles: 6 },
            0x02 => Instruction { name: "???", operate: Operation::Xxx, addrmode: AddrMode::Imp, cycles: 2 },
            0x03 => Instruction { name: "???", operate: Operation::Xxx, addrmode: AddrMode::Imp, cycles: 8 },
            0x04 => Instruction { name: "???", operate: Operation::Nop, addrmode: AddrMode::Imp, cycles: 3 },
            0x05 => Instruction { name: "ORA", operate: Operation::Ora, addrmode: AddrMode::Zp0, cycles: 3 },
            0x06 => Instruction { name: "ASL", operate: Operation::Asl, addrmode: AddrMode::Zp0, cycles: 5 },
            0x07 => Instruction { name: "???", operate: Operation::Xxx, addrmode: AddrMode::Imp, cycles: 5 },
            0x08 => Instruction { name: "PHP", operate: Operation::Php, addrmode: AddrMode::Imp, cycles: 3 },
            0x09 => Instruction { name: "ORA", operate: Operation::Ora, addrmode: AddrMode::Imm, cycles: 2 },
            0x0A => Instruction { name: "ASL", operate: Operation::Asl, addrmode: AddrMode::Imp, cycles: 2 },
            0x0B => Instruction { name: "???", operate: Operation::Xxx, addrmode: AddrMode::Imp, cycles: 2 },
            0x0C => Instruction { name: "???", operate: Operation::Nop, addrmode: AddrMode::Imp, cycles: 4 },
            0x0D => Instruction { name: "ORA", operate: Operation::Ora, addrmode: AddrMode::Abs, cycles: 4 },
            0x0E => Instruction { name: "ASL", operate: Operation::Asl, addrmode: AddrMode::Abs, cycles: 6 },
            0x0F => Instruction { name: "???", operate: Operation::Xxx, addrmode: AddrMode::Imp, cycles: 6 },

            0x10 => Instruction { name: "BPL", operate: Operation::Bpl, addrmode: AddrMode::Rel, cycles: 2 },
            0x11 => Instruction { name: "ORA", operate: Operation::Ora, addrmode: AddrMode::Izy, cycles: 5 },
            0x12 => Instruction { name: "???", operate: Operation::Xxx, addrmode: AddrMode::Imp, cycles: 2 },
            0x13 => Instruction { name: "???", operate: Operation::Xxx, addrmode: AddrMode::Imp, cycles: 8 },
            0x14 => Instruction { name: "???", operate: Operation::Nop, addrmode: AddrMode::Imp, cycles: 4 },
            0x15 => Instruction { name: "ORA", operate: Operation::Ora, addrmode: AddrMode::Zpx, cycles: 4 },
            0x16 => Instruction { name: "ASL", operate: Operation::Asl, addrmode: AddrMode::Zpx, cycles: 6 },
            0x17 => Instruction { name: "???", operate: Operation::Xxx, addrmode: AddrMode::Imp, cycles: 6 },
            0x18 => Instruction { name: "CLC", operate: Operation::Clc, addrmode: AddrMode::Imp, cycles: 2 },
            0x19 => Instruction { name: "ORA", operate: Operation::Ora, addrmode: AddrMode::Aby, cycles: 4 },
            0x1A => Instruction { name: "???", operate: Operation::Nop, addrmode: AddrMode::Imp, cycles: 2 },
            0x1B => Instruction { name: "???", operate: Operation::Xxx, addrmode: AddrMode::Imp, cycles: 7 },
            0x1C => Instruction { name: "???", operate: Operation::Nop, addrmode: AddrMode::Imp, cycles: 4 },
            0x1D => Instruction { name: "ORA", operate: Operation::Ora, addrmode: AddrMode::Abx, cycles: 4 },
            0x1E => Instruction { name: "ASL", operate: Operation::Asl, addrmode: AddrMode::Abx, cycles: 7 },
            0x1F => Instruction { name: "???", operate: Operation::Xxx, addrmode: AddrMode::Imp, cycles: 7 },

            0x20 => Instruction { name: "JSR", operate: Operation::Jsr, addrmode: AddrMode::Abs, cycles: 6 },
            0x21 => Instruction { name: "AND", operate: Operation::And, addrmode: AddrMode::Izx, cycles: 6 },
            0x22 => Instruction { name: "???", operate: Operation::Xxx, addrmode: AddrMode::Imp, cycles: 2 },
            0x23 => Instruction { name: "???", operate: Operation::Xxx, addrmode: AddrMode::Imp, cycles: 8 },
            0x24 => Instruction { name: "BIT", operate: Operation::Bit, addrmode: AddrMode::Zp0, cycles: 3 },
            0x25 => Instruction { name: "AND", operate: Operation::And, addrmode: AddrMode::Zp0, cycles: 3 },
            0x26 => Instruction { name: "ROL", operate: Operation::Rol, addrmode: AddrMode::Zp0, cycles: 5 },
            0x27 => Instruction { name: "???", operate: Operation::Xxx, addrmode: AddrMode::Imp, cycles: 5 },
            0x28 => Instruction { name: "PLP", operate: Operation::Plp, addrmode: AddrMode::Imp, cycles: 4 },
            0x29 => Instruction { name: "AND", operate: Operation::And, addrmode: AddrMode::Imm, cycles: 2 },
            0x2A => Instruction { name: "ROL", operate: Operation::Rol, addrmode: AddrMode::Imp, cycles: 2 },
            0x2B => Instruction { name: "???", operate: Operation::Xxx, addrmode: AddrMode::Imp, cycles: 2 },
            0x2C => Instruction { name: "BIT", operate: Operation::Bit, addrmode: AddrMode::Abs, cycles: 4 },
            0x2D => Instruction { name: "AND", operate: Operation::And, addrmode: AddrMode::Abs, cycles: 4 },
            0x2E => Instruction { name: "ROL", operate: Operation::Rol, addrmode: AddrMode::Abs, cycles: 6 },
            0x2F => Instruction { name: "???", operate: Operation::Xxx, addrmode: AddrMode::Imp, cycles: 6 },

            0x30 => Instruction { name: "BMI", operate: Operation::Bmi, addrmode: AddrMode::Rel, cycles: 2 },
            0x31 => Instruction { name: "AND", operate: Operation::And, addrmode: AddrMode::Izy, cycles: 5 },
            0x32 => Instruction { name: "???", operate: Operation::Xxx, addrmode: AddrMode::Imp, cycles: 2 },
            0x33 => Instruction { name: "???", operate: Operation::Xxx, addrmode: AddrMode::Imp, cycles: 8 },
            0x34 => Instruction { name: "???", operate: Operation::Nop, addrmode: AddrMode::Imp, cycles: 4 },
            0x35 => Instruction { name: "AND", operate: Operation::And, addrmode: AddrMode::Zpx, cycles: 4 },
            0x36 => Instruction { name: "ROL", operate: Operation::Rol, addrmode: AddrMode::Zpx, cycles: 6 },
            0x37 => Instruction { name: "???", operate: Operation::Xxx, addrmode: AddrMode::Imp, cycles: 6 },
            0x38 => Instruction { name: "SEC", operate: Operation::Sec, addrmode: AddrMode::Imp, cycles: 2 },
            0x39 => Instruction { name: "AND", operate: Operation::And, addrmode: AddrMode::Aby, cycles: 4 },
            0x3A => Instruction { name: "???", operate: Operation::Nop, addrmode: AddrMode::Imp, cycles: 2 },
            0x3B => Instruction { name: "???", operate: Operation::Xxx, addrmode: AddrMode::Imp, cycles: 7 },
            0x3C => Instruction { name: "???", operate: Operation::Nop, addrmode: AddrMode::Imp, cycles: 4 },
            0x3D => Instruction { name: "AND", operate: Operation::And, addrmode: AddrMode::Abx, cycles: 4 },
            0x3E => Instruction { name: "ROL", operate: Operation::Rol, addrmode: AddrMode::Abx, cycles: 7 },
            0x3F => Instruction { name: "???", operate: Operation::Xxx, addrmode: AddrMode::Imp, cycles: 7 },

            0x40 => Instruction { name: "RTI", operate: Operation::Rti, addrmode: AddrMode::Imp, cycles: 6 },
            0x41 => Instruction { name: "EOR", operate: Operation::Eor, addrmode: AddrMode::Izx, cycles: 6 },
            0x42 => Instruction { name: "???", operate: Operation::Xxx, addrmode: AddrMode::Imp, cycles: 2 },
            0x43 => Instruction { name: "???", operate: Operation::Xxx, addrmode: AddrMode::Imp, cycles: 8 },
            0x44 => Instruction { name: "???", operate: Operation::Nop, addrmode: AddrMode::Imp, cycles: 3 },
            0x45 => Instruction { name: "EOR", operate: Operation::Eor, addrmode: AddrMode::Zp0, cycles: 3 },
            0x46 => Instruction { name: "LSR", operate: Operation::Lsr, addrmode: AddrMode::Zp0, cycles: 5 },
            0x47 => Instruction { name: "???", operate: Operation::Xxx, addrmode: AddrMode::Imp, cycles: 5 },
            0x48 => Instruction { name: "PHA", operate: Operation::Pha, addrmode: AddrMode::Imp, cycles: 3 },
            0x49 => Instruction { name: "EOR", operate: Operation::Eor, addrmode: AddrMode::Imm, cycles: 2 },
            0x4A => Instruction { name: "LSR", operate: Operation::Lsr, addrmode: AddrMode::Imp, cycles: 2 },
            0x4B => Instruction { name: "???", operate: Operation::Xxx, addrmode: AddrMode::Imp, cycles: 2 },
            0x4C => Instruction { name: "JMP", operate: Operation::Jmp, addrmode: AddrMode::Abs, cycles: 3 },
            0x4D => Instruction { name: "EOR", operate: Operation::Eor, addrmode: AddrMode::Abs, cycles: 4 },
            0x4E => Instruction { name: "LSR", operate: Operation::Lsr, addrmode: AddrMode::Abs, cycles: 6 },
            0x4F => Instruction { name: "???", operate: Operation::Xxx, addrmode: AddrMode::Imp, cycles: 6 },

            0x50 => Instruction { name: "BVC", operate: Operation::Bvc, addrmode: AddrMode::Rel, cycles: 2 },
            0x51 => Instruction { name: "EOR", operate: Operation::Eor, addrmode: AddrMode::Izy, cycles: 5 },
            0x52 => Instruction { name: "???", operate: Operation::Xxx, addrmode: AddrMode::Imp, cycles: 2 },
            0x53 => Instruction { name: "???", operate: Operation::Xxx, addrmode: AddrMode::Imp, cycles: 8 },
            0x54 => Instruction { name: "???", operate: Operation::Nop, addrmode: AddrMode::Imp, cycles: 4 },
            0x55 => Instruction { name: "EOR", operate: Operation::Eor, addrmode: AddrMode::Zpx, cycles: 4 },
            0x56 => Instruction { name: "LSR", operate: Operation::Lsr, addrmode: AddrMode::Zpx, cycles: 6 },
            0x57 => Instruction { name: "???", operate: Operation::Xxx, addrmode: AddrMode::Imp, cycles: 6 },
            0x58 => Instruction { name: "CLI", operate: Operation::Cli, addrmode: AddrMode::Imp, cycles: 2 },
            0x59 => Instruction { name: "EOR", operate: Operation::Eor, addrmode: AddrMode::Aby, cycles: 4 },
            0x5A => Instruction { name: "???", operate: Operation::Nop, addrmode: AddrMode::Imp, cycles: 2 },
            0x5B => Instruction { name: "???", operate: Operation::Xxx, addrmode: AddrMode::Imp, cycles: 7 },
            0x5C => Instruction { name: "???", operate: Operation::Nop, addrmode: AddrMode::Imp, cycles: 4 },
            0x5D => Instruction { name: "EOR", operate: Operation::Eor, addrmode: AddrMode::Abx, cycles: 4 },
            0x5E => Instruction { name: "LSR", operate: Operation::Lsr, addrmode: AddrMode::Abx, cycles: 7 },
            0x5F => Instruction { name: "???", operate: Operation::Xxx, addrmode: AddrMode::Imp, cycles: 7 },

            0x60 => Instruction { name: "RTS", operate: Operation::Rts, addrmode: AddrMode::Imp, cycles: 6 },
            0x61 => Instruction { name: "ADC", operate: Operation::Adc, addrmode: AddrMode::Izx, cycles: 6 },
            0x62 => Instruction { name: "???", operate: Operation::Xxx, addrmode: AddrMode::Imp, cycles: 2 },
            0x63 => Instruction { name: "???", operate: Operation::Xxx, addrmode: AddrMode::Imp, cycles: 8 },
            0x64 => Instruction { name: "???", operate: Operation::Nop, addrmode: AddrMode::Imp, cycles: 3 },
            0x65 => Instruction { name: "ADC", operate: Operation::Adc, addrmode: AddrMode::Zp0, cycles: 3 },
            0x66 => Instruction { name: "ROR", operate: Operation::Ror, addrmode: AddrMode::Zp0, cycles: 5 },
            0x67 => Instruction { name: "???", operate: Operation::Xxx, addrmode: AddrMode::Imp, cycles: 5 },
            0x68 => Instruction { name: "PLA", operate: Operation::Pla, addrmode: AddrMode::Imp, cycles: 4 },
            0x69 => Instruction { name: "ADC", operate: Operation::Adc, addrmode: AddrMode::Imm, cycles: 2 },
            0x6A => Instruction { name: "ROR", operate: Operation::Ror, addrmode: AddrMode::Imp, cycles: 2 },
            0x6B => Instruction { name: "???", operate: Operation::Xxx, addrmode: AddrMode::Imp, cycles: 2 },
            0x6C => Instruction { name: "JMP", operate: Operation::Jmp, addrmode: AddrMode::Ind, cycles: 5 },
            0x6D => Instruction { name: "ADC", operate: Operation::Adc, addrmode: AddrMode::Abs, cycles: 4 },
            0x6E => Instruction { name: "ROR", operate: Operation::Ror, addrmode: AddrMode::Abs, cycles: 6 },
            0x6F => Instruction { name: "???", operate: Operation::Xxx, addrmode: AddrMode::Imp, cycles: 6 },

            0x70 => Instruction { name: "BVS", operate: Operation::Bvs, addrmode: AddrMode::Rel, cycles: 2 },
            0x71 => Instruction { name: "ADC", operate: Operation::Adc, addrmode: AddrMode::Izy, cycles: 5 },
            0x72 => Instruction { name: "???", operate: Operation::Xxx, addrmode: AddrMode::Imp, cycles: 2 },
            0x73 => Instruction { name: "???", operate: Operation::Xxx, addrmode: AddrMode::Imp, cycles: 8 },
            0x74 => Instruction { name: "???", operate: Operation::Nop, addrmode: AddrMode::Imp, cycles: 4 },
            0x75 => Instruction { name: "ADC", operate: Operation::Adc, addrmode: AddrMode::Zpx, cycles: 4 },
            0x76 => Instruction { name: "ROR", operate: Operation::Ror, addrmode: AddrMode::Zpx, cycles: 6 },
            0x77 => Instruction { name: "???", operate: Operation::Xxx, addrmode: AddrMode::Imp, cycles: 6 },
            0x78 => Instruction { name: "SEI", operate: Operation::Sei, addrmode: AddrMode::Imp, cycles: 2 },
            0x79 => Instruction { name: "ADC", operate: Operation::Adc, addrmode: AddrMode::Aby, cycles: 4 },
            0x7A => Instruction { name: "???", operate: Operation::Nop, addrmode: AddrMode::Imp, cycles: 2 },
            0x7B => Instruction { name: "???", operate: Operation::Xxx, addrmode: AddrMode::Imp, cycles: 7 },
            0x7C => Instruction { name: "???", operate: Operation::Nop, addrmode: AddrMode::Imp, cycles: 4 },
            0x7D => Instruction { name: "ADC", operate: Operation::Adc, addrmode: AddrMode::Abx, cycles: 4 },
            0x7E => Instruction { name: "ROR", operate: Operation::Ror, addrmode: AddrMode::Abx, cycles: 7 },
            0x7F => Instruction { name: "???", operate: Operation::Xxx, addrmode: AddrMode::Imp, cycles: 7 },

            0x80 => Instruction { name: "???", operate: Operation::Nop, addrmode: AddrMode::Imp, cycles: 2 },
            0x81 => Instruction { name: "STA", operate: Operation::Sta, addrmode: AddrMode::Izx, cycles: 6 },
            0x82 => Instruction { name: "???", operate: Operation::Nop, addrmode: AddrMode::Imp, cycles: 2 },
            0x83 => Instruction { name: "???", operate: Operation::Xxx, addrmode: AddrMode::Imp, cycles: 6 },
            0x84 => Instruction { name: "STY", operate: Operation::Sty, addrmode: AddrMode::Zp0, cycles: 3 },
            0x85 => Instruction { name: "STA", operate: Operation::Sta, addrmode: AddrMode::Zp0, cycles: 3 },
            0x86 => Instruction { name: "STX", operate: Operation::Stx, addrmode: AddrMode::Zp0, cycles: 3 },
            0x87 => Instruction { name: "???", operate: Operation::Xxx, addrmode: AddrMode::Imp, cycles: 3 },
            0x88 => Instruction { name: "DEY", operate: Operation::Dey, addrmode: AddrMode::Imp, cycles: 2 },
            0x89 => Instruction { name: "???", operate: Operation::Nop, addrmode: AddrMode::Imp, cycles: 2 },
            0x8A => Instruction { name: "TXA", operate: Operation::Txa, addrmode: AddrMode::Imp, cycles: 2 },
            0x8B => Instruction { name: "???", operate: Operation::Xxx, addrmode: AddrMode::Imp, cycles: 2 },
            0x8C => Instruction { name: "STY", operate: Operation::Sty, addrmode: AddrMode::Abs, cycles: 4 },
            0x8D => Instruction { name: "STA", operate: Operation::Sta, addrmode: AddrMode::Abs, cycles: 4 },
            0x8E => Instruction { name: "STX", operate: Operation::Stx, addrmode: AddrMode::Abs, cycles: 4 },
            0x8F => Instruction { name: "???", operate: Operation::Xxx, addrmode: AddrMode::Imp, cycles: 4 },

            0x90 => Instruction { name: "BCC", operate: Operation::Bcc, addrmode: AddrMode::Rel, cycles: 2 },
            0x91 => Instruction { name: "STA", operate: Operation::Sta, addrmode: AddrMode::Izy, cycles: 6 },
            0x92 => Instruction { name: "???", operate: Operation::Xxx, addrmode: AddrMode::Imp, cycles: 2 },
            0x93 => Instruction { name: "???", operate: Operation::Xxx, addrmode: AddrMode::Imp, cycles: 6 },
            0x94 => Instruction { name: "STY", operate: Operation::Sty, addrmode: AddrMode::Zpx, cycles: 4 },
            0x95 => Instruction { name: "STA", operate: Operation::Sta, addrmode: AddrMode::Zpx, cycles: 4 },
            0x96 => Instruction { name: "STX", operate: Operation::Stx, addrmode: AddrMode::Zpy, cycles: 4 },
            0x97 => Instruction { name: "???", operate: Operation::Xxx, addrmode: AddrMode::Imp, cycles: 4 },
            0x98 => Instruction { name: "TYA", operate: Operation::Tya, addrmode: AddrMode::Imp, cycles: 2 },
            0x99 => Instruction { name: "STA", operate: Operation::Sta, addrmode: AddrMode::Aby, cycles: 5 },
            0x9A => Instruction { name: "TXS", operate: Operation::Txs, addrmode: AddrMode::Imp, cycles: 2 },
            0x9B => Instruction { name: "???", operate: Operation::Xxx, addrmode: AddrMode::Imp, cycles: 5 },
            0x9C => Instruction { name: "???", operate: Operation::Nop, addrmode: AddrMode::Imp, cycles: 5 },
            0x9D => Instruction { name: "STA", operate: Operation::Sta, addrmode: AddrMode::Abx, cycles: 5 },
            0x9E => Instruction { name: "???", operate: Operation::Xxx, addrmode: AddrMode::Imp, cycles: 5 },
            0x9F => Instruction { name: "???", operate: Operation::Xxx, addrmode: AddrMode::Imp, cycles: 5 },

            0xA0 => Instruction { name: "LDY", operate: Operation::Ldy, addrmode: AddrMode::Imm, cycles: 2 },
            0xA1 => Instruction { name: "LDA", operate: Operation::Lda, addrmode: AddrMode::Izx, cycles: 6 },
            0xA2 => Instruction { name: "LDX", operate: Operation::Ldx, addrmode: AddrMode::Imm, cycles: 2 },
            0xA3 => Instruction { name: "???", operate: Operation::Xxx, addrmode: AddrMode::Imp, cycles: 6 },
            0xA4 => Instruction { name: "LDY", operate: Operation::Ldy, addrmode: AddrMode::Zp0, cycles: 3 },
            0xA5 => Instruction { name: "LDA", operate: Operation::Lda, addrmode: AddrMode::Zp0, cycles: 3 },
            0xA6 => Instruction { name: "LDX", operate: Operation::Ldx, addrmode: AddrMode::Zp0, cycles: 3 },
            0xA7 => Instruction { name: "???", operate: Operation::Xxx, addrmode: AddrMode::Imp, cycles: 3 },
            0xA8 => Instruction { name: "TAY", operate: Operation::Tay, addrmode: AddrMode::Imp, cycles: 2 },
            0xA9 => Instruction { name: "LDA", operate: Operation::Lda, addrmode: AddrMode::Imm, cycles: 2 },
            0xAA => Instruction { name: "TAX", operate: Operation::Tax, addrmode: AddrMode::Imp, cycles: 2 },
            0xAB => Instruction { name: "???", operate: Operation::Xxx, addrmode: AddrMode::Imp, cycles: 2 },
            0xAC => Instruction { name: "LDY", operate: Operation::Ldy, addrmode: AddrMode::Abs, cycles: 4 },
            0xAD => Instruction { name: "LDA", operate: Operation::Lda, addrmode: AddrMode::Abs, cycles: 4 },
            0xAE => Instruction { name: "LDX", operate: Operation::Ldx, addrmode: AddrMode::Abs, cycles: 4 },
            0xAF => Instruction { name: "???", operate: Operation::Xxx, addrmode: AddrMode::Imp, cycles: 4 },

            0xB0 => Instruction { name: "BCS", operate: Operation::Bcs, addrmode: AddrMode::Rel, cycles: 2 },
            0xB1 => Instruction { name: "LDA", operate: Operation::Lda, addrmode: AddrMode::Izy, cycles: 5 },
            0xB2 => Instruction { name: "???", operate: Operation::Xxx, addrmode: AddrMode::Imp, cycles: 2 },
            0xB3 => Instruction { name: "???", operate: Operation::Xxx, addrmode: AddrMode::Imp, cycles: 5 },
            0xB4 => Instruction { name: "LDY", operate: Operation::Ldy, addrmode: AddrMode::Zpx, cycles: 4 },
            0xB5 => Instruction { name: "LDA", operate: Operation::Lda, addrmode: AddrMode::Zpx, cycles: 4 },
            0xB6 => Instruction { name: "LDX", operate: Operation::Ldx, addrmode: AddrMode::Zpy, cycles: 4 },
            0xB7 => Instruction { name: "???", operate: Operation::Xxx, addrmode: AddrMode::Imp, cycles: 4 },
            0xB8 => Instruction { name: "CLV", operate: Operation::Clv, addrmode: AddrMode::Imp, cycles: 2 },
            0xB9 => Instruction { name: "LDA", operate: Operation::Lda, addrmode: AddrMode::Aby, cycles: 4 },
            0xBA => Instruction { name: "TSX", operate: Operation::Tsx, addrmode: AddrMode::Imp, cycles: 2 },
            0xBB => Instruction { name: "???", operate: Operation::Xxx, addrmode: AddrMode::Imp, cycles: 4 },
            0xBC => Instruction { name: "LDY", operate: Operation::Ldy, addrmode: AddrMode::Abx, cycles: 4 },
            0xBD => Instruction { name: "LDA", operate: Operation::Lda, addrmode: AddrMode::Abx, cycles: 4 },
            0xBE => Instruction { name: "LDX", operate: Operation::Ldx, addrmode: AddrMode::Aby, cycles: 4 },
            0xBF => Instruction { name: "???", operate: Operation::Xxx, addrmode: AddrMode::Imp, cycles: 4 },

            0xC0 => Instruction { name: "CPY", operate: Operation::Cpy, addrmode: AddrMode::Imm, cycles: 2 },
            0xC1 => Instruction { name: "CMP", operate: Operation::Cmp, addrmode: AddrMode::Izx, cycles: 6 },
            0xC2 => Instruction { name: "???", operate: Operation::Nop, addrmode: AddrMode::Imp, cycles: 2 },
            0xC3 => Instruction { name: "???", operate: Operation::Xxx, addrmode: AddrMode::Imp, cycles: 8 },
            0xC4 => Instruction { name: "CPY", operate: Operation::Cpy, addrmode: AddrMode::Zp0, cycles: 3 },
            0xC5 => Instruction { name: "CMP", operate: Operation::Cmp, addrmode: AddrMode::Zp0, cycles: 3 },
            0xC6 => Instruction { name: "DEC", operate: Operation::Dec, addrmode: AddrMode::Zp0, cycles: 5 },
            0xC7 => Instruction { name: "???", operate: Operation::Xxx, addrmode: AddrMode::Imp, cycles: 5 },
            0xC8 => Instruction { name: "INY", operate: Operation::Iny, addrmode: AddrMode::Imp, cycles: 2 },
            0xC9 => Instruction { name: "CMP", operate: Operation::Cmp, addrmode: AddrMode::Imm, cycles: 2 },
            0xCA => Instruction { name: "DEX", operate: Operation::Dex, addrmode: AddrMode::Imp, cycles: 2 },
            0xCB => Instruction { name: "???", operate: Operation::Xxx, addrmode: AddrMode::Imp, cycles: 2 },
            0xCC => Instruction { name: "CPY", operate: Operation::Cpy, addrmode: AddrMode::Abs, cycles: 4 },
            0xCD => Instruction { name: "CMP", operate: Operation::Cmp, addrmode: AddrMode::Abs, cycles: 4 },
            0xCE => Instruction { name: "DEC", operate: Operation::Dec, addrmode: AddrMode::Abs, cycles: 6 },
            0xCF => Instruction { name: "???", operate: Operation::Xxx, addrmode: AddrMode::Imp, cycles: 6 },

            0xD0 => Instruction { name: "BNE", operate: Operation::Bne, addrmode: AddrMode::Rel, cycles: 2 },
            0xD1 => Instruction { name: "CMP", operate: Operation::Cmp, addrmode: AddrMode::Izy, cycles: 5 },
            0xD2 => Instruction { name: "???", operate: Operation::Xxx, addrmode: AddrMode::Imp, cycles: 2 },
            0xD3 => Instruction { name: "???", operate: Operation::Xxx, addrmode: AddrMode::Imp, cycles: 8 },
            0xD4 => Instruction { name: "???", operate: Operation::Nop, addrmode: AddrMode::Imp, cycles: 4 },
            0xD5 => Instruction { name: "CMP", operate: Operation::Cmp, addrmode: AddrMode::Zpx, cycles: 4 },
            0xD6 => Instruction { name: "DEC", operate: Operation::Dec, addrmode: AddrMode::Zpx, cycles: 6 },
            0xD7 => Instruction { name: "???", operate: Operation::Xxx, addrmode: AddrMode::Imp, cycles: 6 },
            0xD8 => Instruction { name: "CLD", operate: Operation::Cld, addrmode: AddrMode::Imp, cycles: 2 },
            0xD9 => Instruction { name: "CMP", operate: Operation::Cmp, addrmode: AddrMode::Aby, cycles: 4 },
            0xDA => Instruction { name: "NOP", operate: Operation::Nop, addrmode: AddrMode::Imp, cycles: 2 },
            0xDB => Instruction { name: "???", operate: Operation::Xxx, addrmode: AddrMode::Imp, cycles: 7 },
            0xDC => Instruction { name: "???", operate: Operation::Nop, addrmode: AddrMode::Imp, cycles: 4 },
            0xDD => Instruction { name: "CMP", operate: Operation::Cmp, addrmode: AddrMode::Abx, cycles: 4 },
            0xDE => Instruction { name: "DEC", operate: Operation::Dec, addrmode: AddrMode::Abx, cycles: 7 },
            0xDF => Instruction { name: "???", operate: Operation::Xxx, addrmode: AddrMode::Imp, cycles: 7 },

            0xE0 => Instruction { name: "CPX", operate: Operation::Cpx, addrmode: AddrMode::Imm, cycles: 2 },
            0xE1 => Instruction { name: "SBC", operate: Operation::Sbc, addrmode: AddrMode::Izx, cycles: 6 },
            0xE2 => Instruction { name: "???", operate: Operation::Nop, addrmode: AddrMode::Imp, cycles: 2 },
            0xE3 => Instruction { name: "???", operate: Operation::Xxx, addrmode: AddrMode::Imp, cycles: 8 },
            0xE4 => Instruction { name: "CPX", operate: Operation::Cpx, addrmode: AddrMode::Zp0, cycles: 3 },
            0xE5 => Instruction { name: "SBC", operate: Operation::Sbc, addrmode: AddrMode::Zp0, cycles: 3 },
            0xE6 => Instruction { name: "INC", operate: Operation::Inc, addrmode: AddrMode::Zp0, cycles: 5 },
            0xE7 => Instruction { name: "???", operate: Operation::Xxx, addrmode: AddrMode::Imp, cycles: 5 },
            0xE8 => Instruction { name: "INX", operate: Operation::Inx, addrmode: AddrMode::Imp, cycles: 2 },
            0xE9 => Instruction { name: "SBC", operate: Operation::Sbc, addrmode: AddrMode::Imm, cycles: 2 },
            0xEA => Instruction { name: "NOP", operate: Operation::Nop, addrmode: AddrMode::Imp, cycles: 2 },
            0xEB => Instruction { name: "???", operate: Operation::Xxx, addrmode: AddrMode::Imp, cycles: 2 },
            0xEC => Instruction { name: "CPX", operate: Operation::Cpx, addrmode: AddrMode::Abs, cycles: 4 },
            0xED => Instruction { name: "SBC", operate: Operation::Sbc, addrmode: AddrMode::Abs, cycles: 4 },
            0xEE => Instruction { name: "INC", operate: Operation::Inc, addrmode: AddrMode::Abs, cycles: 6 },
            0xEF => Instruction { name: "???", operate: Operation::Xxx, addrmode: AddrMode::Imp, cycles: 6 },

            0xF0 => Instruction { name: "BEQ", operate: Operation::Beq, addrmode: AddrMode::Rel, cycles: 2 },
            0xF1 => Instruction { name: "SBC", operate: Operation::Sbc, addrmode: AddrMode::Izy, cycles: 5 },
            0xF2 => Instruction { name: "???", operate: Operation::Xxx, addrmode: AddrMode::Imp, cycles: 2 },
            0xF3 => Instruction { name: "???", operate: Operation::Xxx, addrmode: AddrMode::Imp, cycles: 8 },
            0xF4 => Instruction { name: "???", operate: Operation::Nop, addrmode: AddrMode::Imp, cycles: 4 },
            0xF5 => Instruction { name: "SBC", operate: Operation::Sbc, addrmode: AddrMode::Zpx, cycles: 4 },
            0xF6 => Instruction { name: "INC", operate: Operation::Inc, addrmode: AddrMode::Zpx, cycles: 6 },
            0xF7 => Instruction { name: "???", operate: Operation::Xxx, addrmode: AddrMode::Imp, cycles: 6 },
            0xF8 => Instruction { name: "SED", operate: Operation::Sed, addrmode: AddrMode::Imp, cycles: 2 },
            0xF9 => Instruction { name: "SBC", operate: Operation::Sbc, addrmode: AddrMode::Aby, cycles: 4 },
            0xFA => Instruction { name: "NOP", operate: Operation::Nop, addrmode: AddrMode::Imp, cycles: 2 },
            0xFB => Instruction { name: "???", operate: Operation::Xxx, addrmode: AddrMode::Imp, cycles: 7 },
            0xFC => Instruction { name: "???", operate: Operation::Nop, addrmode: AddrMode::Imp, cycles: 4 },
            0xFD => Instruction { name: "SBC", operate: Operation::Sbc, addrmode: AddrMode::Abx, cycles: 4 },
            0xFE => Instruction { name: "INC", operate: Operation::Inc, addrmode: AddrMode::Abx, cycles: 7 },
            0xFF => Instruction { name: "???", operate: Operation::Xxx, addrmode: AddrMode::Imp, cycles: 7 },
        }
    }
}

/// Every mnemonic has three letters.
pub proof fn lemma_mnemonic_len(operation: Operation)
    ensures
        operation.mnemonic().len() == 3,
        "???"@.len() == 3,
{
    reveal_strlit("ADC");
    reveal_strlit("AND");
    reveal_strlit("ASL");
    reveal_strlit("BCC");
    reveal_strlit("BCS");
    reveal_strlit("BEQ");
    reveal_strlit("BIT");
    reveal_strlit("BMI");
    reveal_strlit("BNE");
    reveal_strlit("BPL");
    reveal_strlit("BRK");
    reveal_strlit("BVC");
    reveal_strlit("BVS");
    reveal_strlit("CLC");
    reveal_strlit("CLD");
    reveal_strlit("CLI");
    reveal_strlit("CLV");
    reveal_strlit("CMP");
    reveal_strlit("CPX");
    reveal_strlit("CPY");
    reveal_strlit("DEC");
    reveal_strlit("DEX");
    reveal_strlit("DEY");
    reveal_strlit("EOR");
    reveal_strlit("INC");
    reveal_strlit("INX");
    reveal_strlit("INY");
    reveal_strlit("JMP");
    reveal_strlit("JSR");
    reveal_strlit("LDA");
    reveal_strlit("LDX");
    reveal_strlit("LDY");
    reveal_strlit("LSR");
    reveal_strlit("NOP");
    reveal_strlit("ORA");
    reveal_strlit("PHA");
    reveal_strlit("PHP");
    reveal_strlit("PLA");
    reveal_strlit("PLP");
    reveal_strlit("ROL");
    reveal_strlit("ROR");
    reveal_strlit("RTI");
    reveal_strlit("RTS");
    reveal_strlit("SBC");
    reveal_strlit("SEC");
    reveal_strlit("SED");
    reveal_strlit("SEI");
    reveal_strlit("STA");
    reveal_strlit("STX");
    reveal_strlit("STY");
    reveal_strlit("TAX");
    reveal_strlit("TAY");
    reveal_strlit("TSX");
    reveal_strlit("TXA");
    reveal_strlit("TXS");
    reveal_strlit("TYA");
    reveal_strlit("???");
}

/// Every slot of the table takes at least two and at most eight cycles.
pub proof fn lemma_base_cycles_bounds(opcode: u8)
    ensures
        2 <= base_cycles(opcode) <= 8,
{
}

} // verus!
