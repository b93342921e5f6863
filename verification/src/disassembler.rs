use std::collections::HashMap;
use vstd::prelude::*;
use vstd::string::StringExecFns;
use vstd::string::StrSliceExecFns;
use crate::addressing::operand_len;
use crate::cpu_6502::Cpu6502;
use crate::instruction::{mnemonic_of, mode_of, AddrMode, Instruction};
use crate::state::wrap16;

verus! {

/// The character that stands for the hexadecimal digit `v`.
pub open spec fn hex_digit(v: int) -> char {
    "0123456789ABCDEF"@[v]
}

/// The `d` low hexadecimal digits of `n`, most significant first.
pub open spec fn hex_text(n: nat, d: nat) -> Seq<char>
    decreases d,
{
    if d == 0 {
        Seq::empty()
    } else {
        hex_text(n / 16, (d - 1) as nat).push(hex_digit((n % 16) as int))
    }
}

/// The text of the operand of the instruction at `addr`, with the tag of
/// its addressing mode.
pub open spec fn operand_text(mem: Seq<u8>, addr: u16) -> Seq<char> {
    let lo = mem[wrap16(addr + 1) as int];
    let hi = mem[wrap16(addr + 2) as int];
    let wide = (hi * 0x100 + lo) as nat;
    match mode_of(mem[addr as int]) {
        AddrMode::Imp => " {IMP}"@,
        AddrMode::Imm => "#$"@ + hex_text(lo as nat, 2) + " {IMM}"@,
        AddrMode::Zp0 => "$"@ + hex_text(lo as nat, 2) + " {ZP0}"@,
        AddrMode::Zpx => "$"@ + hex_text(lo as nat, 2) + ", X {ZPX}"@,
        AddrMode::Zpy => "$"@ + hex_text(lo as nat, 2) + ", Y {ZPY}"@,
        AddrMode::Izx => "($"@ + hex_text(lo as nat, 2) + ", X) {IZX}"@,
        AddrMode::Izy => "($"@ + hex_text(lo as nat, 2) + "), Y {IZY}"@,
        AddrMode::Abs => "$"@ + hex_text(wide, 4) + " {ABS}"@,
        AddrMode::Abx => "$"@ + hex_text(wide, 4) + ", X {ABX}"@,
        AddrMode::Aby => "$"@ + hex_text(wide, 4) + ", Y {ABY}"@,
        AddrMode::Ind => "($"@ + hex_text(wide, 4) + ") {IND}"@,
        AddrMode::Rel => "$"@ + hex_text(lo as nat, 2) + " [$"@ + hex_text(
            (addr + 2 + lo) as nat,
            4,
        ) + "] {REL}"@,
    }
}

/// The line that describes the instruction at `addr`: its address, its
/// mnemonic and its operand.
pub open spec fn line_text(mem: Seq<u8>, addr: u16) -> Seq<char> {
    "$"@ + hex_text(addr as nat, 4) + ": "@ + mnemonic_of(mem[addr as int]) + " "@ + operand_text(
        mem,
        addr,
    )
}

/// Number of bytes that the instruction at `addr` takes.
pub open spec fn line_len(mem: Seq<u8>, addr: u16) -> int {
    1 + operand_len(mode_of(mem[addr as int]))
}

/// The listing of the instructions met from `addr` up to `stop`: one line
/// at `addr`, the next where that instruction ends, and so on while the
/// address is not above `stop`. Each line stands under its address.
pub open spec fn listing(mem: Seq<u8>, addr: int, stop: int) -> Map<u16, Seq<char>>
    decreases stop + 3 - addr,
{
    if 0 <= addr <= stop <= 0xFFFF {
        listing(mem, addr + line_len(mem, addr as u16), stop).insert(
            addr as u16,
            line_text(mem, addr as u16),
        )
    } else {
        Map::empty()
    }
}

/// Whether `lines` holds exactly the lines of `expected`.
pub open spec fn holds_listing(lines: Map<u16, String>, expected: Map<u16, Seq<char>>) -> bool {
    &&& lines.dom() =~= expected.dom()
    &&& forall|addr: u16| #[trigger] expected.dom().contains(addr) ==> lines[addr]@ == expected[addr]
}

/// Lines already written, together with the lines still to come.
pub open spec fn joined(done: Map<u16, String>, rest: Map<u16, Seq<char>>) -> Map<
    u16,
    Seq<char>,
> {
    Map::new(
        |addr: u16| done.dom().contains(addr) || rest.dom().contains(addr),
        |addr: u16|
            if rest.dom().contains(addr) {
                rest[addr]
            } else {
                done[addr]@
            },
    )
}

/// A listing has no line below the address it starts at.
pub proof fn lemma_listing_starts_at(mem: Seq<u8>, addr: int, stop: int, key: u16)
    requires
        listing(mem, addr, stop).dom().contains(key),
    ensures
        addr <= key <= stop,
    decreases stop + 3 - addr,
{
    if 0 <= addr <= stop <= 0xFFFF {
        if key != addr {
            lemma_listing_starts_at(mem, addr + line_len(mem, addr as u16), stop, key);
        }
    }
}

/// What masks and shifts by a hexadecimal digit mean as arithmetic.
proof fn lemma_nibble_bits(n: u32)
    by (bit_vector)
    ensures
        n & 0xF == n % 16,
        n >> 4 == n / 16,
{
}

/// The one-character text of the hexadecimal digit `v`.
pub fn hex_digit_text(v: usize) -> (text: &'static str)
    requires
        v < 16,
    ensures
        text@ == seq![hex_digit(v as int)],
{
    proof {
        reveal_strlit("0123456789ABCDEF");
    }
    let text = "0123456789ABCDEF".substring_char(v, v + 1);
    assert(text@ =~= seq![hex_digit(v as int)]);
    text
}

impl Cpu6502 {
    /// The `d` low hexadecimal digits of `n`, most significant first.
    pub fn hex(n: u32, d: u8) -> (text: String)
        ensures
            text@ == hex_text(n as nat, d as nat),
    {
        let mut nc = n;
        proof {
            reveal_strlit("");
        }
        let mut sf = String::from_str("");
        let mut i: u8 = 0;
        assert(hex_text(nc as nat, d as nat) + sf@ =~= hex_text(n as nat, d as nat));
        while i < d
            invariant
                i <= d,
                hex_text(nc as nat, (d - i) as nat) + sf@ == hex_text(n as nat, d as nat),
            decreases d - i,
        {
            proof {
                lemma_nibble_bits(nc);
            }
            let mut longer = String::from_str(hex_digit_text((nc & 0xF) as usize));
            longer.append(sf.as_str());
            assert(hex_text((nc >> 4) as nat, (d - i - 1) as nat) + longer@ =~= hex_text(
                nc as nat,
                (d - i) as nat,
            ) + sf@);
            sf = longer;
            nc >>= 4;
            i += 1;
        }
        sf
    }

    /// The text of the operand of the instruction at `addr`.
    fn operand_text(&self, addr: u16, mode: AddrMode) -> (text: String)
        requires
            mode == mode_of(self@.mem[addr as int]),
        ensures
            text@ == operand_text(self@.mem, addr),
    {
        let lo = self.read(addr.wrapping_add(1));
        let hi = self.read(addr.wrapping_add(2));
        let wide = (hi as u32) << 8 | lo as u32;
        proof {
            lemma_wide_operand(lo, hi);
        }
        match mode {
            AddrMode::Imp => String::from_str(" {IMP}"),
            AddrMode::Imm => {
                let mut text = String::from_str("#$");
                text.append(Cpu6502::hex(lo as u32, 2).as_str());
                text.append(" {IMM}");
                text
            },
            AddrMode::Zp0 => {
                let mut text = String::from_str("$");
                text.append(Cpu6502::hex(lo as u32, 2).as_str());
                text.append(" {ZP0}");
                text
            },
            AddrMode::Zpx => {
                let mut text = String::from_str("$");
                text.append(Cpu6502::hex(lo as u32, 2).as_str());
                text.append(", X {ZPX}");
                text
            },
            AddrMode::Zpy => {
                let mut text = String::from_str("$");
                text.append(Cpu6502::hex(lo as u32, 2).as_str());
                text.append(", Y {ZPY}");
                text
            },
            AddrMode::Izx => {
                let mut text = String::from_str("($");
                text.append(Cpu6502::hex(lo as u32, 2).as_str());
                text.append(", X) {IZX}");
                text
            },
            AddrMode::Izy => {
                let mut text = String::from_str("($");
                text.append(Cpu6502::hex(lo as u32, 2).as_str());
                text.append("), Y {IZY}");
                text
            },
            AddrMode::Abs => {
                let mut text = String::from_str("$");
                text.append(Cpu6502::hex(wide, 4).as_str());
                text.append(" {ABS}");
                text
            },
            AddrMode::Abx => {
                let mut text = String::from_str("$");
                text.append(Cpu6502::hex(wide, 4).as_str());
                text.append(", X {ABX}");
                text
            },
            AddrMode::Aby => {
                let mut text = String::from_str("$");
                text.append(Cpu6502::hex(wide, 4).as_str());
                text.append(", Y {ABY}");
                text
            },
            AddrMode::Ind => {
                let mut text = String::from_str("($");
                text.append(Cpu6502::hex(wide, 4).as_str());
                text.append(") {IND}");
                text
            },
            AddrMode::Rel => {
                let mut text = String::from_str("$");
                text.append(Cpu6502::hex(lo as u32, 2).as_str());
                text.append(" [$");
                text.append(Cpu6502::hex(addr as u32 + 2 + lo as u32, 4).as_str());
                text.append("] {REL}");
                text
            },
        }
    }

    /// Lists the instructions met from `n_start` up to `n_stop`, one line
    /// of text for each, under the address where it starts. Memory is only
    /// read.
    pub fn disassemble(&self, n_start: u16, n_stop: u16) -> (lines: HashMap<u16, String>)
        ensures
            holds_listing(lines@, listing(self@.mem, n_start as int, n_stop as int)),
    {
        broadcast use vstd::std_specs::hash::group_hash_axioms;

        let mut addr: u32 = n_start as u32;
        let mut map_lines: HashMap<u16, String> = HashMap::new();

        assert(joined(map_lines@, listing(self@.mem, addr as int, n_stop as int)) =~= listing(
            self@.mem,
            n_start as int,
            n_stop as int,
        ));
        while addr <= n_stop as u32
            invariant
                addr <= 0x10002,
                forall|key: u16| #[trigger] map_lines@.dom().contains(key) ==> key < addr,
                joined(map_lines@, listing(self@.mem, addr as int, n_stop as int)) == listing(
                    self@.mem,
                    n_start as int,
                    n_stop as int,
                ),
            decreases n_stop + 3 - addr,
        {
            let line_addr = addr as u16;
            let opcode = self.bus.read(line_addr, true);
            let instruction = Instruction::lookup(opcode);

            let mut s_inst = String::from_str("$");
            s_inst.append(Cpu6502::hex(addr, 4).as_str());
            s_inst.append(": ");
            s_inst.append(instruction.name);
            s_inst.append(" ");
            s_inst.append(self.operand_text(line_addr, instruction.addrmode).as_str());

            let ghost rest = listing(self@.mem, addr as int, n_stop as int);
            addr += match instruction.addrmode {
                AddrMode::Imp => 1,
                AddrMode::Abs | AddrMode::Abx | AddrMode::Aby | AddrMode::Ind => 3,
                _ => 2,
            };
            let ghost before = map_lines@;
            map_lines.insert(line_addr, s_inst);
            proof {
                let next = listing(self@.mem, addr as int, n_stop as int);
                assert(rest == next.insert(line_addr, line_text(self@.mem, line_addr)));
                assert(!next.dom().contains(line_addr)) by {
                    if next.dom().contains(line_addr) {
                        lemma_listing_starts_at(self@.mem, addr as int, n_stop as int, line_addr);
                    }
                }
                assert(joined(map_lines@, next) =~= joined(before, rest));
            }
        }
        assert(joined(map_lines@, Map::empty()) =~= listing(
            self@.mem,
            n_start as int,
            n_stop as int,
        ));
        map_lines
    }
}

/// Two bytes joined by shift and OR make the value with those bytes.
proof fn lemma_wide_operand(lo: u8, hi: u8)
    by (bit_vector)
    ensures
        (hi as u32) << 8 | lo as u32 == (hi as u32) * 0x100 + (lo as u32),
{
}

} // verus!
