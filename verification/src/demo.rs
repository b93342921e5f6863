use std::collections::HashMap;
use vstd::prelude::*;
use vstd::string::StringExecFns;
use vstd::string::StringSliceAdditionalSpecFns;
use crate::cpu_6502::{high_byte_of, low_byte_of, Cpu6502};
use crate::disassembler::{hex_digit, hex_digit_text, hex_text, holds_listing, listing};
use crate::flags::Flags6502;
use crate::operations::{clock_step, irq_state, nmi_state, reset_state};
use crate::program::{loaded, parse, parse_hex_bytes};
use crate::state::{high_byte, low_byte, wrap16, CpuState, RESET_VECTOR};

verus! {

/// A colour: red, green, blue and opacity, each from 0 to 255.
#[derive(Clone, Copy, Debug, PartialEq, Eq, Structural)]
pub struct Pixel {
    pub r: u8,
    pub g: u8,
    pub b: u8,
    pub a: u8,
}

/// White.
pub open spec fn white() -> Pixel {
    Pixel { r: 255, g: 255, b: 255, a: 255 }
}

/// Cyan.
pub open spec fn cyan() -> Pixel {
    Pixel { r: 0, g: 255, b: 255, a: 255 }
}

/// Green.
pub open spec fn green() -> Pixel {
    Pixel { r: 0, g: 255, b: 0, a: 255 }
}

/// Red.
pub open spec fn red() -> Pixel {
    Pixel { r: 255, g: 0, b: 0, a: 255 }
}

impl Pixel {
    /// The opaque colour with the given parts.
    pub fn rgb(r: u8, g: u8, b: u8) -> (p: Pixel)
        ensures
            p == (Pixel { r: r, g: g, b: b, a: 0xFF }),
    {
        Pixel { r: r, g: g, b: b, a: 0xFF }
    }

    /// White.
    pub fn white() -> (p: Pixel)
        ensures
            p == white(),
    {
        Pixel::rgb(255, 255, 255)
    }

    /// Cyan.
    pub fn cyan() -> (p: Pixel)
        ensures
            p == cyan(),
    {
        Pixel::rgb(0, 255, 255)
    }

    /// Green.
    pub fn green() -> (p: Pixel)
        ensures
            p == green(),
    {
        Pixel::rgb(0, 255, 0)
    }

    /// Red.
    pub fn red() -> (p: Pixel)
        ensures
            p == red(),
    {
        Pixel::rgb(255, 0, 0)
    }
}

/// A piece of text to draw, with the place of its top left corner.
#[derive(Debug)]
pub struct Label {
    pub x: i32,
    pub y: i32,
    pub text: String,
    pub col: Pixel,
}

/// A label as a mathematical value.
pub struct LabelView {
    pub x: int,
    pub y: int,
    pub text: Seq<char>,
    pub col: Pixel,
}

impl View for Label {
    type V = LabelView;

    open spec fn view(&self) -> LabelView {
        LabelView { x: self.x as int, y: self.y as int, text: self.text@, col: self.col }
    }
}

/// The labels of a list, each as a mathematical value.
pub open spec fn views(labels: Seq<Label>) -> Seq<LabelView> {
    labels.map_values(|l: Label| l@)
}

/// The decimal digits of `n`, without leading zeros.
pub open spec fn decimal_text(n: nat) -> Seq<char>
    decreases n,
{
    if n < 10 {
        seq![hex_digit(n as int)]
    } else {
        decimal_text(n / 10).push(hex_digit((n % 10) as int))
    }
}

/// Green for a flag that is set, red for one that is clear.
pub open spec fn flag_colour(s: CpuState, f: u8) -> Pixel {
    if s.flag(f) {
        green()
    } else {
        red()
    }
}

/// The line that shows an 8-bit register: its name, its value in
/// hexadecimal and, in brackets, in decimal.
pub open spec fn register_text(name: Seq<char>, v: u8) -> Seq<char> {
    name + hex_text(v as nat, 4) + " ["@ + decimal_text(v as nat) + "]"@
}

/// The panel that shows the processor: one label for each flag, coloured
/// by its state, then one line for each register.
pub open spec fn cpu_panel(s: CpuState, x: int, y: int) -> Seq<LabelView> {
    seq![
        LabelView { x: x, y: y, text: "STATUS: "@, col: white() },
        LabelView { x: x + 64, y: y, text: "N"@, col: flag_colour(s, Flags6502::N) },
        LabelView { x: x + 80, y: y, text: "V"@, col: flag_colour(s, Flags6502::V) },
        LabelView { x: x + 96, y: y, text: "-"@, col: flag_colour(s, Flags6502::U) },
        LabelView { x: x + 112, y: y, text: "B"@, col: flag_colour(s, Flags6502::B) },
        LabelView { x: x + 128, y: y, text: "D"@, col: flag_colour(s, Flags6502::D) },
        LabelView { x: x + 144, y: y, text: "I"@, col: flag_colour(s, Flags6502::I) },
        LabelView { x: x + 160, y: y, text: "Z"@, col: flag_colour(s, Flags6502::Z) },
        LabelView { x: x + 178, y: y, text: "C"@, col: flag_colour(s, Flags6502::C) },
        LabelView {
            x: x,
            y: y + 10,
            text: "PC: $"@ + hex_text(s.pc as nat, 4),
            col: white(),
        },
        LabelView { x: x, y: y + 20, text: register_text("A: $"@, s.a), col: white() },
        LabelView { x: x, y: y + 30, text: register_text("X: $"@, s.x), col: white() },
        LabelView { x: x, y: y + 40, text: register_text("Y: $"@, s.y), col: white() },
        LabelView {
            x: x,
            y: y + 50,
            text: "Stack P: $"@ + hex_text(s.sp as nat, 4),
            col: white(),
        },
    ]
}

/// What a count counts: nothing where it is negative.
pub open spec fn count(n: int) -> nat {
    if n < 0 {
        0
    } else {
        n as nat
    }
}

/// The bytes of one row of the memory view: each in two hexadecimal
/// digits after a space.
pub open spec fn ram_cells(mem: Seq<u8>, addr: u16, columns: nat) -> Seq<char>
    decreases columns,
{
    if columns == 0 {
        Seq::empty()
    } else {
        ram_cells(mem, addr, (columns - 1) as nat) + " "@ + hex_text(
            mem[wrap16(addr + columns - 1) as int] as nat,
            2,
        )
    }
}

/// One row of the memory view: the address of its first byte, then the bytes.
pub open spec fn ram_row(mem: Seq<u8>, addr: u16, columns: nat) -> Seq<char> {
    "$"@ + hex_text(addr as nat, 4) + ":"@ + ram_cells(mem, addr, columns)
}

/// The memory view: `rows` rows of `columns` bytes each from `addr` on,
/// ten pixels apart.
pub open spec fn ram_panel(mem: Seq<u8>, x: int, y: int, addr: u16, rows: nat, columns: nat) -> Seq<
    LabelView,
>
    decreases rows,
{
    if rows == 0 {
        Seq::empty()
    } else {
        seq![LabelView { x: x, y: y, text: ram_row(mem, addr, columns), col: white() }]
            + ram_panel(mem, x, y + 10, wrap16(addr + columns), (rows - 1) as nat, columns)
    }
}

/// The lines of the listing met when stepping away from `pc` one address
/// at a time, forwards if `ahead` and backwards if not, from `offset`
/// steps away: the first `rows` of them, each one row further from `y`.
/// The search ends where it would come back to `pc`.
pub open spec fn code_rows(
    lines: Map<u16, String>,
    pc: u16,
    offset: int,
    ahead: bool,
    rows: int,
    x: int,
    y: int,
) -> Seq<LabelView>
    decreases 0x10000 - offset,
{
    if rows <= 0 || offset < 1 || offset > 0xFFFF {
        Seq::empty()
    } else {
        let addr = wrap16(
            if ahead {
                pc + offset
            } else {
                pc - offset
            },
        );
        let next_y = if ahead {
            y + 10
        } else {
            y - 10
        };
        if lines.dom().contains(addr) {
            seq![LabelView { x: x, y: next_y, text: lines[addr]@, col: white() }]
                + code_rows(lines, pc, offset + 1, ahead, rows - 1, x, next_y)
        } else {
            code_rows(lines, pc, offset + 1, ahead, rows, x, y)
        }
    }
}

/// The line of the listing at `pc`, highlighted, if there is one.
pub open spec fn code_here(lines: Map<u16, String>, pc: u16, x: int, y: int) -> Seq<LabelView> {
    if lines.dom().contains(pc) {
        seq![LabelView { x: x, y: y, text: lines[pc]@, col: cyan() }]
    } else {
        Seq::empty()
    }
}

/// The code view of `n_lines` rows below `y`: the line at `pc` in the
/// middle row, the lines that follow it below, down to the last row, and
/// the lines that precede it above, up to `y`.
pub open spec fn code_panel(lines: Map<u16, String>, pc: u16, x: int, y: int, n_lines: int) -> Seq<
    LabelView,
> {
    let half = n_lines / 2;
    let middle = half * 10 + y;
    code_here(lines, pc, x, middle) + code_rows(lines, pc, 1, true, n_lines - half, x, middle)
        + code_rows(lines, pc, 1, false, half, x, middle)
}

/// The state in which the instruction that `s` is running has spent all
/// its cycles.
pub open spec fn finished(s: CpuState) -> CpuState {
    CpuState { cycles: 0, ..s }
}

/// The state after the keys held down have been served, in this order:
/// run one instruction to its end, reset, interrupt request, non-maskable
/// interrupt. An interrupt is delivered only between instructions.
pub open spec fn after_keys(s: CpuState, step: bool, reset: bool, irq: bool, nmi: bool) -> CpuState {
    let s1 = if step {
        finished(clock_step(s))
    } else {
        s
    };
    let s2 = if reset {
        reset_state(s1)
    } else {
        s1
    };
    let s3 = if irq && s2.cycles == 0 {
        irq_state(s2)
    } else {
        s2
    };
    if nmi && s3.cycles == 0 {
        nmi_state(s3)
    } else {
        s3
    }
}

/// Memory with the reset vector pointing at `at`.
pub open spec fn with_reset_vector(mem: Seq<u8>, at: u16) -> Seq<u8> {
    mem.update(RESET_VECTOR as int, low_byte(at)).update(RESET_VECTOR + 1, high_byte(at))
}

/// The state after the program `bytes` has been loaded at `at` and the
/// processor reset to start it.
pub open spec fn started(s: CpuState, at: u16, bytes: Seq<u8>) -> CpuState {
    reset_state(CpuState { mem: with_reset_vector(loaded(s.mem, at, bytes), at), ..s })
}

/// The demonstration program, in hexadecimal. It multiplies ten by three
/// by adding three ten times, and stores the product at address 2.
pub const DEMO_PROGRAM: &'static str =
    "A2 0A 8E 00 00 A2 03 8E 01 00 AC 00 00 A9 00 18 6D 01 00 88 D0 FA 8D 02 00 EA EA EA";

/// The demonstration: a processor and the listing of its memory.
pub struct DemoOlc6502 {
    pub nes: Cpu6502,
    pub map_asm: HashMap<u16, String>,
}

/// The decimal digits of `v`.
pub fn decimal(v: u8) -> (text: String)
    ensures
        text@ == decimal_text(v as nat),
{
    proof {
        reveal_strlit("");
        reveal_with_fuel(decimal_text, 3);
    }
    let mut text = String::from_str("");
    if v >= 100 {
        text.append(hex_digit_text((v / 100) as usize));
    }
    if v >= 10 {
        text.append(hex_digit_text(((v / 10) % 10) as usize));
    }
    text.append(hex_digit_text((v % 10) as usize));
    assert(text@ =~= decimal_text(v as nat));
    text
}

impl DemoOlc6502 {
    /// A demonstration with a fresh processor and an empty listing.
    pub fn new() -> (demo: Self)
        ensures
            demo.nes@ == Cpu6502::new_state(),
            demo.map_asm@ == Map::<u16, String>::empty(),
    {
        Self { nes: Cpu6502::new(), map_asm: HashMap::new() }
    }

    /// The `d` low hexadecimal digits of `n`, most significant first.
    pub fn hex(n: u32, d: u8) -> (text: String)
        ensures
            text@ == hex_text(n as nat, d as nat),
    {
        Cpu6502::hex(n, d)
    }

    /// Loads the program that `text` writes in hexadecimal at `at`, points
    /// the reset vector at it, lists the whole memory and resets the
    /// processor. Nothing changes if `text` does not write a program.
    pub fn load_program(&mut self, at: u16, text: &[u8]) -> (ok: bool)
        ensures
            ok == parse(text@) is Some,
            match parse(text@) {
                Some(bytes) => {
                    &&& final(self).nes@ == started(old(self).nes@, at, bytes)
                    &&& holds_listing(
                        final(self).map_asm@,
                        listing(final(self).nes@.mem, 0, 0xFFFF),
                    )
                },
                None => *final(self) == *old(self),
            },
    {
        match parse_hex_bytes(text) {
            None => false,
            Some(bytes) => {
                self.nes.load(at, &bytes);
                self.nes.write(RESET_VECTOR, low_byte_of(at));
                self.nes.write(RESET_VECTOR + 1, high_byte_of(at));

                self.map_asm = self.nes.disassemble(0x0000, 0xFFFF);

                self.nes.reset();
                true
            },
        }
    }

    /// Sets the demonstration up: its program is loaded at 0x8000 and the
    /// processor reset to start it.
    pub fn on_user_create(&mut self) -> (ok: bool)
        ensures
            ok == parse(DEMO_PROGRAM.spec_bytes()) is Some,
            match parse(DEMO_PROGRAM.spec_bytes()) {
                Some(bytes) => {
                    &&& final(self).nes@ == started(old(self).nes@, 0x8000, bytes)
                    &&& holds_listing(
                        final(self).map_asm@,
                        listing(final(self).nes@.mem, 0, 0xFFFF),
                    )
                },
                None => *final(self) == *old(self),
            },
    {
        self.load_program(0x8000, DEMO_PROGRAM.as_bytes())
    }

    /// The colour that shows the state of flag `f`.
    pub fn color_status(&self, f: u8) -> (col: Pixel)
        ensures
            col == flag_colour(self.nes@, f),
    {
        if self.nes.sr & f != 0 {
            Pixel::green()
        } else {
            Pixel::red()
        }
    }

    /// Runs one instruction to its end: the clock cycle that dispatches it
    /// or continues it, and then every cycle it has left.
    pub fn step_instruction(&mut self)
        ensures
            final(self).nes@ == finished(clock_step(old(self).nes@)),
            final(self).map_asm == old(self).map_asm,
    {
        self.nes.clock();
        while !self.nes.complete()
            invariant
                finished(self.nes@) == finished(clock_step(old(self).nes@)),
                self.map_asm == old(self).map_asm,
            decreases self.nes.cycles,
        {
            self.nes.clock();
        }
    }

    /// Serves the keys held down: `step` runs one instruction to its end,
    /// `reset` resets the processor, `irq` and `nmi` deliver an interrupt
    /// if the processor is between two instructions.
    pub fn on_user_update(&mut self, step: bool, reset: bool, irq: bool, nmi: bool)
        ensures
            final(self).nes@ == after_keys(old(self).nes@, step, reset, irq, nmi),
            final(self).map_asm == old(self).map_asm,
    {
        if step {
            self.step_instruction();
        }
        if reset {
            self.nes.reset();
        }
        if irq && self.nes.complete() {
            self.nes.irq();
        }
        if nmi && self.nes.complete() {
            self.nes.nmi();
        }
    }

    /// The line that shows an 8-bit register.
    fn register_text(name: &str, v: u8) -> (text: String)
        ensures
            text@ == register_text(name@, v),
    {
        let mut text = String::from_str(name);
        text.append(DemoOlc6502::hex(v as u32, 4).as_str());
        text.append(" [");
        text.append(decimal(v).as_str());
        text.append("]");
        text
    }

    /// The labels that show the processor, for a panel whose top left
    /// corner is at (`x`, `y`).
    pub fn draw_cpu(&self, x: i32, y: i32) -> (labels: Vec<Label>)
        requires
            x + 178 <= i32::MAX,
            y + 50 <= i32::MAX,
        ensures
            views(labels@) == cpu_panel(self.nes@, x as int, y as int),
    {
        let mut labels: Vec<Label> = Vec::new();
        labels.push(Label { x: x, y: y, text: String::from_str("STATUS: "), col: Pixel::white() });
        labels.push(
            Label {
                x: x + 64,
                y: y,
                text: String::from_str("N"),
                col: self.color_status(Flags6502::N),
            },
        );
        labels.push(
            Label {
                x: x + 80,
                y: y,
                text: String::from_str("V"),
                col: self.color_status(Flags6502::V),
            },
        );
        labels.push(
            Label {
                x: x + 96,
                y: y,
                text: String::from_str("-"),
                col: self.color_status(Flags6502::U),
            },
        );
        labels.push(
            Label {
                x: x + 112,
                y: y,
                text: String::from_str("B"),
                col: self.color_status(Flags6502::B),
            },
        );
        labels.push(
            Label {
                x: x + 128,
                y: y,
                text: String::from_str("D"),
                col: self.color_status(Flags6502::D),
            },
        );
        labels.push(
            Label {
                x: x + 144,
                y: y,
                text: String::from_str("I"),
                col: self.color_status(Flags6502::I),
            },
        );
        labels.push(
            Label {
                x: x + 160,
                y: y,
                text: String::from_str("Z"),
                col: self.color_status(Flags6502::Z),
            },
        );
        labels.push(
            Label {
                x: x + 178,
                y: y,
                text: String::from_str("C"),
                col: self.color_status(Flags6502::C),
            },
        );

        let mut s_pc = String::from_str("PC: $");
        s_pc.append(DemoOlc6502::hex(self.nes.pc as u32, 4).as_str());
        let s_a = DemoOlc6502::register_text("A: $", self.nes.a);
        let s_x = DemoOlc6502::register_text("X: $", self.nes.x);
        let s_y = DemoOlc6502::register_text("Y: $", self.nes.y);
        let mut s_stack = String::from_str("Stack P: $");
        s_stack.append(DemoOlc6502::hex(self.nes.sp as u32, 4).as_str());
        labels.push(Label { x: x, y: y + 10, text: s_pc, col: Pixel::white() });
        labels.push(Label { x: x, y: y + 20, text: s_a, col: Pixel::white() });
        labels.push(Label { x: x, y: y + 30, text: s_x, col: Pixel::white() });
        labels.push(Label { x: x, y: y + 40, text: s_y, col: Pixel::white() });
        labels.push(Label { x: x, y: y + 50, text: s_stack, col: Pixel::white() });
        assert(views(labels@) =~= cpu_panel(self.nes@, x as int, y as int));
        labels
    }

    /// One row of the memory view, and the address of the byte after it.
    fn ram_row(&self, addr: u16, n_columns: i32) -> (row: (String, u16))
        ensures
            row.0@ == ram_row(self.nes@.mem, addr, count(n_columns as int)),
            row.1 == wrap16(addr + count(n_columns as int)),
    {
        let mut s_offset = String::from_str("$");
        s_offset.append(DemoOlc6502::hex(addr as u32, 4).as_str());
        s_offset.append(":");
        let ghost head = s_offset@;
        let mut n_addr = addr;
        let mut column: i32 = 0;
        assert(s_offset@ =~= head + ram_cells(self.nes@.mem, addr, 0));
        while column < n_columns
            invariant
                0 <= column <= count(n_columns as int),
                n_addr == wrap16(addr + column),
                s_offset@ == head + ram_cells(self.nes@.mem, addr, column as nat),
            decreases n_columns - column,
        {
            s_offset.append(" ");
            s_offset.append(DemoOlc6502::hex(self.nes.read(n_addr) as u32, 2).as_str());
            n_addr = n_addr.wrapping_add(1);
            column += 1;
            assert(s_offset@ =~= head + ram_cells(self.nes@.mem, addr, column as nat));
        }
        (s_offset, n_addr)
    }

    /// The labels that show `n_rows` rows of `n_columns` bytes of memory
    /// each, from `n_addr` on, for a panel whose top left corner is at
    /// (`x`, `y`). A negative number of rows gives no row, a negative
    /// number of columns rows without bytes.
    pub fn draw_ram(&self, x: i32, y: i32, n_addr: u16, n_rows: i32, n_columns: i32) -> (labels:
        Vec<Label>)
        requires
            y + 10 * count(n_rows as int) <= i32::MAX,
        ensures
            views(labels@) == ram_panel(
                self.nes@.mem,
                x as int,
                y as int,
                n_addr,
                count(n_rows as int),
                count(n_columns as int),
            ),
    {
        let color = Pixel::rgb(0xFF, 0xFF, 0xFF);
        let mut labels: Vec<Label> = Vec::new();
        let mut n_ram_y = y;
        let mut addr = n_addr;
        let mut row: i32 = 0;
        assert(views(labels@) + ram_panel(
            self.nes@.mem,
            x as int,
            n_ram_y as int,
            addr,
            count(n_rows - row),
            count(n_columns as int),
        ) =~= ram_panel(
            self.nes@.mem,
            x as int,
            y as int,
            n_addr,
            count(n_rows as int),
            count(n_columns as int),
        ));
        while row < n_rows
            invariant
                0 <= row,
                row <= count(n_rows as int),
                color == white(),
                n_ram_y == y + 10 * row,
                y + 10 * count(n_rows as int) <= i32::MAX,
                views(labels@) + ram_panel(
                    self.nes@.mem,
                    x as int,
                    n_ram_y as int,
                    addr,
                    count(n_rows - row),
                    count(n_columns as int),
                ) == ram_panel(
                    self.nes@.mem,
                    x as int,
                    y as int,
                    n_addr,
                    count(n_rows as int),
                    count(n_columns as int),
                ),
            decreases n_rows - row,
        {
            let ghost before = views(labels@);
            let ghost rest = ram_panel(
                self.nes@.mem,
                x as int,
                n_ram_y as int,
                addr,
                count(n_rows - row),
                count(n_columns as int),
            );
            let (text, next) = self.ram_row(addr, n_columns);
            let label = Label { x: x, y: n_ram_y, text: text, col: color };
            let ghost shown = label@;
            labels.push(label);
            addr = next;
            n_ram_y += 10;
            row += 1;
            proof {
                let tail = ram_panel(
                    self.nes@.mem,
                    x as int,
                    n_ram_y as int,
                    addr,
                    count(n_rows - row),
                    count(n_columns as int),
                );
                assert(rest == seq![shown] + tail);
                assert(views(labels@) =~= before.push(shown));
                assert(before.push(shown) + tail =~= before + (seq![shown] + tail));
            }
        }
        labels
    }

    /// The labels that show the listing around the program counter in
    /// `n_lines` rows below `y`. A negative number of rows leaves only the
    /// line at the program counter, above `y`.
    pub fn draw_code(&self, x: i32, y: i32, n_lines: i32) -> (labels: Vec<Label>)
        requires
            i32::MIN <= 10 * n_lines <= i32::MAX,
            i32::MIN <= y + 10 * n_lines <= i32::MAX,
        ensures
            views(labels@) == code_panel(
                self.map_asm@,
                self.nes.pc,
                x as int,
                y as int,
                n_lines as int,
            ),
    {
        broadcast use vstd::std_specs::hash::group_hash_axioms;

        let pc = self.nes.pc;
        proof {
            lemma_half(n_lines);
        }
        let half = n_lines >> 1;
        let middle = half * 10 + y;
        let bottom = n_lines * 10 + y;
        let mut labels: Vec<Label> = Vec::new();
        let mut n_line_y = middle;
        match self.map_asm.get(&pc) {
            None => (),
            Some(s) => {
                labels.push(Label { x: x, y: n_line_y, text: s.clone(), col: Pixel::cyan() });
            },
        }
        let ghost here = views(labels@);
        assert(here =~= code_here(self.map_asm@, pc, x as int, middle as int));

        let mut offset_pc: u16 = 0;
        let ghost mut rows: int = n_lines - half;
        let ghost below = code_rows(self.map_asm@, pc, 1, true, rows, x as int, middle as int);
        assert(views(labels@) + below =~= here + below);
        while n_line_y < bottom && offset_pc < 0xFFFF
            invariant
                n_line_y + 10 * rows == bottom,
                views(labels@) + code_rows(
                    self.map_asm@,
                    pc,
                    offset_pc + 1,
                    true,
                    rows,
                    x as int,
                    n_line_y as int,
                ) == here + below,
            decreases 0xFFFF - offset_pc,
        {
            let ghost before = views(labels@);
            offset_pc += 1;
            match self.map_asm.get(&pc.wrapping_add(offset_pc)) {
                None => (),
                Some(s) => {
                    n_line_y += 10;
                    let label = Label { x: x, y: n_line_y, text: s.clone(), col: Pixel::white() };
                    let ghost shown = label@;
                    labels.push(label);
                    proof {
                        rows = rows - 1;
                        let tail = code_rows(
                            self.map_asm@,
                            pc,
                            offset_pc + 1,
                            true,
                            rows,
                            x as int,
                            n_line_y as int,
                        );
                        assert(views(labels@) =~= before.push(shown));
                        assert(before.push(shown) + tail =~= before + (seq![shown] + tail));
                    }
                },
            }
        }
        assert(views(labels@) =~= here + below);

        offset_pc = 0;
        n_line_y = middle;
        let ghost mut rows: int = half as int;
        let ghost above = code_rows(self.map_asm@, pc, 1, false, rows, x as int, middle as int);
        assert(views(labels@) + above =~= here + below + above);
        while n_line_y > y && offset_pc < 0xFFFF
            invariant
                n_line_y - 10 * rows == y,
                views(labels@) + code_rows(
                    self.map_asm@,
                    pc,
                    offset_pc + 1,
                    false,
                    rows,
                    x as int,
                    n_line_y as int,
                ) == here + below + above,
            decreases 0xFFFF - offset_pc,
        {
            let ghost before = views(labels@);
            offset_pc += 1;
            if let Some(s) = self.map_asm.get(&pc.wrapping_sub(offset_pc)) {
                n_line_y -= 10;
                let label = Label { x: x, y: n_line_y, text: s.clone(), col: Pixel::white() };
                let ghost shown = label@;
                labels.push(label);
                proof {
                    rows = rows - 1;
                    let tail = code_rows(
                        self.map_asm@,
                        pc,
                        offset_pc + 1,
                        false,
                        rows,
                        x as int,
                        n_line_y as int,
                    );
                    assert(views(labels@) =~= before.push(shown));
                    assert(before.push(shown) + tail =~= before + (seq![shown] + tail));
                }
            }
        }
        assert(views(labels@) =~= here + below + above);
        labels
    }
}

/// Shifting right by one bit halves a number, rounding down.
proof fn lemma_half(n: i32)
    by (bit_vector)
    ensures
        n >> 1 == n / 2,
{
}

} // verus!
