use vstd::prelude::*;
use crate::cpu_6502::Cpu6502;
use crate::state::wrap16;

verus! {

/// The value of a hexadecimal digit written as the ASCII character `c`,
/// in either case.
pub open spec fn digit_value(c: u8) -> Option<int> {
    if 0x30 <= c <= 0x39 {
        Some(c - 0x30)
    } else if 0x41 <= c <= 0x46 {
        Some(c - 0x41 + 10)
    } else if 0x61 <= c <= 0x66 {
        Some(c - 0x61 + 10)
    } else {
        None
    }
}

/// Whether every character of `digits` is a hexadecimal digit.
pub open spec fn all_digits(digits: Seq<u8>) -> bool {
    forall|i: int| 0 <= i < digits.len() ==> (#[trigger] digit_value(digits[i])) is Some
}

/// The number that the hexadecimal digits `digits` write.
pub open spec fn number(digits: Seq<u8>) -> nat
    decreases digits.len(),
{
    if digits.len() == 0 {
        0
    } else {
        let last = match digit_value(digits.last()) {
            Some(v) => v as nat,
            None => 0,
        };
        number(digits.drop_last()) * 16 + last
    }
}

/// The digits of a word: the word without the plus sign that may lead it.
pub open spec fn digits_of(word: Seq<u8>) -> Seq<u8> {
    if word.len() > 0 && word[0] == 0x2B {
        word.drop_first()
    } else {
        word
    }
}

/// The byte that a word writes: one or more hexadecimal digits, after an
/// optional plus sign, whose value fits in a byte.
pub open spec fn word_value(word: Seq<u8>) -> Option<u8> {
    let digits = digits_of(word);
    if digits.len() > 0 && all_digits(digits) && number(digits) <= 0xFF {
        Some(number(digits) as u8)
    } else {
        None
    }
}

/// Where the word that starts at `from` ends: at the first space, or at
/// the end of the text.
pub open spec fn word_end(text: Seq<u8>, from: int) -> int
    decreases text.len() - from,
{
    if from >= text.len() || text[from] == 0x20 {
        from
    } else {
        word_end(text, from + 1)
    }
}

/// The bytes written by the words of `text` from `from` on. Words are
/// parted by single spaces; if any word writes no byte, neither does the
/// text.
pub open spec fn parse_from(text: Seq<u8>, from: int) -> Option<Seq<u8>>
    decreases text.len() - from,
{
    let end = word_end(text, from);
    if 0 <= from <= end <= text.len() {
        match word_value(text.subrange(from, end)) {
            None => None,
            Some(v) => if end >= text.len() {
                Some(seq![v])
            } else {
                match parse_from(text, end + 1) {
                    None => None,
                    Some(rest) => Some(seq![v] + rest),
                }
            },
        }
    } else {
        None
    }
}

/// The bytes that `text` writes in hexadecimal.
pub open spec fn parse(text: Seq<u8>) -> Option<Seq<u8>> {
    parse_from(text, 0)
}

/// Memory after `bytes` have been stored one after the other from `at`
/// on, going round to address zero after the last address.
pub open spec fn loaded(mem: Seq<u8>, at: u16, bytes: Seq<u8>) -> Seq<u8>
    decreases bytes.len(),
{
    if bytes.len() == 0 {
        mem
    } else {
        loaded(mem.update(at as int, bytes[0]), wrap16(at + 1), bytes.drop_first())
    }
}

/// A word ends at or after its start, within the text, and at a space
/// unless the text ends there; no space lies before its end.
pub proof fn lemma_word_end(text: Seq<u8>, from: int)
    requires
        0 <= from <= text.len(),
    ensures
        from <= word_end(text, from) <= text.len(),
        word_end(text, from) < text.len() ==> text[word_end(text, from)] == 0x20,
        forall|i: int| from <= i < word_end(text, from) ==> text[i] != 0x20,
    decreases text.len() - from,
{
    if from < text.len() && text[from] != 0x20 {
        lemma_word_end(text, from + 1);
    }
}

/// More digits never write a smaller number.
pub proof fn lemma_number_grows(digits: Seq<u8>, n: int)
    requires
        0 <= n <= digits.len(),
    ensures
        number(digits.subrange(0, n)) <= number(digits),
    decreases digits.len() - n,
{
    if n < digits.len() {
        lemma_number_grows(digits.drop_last(), n);
        assert(digits.drop_last().subrange(0, n) =~= digits.subrange(0, n));
    } else {
        assert(digits.subrange(0, n) =~= digits);
    }
}

/// The value of the hexadecimal digit `c`, if it is one.
pub fn digit(c: u8) -> (value: Option<u8>)
    ensures
        match value {
            Some(v) => digit_value(c) == Some(v as int),
            None => digit_value(c) is None,
        },
{
    if 0x30 <= c && c <= 0x39 {
        Some(c - 0x30)
    } else if 0x41 <= c && c <= 0x46 {
        Some(c - 0x41 + 10)
    } else if 0x61 <= c && c <= 0x66 {
        Some(c - 0x61 + 10)
    } else {
        None
    }
}

/// The byte that the word `text[from..to]` writes, if it writes one.
pub fn parse_word(text: &[u8], from: usize, to: usize) -> (value: Option<u8>)
    requires
        from <= to <= text@.len(),
    ensures
        value == word_value(text@.subrange(from as int, to as int)),
{
    let ghost word = text@.subrange(from as int, to as int);
    let mut i = from;
    if i < to && text[i] == 0x2B {
        i += 1;
    }
    let first = i;
    let ghost digits = text@.subrange(first as int, to as int);
    assert(digits =~= digits_of(word));
    if i == to {
        return None;
    }
    let mut value: u8 = 0;
    assert(digits.subrange(0, 0) =~= Seq::<u8>::empty());
    while i < to
        invariant
            from <= first <= i <= to <= text@.len(),
            word == text@.subrange(from as int, to as int),
            digits == text@.subrange(first as int, to as int),
            digits == digits_of(word),
            all_digits(digits.subrange(0, i - first)),
            value == number(digits.subrange(0, i - first)),
        decreases to - i,
    {
        let ghost seen = digits.subrange(0, i - first);
        let ghost more = digits.subrange(0, i - first + 1);
        assert(more.drop_last() =~= seen);
        assert(more.last() == text@[i as int]);
        match digit(text[i]) {
            None => {
                assert(digits[i - first] == text@[i as int]);
                assert(digit_value(digits[i - first]) is None);
                return None;
            },
            Some(d) => {
                if value > 15 {
                    proof {
                        assert(number(more) == number(seen) * 16 + d);
                        lemma_number_grows(digits, i - first + 1);
                    }
                    return None;
                }
                value = value * 16 + d;
                assert forall|k: int| 0 <= k < more.len() implies (#[trigger] digit_value(
                    more[k],
                )) is Some by {
                    if k < seen.len() {
                        assert(more[k] == seen[k]);
                    }
                }
            },
        }
        i += 1;
    }
    assert(digits.subrange(0, to - first) =~= digits);
    Some(value)
}

/// The bytes that `text` writes in hexadecimal, as words parted by single
/// spaces, or nothing if a word is not a byte in hexadecimal.
pub fn parse_hex_bytes(text: &[u8]) -> (bytes: Option<Vec<u8>>)
    ensures
        match bytes {
            Some(v) => parse(text@) == Some(v@),
            None => parse(text@) is None,
        },
{
    let mut out: Vec<u8> = Vec::new();
    let mut from: usize = 0;
    loop
        invariant
            from <= text@.len(),
            match parse_from(text@, from as int) {
                None => parse(text@) is None,
                Some(rest) => parse(text@) == Some(out@ + rest),
            },
        decreases text@.len() - from,
    {
        let mut end = from;
        while end < text.len() && text[end] != 0x20
            invariant
                from <= end <= text@.len(),
                word_end(text@, end as int) == word_end(text@, from as int),
            decreases text@.len() - end,
        {
            end += 1;
        }
        match parse_word(text, from, end) {
            None => {
                return None;
            },
            Some(v) => {
                let ghost before = out@;
                out.push(v);
                if end >= text.len() {
                    assert(before + seq![v] =~= out@);
                    return Some(out);
                }
                proof {
                    match parse_from(text@, end + 1) {
                        None => {},
                        Some(rest) => {
                            assert(before + (seq![v] + rest) =~= out@ + rest);
                        },
                    }
                }
                from = end + 1;
            },
        }
    }
}

impl Cpu6502 {
    /// Stores `bytes` in memory one after the other, from `at` on.
    pub fn load(&mut self, at: u16, bytes: &Vec<u8>)
        ensures
            final(self)@.mem == loaded(old(self)@.mem, at, bytes@),
            final(self)@ == (crate::state::CpuState { mem: final(self)@.mem, ..old(self)@ }),
    {
        let mut n_offset = at;
        let mut i: usize = 0;
        assert(bytes@.subrange(0, bytes@.len() as int) =~= bytes@);
        while i < bytes.len()
            invariant
                i <= bytes@.len(),
                loaded(self@.mem, n_offset, bytes@.subrange(i as int, bytes@.len() as int))
                    == loaded(old(self)@.mem, at, bytes@),
                self@ == (crate::state::CpuState { mem: self@.mem, ..old(self)@ }),
            decreases bytes@.len() - i,
        {
            assert(bytes@.subrange(i as int, bytes@.len() as int).drop_first() =~= bytes@.subrange(
                i + 1,
                bytes@.len() as int,
            ));
            self.write(n_offset, bytes[i]);
            n_offset = n_offset.wrapping_add(1);
            i += 1;
        }
    }
}

/// Bytes loaded where they do not run past the last address lie in memory
/// in their order from `at` on, and nothing else changes.
pub proof fn lemma_loaded(mem: Seq<u8>, at: u16, bytes: Seq<u8>, addr: int)
    requires
        mem.len() == 0x10000,
        at + bytes.len() <= 0x10000,
        0 <= addr < 0x10000,
    ensures
        loaded(mem, at, bytes).len() == 0x10000,
        loaded(mem, at, bytes)[addr] == (if at <= addr < at + bytes.len() {
            bytes[addr - at]
        } else {
            mem[addr]
        }),
    decreases bytes.len(),
{
    if bytes.len() > 0 {
        let first = mem.update(at as int, bytes[0]);
        let rest = bytes.drop_first();
        if rest.len() == 0 {
            assert(loaded(first, wrap16(at + 1), rest) == first);
        } else {
            assert(wrap16(at + 1) == at + 1);
            lemma_loaded(first, wrap16(at + 1), rest, addr);
            if at < addr < at + bytes.len() {
                assert(rest[addr - (at + 1)] == bytes[addr - at]);
            }
        }
    }
}

} // verus!
