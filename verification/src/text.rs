//! Text helpers: comparison, and reading and writing numbers in decimal.

use vstd::prelude::*;
use vstd::string::*;
use vstd::utf8::{encode_utf8, encode_utf8_decode_utf8};

verus! {

/// Whether two strings hold the same characters, found by comparing their
/// bytes: two texts are written with the same bytes exactly where they are
/// the same text.
pub fn text_eq(a: &str, b: &str) -> (same: bool)
    ensures
        same == (a@ == b@),
{
    let x = a.as_bytes();
    let y = b.as_bytes();
    proof {
        encode_utf8_decode_utf8(a@);
        encode_utf8_decode_utf8(b@);
    }
    if x.len() != y.len() {
        return false;
    }
    let mut i: usize = 0;
    while i < x.len()
        invariant
            i <= x.len(),
            x.len() == y.len(),
            x@ == encode_utf8(a@),
            y@ == encode_utf8(b@),
            forall|j: int| 0 <= j < i ==> x@[j] == y@[j],
        decreases x.len() - i,
    {
        if x[i] != y[i] {
            return false;
        }
        i += 1;
    }
    assert(x@ =~= y@);
    true
}

/// The characters of a text that may be absent.
pub open spec fn text_view(text: Option<String>) -> Option<Seq<char>> {
    match text {
        Some(t) => Some(t@),
        None => None,
    }
}

/// The characters of each of a sequence of texts.
pub open spec fn text_views(texts: Seq<String>) -> Seq<Seq<char>> {
    Seq::new(texts.len(), |i: int| texts[i]@)
}

/// Whether `c` is one of the ten decimal digits.
pub open spec fn is_digit(c: char) -> bool {
    '0' <= c && c <= '9'
}

/// The number a decimal digit stands for.
pub open spec fn digit_of(c: char) -> nat {
    (c as u32 - '0' as u32) as nat
}

/// Whether a text is made of decimal digits only.
pub open spec fn all_digits(text: Seq<char>) -> bool {
    forall|i: int| 0 <= i < text.len() ==> is_digit(#[trigger] text[i])
}

/// The number that a run of decimal digits writes; zero for the empty run.
pub open spec fn digits_value(digits: Seq<char>) -> nat
    decreases digits.len(),
{
    if digits.len() == 0 {
        0
    } else {
        digits_value(digits.drop_last()) * 10 + digit_of(digits.last())
    }
}

/// A text without the one `+` that may stand in front of a number.
pub open spec fn unsigned_part(text: Seq<char>) -> Seq<char> {
    if text.len() > 0 && text[0] == '+' {
        text.drop_first()
    } else {
        text
    }
}

/// Whether a text writes a number in decimal: an optional `+`, then one or
/// more digits and nothing else.
pub open spec fn is_number(text: Seq<char>) -> bool {
    unsigned_part(text).len() > 0 && all_digits(unsigned_part(text))
}

/// The number that a text writes in decimal, if it writes one that is at
/// most `max`.
pub open spec fn decimal(text: Seq<char>, max: nat) -> Option<nat> {
    if is_number(text) && digits_value(unsigned_part(text)) <= max {
        Some(digits_value(unsigned_part(text)))
    } else {
        None
    }
}

/// A run of digits writes at least what any of its prefixes writes.
pub proof fn lemma_prefix_value(digits: Seq<char>, n: int)
    requires
        0 <= n <= digits.len(),
    ensures
        digits_value(digits.take(n)) <= digits_value(digits),
    decreases digits.len(),
{
    if n == digits.len() {
        assert(digits.take(n) =~= digits);
    } else {
        lemma_prefix_value(digits.drop_last(), n);
        assert(digits.drop_last().take(n) =~= digits.take(n));
    }
}

/// Reads a decimal number that is at most `max`.
pub fn parse_decimal(text: &str, max: u64) -> (parsed: Option<u64>)
    ensures
        match parsed {
            Some(n) => decimal(text@, max as nat) == Some(n as nat),
            None => decimal(text@, max as nat) is None,
        },
{
    let ghost start: int = if text@.len() > 0 && text@[0] == '+' {
        1
    } else {
        0
    };
    let ghost digits = unsigned_part(text@);
    let ghost mut done: int = 0;
    let mut value: u64 = 0;
    let mut first: bool = true;
    let mut any: bool = false;
    for c in it: text.chars()
        invariant
            it.seq() == text@,
            digits == unsigned_part(text@),
            digits == text@.skip(start),
            0 <= start <= text@.len(),
            start <= 1,
            start == 1 ==> text@[0] == '+',
            start == 0 ==> text@.len() == 0 || text@[0] != '+',
            first == (it.index() == 0),
            done == (if it.index() >= start { it.index() - start } else { 0 }),
            any == (done > 0),
            all_digits(digits.take(done)),
            value == digits_value(digits.take(done)),
            value <= max,
    {
        if first && c == '+' {
            first = false;
        } else {
            first = false;
            if !('0' <= c && c <= '9') {
                return None;
            }
            let d: u64 = (c as u32 - '0' as u32) as u64;
            proof {
                lemma_prefix_value(digits, done + 1);
                assert(digits.take(done + 1).drop_last() =~= digits.take(done));
            }
            if value > max / 10 || (value == max / 10 && d > max % 10) {
                return None;
            }
            value = value * 10 + d;
            any = true;
            proof {
                done = done + 1;
            }
        }
    }
    proof {
        assert(digits.take(done) =~= digits);
    }
    if any {
        Some(value)
    } else {
        None
    }
}

/// The value of a small count written as text, under the feeds' lenient
/// reading: zero for an empty text, for one that is no number, and for a
/// number that does not fit in eight bits.
pub open spec fn u8_or_zero(text: Seq<char>) -> u8 {
    match decimal(text, u8::MAX as nat) {
        Some(n) => n as u8,
        None => 0,
    }
}

/// Reads a small count leniently: what the text writes, or zero.
pub fn parse_u8_or_zero(text: &str) -> (value: u8)
    ensures
        value == u8_or_zero(text@),
{
    match parse_decimal(text, u8::MAX as u64) {
        Some(n) => n as u8,
        None => 0,
    }
}

/// The value of a count written as text, under the feeds' lenient reading:
/// zero for an empty text, for one that is no number, and for a number that
/// does not fit in 64 bits.
pub open spec fn count_or_zero(text: Seq<char>) -> u64 {
    match decimal(text, u64::MAX as nat) {
        Some(n) => n as u64,
        None => 0,
    }
}

/// Reads a count leniently: what the text writes, or zero.
pub fn parse_count_or_zero(text: &str) -> (value: u64)
    ensures
        value == count_or_zero(text@),
{
    match parse_decimal(text, u64::MAX) {
        Some(n) => n,
        None => 0,
    }
}

/// A text that is empty, or that is no number, reads as zero.
pub proof fn lemma_unreadable_reads_zero(text: Seq<char>)
    requires
        text.len() == 0 || !is_number(text),
    ensures
        u8_or_zero(text) == 0,
        count_or_zero(text) == 0,
{
}

/// A text with a character that is neither a digit nor a `+` in front is no
/// number.
pub proof fn lemma_stray_character(text: Seq<char>, at: int)
    requires
        0 <= at < text.len(),
        !is_digit(text[at]),
        at > 0 || text[0] != '+',
    ensures
        !is_number(text),
{
    let digits = unsigned_part(text);
    if text[0] == '+' {
        assert(digits[at - 1] == text[at]);
    }
}

/// The character that writes the digit `d`.
pub open spec fn digit_char(d: nat) -> char {
    if d == 0 {
        '0'
    } else if d == 1 {
        '1'
    } else if d == 2 {
        '2'
    } else if d == 3 {
        '3'
    } else if d == 4 {
        '4'
    } else if d == 5 {
        '5'
    } else if d == 6 {
        '6'
    } else if d == 7 {
        '7'
    } else if d == 8 {
        '8'
    } else {
        '9'
    }
}

/// A number in decimal, without leading zeros.
pub open spec fn decimal_text(n: nat) -> Seq<char>
    decreases n,
{
    if n < 10 {
        seq![digit_char(n)]
    } else {
        decimal_text(n / 10).push(digit_char(n % 10))
    }
}

/// The one-character text of a digit.
fn digit_str(d: u8) -> (text: &'static str)
    requires
        d < 10,
    ensures
        text@ == seq![digit_char(d as nat)],
{
    proof {
        reveal_strlit("0");
        reveal_strlit("1");
        reveal_strlit("2");
        reveal_strlit("3");
        reveal_strlit("4");
        reveal_strlit("5");
        reveal_strlit("6");
        reveal_strlit("7");
        reveal_strlit("8");
        reveal_strlit("9");
    }
    match d {
        0 => "0",
        1 => "1",
        2 => "2",
        3 => "3",
        4 => "4",
        5 => "5",
        6 => "6",
        7 => "7",
        8 => "8",
        _ => "9",
    }
}

/// Writes a small number in decimal.
pub fn number_text(n: u8) -> (text: String)
    ensures
        text@ == decimal_text(n as nat),
{
    let mut text = String::new();
    if n >= 100 {
        text.append(digit_str(n / 100));
    }
    if n >= 10 {
        text.append(digit_str((n / 10) % 10));
    }
    text.append(digit_str(n % 10));
    proof {
        reveal_with_fuel(decimal_text, 3);
    }
    text
}

/// A number written in decimal reads back as itself: the text is made of
/// digits only, at least one, and they write the number.
pub proof fn lemma_decimal_text_reads_back(n: nat)
    ensures
        decimal_text(n).len() > 0,
        all_digits(decimal_text(n)),
        unsigned_part(decimal_text(n)) == decimal_text(n),
        digits_value(decimal_text(n)) == n,
        forall|max: nat| n <= max ==> #[trigger] decimal(decimal_text(n), max) == Some(n),
    decreases n,
{
    let text = decimal_text(n);
    if n < 10 {
        assert(digits_value(text.drop_last()) == 0);
    } else {
        let front = decimal_text(n / 10);
        lemma_decimal_text_reads_back(n / 10);
        assert(text.drop_last() =~= front);
    }
}

} // verus!
