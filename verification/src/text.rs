//! Small text rules: what counts as blank, and how a number of seconds is
//! read from a setting.

use vstd::prelude::*;
use crate::model::text_view;

verus! {

/// Whether a character is white space: the characters that carry the Unicode
/// property `White_Space`.
pub open spec fn is_space(c: char) -> bool {
    let n = c as u32;
    ||| 0x09 <= n <= 0x0D
    ||| n == 0x20
    ||| n == 0x85
    ||| n == 0xA0
    ||| n == 0x1680
    ||| 0x2000 <= n <= 0x200A
    ||| n == 0x2028
    ||| n == 0x2029
    ||| n == 0x202F
    ||| n == 0x205F
    ||| n == 0x3000
}

/// Whether a text is empty or holds white space only.
pub open spec fn blank(text: Seq<char>) -> bool {
    forall|i: int| 0 <= i < text.len() ==> is_space(#[trigger] text[i])
}

/// Tells whether a character is white space.
pub fn char_is_space(c: char) -> (r: bool)
    ensures
        r == is_space(c),
{
    let n: u32 = c as u32;
    (0x09 <= n && n <= 0x0D) || n == 0x20 || n == 0x85 || n == 0xA0 || n == 0x1680 || (0x2000 <= n
        && n <= 0x200A) || n == 0x2028 || n == 0x2029 || n == 0x202F || n == 0x205F || n == 0x3000
}

/// Tells whether a text is empty or holds white space only.
pub fn is_blank(text: &str) -> (r: bool)
    ensures
        r == blank(text@),
{
    for c in it: text.chars()
        invariant
            it.seq() == text@,
            forall|i: int| 0 <= i < it.index() ==> is_space(#[trigger] text@[i]),
    {
        if !char_is_space(c) {
            return false;
        }
    }
    true
}

/// The text itself where it is not blank.
pub open spec fn unless_blank(text: Option<Seq<char>>) -> Option<Seq<char>> {
    match text {
        Some(t) if !blank(t) => Some(t),
        _ => None,
    }
}

/// Keeps an optional text unless it is blank.
pub fn keep_unless_blank(text: Option<String>) -> (r: Option<String>)
    ensures
        text_view(r) == unless_blank(text_view(text)),
{
    match text {
        Some(t) => {
            if is_blank(t.as_str()) {
                None
            } else {
                Some(t)
            }
        },
        None => None,
    }
}

/// Whether a character is one of the ten decimal digits.
pub open spec fn is_digit(c: char) -> bool {
    0x30 <= c as u32 <= 0x39
}

/// The number that a run of decimal digits writes. A character that is no
/// digit counts as zero.
pub open spec fn digits_value(digits: Seq<char>) -> nat
    decreases digits.len(),
{
    if digits.len() == 0 {
        0
    } else {
        let last = if is_digit(digits.last()) {
            (digits.last() as u32 - 0x30) as nat
        } else {
            0
        };
        10 * digits_value(digits.drop_last()) + last
    }
}

/// A text without the plus sign that may lead it.
pub open spec fn unsigned(text: Seq<char>) -> Seq<char> {
    if text.len() > 0 && text[0] == '+' {
        text.drop_first()
    } else {
        text
    }
}

/// The number of seconds that a text writes: an optional plus sign, then one
/// or more decimal digits and nothing else, with a value that fits 64 bits.
pub open spec fn decimal(text: Seq<char>) -> Option<u64> {
    let digits = unsigned(text);
    if digits.len() > 0 && (forall|i: int| 0 <= i < digits.len() ==> is_digit(#[trigger] digits[i]))
        && digits_value(digits) <= u64::MAX {
        Some(digits_value(digits) as u64)
    } else {
        None
    }
}

/// A run of digits writes at least what any of its beginnings writes.
pub proof fn lemma_digits_value_grows(digits: Seq<char>, n: int)
    requires
        0 <= n <= digits.len(),
    ensures
        digits_value(digits.take(n)) <= digits_value(digits),
    decreases digits.len() - n,
{
    if n == digits.len() {
        assert(digits.take(n) =~= digits);
    } else {
        lemma_digits_value_grows(digits.drop_last(), n);
        assert(digits.drop_last().take(n) =~= digits.take(n));
    }
}

/// Reads a number of seconds from a text.
pub fn parse_decimal(text: &str) -> (r: Option<u64>)
    ensures
        r == decimal(text@),
{
    let mut value: u64 = 0;
    let mut first = true;
    let mut signed = false;
    let mut any = false;
    for c in it: text.chars()
        invariant
            it.seq() == text@,
            first == (it.index() == 0),
            signed == (it.index() >= 1 && text@[0] == '+'),
            any == (it.index() > (if signed { 1int } else { 0int })),
            forall|i: int|
                (if signed { 1int } else { 0int }) <= i < it.index() ==> is_digit(
                    #[trigger] text@[i],
                ),
            value == digits_value(
                text@.subrange(
                    if signed { 1int } else { 0int },
                    if first { 0int } else { it.index() as int },
                ),
            ),
    {
        let ghost k = it.index() as int;
        if first && c == '+' {
            signed = true;
            assert(text@.subrange(1, 1) =~= Seq::<char>::empty());
        } else {
            let n: u32 = c as u32;
            let ghost start = if signed { 1int } else { 0int };
            let ghost digits = unsigned(text@);
            assert(digits =~= text@.subrange(start, text@.len() as int));
            assert(digits[k - start] == c);
            if n < 0x30 || n > 0x39 {
                return None;
            }
            let d: u64 = (n - 0x30) as u64;
            let ghost seen = text@.subrange(start, k + 1);
            assert(seen.drop_last() =~= text@.subrange(start, k));
            assert(seen.last() == c);
            assert(seen =~= digits.take(k + 1 - start));
            if value > (u64::MAX - d) / 10 {
                proof {
                    lemma_digits_value_grows(digits, k + 1 - start);
                }
                return None;
            }
            value = value * 10 + d;
            any = true;
        }
        first = false;
    }
    proof {
        let start = if signed { 1int } else { 0int };
        assert(unsigned(text@) =~= text@.subrange(start, text@.len() as int));
    }
    if any {
        Some(value)
    } else {
        None
    }
}

/// The number of seconds that a setting gives: none where the setting is
/// absent or does not write one.
pub open spec fn seconds_of(setting: Option<&str>) -> Option<u64> {
    match setting {
        Some(text) => decimal(text@),
        None => None,
    }
}

/// Reads a number of seconds from a setting that may be absent.
pub fn parse_seconds(setting: Option<&str>) -> (r: Option<u64>)
    ensures
        r == seconds_of(setting),
{
    match setting {
        Some(text) => parse_decimal(text),
        None => None,
    }
}

} // verus!
