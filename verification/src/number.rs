//! Decimal text of a signed 32-bit integer.

use vstd::prelude::*;

verus! {

/// Whether `c` is one of the ten ASCII digits.
pub open spec fn is_digit(c: char) -> bool {
    '0' <= c && c <= '9'
}

/// The value of an ASCII digit.
pub open spec fn digit_value(c: char) -> int {
    c as int - '0' as int
}

/// Whether every character of `s` is an ASCII digit.
pub open spec fn all_digits(s: Seq<char>) -> bool {
    forall|i: int| 0 <= i < s.len() ==> is_digit(#[trigger] s[i])
}

/// The number that a sequence of digits denotes in base ten; 0 for the empty sequence.
pub open spec fn digits_value(s: Seq<char>) -> int
    decreases s.len(),
{
    if s.len() == 0 {
        0
    } else {
        10 * digits_value(s.drop_last()) + digit_value(s.last())
    }
}

/// Whether `s` starts with a sign.
pub open spec fn has_sign(s: Seq<char>) -> bool {
    s.len() > 0 && (s[0] == '+' || s[0] == '-')
}

/// `s` without its sign, if it has one.
pub open spec fn unsigned_part(s: Seq<char>) -> Seq<char> {
    if has_sign(s) {
        s.skip(1)
    } else {
        s
    }
}

/// Whether `s` is an optional sign followed by one or more ASCII digits and nothing else.
pub open spec fn is_decimal(s: Seq<char>) -> bool {
    unsigned_part(s).len() > 0 && all_digits(unsigned_part(s))
}

/// The integer that the decimal text `s` denotes.
pub open spec fn decimal_value(s: Seq<char>) -> int {
    if s.len() > 0 && s[0] == '-' {
        -digits_value(unsigned_part(s))
    } else {
        digits_value(unsigned_part(s))
    }
}

/// The `i32` that `s` denotes: `s` is decimal text and its value is in range.
pub open spec fn spec_parse_i32(s: Seq<char>) -> Option<i32> {
    if is_decimal(s) && i32::MIN <= decimal_value(s) <= i32::MAX {
        Some(decimal_value(s) as i32)
    } else {
        None
    }
}

/// A sequence of digits denotes no less than any of its prefixes, and no less than 0.
pub proof fn lemma_digits_value_monotonic(s: Seq<char>, n: int)
    requires
        all_digits(s),
        0 <= n <= s.len(),
    ensures
        0 <= digits_value(s.take(n)) <= digits_value(s),
    decreases s.len(),
{
    if n == s.len() {
        assert(s.take(n) == s);
        if s.len() > 0 {
            lemma_digits_value_monotonic(s.drop_last(), n - 1);
        }
    } else {
        lemma_digits_value_monotonic(s.drop_last(), n);
        assert(s.drop_last().take(n) == s.take(n));
    }
}

/// Reads `text` as a signed 32-bit integer in base ten: an optional `+` or `-`,
/// then one or more ASCII digits. Anything else, and any value out of range, gives `None`.
pub fn parse_i32(text: &str) -> (r: Option<i32>)
    ensures
        r == spec_parse_i32(text@),
{
    let mut negative: bool = false;
    let mut signed: bool = false;
    let mut seen_digit: bool = false;
    // The value of the digits read so far; it is given up once it is beyond
    // the magnitude of every `i32`.
    let mut magnitude: i64 = 0;
    let ghost mut digits: int = 0;
    for c in it: text.chars()
        invariant
            it.seq() == text@,
            signed == has_sign(text@.take(it.index() as int)),
            signed ==> has_sign(text@),
            negative == (it.index() > 0 && text@[0] == '-'),
            digits + (if signed { 1int } else { 0int }) == it.index(),
            seen_digit == (digits > 0),
            all_digits(unsigned_part(text@.take(it.index() as int))),
            magnitude == digits_value(unsigned_part(text@.take(it.index() as int))),
            0 <= magnitude <= 0x8000_0000,
    {
        let ghost before = unsigned_part(text@.take(it.index() as int));
        let ghost after = unsigned_part(text@.take(it.index() + 1));
        if !signed && !seen_digit && (c == '+' || c == '-') {
            signed = true;
            negative = c == '-';
        } else {
            // `c` is the next character of the unsigned part.
            assert(after.drop_last() =~= before);
            assert(unsigned_part(text@).take(digits + 1) =~= after);
            if !(c >= '0' && c <= '9') {
                assert(unsigned_part(text@)[digits] == c);
                return None;
            }
            let digit: i64 = (c as u32 - '0' as u32) as i64;
            magnitude = magnitude * 10 + digit;
            seen_digit = true;
            proof {
                digits = digits + 1;
            }
            assert forall|i: int| 0 <= i < after.len() implies is_digit(#[trigger] after[i]) by {
                if i < before.len() {
                    assert(after[i] == before[i]);
                }
            }
            if magnitude > 0x8000_0000 {
                // More digits only add to the value.
                proof {
                    if all_digits(unsigned_part(text@)) {
                        lemma_digits_value_monotonic(unsigned_part(text@), digits);
                    }
                }
                return None;
            }
        }
    }
    assert(text@.take(text@.len() as int) == text@);
    if !seen_digit {
        None
    } else if negative {
        Some((-magnitude) as i32)
    } else if magnitude > 0x7fff_ffff {
        None
    } else {
        Some(magnitude as i32)
    }
}

} // verus!
