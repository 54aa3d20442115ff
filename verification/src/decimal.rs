//! Unsigned integers as decimal text, and back.
//!
//! Amounts travel through the environment as decimal strings. This module says
//! what the text of a number is, which texts are numbers, and gives executable
//! conversions that are proved against both.

use vstd::prelude::*;
use vstd::string::*;
use vstd::utf8::is_ascii_chars;

verus! {

/// The character of a decimal digit.
pub open spec fn digit_char(d: nat) -> char
    recommends
        d < 10,
{
    if d == 0 {
        '0'
    } else if d == 1 {
        '1'
    } else if d == 2 {
        '2'
    } else if d == 3 {
        '3'
    } else if d == 4 {
        '4'
    } else if d == 5 {
        '5'
    } else if d == 6 {
        '6'
    } else if d == 7 {
        '7'
    } else if d == 8 {
        '8'
    } else {
        '9'
    }
}

/// The digit that a character stands for, if it is one of `0` to `9`.
pub open spec fn digit_value(c: char) -> Option<nat> {
    if c == '0' {
        Some(0)
    } else if c == '1' {
        Some(1)
    } else if c == '2' {
        Some(2)
    } else if c == '3' {
        Some(3)
    } else if c == '4' {
        Some(4)
    } else if c == '5' {
        Some(5)
    } else if c == '6' {
        Some(6)
    } else if c == '7' {
        Some(7)
    } else if c == '8' {
        Some(8)
    } else if c == '9' {
        Some(9)
    } else {
        None
    }
}

/// The decimal text of a number: no sign, no leading zero but for zero itself.
pub open spec fn decimal(n: nat) -> Seq<char>
    decreases n,
{
    if n < 10 {
        seq![digit_char(n)]
    } else {
        decimal(n / 10).push(digit_char(n % 10))
    }
}

/// The number that a run of digits denotes: `None` for the empty run and for
/// one that holds anything but digits.
pub open spec fn digits_value(s: Seq<char>) -> Option<nat>
    decreases s.len(),
{
    if s.len() == 0 {
        None
    } else {
        match digit_value(s.last()) {
            None => None,
            Some(d) => if s.len() == 1 {
                Some(d)
            } else {
                match digits_value(s.drop_last()) {
                    None => None,
                    Some(v) => Some(10 * v + d),
                }
            },
        }
    }
}

/// The number that a text denotes: an optional `+`, then at least one digit,
/// and nothing else. Leading zeros are allowed.
pub open spec fn parse_unsigned(s: Seq<char>) -> Option<nat> {
    if s.len() > 0 && s[0] == '+' {
        digits_value(s.subrange(1, s.len() as int))
    } else {
        digits_value(s)
    }
}

/// What reading a text as a `u128` gives: its number, where it denotes one
/// that fits.
pub open spec fn parse_u128_spec(s: Seq<char>) -> Option<u128> {
    match parse_unsigned(s) {
        Some(v) => if v <= u128::MAX {
            Some(v as u128)
        } else {
            None
        },
        None => None,
    }
}

/// A run of digits extended by one more digit denotes ten times the number
/// plus the digit; extended by anything else, or being no number itself, the
/// longer run denotes nothing.
pub proof fn lemma_digits_value_push(s: Seq<char>, c: char)
    requires
        s.len() > 0,
    ensures
        digits_value(s.push(c)) == match (digits_value(s), digit_value(c)) {
            (Some(v), Some(d)) => Some(10 * v + d),
            _ => None,
        },
{
    assert(s.push(c).drop_last() == s);
    assert(s.push(c).last() == c);
}

/// A run of digits denotes no less than any of its non-empty prefixes.
pub proof fn lemma_digits_value_grows(s: Seq<char>, k: int)
    requires
        0 < k <= s.len(),
        digits_value(s) is Some,
    ensures
        digits_value(s.subrange(0, k)) is Some,
        digits_value(s.subrange(0, k))->Some_0 <= digits_value(s)->Some_0,
    decreases s.len(),
{
    if k == s.len() {
        assert(s.subrange(0, k) == s);
    } else {
        assert(s.drop_last().subrange(0, k) == s.subrange(0, k));
        lemma_digits_value_grows(s.drop_last(), k);
    }
}

/// The text of a number is never empty and starts with a digit.
pub proof fn lemma_decimal_shape(n: nat)
    ensures
        decimal(n).len() > 0,
        digit_value(decimal(n)[0]) is Some,
    decreases n,
{
    if n >= 10 {
        lemma_decimal_shape(n / 10);
    }
}

/// Reading the text of a number gives that number back.
pub proof fn lemma_parse_decimal(n: nat)
    ensures
        digits_value(decimal(n)) == Some(n),
        parse_unsigned(decimal(n)) == Some(n),
    decreases n,
{
    lemma_decimal_shape(n);
    if n >= 10 {
        lemma_parse_decimal(n / 10);
        lemma_decimal_shape(n / 10);
        lemma_digits_value_push(decimal(n / 10), digit_char(n % 10));
    }
}

/// The one-character text of a digit.
fn digit_str(d: u8) -> (text: &'static str)
    requires
        d < 10,
    ensures
        text@ == seq![digit_char(d as nat)],
{
    proof {
        reveal_strlit("0");
        reveal_strlit("1");
        reveal_strlit("2");
        reveal_strlit("3");
        reveal_strlit("4");
        reveal_strlit("5");
        reveal_strlit("6");
        reveal_strlit("7");
        reveal_strlit("8");
        reveal_strlit("9");
    }
    let text = if d == 0 {
        "0"
    } else if d == 1 {
        "1"
    } else if d == 2 {
        "2"
    } else if d == 3 {
        "3"
    } else if d == 4 {
        "4"
    } else if d == 5 {
        "5"
    } else if d == 6 {
        "6"
    } else if d == 7 {
        "7"
    } else if d == 8 {
        "8"
    } else {
        "9"
    };
    assert(text@ =~= seq![digit_char(d as nat)]);
    text
}

/// The digit that a character stands for.
fn digit_of(c: char) -> (d: Option<u8>)
    ensures
        match d {
            Some(v) => digit_value(c) == Some(v as nat),
            None => digit_value(c) is None,
        },
{
    if c == '0' {
        Some(0)
    } else if c == '1' {
        Some(1)
    } else if c == '2' {
        Some(2)
    } else if c == '3' {
        Some(3)
    } else if c == '4' {
        Some(4)
    } else if c == '5' {
        Some(5)
    } else if c == '6' {
        Some(6)
    } else if c == '7' {
        Some(7)
    } else if c == '8' {
        Some(8)
    } else if c == '9' {
        Some(9)
    } else {
        None
    }
}

/// Writes a number as decimal text.
pub fn to_decimal(n: u128) -> (text: String)
    ensures
        text@ == decimal(n as nat),
    decreases n,
{
    if n < 10 {
        let text = digit_str(n as u8).to_owned();
        text
    } else {
        let mut text = to_decimal(n / 10);
        text.append(digit_str((n % 10) as u8));
        assert(text@ =~= decimal((n / 10) as nat).push(digit_char((n % 10) as nat)));
        text
    }
}

/// In a run of digits that denotes a number every character is a digit.
pub proof fn lemma_digits_value_of_digits(s: Seq<char>, i: int)
    requires
        digits_value(s) is Some,
        0 <= i < s.len(),
    ensures
        digit_value(s[i]) is Some,
    decreases s.len(),
{
    if i < s.len() - 1 {
        lemma_digits_value_of_digits(s.drop_last(), i);
    }
}

/// A text that denotes a number holds nothing but ASCII.
pub proof fn lemma_parse_unsigned_is_ascii(s: Seq<char>)
    requires
        parse_unsigned(s) is Some,
    ensures
        is_ascii_chars(s),
{
    assert forall|i: int| 0 <= i < s.len() implies '\0' <= #[trigger] s[i] <= '\u{7f}' by {
        if s[0] == '+' {
            if i > 0 {
                let digits = s.subrange(1, s.len() as int);
                lemma_digits_value_of_digits(digits, i - 1);
                assert(digits[i - 1] == s[i]);
            }
        } else {
            lemma_digits_value_of_digits(s, i);
        }
    }
}

/// Reads decimal text as a number.
///
/// Accepts what `parse_unsigned` accepts, as far as the number fits in 128
/// bits; everything else, overflow included, is `None`.
pub fn parse_u128(text: &str) -> (value: Option<u128>)
    ensures
        value == parse_u128_spec(text@),
{
    if !text.is_ascii() {
        proof {
            if parse_unsigned(text@) is Some {
                lemma_parse_unsigned_is_ascii(text@);
            }
        }
        return None;
    }
    let len = text.unicode_len();
    let start: usize = if len > 0 && text.get_ascii(0) as char == '+' {
        1
    } else {
        0
    };
    assert(len > 0 ==> (start == 1 <==> text@[0] == '+'));
    if start == len {
        assert(text@.subrange(start as int, len as int).len() == 0);
        return None;
    }
    let ghost digits = text@.subrange(start as int, len as int);
    assert(parse_unsigned(text@) == digits_value(digits)) by {
        if start == 0 {
            assert(digits == text@);
        }
    }
    let mut acc: u128 = 0;
    let mut i: usize = start;
    while i < len
        invariant
            start <= i <= len,
            start < len,
            len == text@.len(),
            text.is_ascii(),
            digits == text@.subrange(start as int, len as int),
            parse_unsigned(text@) == digits_value(digits),
            i > start ==> digits_value(digits.subrange(0, i - start)) == Some(acc as nat),
            i == start ==> acc == 0,
        decreases len - i,
    {
        let c = text.get_ascii(i) as char;
        let ghost before = digits.subrange(0, i - start);
        let ghost after = digits.subrange(0, i + 1 - start);
        proof {
            assert(c == text@[i as int]);
            assert(after == before.push(c));
            if i > start {
                lemma_digits_value_push(before, c);
            }
            if digits_value(digits) is Some {
                lemma_digits_value_grows(digits, i + 1 - start);
            }
        }
        let d = match digit_of(c) {
            Some(d) => d,
            None => {
                return None;
            },
        };
        let shifted = match acc.checked_mul(10) {
            Some(shifted) => shifted,
            None => {
                return None;
            },
        };
        acc = match shifted.checked_add(d as u128) {
            Some(sum) => sum,
            None => {
                return None;
            },
        };
        i = i + 1;
    }
    assert(digits.subrange(0, len - start) == digits);
    Some(acc)
}

} // verus!
