//! The written form of a floating-point number.
//!
//! This is the grammar that Rust's standard library accepts when it reads a
//! floating-point number from text:
//!
//! ```text
//! Float    ::= Sign? ( 'inf' | 'infinity' | 'nan' | Number )
//! Number   ::= ( Digit+ | Digit+ '.' Digit* | Digit* '.' Digit+ ) Exponent?
//! Exponent ::= 'e' Sign? Digit+
//! Sign     ::= '+' | '-'
//! Digit    ::= '0' ... '9'
//! ```
//!
//! Letters count in either case. Nothing may stand before or after the
//! number. The library keeps such a number as its text and leaves the
//! conversion to whoever needs the value.

use crate::decimal::is_digit;
use crate::text::to_chars;
use vstd::prelude::*;

verus! {

/// `c` is `+` or `-`.
pub open spec fn is_sign(c: char) -> bool {
    c == '+' || c == '-'
}

/// `c` is the letter given in its two cases.
pub open spec fn is_letter(c: char, lower: char, upper: char) -> bool {
    c == lower || c == upper
}

/// The index just past the run of digits of `s` that starts at `from`.
pub open spec fn digits_end(s: Seq<char>, from: int) -> int
    decreases s.len() - from,
{
    if 0 <= from < s.len() && is_digit(s[from]) {
        digits_end(s, from + 1)
    } else {
        from
    }
}

/// `s[from..]` is an exponent: `e`, an optional sign, one digit or more.
pub open spec fn is_exponent(s: Seq<char>, from: int) -> bool {
    &&& 0 <= from < s.len()
    &&& is_letter(s[from], 'e', 'E')
    &&& {
        let digits = if from + 1 < s.len() && is_sign(s[from + 1]) {
            from + 2
        } else {
            from + 1
        };
        digits < s.len() && digits_end(s, digits) == s.len()
    }
}

/// `s[from..]` is a number: digits with at most one `.` before, among or
/// after them, at least one digit in all, and then an optional exponent.
pub open spec fn is_decimal(s: Seq<char>, from: int) -> bool {
    let whole_end = digits_end(s, from);
    let has_point = whole_end < s.len() && s[whole_end] == '.';
    let mantissa_end = if has_point {
        digits_end(s, whole_end + 1)
    } else {
        whole_end
    };
    let digits = if has_point {
        mantissa_end - from - 1
    } else {
        mantissa_end - from
    };
    &&& digits > 0
    &&& (mantissa_end == s.len() || is_exponent(s, mantissa_end))
}

/// `s[from..]` is the word `inf`.
pub open spec fn is_inf(s: Seq<char>, from: int) -> bool {
    &&& s.len() == from + 3
    &&& is_letter(s[from], 'i', 'I')
    &&& is_letter(s[from + 1], 'n', 'N')
    &&& is_letter(s[from + 2], 'f', 'F')
}

/// `s[from..]` is the word `infinity`.
pub open spec fn is_infinity(s: Seq<char>, from: int) -> bool {
    &&& s.len() == from + 8
    &&& is_letter(s[from], 'i', 'I')
    &&& is_letter(s[from + 1], 'n', 'N')
    &&& is_letter(s[from + 2], 'f', 'F')
    &&& is_letter(s[from + 3], 'i', 'I')
    &&& is_letter(s[from + 4], 'n', 'N')
    &&& is_letter(s[from + 5], 'i', 'I')
    &&& is_letter(s[from + 6], 't', 'T')
    &&& is_letter(s[from + 7], 'y', 'Y')
}

/// `s[from..]` is the word `nan`.
pub open spec fn is_nan(s: Seq<char>, from: int) -> bool {
    &&& s.len() == from + 3
    &&& is_letter(s[from], 'n', 'N')
    &&& is_letter(s[from + 1], 'a', 'A')
    &&& is_letter(s[from + 2], 'n', 'N')
}

/// `s` is the written form of a floating-point number.
pub open spec fn float_text(s: Seq<char>) -> bool {
    let from: int = if s.len() > 0 && is_sign(s[0]) {
        1
    } else {
        0
    };
    is_inf(s, from) || is_infinity(s, from) || is_nan(s, from) || is_decimal(s, from)
}

fn letter(c: char, lower: char, upper: char) -> (r: bool)
    ensures
        r == is_letter(c, lower, upper),
{
    c == lower || c == upper
}

fn scan_digits(chars: &Vec<char>, from: usize) -> (end: usize)
    requires
        from <= chars.len(),
    ensures
        end == digits_end(chars@, from as int),
        from <= end <= chars.len(),
{
    let mut i: usize = from;
    while i < chars.len() && '0' <= chars[i] && chars[i] <= '9'
        invariant
            from <= i <= chars.len(),
            digits_end(chars@, i as int) == digits_end(chars@, from as int),
        decreases chars.len() - i,
    {
        i = i + 1;
    }
    i
}

fn exponent_at(chars: &Vec<char>, from: usize) -> (r: bool)
    requires
        from < chars.len(),
    ensures
        r == is_exponent(chars@, from as int),
{
    if !letter(chars[from], 'e', 'E') {
        return false;
    }
    let digits: usize = if from + 1 < chars.len() && (chars[from + 1] == '+' || chars[from + 1]
        == '-') {
        from + 2
    } else {
        from + 1
    };
    digits < chars.len() && scan_digits(chars, digits) == chars.len()
}

fn decimal_at(chars: &Vec<char>, from: usize) -> (r: bool)
    requires
        from <= chars.len(),
    ensures
        r == is_decimal(chars@, from as int),
{
    let whole_end = scan_digits(chars, from);
    let has_point = whole_end < chars.len() && chars[whole_end] == '.';
    let mantissa_end = if has_point {
        scan_digits(chars, whole_end + 1)
    } else {
        whole_end
    };
    let digits: usize = if has_point {
        mantissa_end - from - 1
    } else {
        mantissa_end - from
    };
    digits > 0 && (mantissa_end == chars.len() || exponent_at(chars, mantissa_end))
}

fn word_at(chars: &Vec<char>, from: usize) -> (r: bool)
    requires
        from <= chars.len(),
    ensures
        r == (is_inf(chars@, from as int) || is_infinity(chars@, from as int) || is_nan(
            chars@,
            from as int,
        )),
{
    let n = chars.len() - from;
    if n == 3 {
        let inf = letter(chars[from], 'i', 'I') && letter(chars[from + 1], 'n', 'N') && letter(
            chars[from + 2],
            'f',
            'F',
        );
        let nan = letter(chars[from], 'n', 'N') && letter(chars[from + 1], 'a', 'A') && letter(
            chars[from + 2],
            'n',
            'N',
        );
        inf || nan
    } else if n == 8 {
        letter(chars[from], 'i', 'I') && letter(chars[from + 1], 'n', 'N') && letter(
            chars[from + 2],
            'f',
            'F',
        ) && letter(chars[from + 3], 'i', 'I') && letter(chars[from + 4], 'n', 'N') && letter(
            chars[from + 5],
            'i',
            'I',
        ) && letter(chars[from + 6], 't', 'T') && letter(chars[from + 7], 'y', 'Y')
    } else {
        false
    }
}

/// Whether `text` is the written form of a floating-point number.
pub fn is_float_text(text: &str) -> (r: bool)
    ensures
        r == float_text(text@),
{
    let chars = to_chars(text);
    let from: usize = if chars.len() > 0 && (chars[0] == '+' || chars[0] == '-') {
        1
    } else {
        0
    };
    word_at(&chars, from) || decimal_at(&chars, from)
}

} // verus!
