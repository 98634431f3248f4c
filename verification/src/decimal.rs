//! Decimal integers written as text.
//!
//! The accepted form is an optional sign followed by one or more of the
//! digits `0` to `9`, and nothing else: no blanks, no separators. An unsigned
//! number takes `+` as its only sign.

use crate::text::to_chars;
use vstd::prelude::*;

verus! {

/// `c` is one of `0` to `9`.
pub open spec fn is_digit(c: char) -> bool {
    '0' <= c && c <= '9'
}

/// The number that the digit `c` stands for.
pub open spec fn digit_value(c: char) -> nat
    recommends
        is_digit(c),
{
    (c as nat - '0' as nat) as nat
}

/// Every character of `s` is a digit.
pub open spec fn all_digits(s: Seq<char>) -> bool {
    forall|i: int| 0 <= i < s.len() ==> is_digit(#[trigger] s[i])
}

/// The number that the digits `s` write in base ten; 0 for no digits.
pub open spec fn digits_value(s: Seq<char>) -> nat
    recommends
        all_digits(s),
    decreases s.len(),
{
    if s.len() == 0 {
        0
    } else {
        digits_value(s.drop_last()) * 10 + digit_value(s.last())
    }
}

/// `s` is one digit or more.
pub open spec fn is_number(s: Seq<char>) -> bool {
    s.len() > 0 && all_digits(s)
}

/// The number written by `s`, where `s` is an optional `+` and then digits.
pub open spec fn unsigned_decimal(s: Seq<char>) -> Option<nat> {
    let digits = if s.len() > 0 && s[0] == '+' {
        s.skip(1)
    } else {
        s
    };
    if is_number(digits) {
        Some(digits_value(digits))
    } else {
        None
    }
}

/// The number written by `s`, where `s` is an optional `+` or `-` and then
/// digits.
pub open spec fn signed_decimal(s: Seq<char>) -> Option<int> {
    if s.len() > 0 && s[0] == '-' {
        if is_number(s.skip(1)) {
            Some(-(digits_value(s.skip(1)) as int))
        } else {
            None
        }
    } else {
        match unsigned_decimal(s) {
            Some(n) => Some(n as int),
            None => None,
        }
    }
}

/// The unsigned 64-bit number written by `s`; `None` where `s` writes no
/// number or one that is too large.
pub open spec fn u64_read(s: Seq<char>) -> Option<u64> {
    match unsigned_decimal(s) {
        Some(n) if n <= u64::MAX => Some(n as u64),
        _ => None,
    }
}

/// The signed 64-bit number written by `s`; `None` where `s` writes no
/// number or one out of range.
pub open spec fn i64_read(s: Seq<char>) -> Option<i64> {
    match signed_decimal(s) {
        Some(n) if i64::MIN <= n <= i64::MAX => Some(n as i64),
        _ => None,
    }
}

/// A longer run of digits never writes a smaller number than its start.
pub proof fn lemma_digits_value_grows(s: Seq<char>, n: int)
    requires
        0 <= n <= s.len(),
    ensures
        digits_value(s.take(n)) <= digits_value(s),
    decreases s.len(),
{
    if n == s.len() {
        assert(s.take(n) =~= s);
    } else {
        assert(s.drop_last().take(n) =~= s.take(n));
        lemma_digits_value_grows(s.drop_last(), n);
    }
}

/// Reads the digits `chars[from..to]` as a number no larger than `limit`.
fn read_magnitude(chars: &Vec<char>, from: usize, to: usize, limit: u64) -> (r: Option<u64>)
    requires
        from <= to <= chars.len(),
    ensures
        r is Some <==> is_number(chars@.subrange(from as int, to as int)) && digits_value(
            chars@.subrange(from as int, to as int),
        ) <= limit,
        r matches Some(n) ==> n == digits_value(chars@.subrange(from as int, to as int)),
{
    let ghost whole = chars@.subrange(from as int, to as int);
    if from == to {
        return None;
    }
    let mut value: u64 = 0;
    let mut i: usize = from;
    while i < to
        invariant
            from <= i <= to <= chars.len(),
            whole == chars@.subrange(from as int, to as int),
            all_digits(whole.take(i - from)),
            value == digits_value(whole.take(i - from)),
            value <= limit,
        decreases to - i,
    {
        let c = chars[i];
        let ghost seen = whole.take(i - from + 1);
        assert(whole[i - from] == c);
        if !('0' <= c && c <= '9') {
            return None;
        }
        let digit: u64 = (c as u32 - '0' as u32) as u64;
        proof {
            assert(seen.drop_last() =~= whole.take(i - from));
            assert(seen.last() == c);
            assert(digits_value(seen) == value * 10 + digit);
            lemma_digits_value_grows(whole, i - from + 1);
            assert forall|j: int| 0 <= j < seen.len() implies is_digit(#[trigger] seen[j]) by {
                if j < i - from {
                    assert(seen[j] == whole.take(i - from)[j]);
                }
            }
        }
        if digit > limit || value > (limit - digit) / 10 {
            return None;
        }
        value = value * 10 + digit;
        i = i + 1;
    }
    assert(whole.take(to - from) =~= whole);
    Some(value)
}

/// Reads `chars[from..to]` as an unsigned 64-bit number.
pub(crate) fn read_u64_in(chars: &Vec<char>, from: usize, to: usize) -> (r: Option<u64>)
    requires
        from <= to <= chars.len(),
    ensures
        r == u64_read(chars@.subrange(from as int, to as int)),
{
    let ghost s = chars@.subrange(from as int, to as int);
    if from < to && chars[from] == '+' {
        assert(s.skip(1) =~= chars@.subrange(from + 1, to as int));
        read_magnitude(chars, from + 1, to, u64::MAX)
    } else {
        read_magnitude(chars, from, to, u64::MAX)
    }
}

/// Reads `chars[from..to]` as a signed 64-bit number.
pub(crate) fn read_i64_in(chars: &Vec<char>, from: usize, to: usize) -> (r: Option<i64>)
    requires
        from <= to <= chars.len(),
    ensures
        r == i64_read(chars@.subrange(from as int, to as int)),
{
    let ghost s = chars@.subrange(from as int, to as int);
    if from < to && chars[from] == '-' {
        assert(s.skip(1) =~= chars@.subrange(from + 1, to as int));
        match read_magnitude(chars, from + 1, to, 0x8000_0000_0000_0000) {
            Some(n) => {
                if n == 0x8000_0000_0000_0000 {
                    Some(i64::MIN)
                } else {
                    Some(-(n as i64))
                }
            },
            None => None,
        }
    } else if from < to && chars[from] == '+' {
        assert(s.skip(1) =~= chars@.subrange(from + 1, to as int));
        match read_magnitude(chars, from + 1, to, 0x7fff_ffff_ffff_ffff) {
            Some(n) => Some(n as i64),
            None => None,
        }
    } else {
        match read_magnitude(chars, from, to, 0x7fff_ffff_ffff_ffff) {
            Some(n) => Some(n as i64),
            None => None,
        }
    }
}

/// Reads the whole of `text` as an unsigned 64-bit number.
pub fn read_u64(text: &str) -> (r: Option<u64>)
    ensures
        r == u64_read(text@),
{
    let chars = to_chars(text);
    assert(chars@.subrange(0, chars.len() as int) =~= text@);
    read_u64_in(&chars, 0, chars.len())
}

/// Reads the whole of `text` as a signed 64-bit number.
pub fn read_i64(text: &str) -> (r: Option<i64>)
    ensures
        r == i64_read(text@),
{
    let chars = to_chars(text);
    assert(chars@.subrange(0, chars.len() as int) =~= text@);
    read_i64_in(&chars, 0, chars.len())
}

/// The ten digits, each at the place of its value.
pub const DIGITS: &'static str = "0123456789";

/// The digit that stands for `d`.
pub open spec fn digit_char(d: nat) -> char
    recommends
        d < 10,
{
    ('0' as nat + d) as char
}

/// `n` written in base ten, without sign and without leading zeros.
pub open spec fn decimal_text(n: nat) -> Seq<char>
    decreases n,
{
    if n < 10 {
        seq![digit_char(n)]
    } else {
        decimal_text(n / 10).push(digit_char(n % 10))
    }
}

/// What `decimal_text` writes is a number, and reads back as what was
/// written.
pub proof fn lemma_decimal_text_reads_back(n: nat)
    ensures
        is_number(decimal_text(n)),
        digits_value(decimal_text(n)) == n,
        unsigned_decimal(decimal_text(n)) == Some(n),
        signed_decimal(decimal_text(n)) == Some(n as int),
    decreases n,
{
    let text = decimal_text(n);
    if n < 10 {
        assert(text.drop_last() =~= Seq::<char>::empty());
        assert(digits_value(text.drop_last()) == 0);
        assert(text.last() == digit_char(n));
    } else {
        lemma_decimal_text_reads_back(n / 10);
        assert(text.drop_last() =~= decimal_text(n / 10));
        assert(text.last() == digit_char(n % 10));
        assert forall|i: int| 0 <= i < text.len() implies is_digit(#[trigger] text[i]) by {
            if i < text.len() - 1 {
                assert(text[i] == decimal_text(n / 10)[i]);
            }
        }
    }
    assert(is_digit(text[0]));
}

/// A 64-bit number that is written and read again is the same number.
pub proof fn lemma_u64_text_reads_back(n: u64)
    ensures
        u64_read(decimal_text(n as nat)) == Some(n),
{
    lemma_decimal_text_reads_back(n as nat);
}

/// Writes `n` in base ten at the end of `text`.
pub fn push_decimal(text: &mut String, n: u64)
    ensures
        final(text)@ == old(text)@ + decimal_text(n as nat),
    decreases n,
{
    if n >= 10 {
        push_decimal(text, n / 10);
    }
    let d: usize = (n % 10) as usize;
    proof {
        reveal_strlit("0123456789");
        assert(DIGITS@.subrange(d as int, d + 1) =~= seq![digit_char(d as nat)]);
    }
    text.append(DIGITS.substring_ascii(d, d + 1));
    proof {
        if n >= 10 {
            assert(old(text)@ + decimal_text((n / 10) as nat) + seq![digit_char(d as nat)] =~= old(
                text,
            )@ + decimal_text((n / 10) as nat).push(digit_char(d as nat)));
        }
    }
}

/// `n` written in base ten.
pub fn u64_text(n: u64) -> (text: String)
    ensures
        text@ == decimal_text(n as nat),
{
    let mut text = String::new();
    push_decimal(&mut text, n);
    assert(Seq::<char>::empty() + decimal_text(n as nat) =~= decimal_text(n as nat));
    text
}

} // verus!
