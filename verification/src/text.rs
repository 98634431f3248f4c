//! Character-level access to text.

use vstd::prelude::*;

verus! {

/// The characters of `text`, in order.
pub fn to_chars(text: &str) -> (chars: Vec<char>)
    ensures
        chars@ == text@,
{
    let mut chars: Vec<char> = Vec::new();
    for c in it: text.chars()
        invariant
            chars@ == it.seq().take(it.index()),
            it.seq() == text@,
    {
        chars.push(c);
    }
    chars
}

/// The index of the first `:` of `s` at or after `from`, or the length of
/// `s` where none follows: the end of the colon-separated field that starts
/// at `from`.
pub open spec fn field_end(s: Seq<char>, from: int) -> int
    decreases s.len() - from,
{
    if 0 <= from < s.len() && s[from] != ':' {
        field_end(s, from + 1)
    } else {
        from
    }
}

/// Finds the end of the colon-separated field that starts at `from`.
pub(crate) fn scan_field(chars: &Vec<char>, from: usize) -> (end: usize)
    requires
        from <= chars.len(),
    ensures
        end == field_end(chars@, from as int),
        from <= end <= chars.len(),
{
    let mut i: usize = from;
    while i < chars.len() && chars[i] != ':'
        invariant
            from <= i <= chars.len(),
            field_end(chars@, i as int) == field_end(chars@, from as int),
        decreases chars.len() - i,
    {
        i = i + 1;
    }
    i
}

} // verus!
