//! Numbers as decimal text.

use vstd::prelude::*;
use vstd::string::*;

verus! {

/// The character of a decimal digit.
pub open spec fn digit(d: int) -> char {
    if d == 0 {
        '0'
    } else if d == 1 {
        '1'
    } else if d == 2 {
        '2'
    } else if d == 3 {
        '3'
    } else if d == 4 {
        '4'
    } else if d == 5 {
        '5'
    } else if d == 6 {
        '6'
    } else if d == 7 {
        '7'
    } else if d == 8 {
        '8'
    } else {
        '9'
    }
}

/// The decimal digits of a natural number, without leading zeros.
pub open spec fn digits(n: nat) -> Seq<char>
    decreases n,
{
    if n < 10 {
        seq![digit(n as int)]
    } else {
        digits(n / 10).push(digit((n % 10) as int))
    }
}

/// An integer in decimal, with `-` before a negative one.
pub open spec fn decimal(n: int) -> Seq<char> {
    if n < 0 {
        seq!['-'] + digits((-n) as nat)
    } else {
        digits(n as nat)
    }
}

/// `n` zeros.
pub open spec fn zeros(n: nat) -> Seq<char> {
    Seq::new(n, |i: int| '0')
}

/// `text` with zeros before it, as many as make it `width` characters long.
pub open spec fn padded(text: Seq<char>, width: nat) -> Seq<char> {
    if text.len() >= width {
        text
    } else {
        zeros((width - text.len()) as nat) + text
    }
}

/// A number has at least one digit.
pub proof fn lemma_digits_len(n: nat)
    ensures
        digits(n).len() >= 1,
    decreases n,
{
    if n >= 10 {
        lemma_digits_len(n / 10);
    }
}

/// `i128::to_string`: the integer in decimal, with `-` before a negative
/// one, no other sign, and no leading zeros.
#[verifier::external_body]
pub(crate) fn decimal_text(n: i128) -> (out: String)
    ensures
        out@ == decimal(n as int),
{
    n.to_string()
}

/// A decimal digit of ASCII.
pub open spec fn is_digit(c: char) -> bool {
    '0' as u32 <= c as u32 <= '9' as u32
}

/// The number that a text of decimal digits stands for; `None` where the
/// text is empty or holds anything but digits.
pub open spec fn digits_value(text: Seq<char>) -> Option<nat>
    decreases text.len(),
{
    if text.len() == 0 || !is_digit(text.last()) {
        None
    } else if text.len() == 1 {
        Some((text.last() as u32 - '0' as u32) as nat)
    } else {
        match digits_value(text.drop_last()) {
            Some(v) => Some((v * 10 + (text.last() as u32 - '0' as u32)) as nat),
            None => None,
        }
    }
}

/// The integer that a text stands for: digits, with `+` or `-` before them
/// or neither.
pub open spec fn int_value(text: Seq<char>) -> Option<int> {
    if text.len() > 0 && text[0] == '-' {
        match digits_value(text.skip(1)) {
            Some(v) => Some(-(v as int)),
            None => None,
        }
    } else if text.len() > 0 && text[0] == '+' {
        match digits_value(text.skip(1)) {
            Some(v) => Some(v as int),
            None => None,
        }
    } else {
        match digits_value(text) {
            Some(v) => Some(v as int),
            None => None,
        }
    }
}

/// The `i32` that a text stands for, if it stands for one.
pub open spec fn i32_value(text: Seq<char>) -> Option<i32> {
    match int_value(text) {
        Some(v) => if i32::MIN <= v <= i32::MAX {
            Some(v as i32)
        } else {
            None
        },
        None => None,
    }
}

/// The `usize` that a text stands for, if it stands for one. No `-` may
/// stand before the digits, not even before zero.
pub open spec fn usize_value(text: Seq<char>) -> Option<usize> {
    match int_value(text) {
        Some(v) => if 0 <= v <= usize::MAX && text[0] != '-' {
            Some(v as usize)
        } else {
            None
        },
        None => None,
    }
}

/// `str::parse::<i32>`: the number that the text stands for. The text is
/// decimal digits of ASCII, at least one, with `+` or `-` before them or
/// neither, and nothing else; a number that no `i32` holds is refused.
#[verifier::external_body]
pub(crate) fn parse_i32(text: &str) -> (out: Option<i32>)
    ensures
        out == i32_value(text@),
{
    text.parse::<i32>().ok()
}

/// `str::parse::<usize>`: the number that the text stands for. The text is
/// decimal digits of ASCII, at least one, with `+` before them or nothing,
/// and nothing else; a number that no `usize` holds is refused.
#[verifier::external_body]
pub(crate) fn parse_usize(text: &str) -> (out: Option<usize>)
    ensures
        out == usize_value(text@),
{
    text.parse::<usize>().ok()
}

/// Pads a text with zeros on the left, up to `width` characters.
pub fn zero_padded(text: &str, width: usize) -> (out: String)
    ensures
        out@ == padded(text@, width as nat),
{
    let len: usize = text.unicode_len();
    let mut out = String::new();
    let mut i: usize = len;
    assert(out@ =~= zeros(0));
    while i < width
        invariant
            len == text@.len(),
            len <= i,
            i <= width || i == len,
            out@ == zeros((i - len) as nat),
        decreases width - i,
    {
        proof {
            reveal_strlit("0");
            assert(zeros((i - len) as nat) + "0"@ =~= zeros((i + 1 - len) as nat));
        }
        out.append("0");
        i = i + 1;
    }
    proof {
        if len >= width {
            assert(zeros(0) + text@ =~= text@);
        }
    }
    out.append(text);
    out
}

} // verus!
