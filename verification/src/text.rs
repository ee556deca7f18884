//! Small text utilities shared by the codecs: character access, string
//! building and decimal rendering.

use vstd::prelude::*;
use vstd::string::*;

verus! {

/// `String::push`: appends one character to the end of the string.
#[verifier::external_body]
pub(crate) fn push_char(s: &mut String, c: char)
    ensures
        final(s)@ == old(s)@.push(c),
{
    s.push(c);
}

/// The characters of `s`, in order.
pub(crate) fn chars_of(s: &str) -> (out: Vec<char>)
    ensures
        out@ == s@,
{
    let mut out: Vec<char> = Vec::new();
    for c in it: s.chars()
        invariant
            out@ == it.seq().take(it.index()),
            it.seq() == s@,
    {
        out.push(c);
    }
    out
}

/// The character that writes the digit `d` (0 to 15), lower case above 9.
pub open spec fn digit_char(d: int) -> char {
    if d < 10 {
        ('0' as int + d) as char
    } else {
        ('a' as int + (d - 10)) as char
    }
}

/// The value of `c` read as a decimal digit, if it is one.
pub open spec fn decimal_digit_value(c: char) -> Option<int> {
    if '0' <= c <= '9' {
        Some(c as int - '0' as int)
    } else {
        None
    }
}

/// The value of `c` read as a hexadecimal digit of either case, if it is one.
pub open spec fn hex_digit_value(c: char) -> Option<int> {
    if '0' <= c <= '9' {
        Some(c as int - '0' as int)
    } else if 'a' <= c <= 'f' {
        Some(c as int - 'a' as int + 10)
    } else if 'A' <= c <= 'F' {
        Some(c as int - 'A' as int + 10)
    } else {
        None
    }
}

/// Writes the digit `d` as a character.
pub(crate) fn digit_to_char(d: u8) -> (c: char)
    requires
        d < 16,
    ensures
        c == digit_char(d as int),
{
    if d < 10 {
        (48u8 + d) as char
    } else {
        (87u8 + d) as char
    }
}

/// Reads `c` as a decimal digit.
pub(crate) fn read_decimal_digit(c: char) -> (d: Option<u8>)
    ensures
        d is Some <==> decimal_digit_value(c) is Some,
        d matches Some(v) ==> decimal_digit_value(c) == Some(v as int),
{
    if '0' <= c && c <= '9' {
        Some((c as u32 - 48) as u8)
    } else {
        None
    }
}

/// Reads `c` as a hexadecimal digit of either case.
pub(crate) fn read_hex_digit(c: char) -> (d: Option<u8>)
    ensures
        d is Some <==> hex_digit_value(c) is Some,
        d matches Some(v) ==> hex_digit_value(c) == Some(v as int),
{
    if '0' <= c && c <= '9' {
        Some((c as u32 - 48) as u8)
    } else if 'a' <= c && c <= 'f' {
        Some((c as u32 - 87) as u8)
    } else if 'A' <= c && c <= 'F' {
        Some((c as u32 - 55) as u8)
    } else {
        None
    }
}

/// The decimal digit at index `i` of `s`, if there is one.
pub open spec fn decimal_at(s: Seq<char>, i: int) -> Option<int> {
    if 0 <= i < s.len() {
        decimal_digit_value(s[i])
    } else {
        None
    }
}

/// The hexadecimal digit at index `i` of `s`, if there is one.
pub open spec fn hex_at(s: Seq<char>, i: int) -> Option<int> {
    if 0 <= i < s.len() {
        hex_digit_value(s[i])
    } else {
        None
    }
}

/// Whether the character at index `i` of `s` is `c`.
pub open spec fn is_char_at(s: Seq<char>, i: int, c: char) -> bool {
    0 <= i < s.len() && s[i] == c
}

/// `n` in decimal, without leading zeros.
pub open spec fn decimal_text(n: nat) -> Seq<char>
    decreases n,
{
    if n < 10 {
        seq![digit_char(n as int)]
    } else {
        decimal_text(n / 10).push(digit_char((n % 10) as int))
    }
}

/// `n` in lower-case hexadecimal, without leading zeros.
pub open spec fn hex_text(n: nat) -> Seq<char>
    decreases n,
{
    if n < 16 {
        seq![digit_char(n as int)]
    } else {
        hex_text(n / 16).push(digit_char((n % 16) as int))
    }
}

/// Appends `n` in decimal to `out`.
pub(crate) fn push_decimal(out: &mut String, n: u64)
    ensures
        final(out)@ == old(out)@ + decimal_text(n as nat),
    decreases n,
{
    if n >= 10 {
        push_decimal(out, n / 10);
    }
    push_char(out, digit_to_char((n % 10) as u8));
}

/// Appends `n` in lower-case hexadecimal to `out`.
pub(crate) fn push_hex(out: &mut String, n: u64)
    ensures
        final(out)@ == old(out)@ + hex_text(n as nat),
    decreases n,
{
    if n >= 16 {
        push_hex(out, n / 16);
    }
    push_char(out, digit_to_char((n % 16) as u8));
}

/// Reads the decimal digit at index `i` of `s`.
pub(crate) fn decimal_digit_at(s: &Vec<char>, i: usize) -> (d: Option<u8>)
    ensures
        d is Some <==> decimal_at(s@, i as int) is Some,
        d matches Some(v) ==> decimal_at(s@, i as int) == Some(v as int),
{
    if i < s.len() {
        read_decimal_digit(s[i])
    } else {
        None
    }
}

/// Reads the hexadecimal digit at index `i` of `s`.
pub(crate) fn hex_digit_at(s: &Vec<char>, i: usize) -> (d: Option<u8>)
    ensures
        d is Some <==> hex_at(s@, i as int) is Some,
        d matches Some(v) ==> hex_at(s@, i as int) == Some(v as int),
{
    if i < s.len() {
        read_hex_digit(s[i])
    } else {
        None
    }
}

/// Tells whether the character at index `i` of `s` is `c`.
pub(crate) fn char_is_at(s: &Vec<char>, i: usize, c: char) -> (found: bool)
    ensures
        found == is_char_at(s@, i as int, c),
{
    i < s.len() && s[i] == c
}

} // verus!
