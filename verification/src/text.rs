use vstd::prelude::*;
use vstd::string::StrSliceExecFns;

verus! {

/// Relies on `String::push`: appends one character to the string.
pub assume_specification[ String::push ](s: &mut String, ch: std::primitive::char)
    ensures
        final(s)@ == old(s)@.push(ch),
;

/// Relies on `String::push_str`: appends a string slice to the string.
pub assume_specification[ String::push_str ](s: &mut String, other: &str)
    ensures
        final(s)@ == old(s)@ + other@,
;

/// Relies on `char::from_u32`: yields the character of a Unicode scalar
/// value, and `None` exactly for surrogates and values above U+10FFFF.
pub assume_specification[ std::primitive::char::from_u32 ](i: u32) -> (r: Option<std::primitive::char>)
    ensures
        r is Some <==> vstd::utf8::is_scalar(i),
        (match r {
            Some(c) => c as u32 == i,
            None => true,
        }),
;

/// The character for a decimal digit value.
pub open spec fn dec_digit_char(d: int) -> char {
    if d == 0 {
        '0'
    } else if d == 1 {
        '1'
    } else if d == 2 {
        '2'
    } else if d == 3 {
        '3'
    } else if d == 4 {
        '4'
    } else if d == 5 {
        '5'
    } else if d == 6 {
        '6'
    } else if d == 7 {
        '7'
    } else if d == 8 {
        '8'
    } else {
        '9'
    }
}

/// The character for a hexadecimal digit value, in upper case.
pub open spec fn hex_digit_char(d: int) -> char {
    if d < 10 {
        dec_digit_char(d)
    } else if d == 10 {
        'A'
    } else if d == 11 {
        'B'
    } else if d == 12 {
        'C'
    } else if d == 13 {
        'D'
    } else if d == 14 {
        'E'
    } else {
        'F'
    }
}

/// The decimal rendering of a non-negative integer.
pub open spec fn dec_text(n: int) -> Seq<char>
    decreases n,
{
    if n < 10 {
        seq![dec_digit_char(n)]
    } else {
        dec_text(n / 10).push(dec_digit_char(n % 10))
    }
}

/// The two-digit upper-case hexadecimal rendering of a byte.
pub open spec fn hex_byte_text(b: u8) -> Seq<char> {
    seq![hex_digit_char(b as int / 16), hex_digit_char(b as int % 16)]
}

/// How a byte is shown inside quotes in a diagnostic: as its ASCII character
/// if it is one, otherwise as a placeholder.
pub open spec fn byte_char_text(b: u8) -> Seq<char> {
    if b < 128 {
        seq![(b as u32) as char]
    } else {
        "<non-utf8>"@
    }
}

fn dec_digit(d: u64) -> (c: char)
    requires
        d < 10,
    ensures
        c == dec_digit_char(d as int),
{
    match d {
        0 => '0',
        1 => '1',
        2 => '2',
        3 => '3',
        4 => '4',
        5 => '5',
        6 => '6',
        7 => '7',
        8 => '8',
        _ => '9',
    }
}

fn hex_digit(d: u8) -> (c: char)
    requires
        d < 16,
    ensures
        c == hex_digit_char(d as int),
{
    match d {
        0 => '0',
        1 => '1',
        2 => '2',
        3 => '3',
        4 => '4',
        5 => '5',
        6 => '6',
        7 => '7',
        8 => '8',
        9 => '9',
        10 => 'A',
        11 => 'B',
        12 => 'C',
        13 => 'D',
        14 => 'E',
        _ => 'F',
    }
}

/// Append the decimal rendering of `n` to `s`.
pub fn push_dec(s: &mut String, n: u64)
    ensures
        final(s)@ == old(s)@ + dec_text(n as int),
    decreases n,
{
    if n < 10 {
        s.push(dec_digit(n));
        assert(s@ =~= old(s)@ + dec_text(n as int));
    } else {
        push_dec(s, n / 10);
        s.push(dec_digit(n % 10));
        assert(s@ =~= old(s)@ + dec_text(n as int));
    }
}

/// The number of digits in the decimal rendering of `n`.
pub fn dec_len(n: u64) -> (r: usize)
    ensures
        r as int == dec_text(n as int).len(),
{
    let mut s = String::new();
    push_dec(&mut s, n);
    s.as_str().unicode_len()
}

/// Append the two-digit hexadecimal rendering of `b` to `s`.
pub fn push_hex_byte(s: &mut String, b: u8)
    ensures
        final(s)@ == old(s)@ + hex_byte_text(b),
{
    s.push(hex_digit(b / 16));
    s.push(hex_digit(b % 16));
    assert(s@ =~= old(s)@ + hex_byte_text(b));
}

/// Append the quoted-character rendering of `b` to `s`.
pub fn push_byte_char(s: &mut String, b: u8)
    ensures
        final(s)@ == old(s)@ + byte_char_text(b),
{
    if b < 128 {
        let c = char::from_u32(b as u32).unwrap();
        proof {
            vstd::utf8::char_u32_cast(c, b as u32);
        }
        s.push(c);
        assert(s@ =~= old(s)@ + byte_char_text(b));
    } else {
        s.push_str("<non-utf8>");
        assert(s@ =~= old(s)@ + byte_char_text(b));
    }
}

} // verus!
