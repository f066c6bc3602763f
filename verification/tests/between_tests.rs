use parsicomb::between;
use parsicomb::ByteCursor;
use parsicomb::Cursor;
use parsicomb::Parser;
use parsicomb::and::And;
use parsicomb::and::AndExt;
use parsicomb::ascii::number::i64::IntParser;
use parsicomb::ascii::number::u64::UIntParser;
use parsicomb::byte::IsByteParser;
use parsicomb::ascii::i64;
use parsicomb::ascii::u64;
use parsicomb::byte::is_byte;
use parsicomb::map::MapExt;
use parsicomb::utf8::string::is_string;

/// A decimal-fraction fixture built from the library's integer parsers:
/// parses `int.uint`, and the test converts the parts to an f64.
fn nump<'a>() -> And<And<IntParser, IsByteParser>, UIntParser> {
    i64().and(is_byte(b'.')).and(u64())
}

fn to_f64(parts: ((i64, u8), u64)) -> f64 {
    let ((int_part, _), frac_part) = parts;
    let frac_digits = frac_part.to_string().len() as i32;
    let fractional = frac_part as f64 / 10f64.powi(frac_digits);
    if int_part >= 0 {
        int_part as f64 + fractional
    } else {
        int_part as f64 - fractional
    }
}

#[test]
fn test_brackets_number() {
    let data = b"[42.5]";
    let cursor = ByteCursor::new(data);
    let parser = between(is_byte(b'['), nump(), is_byte(b']'));

    let (value, cursor) = parser.parse(cursor).unwrap();
    let value = to_f64(value);
    assert!((value - 42.5).abs() < f64::EPSILON);
    assert!(matches!(cursor, ByteCursor::EndOfFile { .. }));
}

#[test]
fn test_parentheses_string() {
    let data = b"(hello)";
    let cursor = ByteCursor::new(data);
    let parser = between(is_byte(b'('), is_string("hello"), is_byte(b')'));

    let (value, _) = parser.parse(cursor).unwrap();
    assert_eq!(value.as_ref() as &str, "hello");
}

#[test]
fn test_braces() {
    let data = b"{test}";
    let cursor = ByteCursor::new(data);
    let parser = between(is_byte(b'{'), is_string("test"), is_byte(b'}'));

    let (value, _) = parser.parse(cursor).unwrap();
    assert_eq!(value.as_ref() as &str, "test");
}

#[test]
fn test_missing_open_delimiter_fails() {
    let data = b"42.0]";
    let cursor = ByteCursor::new(data);
    let parser = between(is_byte(b'['), nump(), is_byte(b']'));

    assert!(parser.parse(cursor).is_err());
}

#[test]
fn test_missing_close_delimiter_fails() {
    let data = b"[42.0";
    let cursor = ByteCursor::new(data);
    let parser = between(is_byte(b'['), nump(), is_byte(b']'));

    assert!(parser.parse(cursor).is_err());
}

#[test]
fn test_with_remaining_content() {
    let data = b"[42.0] extra";
    let cursor = ByteCursor::new(data);
    let parser = between(is_byte(b'['), nump(), is_byte(b']'));

    let (value, cursor) = parser.parse(cursor).unwrap();
    let value = to_f64(value);
    assert!((value - 42.0).abs() < f64::EPSILON);
    assert_eq!(cursor.value().unwrap(), b' ');
}
