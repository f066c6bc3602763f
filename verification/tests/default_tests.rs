use parsicomb::ByteCursor;
use parsicomb::Cursor;
use parsicomb::Parser;

#[test]
fn test_default_string() {
    let data = b"hello";
    let cursor = ByteCursor::new(data);
    let parser = parsicomb::default::default(String::default());

    let (result, remaining) = parser.parse(cursor).unwrap();
    assert_eq!(result, String::default());
    // Should not consume any input
    assert_eq!(remaining.value().unwrap(), b'h');
}

#[test]
fn test_default_i32() {
    let data = b"123";
    let cursor = ByteCursor::new(data);
    let parser = parsicomb::default::default(i32::default());

    let (result, remaining) = parser.parse(cursor).unwrap();
    assert_eq!(result, 0);
    // Should not consume any input
    assert_eq!(remaining.value().unwrap(), b'1');
}

#[test]
fn test_default_empty_input() {
    let data = b"";
    let cursor = ByteCursor::new(data);
    let parser = parsicomb::default::default(String::default());

    let (result, remaining) = parser.parse(cursor).unwrap();
    assert_eq!(result, String::default());
    assert!(matches!(remaining, ByteCursor::EndOfFile { .. }));
}