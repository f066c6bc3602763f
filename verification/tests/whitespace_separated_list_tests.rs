use parsicomb::ByteCursor;
use parsicomb::Parser;
use parsicomb::ascii::i64;
use parsicomb::byte::is_byte;
use parsicomb::error::ErrorLeaf;
use parsicomb::error::ErrorNode;
use parsicomb::map::MapExt;
use parsicomb::or::OrExt;
use parsicomb::Cursor;
use parsicomb::some::some;
use parsicomb::utf8::string::is_string;
use parsicomb::utf8::unicode_alphanumeric;
use parsicomb::utf8::whitespace::separated_list::separated_list;

#[test]
fn separated_list_test_empty_list_fails() {
    let data = b"";
    let cursor = ByteCursor::new(data);
    let parser = separated_list(
        some(unicode_alphanumeric()).map(|chrs: Vec<char>| chrs.iter().collect::<String>()),
        is_string(","),
    );

    // Should fail on empty input
    assert!(parser.parse(cursor).is_err());
}

#[test]
fn separated_list_test_single_element() {
    let data = b"hello";
    let cursor = ByteCursor::new(data);
    let parser = separated_list(
        some(unicode_alphanumeric()).map(|chrs: Vec<char>| chrs.iter().collect::<String>()),
        is_string(","),
    );

    let (results, _) = parser.parse(cursor).unwrap();
    assert_eq!(results, vec!["hello"]);
}

#[test]
fn test_multiple_elements_no_spaces() {
    let data = b"a,b,c";
    let cursor = ByteCursor::new(data);
    let parser = separated_list(
        some(unicode_alphanumeric()).map(|chrs: Vec<char>| chrs.iter().collect::<String>()),
        is_string(","),
    );

    let (results, _) = parser.parse(cursor).unwrap();
    assert_eq!(results, vec!["a", "b", "c"]);
}

#[test]
fn test_multiple_elements_with_spaces() {
    let data = b"a , b , c";
    let cursor = ByteCursor::new(data);
    let parser = separated_list(
        some(unicode_alphanumeric()).map(|chrs: Vec<char>| chrs.iter().collect::<String>()),
        is_string(","),
    );

    let (results, _) = parser.parse(cursor).unwrap();
    assert_eq!(results, vec!["a", "b", "c"]);
}

#[test]
fn test_multiple_elements_with_newlines() {
    let data = b"a ,\n  b ,\n  c";
    let cursor = ByteCursor::new(data);
    let parser = separated_list(
        some(unicode_alphanumeric()).map(|chrs: Vec<char>| chrs.iter().collect::<String>()),
        is_string(","),
    );

    let (results, _) = parser.parse(cursor).unwrap();
    assert_eq!(results, vec!["a", "b", "c"]);
}

#[test]
fn test_trailing_comma_causes_error() {
    let data = b"a,b,";
    let cursor = ByteCursor::new(data);
    let parser = separated_list(
        some(unicode_alphanumeric()).map(|chrs: Vec<char>| chrs.iter().collect::<String>()),
        is_string(","),
    );

    // With strict parsing, trailing comma should cause an error
    assert!(parser.parse(cursor).is_err());
}

#[test]
fn test_list_without_trailing_comma() {
    let data = b"a,b";
    let cursor = ByteCursor::new(data);
    let parser = separated_list(
        some(unicode_alphanumeric()).map(|chrs: Vec<char>| chrs.iter().collect::<String>()),
        is_string(","),
    );

    let (results, cursor) = parser.parse(cursor).unwrap();
    assert_eq!(results, vec!["a", "b"]);
    // Should consume everything
    assert!(matches!(cursor, ByteCursor::EndOfFile { .. }));
}

#[test]
fn separated_list_test_missing_element_after_separator_fails() {
    let data = b"a, b, "; // Space after last comma but no element
    let cursor = ByteCursor::new(data);
    let parser = separated_list(some(unicode_alphanumeric()), is_string(","));

    // Should fail because there's no identifier after the last comma
    assert!(parser.parse(cursor).is_err());
}

#[test]
fn test_invalid_element_after_separator_fails() {
    let data = b"a, b, |"; // Pipe instead of alphanumeric
    let cursor = ByteCursor::new(data);
    let parser = separated_list(some(unicode_alphanumeric()), is_string(","));

    // Should fail because the pipe is not a valid identifier
    assert!(parser.parse(cursor).is_err());
}

#[test]
fn separated_list_test_non_matching_separator() {
    let data = b"a;b;c";
    let cursor = ByteCursor::new(data);
    let parser = separated_list(
        some(unicode_alphanumeric()).map(|chrs: Vec<char>| chrs.iter().collect::<String>()),
        is_string(","),
    );

    let (results, cursor) = parser.parse(cursor).unwrap();
    assert_eq!(results, vec!["a"]);
    assert_eq!(cursor.value().unwrap(), b';');
}

#[test]
fn separated_list_test_complex_nested_combinators_with_likely_error_flattening() {
    let data = b"hello, world, badvalue";
    let cursor = ByteCursor::new(data);

    // Each element can be either "hello" | "hi" | "world" | "universe"
    let element_parser = is_string("hello")
        .or(is_string("hi"))
        .or(is_string("world"))
        .or(is_string("universe"));

    let parser = separated_list(element_parser, is_string(","));

    let result = parser.parse(cursor);
    assert!(result.is_err());

    // The error comes from the nested alternation failing on "badvalue"
    let complex_error = result.unwrap_err();
    let likely_error = complex_error.likely_error();

    // The likely error is where "badvalue" starts (after "hello, world, ")
    let error_pos = likely_error.loc().position();
    assert!(
        error_pos >= 14,
        "resolution should find the error that made it furthest into the input (at 'badvalue'), got position {}",
        error_pos
    );

    // Verify the error message makes sense
    let error_message = likely_error.to_display_string();
    assert!(
        error_message.len() > 0,
        "Should have a meaningful error message"
    );

    println!("Furthest error position: {}", error_pos);
    println!("Error message: {}", error_message);
}

#[test]
fn test_deeply_nested_combinators_error_propagation() {
    let data = b"123, 456, not_a_number, 789";
    let cursor = ByteCursor::new(data);

    // ("positive" | "negative" | i64) | ("even" | "odd" | ...) | ...
    let number_or_word = is_string("positive")
        .or(is_string("negative"))
        .or(i64().map(|_| "number"));

    let category_or_word = is_string("even").or(is_string("odd")).or(number_or_word);

    let size_or_category = is_string("small")
        .or(is_string("large"))
        .or(category_or_word);

    let parser = separated_list(size_or_category, is_string(","));

    let result = parser.parse(cursor);
    assert!(result.is_err());

    // Test the deeply nested error flattening
    let complex_error = result.unwrap_err();
    let likely_error = complex_error.likely_error();

    // Should point to "not_a_number" which starts around position 10
    let error_pos = likely_error.loc().position();
    assert!(
        error_pos >= 10,
        "Error should be at 'not_a_number', got position {}",
        error_pos
    );

    println!("Error position: {}", error_pos);
    println!("Error: {}", likely_error.to_display_string());
}

#[test]
fn separated_list_test_byte_separator() {
    let data = b"a,b,c";
    let cursor = ByteCursor::new(data);
    let parser = separated_list(
        some(unicode_alphanumeric()).map(|chrs: Vec<char>| chrs.iter().collect::<String>()),
        is_byte(b','),
    );

    let (results, _) = parser.parse(cursor).unwrap();
    assert_eq!(results, vec!["a", "b", "c"]);
}
