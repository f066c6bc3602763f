use parsicomb::ByteCursor;
use parsicomb::Cursor;
use parsicomb::ErrorNode;
use parsicomb::Parser;
use parsicomb::filter::FilterExt;
use parsicomb::utf8::char::char;

#[test]
fn test_filter_success() {
    let input = "a";
    let data = input.as_bytes();
    let cursor = ByteCursor::new(data);

    let parser = char().filter(|c| c.is_alphabetic(), "expected alphabetic character");
    let (result, _) = parser.parse(cursor).unwrap();
    assert_eq!(result, 'a');
}

#[test]
fn test_filter_failure() {
    let input = "1";
    let data = input.as_bytes();
    let cursor = ByteCursor::new(data);

    let parser = char().filter(|c| c.is_alphabetic(), "expected alphabetic character");
    let result = parser.parse(cursor);
    assert!(result.is_err());
    assert!(
        result
            .unwrap_err()
            .likely_error()
            .to_display_string()
            .contains("expected alphabetic character")
    );
}

#[test]
fn test_filter_unicode_letter() {
    let test_cases = [
        ("a", true),
        ("Z", true),
        ("ñ", true),
        ("中", true),
        ("1", false),
        ("!", false),
        (" ", false),
    ];

    for (input, should_succeed) in test_cases {
        let data = input.as_bytes();
        let cursor = ByteCursor::new(data);

        let parser = char().filter(|c| c.is_alphabetic(), "expected letter");
        let result = parser.parse(cursor);

        if should_succeed {
            assert!(result.is_ok(), "Expected success for: {}", input);
            let (ch, _) = result.unwrap();
            assert_eq!(ch, input.chars().next().unwrap());
        } else {
            assert!(result.is_err(), "Expected failure for: {}", input);
        }
    }
}

#[test]
fn test_filter_unicode_digit() {
    let test_cases = [
        ("0", true),
        ("9", true),
        ("٥", true),  // Arabic-Indic digit
        ("５", true), // Fullwidth digit
        ("a", false),
        ("!", false),
    ];

    for (input, should_succeed) in test_cases {
        let data = input.as_bytes();
        let cursor = ByteCursor::new(data);

        let parser = char().filter(|c| c.is_numeric(), "expected digit");
        let result = parser.parse(cursor);

        if should_succeed {
            assert!(result.is_ok(), "Expected success for: {}", input);
        } else {
            assert!(result.is_err(), "Expected failure for: {}", input);
        }
    }
}

#[test]
fn test_filter_unicode_alphanumeric() {
    let test_cases = [
        ("a", true),
        ("Z", true),
        ("5", true),
        ("ñ", true),
        ("中", true),
        ("٥", true),
        ("!", false),
        (" ", false),
        ("@", false),
    ];

    for (input, should_succeed) in test_cases {
        let data = input.as_bytes();
        let cursor = ByteCursor::new(data);

        let parser = char().filter(|c| c.is_alphanumeric(), "expected alphanumeric");
        let result = parser.parse(cursor);

        if should_succeed {
            assert!(result.is_ok(), "Expected success for: {}", input);
        } else {
            assert!(result.is_err(), "Expected failure for: {}", input);
        }
    }
}

#[test]
fn test_filter_unicode_whitespace() {
    let test_cases = [
        (" ", true),
        ("\t", true),
        ("\n", true),
        ("\r", true),
        ("\u{00A0}", true), // Non-breaking space
        ("\u{2000}", true), // En quad
        ("a", false),
        ("1", false),
        ("!", false),
    ];

    for (input, should_succeed) in test_cases {
        let data = input.as_bytes();
        let cursor = ByteCursor::new(data);

        let parser = char().filter(|c| c.is_whitespace(), "expected whitespace");
        let result = parser.parse(cursor);

        if should_succeed {
            assert!(result.is_ok(), "Expected success for: {}", input);
        } else {
            assert!(result.is_err(), "Expected failure for: {}", input);
        }
    }
}

#[test]
fn test_chained_filters() {
    let input = "A";
    let data = input.as_bytes();
    let cursor = ByteCursor::new(data);

    // Filter for alphabetic AND uppercase
    let parser = char()
        .filter(|c| c.is_alphabetic(), "expected letter")
        .filter(|c| c.is_uppercase(), "expected uppercase");

    let (result, _) = parser.parse(cursor).unwrap();
    assert_eq!(result, 'A');
}

#[test]
fn test_chained_filters_failure() {
    let input = "a";
    let data = input.as_bytes();
    let cursor = ByteCursor::new(data);

    // Filter for alphabetic AND uppercase - should fail on uppercase check
    let parser = char()
        .filter(|c| c.is_alphabetic(), "expected letter")
        .filter(|c| c.is_uppercase(), "expected uppercase");

    let result = parser.parse(cursor);
    assert!(result.is_err());
    assert!(
        result
            .unwrap_err()
            .likely_error()
            .to_display_string()
            .contains("expected uppercase")
    );
}