use parsicomb::ByteCursor;
use parsicomb::Parser;
use parsicomb::utf8::unicode_digit;

#[test]
fn test_ascii_digits() {
    for digit in '0'..='9' {
        let input = digit.to_string();
        let data = input.as_bytes();
        let cursor = ByteCursor::new(data);
        let parser = unicode_digit();

        let (ch, _) = parser.parse(cursor).unwrap();
        assert_eq!(ch, digit, "Failed for ASCII digit: {}", digit);
    }
}

#[test]
fn digit_test_unicode_digits() {
    let test_cases = [
        // Arabic-Indic digits
        ("\u{0660}", '\u{0660}'), // U+0660 Arabic-Indic digit zero
        ("\u{0661}", '\u{0661}'), // U+0661 Arabic-Indic digit one
        ("\u{0669}", '\u{0669}'), // U+0669 Arabic-Indic digit nine
        // Devanagari digits
        ("\u{0966}", '\u{0966}'), // U+0966 Devanagari digit zero
        ("\u{0967}", '\u{0967}'), // U+0967 Devanagari digit one
        ("\u{096F}", '\u{096F}'), // U+096F Devanagari digit nine
        // Fullwidth digits
        ("\u{FF10}", '\u{FF10}'), // U+FF10 Fullwidth digit zero
        ("\u{FF15}", '\u{FF15}'), // U+FF15 Fullwidth digit five
        ("\u{FF19}", '\u{FF19}'), // U+FF19 Fullwidth digit nine
    ];

    for (input, expected) in test_cases {
        let data = input.as_bytes();
        let cursor = ByteCursor::new(data);
        let parser = unicode_digit();

        let (ch, _) = parser.parse(cursor).unwrap();
        assert_eq!(
            ch, expected,
            "Failed for Unicode digit: {} (U+{:04X})",
            input, expected as u32
        );
    }
}

#[test]
fn test_non_digits_fail() {
    let non_digits = ["a", "A", "!", " ", "\t", ".", "\u{f1}", "\u{4e2d}", "\u{1f680}", "\u{3b1}", "\u{3a9}"];

    for input in non_digits {
        let data = input.as_bytes();
        let cursor = ByteCursor::new(data);
        let parser = unicode_digit();

        let result = parser.parse(cursor);
        assert!(result.is_err(), "Expected error for non-digit: {}", input);
        assert!(
            parsicomb::ErrorNode::likely_error(&result.unwrap_err())
                .to_display_string()
                .contains("expected Unicode digit"),
            "Wrong error message for: {}",
            input
        );
    }
}

#[test]
fn digit_test_empty_input() {
    let data = b"";
    let cursor = ByteCursor::new(data);
    let parser = unicode_digit();

    let result = parser.parse(cursor);
    assert!(result.is_err(), "Expected error for empty input");
}
