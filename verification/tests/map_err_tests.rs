use parsicomb::byte::is_byte;
use parsicomb::error::{ErrorLeaf, ErrorNode, ParsicombError};
use parsicomb::filter::FilterError;
use parsicomb::map_err::{map_err, MapErrExt};
use parsicomb::{ByteCursor, Cursor, Parser};

#[test]
fn test_map_err_rewraps_failure() {
    let data = b"xyz";
    let cursor = ByteCursor::new(data);
    let parser = is_byte(b'a').map_err(|e: ParsicombError<u8>| {
        FilterError::<ParsicombError<u8>, u8>::ParserError(e)
    });

    let result = parser.parse(cursor);
    assert!(result.is_err());
    let error = result.unwrap_err();
    assert!(matches!(error, FilterError::ParserError(_)));
    // The mapping rewraps the error; the resolved leaf stays where it was.
    assert_eq!(error.likely_error().loc().position(), 0);
}

#[test]
fn test_map_err_leaves_success_untouched() {
    let data = b"abc";
    let cursor = ByteCursor::new(data);
    let parser = map_err(is_byte(b'a'), |e: ParsicombError<u8>| {
        FilterError::<ParsicombError<u8>, u8>::ParserError(e)
    });

    let (byte, rest) = parser.parse(cursor).unwrap();
    assert_eq!(byte, b'a');
    assert_eq!(rest.value().unwrap(), b'b');
}

#[test]
fn test_map_err_transforms_message() {
    let data = b"xyz";
    let cursor = ByteCursor::new(data);
    // The mapper may replace the failure's kind and message, as long as it
    // keeps pointing at the same place.
    let parser = is_byte(b'a').map_err(|e: ParsicombError<u8>| {
        let loc = e.loc();
        ParsicombError::SyntaxError {
            message: "mapped error".into(),
            loc,
        }
    });

    let result = parser.parse(cursor);
    assert!(result.is_err());
    let error = result.unwrap_err();
    assert_eq!(error.position(), 0);
    assert!(error.to_display_string().contains("mapped error"));
}

#[test]
fn test_map_err_chain() {
    let data = b"xyz";
    let cursor = ByteCursor::new(data);
    let parser = is_byte(b'a')
        .map_err(|e: ParsicombError<u8>| {
            let loc = e.loc();
            ParsicombError::SyntaxError {
                message: "first".into(),
                loc,
            }
        })
        .map_err(|e: ParsicombError<u8>| {
            let loc = e.loc();
            ParsicombError::SyntaxError {
                message: "second".into(),
                loc,
            }
        });

    let result = parser.parse(cursor);
    assert!(result.is_err());
    let error = result.unwrap_err();
    assert!(error.to_display_string().contains("second"));
}

#[test]
fn test_map_err_convenience_function() {
    let data = b"q";
    let cursor = ByteCursor::new(data);
    let parser = map_err(is_byte(b'a'), |e: ParsicombError<u8>| {
        let loc = e.loc();
        ParsicombError::SyntaxError {
            message: "function syntax error".into(),
            loc,
        }
    });

    let result = parser.parse(cursor);
    assert!(result.is_err());
    assert!(result
        .unwrap_err()
        .to_display_string()
        .contains("function syntax error"));
}
