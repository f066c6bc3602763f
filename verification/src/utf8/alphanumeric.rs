use vstd::prelude::*;

use crate::byte_cursor::ByteCursor;
use crate::error::{CodeLoc, ErrorModel, ParsicombError};
use crate::filter::FilterError;
use crate::parser::Parser;
use crate::utf8::char::char_model;

verus! {

/// What `char::is_alphanumeric` returns; it depends on the character alone.
pub uninterp spec fn char_alphanumeric(c: char) -> bool;

/// Relies on `char::is_alphanumeric`: whether the character is a Unicode letter or digit.
pub assume_specification[ std::primitive::char::is_alphanumeric ](c: std::primitive::char) -> (r:
    bool)
    ensures
        r == char_alphanumeric(c),
;

/// Parser that matches one UTF-8 character that is a Unicode letter or digit.
pub struct UnicodeAlphanumericParser;

impl<'code> Parser<'code> for UnicodeAlphanumericParser {
    type Element = u8;

    type Output = char;

    type OutputV = char;

    type Error = FilterError<'code, ParsicombError<'code, u8>, u8>;

    open spec fn out_view(o: char) -> char {
        o
    }

    open spec fn wf(&self) -> bool {
        true
    }

    open spec fn obeys_model(&self) -> bool {
        true
    }

    open spec fn model(&self, cursor: ByteCursor<'code>) -> Result<
        (char, ByteCursor<'code>),
        ErrorModel<u8>,
    > {
        match char_model(cursor.src(), cursor.pos()) {
            Err(em) => Err(em),
            Ok((c, j)) => if char_alphanumeric(c) {
                Ok((c, cursor.spec_at(j)))
            } else {
                Err(ErrorModel::syntax(cursor.src(), cursor.pos(), "expected Unicode letter or digit"@))
            },
        }
    }

    fn parse(&self, cursor: ByteCursor<'code>) -> (r: Result<
        (char, ByteCursor<'code>),
        Self::Error,
    >) {
        let (ch, next_cursor) = match crate::utf8::char::char().parse(cursor) {
            Ok(x) => x,
            Err(e) => {
                return Err(FilterError::ParserError(e));
            },
        };
        if ch.is_alphanumeric() {
            Ok((ch, next_cursor))
        } else {
            let (data, position) = cursor.inner();
            Err(
                FilterError::FilterFailed(
                    ParsicombError::SyntaxError {
                        message: "expected Unicode letter or digit".to_owned(),
                        loc: CodeLoc::new(data, position),
                    },
                ),
            )
        }
    }
}

/// Convenience function to create the parser.
pub fn unicode_alphanumeric() -> (r: UnicodeAlphanumericParser) {
    UnicodeAlphanumericParser
}

} // verus!
