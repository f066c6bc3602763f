use vstd::prelude::*;

use crate::byte_cursor::ByteCursor;
use crate::error::{CodeLoc, ErrorModel, ParsicombError};
use crate::parser::Parser;
use crate::text::{dec_text, push_dec};
use super::u64::{u64_model, UIntParser};

verus! {

/// What parsing a signed decimal number at position `i` of `s` yields: an
/// optional sign followed by a digit run, or the exact failure (no digit,
/// or a magnitude that does not fit in an i64).
pub open spec fn i64_model(s: Seq<u8>, i: int) -> Result<(i64, int), ErrorModel<u8>> {
    let neg = i < s.len() && s[i] == 45;
    let j = if i < s.len() && (s[i] == 45 || s[i] == 43) {
        i + 1
    } else {
        i
    };
    match u64_model(s, j) {
        Err(em) => Err(em),
        Ok((v, j2)) => if neg {
            if v > 0x8000000000000000 {
                Err(
                    ErrorModel::syntax(
                        s,
                        j2,
                        "negative number too large: -"@ + dec_text(v as int),
                    ),
                )
            } else if v == 0x8000000000000000 {
                Ok((i64::MIN, j2))
            } else {
                Ok(((-(v as int)) as i64, j2))
            }
        } else {
            if v > 0x7FFFFFFFFFFFFFFF {
                Err(
                    ErrorModel::syntax(s, j2, "positive number too large: "@ + dec_text(v as int)),
                )
            } else {
                Ok((v as i64, j2))
            }
        },
    }
}

/// Parser that matches ASCII integer numbers (positive or negative).
pub struct IntParser;

impl<'code> Parser<'code> for IntParser {
    type Element = u8;

    type Output = i64;

    type OutputV = i64;

    type Error = ParsicombError<'code, u8>;

    open spec fn out_view(o: i64) -> i64 {
        o
    }

    open spec fn wf(&self) -> bool {
        true
    }

    open spec fn obeys_model(&self) -> bool {
        true
    }

    open spec fn model(&self, cursor: ByteCursor<'code>) -> Result<
        (i64, ByteCursor<'code>),
        ErrorModel<u8>,
    > {
        match i64_model(cursor.src(), cursor.pos()) {
            Ok((v, j)) => Ok((v, cursor.spec_at(j))),
            Err(em) => Err(em),
        }
    }

    fn parse(&self, cursor: ByteCursor<'code>) -> (r: Result<
        (i64, ByteCursor<'code>),
        Self::Error,
    >) {
        let mut current = cursor;
        let mut is_negative: bool = false;

        // Check for an optional sign.
        match cursor.value() {
            Ok(b) => {
                if b == 45 {
                    is_negative = true;
                    current = cursor.next();
                } else if b == 43 {
                    // Skip an optional plus sign.
                    current = cursor.next();
                }
            },
            Err(_) => {},
        }

        proof {
            cursor.lemma_src_len_bound();
            super::u64::lemma_digit_run_bound(cursor.src(), current.pos());
        }
        // Parse the unsigned magnitude.
        let (value, end_cursor) = match UIntParser.parse(current) {
            Ok(x) => x,
            Err(e) => {
                return Err(e);
            },
        };

        // Convert to signed, rejecting magnitudes that do not fit.
        if is_negative {
            if value > 0x8000000000000000 {
                let (data, position) = end_cursor.inner();
                let mut message = String::new();
                message.push_str("negative number too large: -");
                push_dec(&mut message, value);
                proof {
                    assert(message@ =~= "negative number too large: -"@ + dec_text(
                        value as int,
                    ));
                }
                return Err(
                    ParsicombError::SyntaxError { message, loc: CodeLoc::new(data, position) },
                );
            }
            if value == 0x8000000000000000 {
                Ok((i64::MIN, end_cursor))
            } else {
                Ok((-(value as i64), end_cursor))
            }
        } else {
            if value > 0x7FFFFFFFFFFFFFFF {
                let (data, position) = end_cursor.inner();
                let mut message = String::new();
                message.push_str("positive number too large: ");
                push_dec(&mut message, value);
                proof {
                    assert(message@ =~= "positive number too large: "@ + dec_text(
                        value as int,
                    ));
                }
                return Err(
                    ParsicombError::SyntaxError { message, loc: CodeLoc::new(data, position) },
                );
            }
            Ok((value as i64, end_cursor))
        }
    }
}

/// Parser that matches ASCII integer numbers (positive or negative).
pub fn i64<'code>() -> (r: IntParser) {
    IntParser
}

} // verus!
