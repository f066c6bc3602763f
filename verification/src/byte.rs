use vstd::prelude::*;

use crate::byte_cursor::ByteCursor;
use crate::error::{CodeLoc, ErrorModel, ParsicombError};
use crate::parser::Parser;
use crate::text::{byte_char_text, hex_byte_text, push_byte_char, push_hex_byte};

verus! {

/// Parser that consumes and returns a single byte.
pub struct ByteParser;

impl ByteParser {
    pub fn new() -> (r: Self) {
        ByteParser
    }
}

/// Convenience function to create a ByteParser.
pub fn byte() -> (r: ByteParser) {
    ByteParser::new()
}

impl<'code> Parser<'code> for ByteParser {
    type Element = u8;

    type Output = u8;

    type OutputV = u8;

    type Error = ParsicombError<'code, u8>;

    open spec fn out_view(o: u8) -> u8 {
        o
    }

    open spec fn wf(&self) -> bool {
        true
    }

    open spec fn obeys_model(&self) -> bool {
        true
    }

    open spec fn model(&self, cursor: ByteCursor<'code>) -> Result<
        (u8, ByteCursor<'code>),
        ErrorModel<u8>,
    > {
        if cursor.pos() < cursor.src().len() {
            Ok((cursor.src()[cursor.pos()], cursor.spec_next()))
        } else {
            Err(ErrorModel::eof_value(cursor.src()))
        }
    }

    fn parse(&self, cursor: ByteCursor<'code>) -> (r: Result<
        (u8, ByteCursor<'code>),
        Self::Error,
    >) {
        match cursor.value() {
            Ok(b) => Ok((b, cursor.next())),
            Err(e) => Err(e),
        }
    }
}

/// The diagnostic for a byte that did not match the expected one.
pub open spec fn byte_mismatch_text(expected: u8, found: u8) -> Seq<char> {
    "expected byte 0x"@ + hex_byte_text(expected) + " ('"@ + byte_char_text(expected)
        + "'), found 0x"@ + hex_byte_text(found) + " ('"@ + byte_char_text(found) + "')"@
}

/// The diagnostic for a byte outside the expected inclusive range.
pub open spec fn byte_range_text(start: u8, end: u8, found: u8) -> Seq<char> {
    "expected byte in range 0x"@ + hex_byte_text(start) + "-0x"@ + hex_byte_text(end) + " ('"@
        + byte_char_text(start) + "'-'"@ + byte_char_text(end) + "'), found 0x"@ + hex_byte_text(
        found,
    ) + " ('"@ + byte_char_text(found) + "')"@
}

fn byte_mismatch_message(expected: u8, found: u8) -> (s: String)
    ensures
        s@ == byte_mismatch_text(expected, found),
{
    let mut s = String::new();
    s.push_str("expected byte 0x");
    push_hex_byte(&mut s, expected);
    s.push_str(" ('");
    push_byte_char(&mut s, expected);
    s.push_str("'), found 0x");
    push_hex_byte(&mut s, found);
    s.push_str(" ('");
    push_byte_char(&mut s, found);
    s.push_str("')");
    assert(s@ =~= byte_mismatch_text(expected, found));
    s
}

fn byte_range_message(start: u8, end: u8, found: u8) -> (s: String)
    ensures
        s@ == byte_range_text(start, end, found),
{
    let mut s = String::new();
    s.push_str("expected byte in range 0x");
    push_hex_byte(&mut s, start);
    s.push_str("-0x");
    push_hex_byte(&mut s, end);
    s.push_str(" ('");
    push_byte_char(&mut s, start);
    s.push_str("'-'");
    push_byte_char(&mut s, end);
    s.push_str("'), found 0x");
    push_hex_byte(&mut s, found);
    s.push_str(" ('");
    push_byte_char(&mut s, found);
    s.push_str("')");
    assert(s@ =~= byte_range_text(start, end, found));
    s
}

/// Parser that matches a specific byte.
pub struct IsByteParser {
    pub expected: u8,
}

impl IsByteParser {
    pub fn new(expected: u8) -> (r: Self)
        ensures
            r.expected == expected,
    {
        IsByteParser { expected }
    }
}

impl<'code> Parser<'code> for IsByteParser {
    type Element = u8;

    type Output = u8;

    type OutputV = u8;

    type Error = ParsicombError<'code, u8>;

    open spec fn out_view(o: u8) -> u8 {
        o
    }

    open spec fn wf(&self) -> bool {
        true
    }

    open spec fn obeys_model(&self) -> bool {
        true
    }

    open spec fn model(&self, cursor: ByteCursor<'code>) -> Result<
        (u8, ByteCursor<'code>),
        ErrorModel<u8>,
    > {
        if cursor.pos() < cursor.src().len() {
            if cursor.src()[cursor.pos()] == self.expected {
                Ok((cursor.src()[cursor.pos()], cursor.spec_next()))
            } else {
                Err(
                    ErrorModel::syntax(
                        cursor.src(),
                        cursor.pos(),
                        byte_mismatch_text(self.expected, cursor.src()[cursor.pos()]),
                    ),
                )
            }
        } else {
            Err(ErrorModel::eof_value(cursor.src()))
        }
    }

    fn parse(&self, cursor: ByteCursor<'code>) -> (r: Result<
        (u8, ByteCursor<'code>),
        Self::Error,
    >) {
        match cursor.value() {
            Ok(b) => {
                if b == self.expected {
                    Ok((b, cursor.next()))
                } else {
                    let (data, position) = cursor.inner();
                    let message = byte_mismatch_message(self.expected, b);
                    Err(ParsicombError::SyntaxError { message, loc: CodeLoc::new(data, position) })
                }
            },
            Err(e) => Err(e),
        }
    }
}

/// Parser that matches a byte within an inclusive range.
pub struct BetweenBytesParser {
    pub start: u8,
    pub end: u8,
}

impl BetweenBytesParser {
    pub fn new(start: u8, end: u8) -> (r: Self)
        ensures
            r.start == start,
            r.end == end,
    {
        BetweenBytesParser { start, end }
    }
}

impl<'code> Parser<'code> for BetweenBytesParser {
    type Element = u8;

    type Output = u8;

    type OutputV = u8;

    type Error = ParsicombError<'code, u8>;

    open spec fn out_view(o: u8) -> u8 {
        o
    }

    open spec fn wf(&self) -> bool {
        true
    }

    open spec fn obeys_model(&self) -> bool {
        true
    }

    open spec fn model(&self, cursor: ByteCursor<'code>) -> Result<
        (u8, ByteCursor<'code>),
        ErrorModel<u8>,
    > {
        if cursor.pos() < cursor.src().len() {
            if self.start <= cursor.src()[cursor.pos()] && cursor.src()[cursor.pos()]
                <= self.end {
                Ok((cursor.src()[cursor.pos()], cursor.spec_next()))
            } else {
                Err(
                    ErrorModel::syntax(
                        cursor.src(),
                        cursor.pos(),
                        byte_range_text(self.start, self.end, cursor.src()[cursor.pos()]),
                    ),
                )
            }
        } else {
            Err(ErrorModel::eof_value(cursor.src()))
        }
    }

    fn parse(&self, cursor: ByteCursor<'code>) -> (r: Result<
        (u8, ByteCursor<'code>),
        Self::Error,
    >) {
        match cursor.value() {
            Ok(b) => {
                if self.start <= b && b <= self.end {
                    Ok((b, cursor.next()))
                } else {
                    let (data, position) = cursor.inner();
                    let message = byte_range_message(self.start, self.end, b);
                    Err(ParsicombError::SyntaxError { message, loc: CodeLoc::new(data, position) })
                }
            },
            Err(e) => Err(e),
        }
    }
}

/// Convenience function to create an IsByteParser.
pub fn is_byte(expected: u8) -> (r: IsByteParser)
    ensures
        r.expected == expected,
{
    IsByteParser::new(expected)
}

/// Convenience function to create a BetweenBytesParser.
pub fn between_bytes(start: u8, end: u8) -> (r: BetweenBytesParser)
    ensures
        r.start == start,
        r.end == end,
{
    BetweenBytesParser::new(start, end)
}

} // verus!
