use vstd::prelude::*;

use crate::byte_cursor::ByteCursor;
use crate::error::{CodeLoc, ErrorModel, ParsicombError};
use crate::parser::Parser;

verus! {

/// The result of decoding one UTF-8 character at position `i` of `s`: the
/// scalar value together with the position after it, or the exact failure.
///
/// Every rejection path carries the specific reason and the position the
/// error is anchored at: a truncated sequence points just past the last
/// byte that was read, an invalid continuation byte points past the
/// sequence read so far, and overlong encodings, surrogates and
/// out-of-range codepoints point at the start of the sequence.
pub open spec fn char_model(s: Seq<u8>, i: int) -> Result<(char, int), ErrorModel<u8>> {
    if i >= s.len() {
        Err(ErrorModel::eof_value(s))
    } else {
        let b1 = s[i];
        if b1 < 0x80 {
            // 1-byte sequence: 0xxxxxxx
            Ok((((b1 as u32) as char), i + 1))
        } else if b1 < 0xC0 {
            // continuation byte used as start byte
            Err(ErrorModel::syntax(s, i, "invalid UTF-8 start byte"@))
        } else if b1 < 0xE0 {
            // 2-byte sequence: 110xxxxx 10xxxxxx
            if i + 1 >= s.len() {
                Err(ErrorModel::syntax(s, i + 1, "incomplete UTF-8 sequence"@))
            } else {
                let b2 = s[i + 1];
                if (b2 & 0xC0) != 0x80 {
                    Err(ErrorModel::syntax(s, i + 2, "invalid UTF-8 continuation byte"@))
                } else {
                    let cp = (((b1 as u32) & 0x1F) << 6) | ((b2 as u32) & 0x3F);
                    if cp < 0x80 {
                        Err(ErrorModel::syntax(s, i, "overlong UTF-8 encoding"@))
                    } else {
                        Ok(((cp as char), i + 2))
                    }
                }
            }
        } else if b1 < 0xF0 {
            // 3-byte sequence: 1110xxxx 10xxxxxx 10xxxxxx
            if i + 1 >= s.len() {
                Err(ErrorModel::syntax(s, i + 1, "incomplete UTF-8 sequence"@))
            } else if i + 2 >= s.len() {
                Err(ErrorModel::syntax(s, i + 2, "incomplete UTF-8 sequence"@))
            } else {
                let b2 = s[i + 1];
                let b3 = s[i + 2];
                if (b2 & 0xC0) != 0x80 || (b3 & 0xC0) != 0x80 {
                    Err(ErrorModel::syntax(s, i + 3, "invalid UTF-8 continuation byte"@))
                } else {
                    let cp = (((b1 as u32) & 0x0F) << 12) | (((b2 as u32) & 0x3F) << 6) | ((
                    b3 as u32) & 0x3F);
                    if cp < 0x800 {
                        Err(ErrorModel::syntax(s, i, "overlong UTF-8 encoding"@))
                    } else if 0xD800 <= cp && cp <= 0xDFFF {
                        Err(ErrorModel::syntax(s, i, "UTF-16 surrogate in UTF-8"@))
                    } else {
                        Ok(((cp as char), i + 3))
                    }
                }
            }
        } else if b1 < 0xF8 {
            // 4-byte sequence: 11110xxx 10xxxxxx 10xxxxxx 10xxxxxx
            if i + 1 >= s.len() {
                Err(ErrorModel::syntax(s, i + 1, "incomplete UTF-8 sequence"@))
            } else if i + 2 >= s.len() {
                Err(ErrorModel::syntax(s, i + 2, "incomplete UTF-8 sequence"@))
            } else if i + 3 >= s.len() {
                Err(ErrorModel::syntax(s, i + 3, "incomplete UTF-8 sequence"@))
            } else {
                let b2 = s[i + 1];
                let b3 = s[i + 2];
                let b4 = s[i + 3];
                if (b2 & 0xC0) != 0x80 || (b3 & 0xC0) != 0x80 || (b4 & 0xC0) != 0x80 {
                    Err(ErrorModel::syntax(s, i + 4, "invalid UTF-8 continuation byte"@))
                } else {
                    let cp = (((b1 as u32) & 0x07) << 18) | (((b2 as u32) & 0x3F) << 12) | (((
                    b3 as u32) & 0x3F) << 6) | ((b4 as u32) & 0x3F);
                    if cp < 0x10000 {
                        Err(ErrorModel::syntax(s, i, "overlong UTF-8 encoding"@))
                    } else if cp > 0x10FFFF {
                        Err(ErrorModel::syntax(s, i, "codepoint beyond Unicode range"@))
                    } else {
                        Ok(((cp as char), i + 4))
                    }
                }
            }
        } else {
            // invalid start byte 0xF8-0xFF
            Err(ErrorModel::syntax(s, i, "invalid UTF-8 start byte"@))
        }
    }
}

/// Parser that consumes and returns a single UTF-8 character.
pub struct CharParser;

fn syntax_error<'code>(cursor: &ByteCursor<'code>, message: &str) -> (r: ParsicombError<
    'code,
    u8,
>)
    ensures
        r.leaf_model_spec() == ErrorModel::syntax(cursor.src(), cursor.pos(), message@),
{
    let (data, position) = cursor.inner();
    ParsicombError::SyntaxError { message: message.to_owned(), loc: CodeLoc::new(data, position) }
}

impl<'code> Parser<'code> for CharParser {
    type Element = u8;

    type Output = char;

    type OutputV = char;

    type Error = ParsicombError<'code, u8>;

    open spec fn out_view(o: char) -> char {
        o
    }

    open spec fn wf(&self) -> bool {
        true
    }

    open spec fn obeys_model(&self) -> bool {
        true
    }

    open spec fn model(&self, cursor: ByteCursor<'code>) -> Result<
        (char, ByteCursor<'code>),
        ErrorModel<u8>,
    > {
        match char_model(cursor.src(), cursor.pos()) {
            Ok((c, j)) => Ok((c, cursor.spec_at(j))),
            Err(em) => Err(em),
        }
    }

    #[verifier::rlimit(60)]
    #[verifier::spinoff_prover]
    fn parse(&self, cursor: ByteCursor<'code>) -> (r: Result<
        (char, ByteCursor<'code>),
        Self::Error,
    >) {
        // 1. Read the lead byte.
        let b1 = match cursor.value() {
            Ok(b) => b,
            Err(e) => {
                return Err(e);
            },
        };
        let c1 = cursor.next();

        // 2. Decode based on the lead byte.
        if b1 < 0x80 {
            // ASCII fast path.
            let cp = b1 as u32;
            let ch = char::from_u32(cp).unwrap();
            proof {
                vstd::utf8::char_u32_cast(ch, cp);
                assert(Self::out_view(ch) == ch);
                assert(cursor.pos() < cursor.src().len());
                assert(cursor.src()[cursor.pos()] == b1);
                assert(char_model(cursor.src(), cursor.pos()) == Ok::<
                    (char, int),
                    ErrorModel<u8>,
                >(((b1 as u32) as char, cursor.pos() + 1)));
                assert(ch == (b1 as u32) as char);
                assert(c1 == cursor.spec_at(cursor.pos() + 1));
                assert(self.model(cursor) == Ok::<(char, ByteCursor<'code>), ErrorModel<u8>>(
                    (((b1 as u32) as char), cursor.spec_at(cursor.pos() + 1)),
                ));
            }
            return Ok((ch, c1));
        } else if b1 < 0xC0 {
            return Err(syntax_error(&cursor, "invalid UTF-8 start byte"));
        } else if b1 < 0xE0 {
            // 2-byte sequence: 110xxxxx 10xxxxxx
            let b2 = match c1.value() {
                Ok(b) => b,
                Err(_) => {
                    return Err(syntax_error(&c1, "incomplete UTF-8 sequence"));
                },
            };
            let c2 = c1.next();
            if (b2 & 0xC0) != 0x80 {
                return Err(syntax_error(&c2, "invalid UTF-8 continuation byte"));
            }
            let cp: u32 = (((b1 as u32) & 0x1F) << 6) | ((b2 as u32) & 0x3F);
            if cp < 0x80 {
                return Err(syntax_error(&cursor, "overlong UTF-8 encoding"));
            }
            assert((((b1 as u32) & 0x1F) << 6) | ((b2 as u32) & 0x3F) <= 0x7FF) by (bit_vector);
            let ch = char::from_u32(cp).unwrap();
            proof {
                vstd::utf8::char_u32_cast(ch, cp);
                assert(Self::out_view(ch) == ch);
                assert(ch == (cp as char));
                assert(c2 == cursor.spec_at(cursor.pos() + 2));
                assert(self.model(cursor) == Ok::<(char, ByteCursor<'code>), ErrorModel<u8>>(
                    ((cp as char), cursor.spec_at(cursor.pos() + 2)),
                ));
            }
            Ok((ch, c2))
        } else if b1 < 0xF0 {
            // 3-byte sequence: 1110xxxx 10xxxxxx 10xxxxxx
            let b2 = match c1.value() {
                Ok(b) => b,
                Err(_) => {
                    return Err(syntax_error(&c1, "incomplete UTF-8 sequence"));
                },
            };
            let c2 = c1.next();
            let b3 = match c2.value() {
                Ok(b) => b,
                Err(_) => {
                    return Err(syntax_error(&c2, "incomplete UTF-8 sequence"));
                },
            };
            let c3 = c2.next();
            if (b2 & 0xC0) != 0x80 || (b3 & 0xC0) != 0x80 {
                return Err(syntax_error(&c3, "invalid UTF-8 continuation byte"));
            }
            let cp: u32 = (((b1 as u32) & 0x0F) << 12) | (((b2 as u32) & 0x3F) << 6) | ((
            b3 as u32) & 0x3F);
            if cp < 0x800 {
                return Err(syntax_error(&cursor, "overlong UTF-8 encoding"));
            }
            if 0xD800 <= cp && cp <= 0xDFFF {
                return Err(syntax_error(&cursor, "UTF-16 surrogate in UTF-8"));
            }
            assert((((b1 as u32) & 0x0F) << 12) | (((b2 as u32) & 0x3F) << 6) | ((b3 as u32)
                & 0x3F) <= 0xFFFF) by (bit_vector);
            let ch = char::from_u32(cp).unwrap();
            proof {
                vstd::utf8::char_u32_cast(ch, cp);
                assert(Self::out_view(ch) == ch);
                assert(ch == (cp as char));
                assert(c3 == cursor.spec_at(cursor.pos() + 3));
                assert(self.model(cursor) == Ok::<(char, ByteCursor<'code>), ErrorModel<u8>>(
                    ((cp as char), cursor.spec_at(cursor.pos() + 3)),
                ));
            }
            Ok((ch, c3))
        } else if b1 < 0xF8 {
            // 4-byte sequence: 11110xxx 10xxxxxx 10xxxxxx 10xxxxxx
            let b2 = match c1.value() {
                Ok(b) => b,
                Err(_) => {
                    return Err(syntax_error(&c1, "incomplete UTF-8 sequence"));
                },
            };
            let c2 = c1.next();
            let b3 = match c2.value() {
                Ok(b) => b,
                Err(_) => {
                    return Err(syntax_error(&c2, "incomplete UTF-8 sequence"));
                },
            };
            let c3 = c2.next();
            let b4 = match c3.value() {
                Ok(b) => b,
                Err(_) => {
                    return Err(syntax_error(&c3, "incomplete UTF-8 sequence"));
                },
            };
            let c4 = c3.next();
            if (b2 & 0xC0) != 0x80 || (b3 & 0xC0) != 0x80 || (b4 & 0xC0) != 0x80 {
                return Err(syntax_error(&c4, "invalid UTF-8 continuation byte"));
            }
            let cp: u32 = (((b1 as u32) & 0x07) << 18) | (((b2 as u32) & 0x3F) << 12) | (((
            b3 as u32) & 0x3F) << 6) | ((b4 as u32) & 0x3F);
            if cp < 0x10000 {
                return Err(syntax_error(&cursor, "overlong UTF-8 encoding"));
            }
            if cp > 0x10FFFF {
                return Err(syntax_error(&cursor, "codepoint beyond Unicode range"));
            }
            let ch = char::from_u32(cp).unwrap();
            proof {
                vstd::utf8::char_u32_cast(ch, cp);
                assert(Self::out_view(ch) == ch);
                assert(ch == (cp as char));
                assert(c4 == cursor.spec_at(cursor.pos() + 4));
                assert(self.model(cursor) == Ok::<(char, ByteCursor<'code>), ErrorModel<u8>>(
                    ((cp as char), cursor.spec_at(cursor.pos() + 4)),
                ));
            }
            Ok((ch, c4))
        } else {
            return Err(syntax_error(&cursor, "invalid UTF-8 start byte"));
        }
    }
}

/// Convenience function to create a CharParser.
pub fn char() -> (r: CharParser) {
    CharParser
}

/// The diagnostic for a character that did not match the expected one.
pub open spec fn char_mismatch_text(expected: char, found: char) -> Seq<char> {
    "expected '"@ + seq![expected] + "', found '"@ + seq![found] + "'"@
}

fn char_mismatch_message(expected: char, found: char) -> (s: String)
    ensures
        s@ == char_mismatch_text(expected, found),
{
    let mut s = String::new();
    s.push_str("expected '");
    s.push(expected);
    s.push_str("', found '");
    s.push(found);
    s.push_str("'");
    assert(s@ =~= char_mismatch_text(expected, found));
    s
}

/// Parser that matches a specific character.
pub struct IsChar(pub char);

impl<'code> Parser<'code> for IsChar {
    type Element = u8;

    type Output = char;

    type OutputV = char;

    type Error = ParsicombError<'code, u8>;

    open spec fn out_view(o: char) -> char {
        o
    }

    open spec fn wf(&self) -> bool {
        true
    }

    open spec fn obeys_model(&self) -> bool {
        true
    }

    open spec fn model(&self, cursor: ByteCursor<'code>) -> Result<
        (char, ByteCursor<'code>),
        ErrorModel<u8>,
    > {
        match char_model(cursor.src(), cursor.pos()) {
            Ok((c, j)) => if c == self.0 {
                Ok((c, cursor.spec_at(j)))
            } else {
                Err(
                    ErrorModel::syntax(
                        cursor.src(),
                        cursor.pos(),
                        char_mismatch_text(self.0, c),
                    ),
                )
            },
            Err(em) => Err(em),
        }
    }

    fn parse(&self, cursor: ByteCursor<'code>) -> (r: Result<
        (char, ByteCursor<'code>),
        Self::Error,
    >) {
        let (ch, next_cursor) = match char().parse(cursor) {
            Ok(x) => x,
            Err(e) => {
                return Err(e);
            },
        };
        if ch == self.0 {
            Ok((ch, next_cursor))
        } else {
            let (data, position) = cursor.inner();
            let message = char_mismatch_message(self.0, ch);
            Err(ParsicombError::SyntaxError { message, loc: CodeLoc::new(data, position) })
        }
    }
}

/// Convenience function to create a parser that matches a specific
/// character.
pub fn is_char(expected: char) -> (r: IsChar)
    ensures
        r.0 == expected,
{
    IsChar(expected)
}

} // verus!
