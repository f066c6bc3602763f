use vstd::prelude::*;

use crate::byte_cursor::ByteCursor;
use crate::error::{CodeLoc, ErrorModel, ParsicombError};
use crate::parser::Parser;
use crate::utf8::char::{char_model, CharParser};
use vstd::std_specs::iter::IteratorSpec;

verus! {

/// The diagnostic for a character that did not match while matching a
/// string.
pub open spec fn string_mismatch_text(expected: char, found: char, full: Seq<char>) -> Seq<
    char,
> {
    "expected '"@ + seq![expected] + "', found '"@ + seq![found] + "' while matching '"@ + full
        + "'"@
}

/// The diagnostic for input that ended (or stopped decoding) while matching
/// a string.
pub open spec fn string_eof_text(expected: char, full: Seq<char>) -> Seq<char> {
    "expected '"@ + seq![expected] + "', but reached end of input while matching '"@ + full + "'"@
}

/// What matching the characters `rest` (a suffix of `full`) against the
/// input at position `i` yields: the position after the match, or the exact
/// failure, anchored at the start of the offending character.
pub open spec fn is_string_model(rest: Seq<char>, full: Seq<char>, s: Seq<u8>, i: int) -> Result<
    int,
    ErrorModel<u8>,
>
    decreases rest.len(),
{
    if rest.len() == 0 {
        Ok(i)
    } else {
        match char_model(s, i) {
            Err(_) => Err(ErrorModel::syntax(s, i, string_eof_text(rest[0], full))),
            Ok((c, j)) => if c == rest[0] {
                is_string_model(rest.drop_first(), full, s, j)
            } else {
                Err(ErrorModel::syntax(s, i, string_mismatch_text(rest[0], c, full)))
            },
        }
    }
}

/// Parser that matches an exact UTF-8 string character by character.
pub struct IsStringParser {
    pub expected: &'static str,
}

impl IsStringParser {
    pub fn new(expected: &'static str) -> (r: Self)
        ensures
            r.expected == expected,
    {
        Self { expected }
    }
}

fn string_mismatch_message(expected: char, found: char, full: &str) -> (s: String)
    ensures
        s@ == string_mismatch_text(expected, found, full@),
{
    let mut s = String::new();
    s.push_str("expected '");
    s.push(expected);
    s.push_str("', found '");
    s.push(found);
    s.push_str("' while matching '");
    s.push_str(full);
    s.push_str("'");
    assert(s@ =~= string_mismatch_text(expected, found, full@));
    s
}

fn string_eof_message(expected: char, full: &str) -> (s: String)
    ensures
        s@ == string_eof_text(expected, full@),
{
    let mut s = String::new();
    s.push_str("expected '");
    s.push(expected);
    s.push_str("', but reached end of input while matching '");
    s.push_str(full);
    s.push_str("'");
    assert(s@ =~= string_eof_text(expected, full@));
    s
}

impl<'code> Parser<'code> for IsStringParser {
    type Element = u8;

    type Output = &'static str;

    type OutputV = &'static str;

    type Error = ParsicombError<'code, u8>;

    open spec fn out_view(o: &'static str) -> &'static str {
        o
    }

    open spec fn wf(&self) -> bool {
        true
    }

    open spec fn obeys_model(&self) -> bool {
        true
    }

    open spec fn model(&self, cursor: ByteCursor<'code>) -> Result<
        (&'static str, ByteCursor<'code>),
        ErrorModel<u8>,
    > {
        match is_string_model(self.expected@, self.expected@, cursor.src(), cursor.pos()) {
            Ok(j) => Ok((self.expected, cursor.spec_at(j))),
            Err(em) => Err(em),
        }
    }

    fn parse(&self, cursor: ByteCursor<'code>) -> (r: Result<
        (&'static str, ByteCursor<'code>),
        Self::Error,
    >) {
        broadcast use vstd::string::next_postcondition, vstd::string::axiom_spec_iter;

        let mut current = cursor;
        let mut chars_iter = self.expected.chars();
        let ghost mut processed: int = 0;
        proof {
            assert(cursor.spec_at(cursor.pos()) == cursor);
            assert(IteratorSpec::remaining(&chars_iter) =~= self.expected@.skip(0));
        }
        loop
            invariant_except_break
                current.wf(),
                current.src() == cursor.src(),
                cursor.pos() <= current.pos(),
                current == cursor.spec_at(current.pos()),
                chars_iter.obeys_prophetic_iter_laws(),
                0 <= processed <= self.expected@.len(),
                IteratorSpec::remaining(&chars_iter) == self.expected@.skip(processed),
                is_string_model(self.expected@, self.expected@, cursor.src(), cursor.pos())
                    == is_string_model(
                    self.expected@.skip(processed),
                    self.expected@,
                    cursor.src(),
                    current.pos(),
                ),
            ensures
                current.wf(),
                current.src() == cursor.src(),
                cursor.pos() <= current.pos(),
                current == cursor.spec_at(current.pos()),
                is_string_model(self.expected@, self.expected@, cursor.src(), cursor.pos())
                    == Ok::<int, ErrorModel<u8>>(current.pos()),
            decreases self.expected@.len() - processed,
        {
            let ghost rem = IteratorSpec::remaining(&chars_iter);
            let expected_char = match chars_iter.next() {
                Some(c) => c,
                None => {
                    break;
                },
            };
            proof {
                assert(rem.len() > 0);
                processed = processed + 1;
                assert(IteratorSpec::remaining(&chars_iter) =~= self.expected@.skip(processed));
            }
            proof {
                assert(rem[0] == expected_char);
            }
            match CharParser.parse(current) {
                Ok((parsed_char, new_cursor)) => {
                    if parsed_char == expected_char {
                        proof {
                            match char_model(cursor.src(), current.pos()) {
                                Ok((c, j)) => {
                                    current.lemma_src_len_bound();
                                    assert(new_cursor == current.spec_at(j));
                                    assert(current.spec_at(j) == cursor.spec_at(j));
                                    assert(rem.drop_first() =~= self.expected@.skip(processed));
                                    assert(is_string_model(rem, self.expected@, cursor.src(), current.pos())
                                        == is_string_model(rem.drop_first(), self.expected@, cursor.src(), j));
                                },
                                Err(_) => {
                                    assert(false);
                                },
                            }
                        }
                        current = new_cursor;
                    } else {
                        let (data, position) = current.inner();
                        let message = string_mismatch_message(
                            expected_char,
                            parsed_char,
                            self.expected,
                        );
                        return Err(
                            ParsicombError::SyntaxError { message, loc: CodeLoc::new(data, position) },
                        );
                    }
                },
                Err(_) => {
                    let (data, position) = current.inner();
                    let message = string_eof_message(expected_char, self.expected);
                    return Err(
                        ParsicombError::SyntaxError { message, loc: CodeLoc::new(data, position) },
                    );
                },
            }
        }
        Ok((self.expected, current))
    }
}

/// Convenience function to create an IsStringParser.
pub fn is_string(expected: &'static str) -> (r: IsStringParser)
    ensures
        r.expected == expected,
{
    IsStringParser::new(expected)
}

} // verus!
