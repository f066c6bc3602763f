use vstd::prelude::*;

use crate::byte_cursor::ByteCursor;
use crate::error::ErrorModel;
use crate::many::{out_views, parse_repeat};
use crate::parser::Parser;
use super::{skip_whitespace, UnicodeWhitespaceParser};

verus! {

/// The model of the tail of a whitespace-aware separated list: repeatedly,
/// optional whitespace, a separator, optional whitespace, and a required
/// element.
///
/// A separator failure ends the list just before the whitespace that
/// preceded it; an element failure after a matched separator is a hard
/// error. A round that consumes nothing ends the list.
pub open spec fn ws_list_rest_model<'code, P, PS>(
    p: P,
    sep: PS,
    cursor: ByteCursor<'code>,
) -> Result<(Seq<P::OutputV>, ByteCursor<'code>), ErrorModel<u8>> where
    P: Parser<'code, Element = u8>,
    PS: Parser<'code, Element = u8>,

    decreases cursor.src().len() - cursor.pos(),
{
    match sep.model(skip_whitespace(cursor)) {
        Err(_) => Ok((Seq::empty(), cursor)),
        Ok((_, b)) => match p.model(skip_whitespace(b)) {
            Err(e) => Err(e),
            Ok((v, d)) => {
                if d.src() == cursor.src() && cursor.pos() < d.pos() && d.pos()
                    <= cursor.src().len() {
                    match ws_list_rest_model(p, sep, d) {
                        Ok((rest, end)) => Ok((seq![v] + rest, end)),
                        Err(e) => Err(e),
                    }
                } else {
                    Ok((seq![v], d))
                }
            },
        },
    }
}

/// Parser combinator that matches a list of items separated by a parser,
/// with optional Unicode whitespace around the separator.
///
/// Requires at least one item; a separator with no following item is a hard
/// error.
pub struct SeparatedList<P, PS> {
    pub parser: P,
    pub separator: PS,
}

impl<P, PS> SeparatedList<P, PS> {
    pub fn new(parser: P, separator: PS) -> (r: Self)
        ensures
            r.parser == parser,
            r.separator == separator,
    {
        SeparatedList { parser, separator }
    }
}

impl<'code, P, PS> Parser<'code> for SeparatedList<P, PS> where
    P: Parser<'code, Element = u8>,
    PS: Parser<'code, Element = u8>,
 {
    type Element = u8;

    type Output = Vec<P::Output>;

    type OutputV = Seq<P::OutputV>;

    type Error = P::Error;

    open spec fn out_view(o: Vec<P::Output>) -> Seq<P::OutputV> {
        out_views::<P>(o@)
    }

    open spec fn wf(&self) -> bool {
        self.parser.wf() && self.separator.wf()
    }

    open spec fn obeys_model(&self) -> bool {
        self.parser.obeys_model() && self.separator.obeys_model()
    }

    open spec fn model(&self, cursor: ByteCursor<'code>) -> Result<
        (Seq<P::OutputV>, ByteCursor<'code>),
        ErrorModel<u8>,
    > {
        match self.parser.model(cursor) {
            Err(e) => Err(e),
            Ok((first, c1)) => match ws_list_rest_model(self.parser, self.separator, c1) {
                Ok((rest, end)) => Ok((seq![first] + rest, end)),
                Err(e) => Err(e),
            },
        }
    }

    fn parse(&self, cursor: ByteCursor<'code>) -> (r: Result<
        (Self::Output, ByteCursor<'code>),
        Self::Error,
    >) {
        // Parse the first element (required).
        let (first_value, first_cursor) = match self.parser.parse(cursor) {
            Ok(x) => x,
            Err(e) => {
                return Err(e);
            },
        };
        let mut results: Vec<P::Output> = Vec::new();
        results.push(first_value);
        proof {
            assert(out_views::<P>(results@) =~= seq![P::out_view(first_value)]);
        }
        let mut current = first_cursor;
        loop
            invariant_except_break
                self.parser.wf(),
                self.separator.wf(),
                current.wf(),
                current.src() == cursor.src(),
                cursor.pos() <= current.pos(),
                self.obeys_model() ==> (match ws_list_rest_model(
                    self.parser,
                    self.separator,
                    current,
                ) {
                    Ok((rest, end)) => self.model(cursor) == Ok::<_, ErrorModel<u8>>(
                        (out_views::<P>(results@) + rest, end),
                    ),
                    Err(em) => self.model(cursor) == Err::<
                        (Seq<P::OutputV>, ByteCursor<'code>),
                        _,
                    >(em),
                }),
            ensures
                current.wf(),
                current.src() == cursor.src(),
                cursor.pos() <= current.pos(),
                self.obeys_model() ==> self.model(cursor) == Ok::<_, ErrorModel<u8>>(
                    (out_views::<P>(results@), current),
                ),
            decreases cursor.src().len() - current.pos(),
        {
            // Try: whitespace*, separator, whitespace*; if the separator is
            // missing, the list ends before the whitespace.
            let (_, ws1_cursor) = parse_repeat(&UnicodeWhitespaceParser, current);
            let (_, sep_cursor) = match self.separator.parse(ws1_cursor) {
                Ok(x) => x,
                Err(_) => {
                    proof {
                        if self.obeys_model() {
                            assert(out_views::<P>(results@) + Seq::<P::OutputV>::empty()
                                =~= out_views::<P>(results@));
                        }
                    }
                    break;
                },
            };
            let (_, ws2_cursor) = parse_repeat(&UnicodeWhitespaceParser, sep_cursor);
            // Parse the next element (required after a separator).
            let (value, next_cursor) = match self.parser.parse(ws2_cursor) {
                Ok(x) => x,
                Err(e) => {
                    return Err(e);
                },
            };
            let ghost prev = out_views::<P>(results@);
            let stalled: bool = next_cursor.position() == current.position();
            results.push(value);
            proof {
                assert(out_views::<P>(results@) =~= prev.push(P::out_view(value)));
                assert(out_views::<P>(results@) =~= prev + seq![P::out_view(value)]);
                if self.obeys_model() && !stalled {
                    match ws_list_rest_model(self.parser, self.separator, next_cursor) {
                        Ok((rest, end)) => {
                            assert(prev + (seq![P::out_view(value)] + rest)
                                =~= out_views::<P>(results@) + rest);
                        },
                        Err(_) => {},
                    }
                }
            }
            current = next_cursor;
            if stalled {
                break;
            }
        }
        Ok((results, current))
    }
}

/// Creates a whitespace-aware parser that matches a list of items separated
/// by the given parser.
pub fn separated_list<'code, P, PS>(parser: P, separator: PS) -> (r: SeparatedList<P, PS>) where
    P: Parser<'code, Element = u8>,
    PS: Parser<'code, Element = u8>,

    ensures
        r.parser == parser,
        r.separator == separator,
{
    SeparatedList::new(parser, separator)
}

} // verus!
