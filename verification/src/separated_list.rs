use vstd::prelude::*;

use crate::cursors::AtomicCursor;
use crate::error::{ErrorModel, ErrorNode, ParsicombError};
use crate::many::out_views;
use crate::parser::Parser;

verus! {

/// Error type for the SeparatedList parser.
#[derive(Debug)]
pub enum SeparatedListError<E1, E2> {
    /// Error from the element parser.
    Element(E1),
    /// Error from the separator parser.
    Separator(E2),
}

impl<'code, E1, E2, T: crate::atomic::Atomic> ErrorNode<'code> for SeparatedListError<
    E1,
    E2,
> where
    E1: ErrorNode<'code, Element = T>,
    E2: ErrorNode<'code, Element = T>,
 {
    type Element = T;

    open spec fn leaf_model(&self) -> ErrorModel<T> {
        match *self {
            SeparatedListError::Element(ref e) => e.leaf_model(),
            SeparatedListError::Separator(ref e) => e.leaf_model(),
        }
    }

    fn likely_error(&self) -> (r: &ParsicombError<'code, T>) {
        match self {
            SeparatedListError::Element(e) => e.likely_error(),
            SeparatedListError::Separator(e) => e.likely_error(),
        }
    }
}

/// The model of the tail of a separated list: repeatedly, a separator match
/// followed by a required element.
///
/// A separator failure ends the list before it; an element failure after a
/// matched separator is a hard error (trailing separators are rejected by
/// design). A round that consumes nothing ends the list (it would otherwise
/// repeat forever); its element is still collected.
pub open spec fn separated_list_rest_model<'code, P, PS>(
    p: P,
    sep: PS,
    cursor: AtomicCursor<'code, P::Element>,
) -> Result<
    (Seq<P::OutputV>, AtomicCursor<'code, P::Element>),
    ErrorModel<P::Element>,
> where P: Parser<'code>, PS: Parser<'code, Element = P::Element>
    decreases cursor.src().len() - cursor.pos(),
{
    match sep.model(cursor) {
        Err(_) => Ok((Seq::empty(), cursor)),
        Ok((_, c1)) => match p.model(c1) {
            Err(e) => Err(e),
            Ok((v, c2)) => {
                if c2.src() == cursor.src() && cursor.pos() < c2.pos() && c2.pos()
                    <= cursor.src().len() {
                    match separated_list_rest_model(p, sep, c2) {
                        Ok((rest, end)) => Ok((seq![v] + rest, end)),
                        Err(e) => Err(e),
                    }
                } else {
                    Ok((seq![v], c2))
                }
            },
        },
    }
}

/// Parser combinator that matches a list of items separated by a parser.
///
/// Requires at least one item; after the first, repeatedly tries the
/// separator and then requires another item. A separator match with no
/// following item is a hard error: trailing separators are rejected, not
/// silently tolerated.
pub struct SeparatedList<P, PS> {
    pub parser: P,
    pub separator: PS,
}

impl<P, PS> SeparatedList<P, PS> {
    pub fn new(parser: P, separator: PS) -> (r: Self)
        ensures
            r.parser == parser,
            r.separator == separator,
    {
        SeparatedList { parser, separator }
    }
}

impl<'code, P, PS> Parser<'code> for SeparatedList<P, PS> where
    P: Parser<'code>,
    PS: Parser<'code, Element = P::Element>,
 {
    type Element = P::Element;

    type Output = Vec<P::Output>;

    type OutputV = Seq<P::OutputV>;

    type Error = P::Error;

    open spec fn out_view(o: Vec<P::Output>) -> Seq<P::OutputV> {
        out_views::<P>(o@)
    }

    open spec fn wf(&self) -> bool {
        self.parser.wf() && self.separator.wf()
    }

    open spec fn obeys_model(&self) -> bool {
        self.parser.obeys_model() && self.separator.obeys_model()
    }

    open spec fn model(&self, cursor: AtomicCursor<'code, P::Element>) -> Result<
        (Seq<P::OutputV>, AtomicCursor<'code, P::Element>),
        ErrorModel<P::Element>,
    > {
        match self.parser.model(cursor) {
            Err(e) => Err(e),
            Ok((first, c1)) => match separated_list_rest_model(self.parser, self.separator, c1) {
                Ok((rest, end)) => Ok((seq![first] + rest, end)),
                Err(e) => Err(e),
            },
        }
    }

    fn parse(&self, cursor: AtomicCursor<'code, P::Element>) -> (r: Result<
        (Self::Output, AtomicCursor<'code, P::Element>),
        Self::Error,
    >) {
        // Parse the first element (required).
        let (first_value, first_cursor) = match self.parser.parse(cursor) {
            Ok(x) => x,
            Err(e) => {
                return Err(e);
            },
        };
        let mut results: Vec<P::Output> = Vec::new();
        results.push(first_value);
        proof {
            assert(out_views::<P>(results@) =~= seq![P::out_view(first_value)]);
        }
        let mut current = first_cursor;
        loop
            invariant_except_break
                self.parser.wf(),
                self.separator.wf(),
                current.wf(),
                current.src() == cursor.src(),
                cursor.pos() <= current.pos(),
                self.obeys_model() ==> (match separated_list_rest_model(
                    self.parser,
                    self.separator,
                    current,
                ) {
                    Ok((rest, end)) => self.model(cursor) == Ok::<_, ErrorModel<P::Element>>(
                        (out_views::<P>(results@) + rest, end),
                    ),
                    Err(em) => self.model(cursor) == Err::<
                        (Seq<P::OutputV>, AtomicCursor<'code, P::Element>),
                        _,
                    >(em),
                }),
            ensures
                current.wf(),
                current.src() == cursor.src(),
                cursor.pos() <= current.pos(),
                self.obeys_model() ==> self.model(cursor) == Ok::<_, ErrorModel<P::Element>>(
                    (out_views::<P>(results@), current),
                ),
            decreases cursor.src().len() - current.pos(),
        {
            // Try to parse a separator; if none, the list ends here.
            let (_, sep_cursor) = match self.separator.parse(current) {
                Ok(x) => x,
                Err(_) => {
                    proof {
                        if self.obeys_model() {
                            assert(out_views::<P>(results@) + Seq::<P::OutputV>::empty()
                                =~= out_views::<P>(results@));
                        }
                    }
                    break;
                },
            };
            // Parse the next element (required after a separator).
            let (value, next_cursor) = match self.parser.parse(sep_cursor) {
                Ok(x) => x,
                Err(e) => {
                    return Err(e);
                },
            };
            let ghost prev = out_views::<P>(results@);
            let stalled: bool = next_cursor.position() == current.position();
            results.push(value);
            proof {
                assert(out_views::<P>(results@) =~= prev.push(P::out_view(value)));
                assert(out_views::<P>(results@) =~= prev + seq![P::out_view(value)]);
                if self.obeys_model() && !stalled {
                    match separated_list_rest_model(self.parser, self.separator, next_cursor) {
                        Ok((rest, end)) => {
                            assert(prev + (seq![P::out_view(value)] + rest)
                                =~= out_views::<P>(results@) + rest);
                        },
                        Err(_) => {},
                    }
                }
            }
            current = next_cursor;
            if stalled {
                break;
            }
        }
        Ok((results, current))
    }
}

/// Creates a parser that matches a list of items separated by the given
/// parser.
pub fn separated_list<'code, P, PS>(parser: P, separator: PS) -> (r: SeparatedList<P, PS>) where
    P: Parser<'code>,
    PS: Parser<'code, Element = P::Element>,

    ensures
        r.parser == parser,
        r.separator == separator,
{
    SeparatedList::new(parser, separator)
}

} // verus!
