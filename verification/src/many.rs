use vstd::prelude::*;

use crate::cursors::AtomicCursor;
use crate::error::ErrorModel;
use crate::parser::Parser;

verus! {

/// The spec-level views of a sequence of parser outputs.
pub open spec fn out_views<'code, P: Parser<'code>>(s: Seq<P::Output>) -> Seq<P::OutputV> {
    s.map_values(|t: P::Output| P::out_view(t))
}

/// The model of repeated application: applies `p`'s model until it fails,
/// collecting output views, and returns them with the cursor standing before
/// the failing attempt.
///
/// A successful application that consumes nothing ends the repetition (it
/// would otherwise repeat forever); its value is still collected.
pub open spec fn many_model<'code, P: Parser<'code>>(
    p: P,
    cursor: AtomicCursor<'code, P::Element>,
) -> (Seq<P::OutputV>, AtomicCursor<'code, P::Element>)
    decreases cursor.src().len() - cursor.pos(),
{
    match p.model(cursor) {
        Err(_) => (Seq::empty(), cursor),
        Ok((v, c1)) => {
            if c1.src() == cursor.src() && cursor.pos() < c1.pos() && c1.pos()
                <= cursor.src().len() {
                let rest = many_model(p, c1);
                (seq![v] + rest.0, rest.1)
            } else {
                (seq![v], c1)
            }
        },
    }
}

/// Apply `p` repeatedly, collecting outputs, until it fails; the failure is
/// swallowed. Shared engine of the zero-or-more and one-or-more combinators.
pub(crate) fn parse_repeat<'code, P: Parser<'code>>(
    p: &P,
    cursor: AtomicCursor<'code, P::Element>,
) -> (r: (Vec<P::Output>, AtomicCursor<'code, P::Element>))
    requires
        p.wf(),
        cursor.wf(),
    ensures
        r.1.wf(),
        r.1.src() == cursor.src(),
        cursor.pos() <= r.1.pos(),
        p.obeys_model() ==> many_model(*p, cursor) == (out_views::<P>(r.0@), r.1),
        r.0.len() == 0 ==> r.1 == cursor,
{
    let mut results: Vec<P::Output> = Vec::new();
    let mut current = cursor;
    loop
        invariant_except_break
            p.wf(),
            current.wf(),
            current.src() == cursor.src(),
            cursor.pos() <= current.pos(),
            results@.len() == 0 ==> current == cursor,
            p.obeys_model() ==> {
                &&& many_model(*p, cursor).0 == out_views::<P>(results@) + many_model(
                    *p,
                    current,
                ).0
                &&& many_model(*p, cursor).1 == many_model(*p, current).1
            },
        ensures
            current.wf(),
            current.src() == cursor.src(),
            cursor.pos() <= current.pos(),
            results@.len() == 0 ==> current == cursor,
            p.obeys_model() ==> many_model(*p, cursor) == (out_views::<P>(results@), current),
        decreases cursor.src().len() - current.pos(),
    {
        match p.parse(current) {
            Ok((value, next_cursor)) => {
                let ghost prev = out_views::<P>(results@);
                let stalled: bool = next_cursor.position() == current.position();
                results.push(value);
                proof {
                    assert(out_views::<P>(results@) =~= prev.push(P::out_view(value)));
                    if p.obeys_model() {
                        assert(out_views::<P>(results@) + many_model(*p, next_cursor).0 =~= prev
                            + (seq![P::out_view(value)] + many_model(*p, next_cursor).0));
                        assert(out_views::<P>(results@) =~= prev + seq![P::out_view(value)]);
                    }
                }
                current = next_cursor;
                if stalled {
                    break;
                }
            },
            Err(_) => {
                proof {
                    if p.obeys_model() {
                        assert(out_views::<P>(results@) + many_model(*p, current).0
                            =~= out_views::<P>(results@));
                    }
                }
                break;
            },
        }
    }
    (results, current)
}

/// Parser combinator that matches zero or more occurrences of the given
/// parser.
///
/// A failure of the child is swallowed, never propagated: zero-or-more never
/// fails, and the returned cursor is the one before the failing attempt.
pub struct Many<P> {
    pub parser: P,
}

impl<P> Many<P> {
    pub fn new(parser: P) -> (r: Self)
        ensures
            r.parser == parser,
    {
        Many { parser }
    }
}

impl<'code, P> Parser<'code> for Many<P> where P: Parser<'code> {
    type Element = P::Element;

    type Output = Vec<P::Output>;

    type OutputV = Seq<P::OutputV>;

    type Error = P::Error;

    open spec fn out_view(o: Vec<P::Output>) -> Seq<P::OutputV> {
        out_views::<P>(o@)
    }

    open spec fn wf(&self) -> bool {
        self.parser.wf()
    }

    open spec fn obeys_model(&self) -> bool {
        self.parser.obeys_model()
    }

    open spec fn model(&self, cursor: AtomicCursor<'code, P::Element>) -> Result<
        (Seq<P::OutputV>, AtomicCursor<'code, P::Element>),
        ErrorModel<P::Element>,
    > {
        Ok(many_model(self.parser, cursor))
    }

    fn parse(&self, cursor: AtomicCursor<'code, P::Element>) -> (r: Result<
        (Self::Output, AtomicCursor<'code, P::Element>),
        Self::Error,
    >) {
        let (results, current) = parse_repeat(&self.parser, cursor);
        Ok((results, current))
    }
}

/// Convenience function to create a Many parser.
pub fn many<'code, P>(parser: P) -> (r: Many<P>) where P: Parser<'code>
    ensures
        r.parser == parser,
{
    Many::new(parser)
}

} // verus!
