use vstd::prelude::*;

use crate::cursors::AtomicCursor;
use crate::error::ErrorModel;
use crate::many::out_views;
use crate::parser::Parser;

verus! {

/// The model of exhaustive application: applies `p`'s model until the end of
/// the sequence is reached; a failure before the end is propagated.
///
/// A successful application that consumes nothing ends the run (it would
/// otherwise repeat forever); its value is still collected.
pub open spec fn all_model<'code, P: Parser<'code>>(
    p: P,
    cursor: AtomicCursor<'code, P::Element>,
) -> Result<
    (Seq<P::OutputV>, AtomicCursor<'code, P::Element>),
    ErrorModel<P::Element>,
>
    decreases cursor.src().len() - cursor.pos(),
{
    if cursor.pos() == cursor.src().len() {
        Ok((Seq::empty(), cursor))
    } else {
        match p.model(cursor) {
            Err(e) => Err(e),
            Ok((v, c1)) => {
                if c1.src() == cursor.src() && cursor.pos() < c1.pos() && c1.pos()
                    <= cursor.src().len() {
                    match all_model(p, c1) {
                        Ok((rest, end)) => Ok((seq![v] + rest, end)),
                        Err(e) => Err(e),
                    }
                } else {
                    Ok((seq![v], c1))
                }
            },
        }
    }
}

/// Parser combinator that repeatedly applies a parser until end-of-sequence.
///
/// Unlike zero-or-more, a mid-stream failure is propagated — it means the
/// input was not fully consumable by the parser — and reaching the end with
/// zero matches on empty input succeeds with an empty collection.
pub struct All<P> {
    pub parser: P,
}

impl<P> All<P> {
    pub fn new(parser: P) -> (r: Self)
        ensures
            r.parser == parser,
    {
        All { parser }
    }
}

impl<'code, P> Parser<'code> for All<P> where P: Parser<'code> {
    type Element = P::Element;

    type Output = Vec<P::Output>;

    type OutputV = Seq<P::OutputV>;

    type Error = P::Error;

    open spec fn out_view(o: Vec<P::Output>) -> Seq<P::OutputV> {
        out_views::<P>(o@)
    }

    open spec fn wf(&self) -> bool {
        self.parser.wf()
    }

    open spec fn obeys_model(&self) -> bool {
        self.parser.obeys_model()
    }

    open spec fn model(&self, cursor: AtomicCursor<'code, P::Element>) -> Result<
        (Seq<P::OutputV>, AtomicCursor<'code, P::Element>),
        ErrorModel<P::Element>,
    > {
        all_model(self.parser, cursor)
    }

    fn parse(&self, cursor: AtomicCursor<'code, P::Element>) -> (r: Result<
        (Self::Output, AtomicCursor<'code, P::Element>),
        Self::Error,
    >) {
        let mut results: Vec<P::Output> = Vec::new();
        let mut current = cursor;
        loop
            invariant_except_break
                self.parser.wf(),
                current.wf(),
                current.src() == cursor.src(),
                cursor.pos() <= current.pos(),
                self.parser.obeys_model() ==> (match all_model(self.parser, current) {
                    Ok((rest, end)) => all_model(self.parser, cursor) == Ok::<_, ErrorModel<
                        P::Element,
                    >>((out_views::<P>(results@) + rest, end)),
                    Err(em) => all_model(self.parser, cursor) == Err::<
                        (Seq<P::OutputV>, AtomicCursor<'code, P::Element>),
                        _,
                    >(em),
                }),
            ensures
                current.wf(),
                current.src() == cursor.src(),
                cursor.pos() <= current.pos(),
                self.parser.obeys_model() ==> all_model(self.parser, cursor) == Ok::<_, ErrorModel<
                    P::Element,
                >>((out_views::<P>(results@), current)),
            decreases cursor.src().len() - current.pos(),
        {
            if current.eos() {
                break;
            }
            match self.parser.parse(current) {
                Ok((value, next_cursor)) => {
                    let ghost prev = out_views::<P>(results@);
                    let stalled: bool = next_cursor.position() == current.position();
                    results.push(value);
                    proof {
                        assert(out_views::<P>(results@) =~= prev.push(P::out_view(value)));
                        assert(out_views::<P>(results@) =~= prev + seq![P::out_view(value)]);
                        if self.parser.obeys_model() && !stalled {
                            match all_model(self.parser, next_cursor) {
                                Ok((rest, end)) => {
                                    assert(prev + (seq![P::out_view(value)] + rest)
                                        =~= out_views::<P>(results@) + rest);
                                },
                                Err(_) => {},
                            }
                        }
                    }
                    current = next_cursor;
                    if stalled {
                        break;
                    }
                },
                Err(e) => {
                    return Err(e);
                },
            }
        }
        Ok((results, current))
    }
}

/// Convenience function to create an All parser.
pub fn all<'code, P>(parser: P) -> (r: All<P>) where P: Parser<'code>
    ensures
        r.parser == parser,
{
    All::new(parser)
}

} // verus!
