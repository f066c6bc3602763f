use vstd::prelude::*;

use crate::cursors::AtomicCursor;
use crate::error::ErrorModel;
use crate::many::{many_model, out_views, parse_repeat};
use crate::parser::Parser;

verus! {

/// Parser combinator that matches one or more occurrences of the given
/// parser.
///
/// The first application must succeed; its failure is propagated unchanged.
/// After that it behaves exactly like zero-or-more.
pub struct SomeParser<P> {
    pub parser: P,
}

impl<P> SomeParser<P> {
    pub fn new(parser: P) -> (r: Self)
        ensures
            r.parser == parser,
    {
        SomeParser { parser }
    }
}

impl<'code, P> Parser<'code> for SomeParser<P> where P: Parser<'code> {
    type Element = P::Element;

    type Output = Vec<P::Output>;

    type OutputV = Seq<P::OutputV>;

    type Error = P::Error;

    open spec fn out_view(o: Vec<P::Output>) -> Seq<P::OutputV> {
        out_views::<P>(o@)
    }

    open spec fn wf(&self) -> bool {
        self.parser.wf()
    }

    open spec fn obeys_model(&self) -> bool {
        self.parser.obeys_model()
    }

    open spec fn model(&self, cursor: AtomicCursor<'code, P::Element>) -> Result<
        (Seq<P::OutputV>, AtomicCursor<'code, P::Element>),
        ErrorModel<P::Element>,
    > {
        match self.parser.model(cursor) {
            Err(e) => Err(e),
            Ok(_) => Ok(many_model(self.parser, cursor)),
        }
    }

    fn parse(&self, cursor: AtomicCursor<'code, P::Element>) -> (r: Result<
        (Self::Output, AtomicCursor<'code, P::Element>),
        Self::Error,
    >) {
        // The first application must succeed; later failures are swallowed.
        let (first_value, first_cursor) = match self.parser.parse(cursor) {
            Ok(x) => x,
            Err(e) => {
                return Err(e);
            },
        };
        let stalled: bool = first_cursor.position() == cursor.position();
        if stalled {
            let mut results: Vec<P::Output> = Vec::new();
            results.push(first_value);
            proof {
                assert(out_views::<P>(results@) =~= seq![P::out_view(first_value)]);
            }
            return Ok((results, first_cursor));
        }
        let (rest, end) = parse_repeat(&self.parser, first_cursor);
        let ghost rest_views = out_views::<P>(rest@);
        let mut results: Vec<P::Output> = Vec::new();
        results.push(first_value);
        let ghost one = out_views::<P>(results@);
        let mut tail = rest;
        results.append(&mut tail);
        proof {
            assert(one =~= seq![P::out_view(first_value)]);
            assert(out_views::<P>(results@) =~= one + rest_views);
        }
        Ok((results, end))
    }
}

/// One-or-more versus zero-or-more: for any parser and cursor, one-or-more
/// fails exactly when zero-or-more returns the empty collection with the
/// cursor unmoved.
pub proof fn lemma_some_many<'code, P: Parser<'code>>(
    p: P,
    cursor: AtomicCursor<'code, P::Element>,
)
    ensures
        (SomeParser { parser: p }.model(cursor) is Err) <==> (crate::many::Many {
            parser: p,
        }.model(cursor) == Ok::<_, ErrorModel<P::Element>>(
            (Seq::<P::OutputV>::empty(), cursor),
        )),
{
    match p.model(cursor) {
        Err(_) => {
        },
        Ok((v, c1)) => {
            assert(many_model(p, cursor).0.len() >= 1);
        },
    }
}

/// Convenience function to create a Some parser.
pub fn some<'code, P>(parser: P) -> (r: SomeParser<P>) where P: Parser<'code>
    ensures
        r.parser == parser,
{
    SomeParser::new(parser)
}

} // verus!
