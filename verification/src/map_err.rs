use vstd::prelude::*;

use crate::cursors::AtomicCursor;
use crate::error::{ErrorModel, ErrorNode};
use crate::parser::Parser;

verus! {

/// Parser combinator that transforms the error of a parser using a mapping
/// function; transparent to the cursor and to the success output.
///
/// The mapping must keep the resolved leaf inside the same source, at the
/// same position (see `wf`): it may change the error's type, wrapping, kind
/// and message, not where it points.
pub struct MapErr<P, F> {
    pub parser: P,
    pub mapper: F,
}

impl<P, F> MapErr<P, F> {
    pub fn new(parser: P, mapper: F) -> (r: Self)
        ensures
            r.parser == parser,
            r.mapper == mapper,
    {
        MapErr { parser, mapper }
    }
}

impl<'code, P, F, E2> Parser<'code> for MapErr<P, F> where
    P: Parser<'code>,
    F: Fn(P::Error) -> E2,
    E2: ErrorNode<'code, Element = P::Element>,
 {
    type Element = P::Element;

    type Output = P::Output;

    type OutputV = P::OutputV;

    type Error = E2;

    open spec fn out_view(o: P::Output) -> P::OutputV {
        P::out_view(o)
    }

    open spec fn wf(&self) -> bool {
        &&& self.parser.wf()
        &&& forall|e1: P::Error| #[trigger] call_requires(self.mapper, (e1,))
        &&& forall|e1: P::Error, e2: E2|
            call_ensures(self.mapper, (e1,), e2) ==> e2.leaf_model().src == e1.leaf_model().src
                && e2.leaf_model().pos == e1.leaf_model().pos
    }

    // The mapping may change the resolved leaf's kind and message, so the
    // exact failure cannot be pinned down; the success side and the
    // failure's location still follow the child's model (see the `ensures`
    // of `parse`).
    open spec fn obeys_model(&self) -> bool {
        false
    }

    open spec fn model(&self, cursor: AtomicCursor<'code, P::Element>) -> Result<
        (P::OutputV, AtomicCursor<'code, P::Element>),
        ErrorModel<P::Element>,
    > {
        self.parser.model(cursor)
    }

    fn parse(&self, cursor: AtomicCursor<'code, P::Element>) -> (r: Result<
        (P::Output, AtomicCursor<'code, P::Element>),
        E2,
    >)
        ensures
            self.parser.obeys_model() ==> (match (r, self.parser.model(cursor)) {
                (Ok((o, c2)), Ok((mo, mc))) => P::out_view(o) == mo && c2 == mc,
                (Err(e), Err(me)) => e.leaf_model().src == me.src && e.leaf_model().pos
                    == me.pos,
                _ => false,
            }),
    {
        match self.parser.parse(cursor) {
            Ok(x) => Ok(x),
            Err(e) => Err((self.mapper)(e)),
        }
    }
}

/// Extension trait to add `.map_err()` method support for parsers.
pub trait MapErrExt<'code>: Parser<'code> {
    fn map_err<F, E2>(self, mapper: F) -> (r: MapErr<Self, F>) where
        F: Fn(Self::Error) -> E2,
        E2: ErrorNode<'code, Element = Self::Element>,

        ensures
            r.parser == self,
            r.mapper == mapper,
    ;
}

impl<'code, P0: Parser<'code>> MapErrExt<'code> for P0 {
    fn map_err<F, E2>(self, mapper: F) -> (r: MapErr<Self, F>) where
        F: Fn(Self::Error) -> E2,
        E2: ErrorNode<'code, Element = Self::Element>,
    {
        MapErr::new(self, mapper)
    }
}

/// Convenience function to create a MapErr parser.
pub fn map_err<'code, P, F, E2>(parser: P, mapper: F) -> (r: MapErr<P, F>) where
    P: Parser<'code>,
    F: Fn(P::Error) -> E2,
    E2: ErrorNode<'code, Element = P::Element>,

    ensures
        r.parser == parser,
        r.mapper == mapper,
{
    MapErr::new(parser, mapper)
}

} // verus!
