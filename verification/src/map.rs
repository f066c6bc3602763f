use vstd::prelude::*;

use crate::cursors::AtomicCursor;
use crate::error::{ErrorModel, ErrorNode};
use crate::parser::Parser;

verus! {

/// Whether `o` is a value the mapper can produce from some input value.
pub open spec fn mapper_can_yield<T, F: Fn(T) -> U, U>(mapper: F, o: U) -> bool {
    exists|t: T| #[trigger] call_ensures(mapper, (t,), o)
}

/// Whether `o` is a value the mapper can produce from an input whose view
/// is `mo`.
pub open spec fn mapper_yields_from<T, V, F: Fn(T) -> U, U>(
    mapper: F,
    view_of: spec_fn(T) -> V,
    mo: V,
    o: U,
) -> bool {
    exists|t: T| view_of(t) == mo && #[trigger] call_ensures(mapper, (t,), o)
}

/// Parser combinator that transforms the output of a parser using a mapping
/// function; transparent to the cursor and to the error.
pub struct MapParser<P, F> {
    pub parser: P,
    pub mapper: F,
}

impl<P, F> MapParser<P, F> {
    pub fn new(parser: P, mapper: F) -> (r: Self)
        ensures
            r.parser == parser,
            r.mapper == mapper,
    {
        MapParser { parser, mapper }
    }
}

impl<'code, P, F, U> Parser<'code> for MapParser<P, F> where
    P: Parser<'code>,
    F: Fn(P::Output) -> U,
 {
    type Element = P::Element;

    type Output = U;

    type OutputV = U;

    type Error = P::Error;

    open spec fn out_view(o: U) -> U {
        o
    }

    open spec fn wf(&self) -> bool {
        self.parser.wf() && (forall|t: P::Output| #[trigger] call_requires(self.mapper, (t,)))
    }

    // The mapping closure is opaque to the model, so the mapped output
    // cannot be pinned down; the cursor and error behaviour still follow the
    // child's model (see the `ensures` of `parse`).
    open spec fn obeys_model(&self) -> bool {
        false
    }

    open spec fn model(&self, cursor: AtomicCursor<'code, P::Element>) -> Result<
        (U, AtomicCursor<'code, P::Element>),
        ErrorModel<P::Element>,
    > {
        arbitrary()
    }

    fn parse(&self, cursor: AtomicCursor<'code, P::Element>) -> (r: Result<
        (U, AtomicCursor<'code, P::Element>),
        Self::Error,
    >)
        ensures
            // the output is what the mapper made of some child value
            (r matches Ok((o, c2)) ==> mapper_can_yield(self.mapper, o)),
            self.parser.obeys_model() ==> (match (r, self.parser.model(cursor)) {
                // the cursor is the child's, and the output is the mapper's
                // image of exactly the child's value
                (Ok((o, c2)), Ok((mo, mc))) => c2 == mc && mapper_yields_from(
                    self.mapper,
                    |t: P::Output| P::out_view(t),
                    mo,
                    o,
                ),
                (Err(e), Err(me)) => e.leaf_model() == me,
                _ => false,
            }),
    {
        let (value, cursor2) = match self.parser.parse(cursor) {
            Ok(x) => x,
            Err(e) => {
                return Err(e);
            },
        };
        let mapped_value = (self.mapper)(value);
        proof {
            assert(call_ensures(self.mapper, (value,), mapped_value));
            assert(mapper_can_yield(self.mapper, mapped_value));
            if self.parser.obeys_model() {
                assert(mapper_yields_from(
                    self.mapper,
                    |t: P::Output| P::out_view(t),
                    P::out_view(value),
                    mapped_value,
                ));
            }
        }
        Ok((mapped_value, cursor2))
    }
}

/// Convenience function to create a Map parser.
pub fn map<'code, P, F, U>(parser: P, mapper: F) -> (r: MapParser<P, F>) where
    P: Parser<'code>,
    F: Fn(P::Output) -> U,

    ensures
        r.parser == parser,
        r.mapper == mapper,
{
    MapParser::new(parser, mapper)
}

/// Extension trait to add `.map()` method support for parsers.
pub trait MapExt<'code>: Parser<'code> {
    fn map<F, U>(self, mapper: F) -> (r: MapParser<Self, F>) where
        F: Fn(Self::Output) -> U,

        ensures
            r.parser == self,
            r.mapper == mapper,
    ;
}

impl<'code, P0: Parser<'code>> MapExt<'code> for P0 {
    fn map<F, U>(self, mapper: F) -> (r: MapParser<Self, F>) where
        F: Fn(Self::Output) -> U,
    {
        MapParser::new(self, mapper)
    }
}

} // verus!
