use vstd::prelude::*;

use crate::cursors::AtomicCursor;
use crate::error::{ErrorModel, ErrorNode};
use crate::parser::Parser;

verus! {

/// A lazy parser that defers the construction of the actual parser until
/// parse time. This is useful for breaking mutual recursion between parsers.
pub struct Lazy<F, P> {
    pub factory: F,
    pub marker: core::marker::PhantomData<P>,
}

impl<F, P> Lazy<F, P> {
    /// Create a new lazy parser with the given factory function.
    pub fn new(factory: F) -> (r: Self)
        ensures
            r.factory == factory,
    {
        Self { factory, marker: core::marker::PhantomData }
    }
}

impl<'code, F, P> Parser<'code> for Lazy<F, P> where F: Fn() -> P, P: Parser<'code> {
    type Element = P::Element;

    type Output = P::Output;

    type OutputV = P::OutputV;

    type Error = P::Error;

    open spec fn out_view(o: P::Output) -> P::OutputV {
        P::out_view(o)
    }

    open spec fn wf(&self) -> bool {
        &&& call_requires(self.factory, ())
        &&& forall|p: P| #[trigger] call_ensures(self.factory, (), p) ==> p.wf()
    }

    // Which parser the factory builds is opaque to the model.
    open spec fn obeys_model(&self) -> bool {
        false
    }

    open spec fn model(&self, cursor: AtomicCursor<'code, P::Element>) -> Result<
        (P::OutputV, AtomicCursor<'code, P::Element>),
        ErrorModel<P::Element>,
    > {
        arbitrary()
    }

    fn parse(&self, cursor: AtomicCursor<'code, P::Element>) -> (r: Result<
        (P::Output, AtomicCursor<'code, P::Element>),
        Self::Error,
    >)
        ensures
            // the result is that of a parser the factory can build; where
            // that parser obeys a model, the result follows it
            exists|p: P|
                #[trigger] call_ensures(self.factory, (), p) && (p.obeys_model() ==> (match (
                    r,
                    p.model(cursor),
                ) {
                    (Ok((o, c2)), Ok((mo, mc))) => P::out_view(o) == mo && c2 == mc,
                    (Err(e), Err(me)) => e.leaf_model() == me,
                    _ => false,
                })),
    {
        let parser = (self.factory)();
        parser.parse(cursor)
    }
}

/// Create a lazy parser from a factory function.
pub fn lazy<'code, F, P>(factory: F) -> (r: Lazy<F, P>) where F: Fn() -> P, P: Parser<'code>
    ensures
        r.factory == factory,
{
    Lazy::new(factory)
}

} // verus!
