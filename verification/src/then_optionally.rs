use vstd::prelude::*;

use crate::cursors::AtomicCursor;
use crate::error::{ErrorModel, ErrorNode, ParsicombError};
use crate::parser::Parser;

verus! {

/// Error type for the ThenOptionally parser: only the first parser is
/// required, so only its error is wrapped.
#[derive(Debug)]
pub enum ThenOptionallyError<E> {
    /// Error from the first parser (which is required).
    FirstParser(E),
}

impl<'code, E, T: crate::atomic::Atomic> ErrorNode<'code> for ThenOptionallyError<E> where
    E: ErrorNode<'code, Element = T>,
 {
    type Element = T;

    open spec fn leaf_model(&self) -> ErrorModel<T> {
        match *self {
            ThenOptionallyError::FirstParser(ref e) => e.leaf_model(),
        }
    }

    fn likely_error(&self) -> (r: &ParsicombError<'code, T>) {
        match self {
            ThenOptionallyError::FirstParser(e) => e.likely_error(),
        }
    }
}

/// Parser combinator that sequences two parsers where the second is
/// optional.
///
/// Returns a tuple with the first parser's result and an `Option` holding
/// the second parser's result (`Some` if it succeeded, `None` if it
/// failed). A failure of the second parser consumes nothing.
pub struct ThenOptionally<P1, P2> {
    pub parser1: P1,
    pub parser2: P2,
}

impl<P1, P2> ThenOptionally<P1, P2> {
    pub fn new(parser1: P1, parser2: P2) -> (r: Self)
        ensures
            r.parser1 == parser1,
            r.parser2 == parser2,
    {
        ThenOptionally { parser1, parser2 }
    }
}

impl<'code, P1, P2> Parser<'code> for ThenOptionally<P1, P2> where
    P1: Parser<'code>,
    P2: Parser<'code, Element = P1::Element>,
 {
    type Element = P1::Element;

    type Output = (P1::Output, Option<P2::Output>);

    type OutputV = (P1::OutputV, Option<P2::OutputV>);

    type Error = ThenOptionallyError<P1::Error>;

    open spec fn out_view(o: (P1::Output, Option<P2::Output>)) -> (
        P1::OutputV,
        Option<P2::OutputV>,
    ) {
        (
            P1::out_view(o.0),
            match o.1 {
                Option::Some(x) => Option::Some(P2::out_view(x)),
                Option::None => Option::None,
            },
        )
    }

    open spec fn wf(&self) -> bool {
        self.parser1.wf() && self.parser2.wf()
    }

    open spec fn obeys_model(&self) -> bool {
        self.parser1.obeys_model() && self.parser2.obeys_model()
    }

    open spec fn model(&self, cursor: AtomicCursor<'code, P1::Element>) -> Result<
        (
            (P1::OutputV, Option<P2::OutputV>),
            AtomicCursor<'code, P1::Element>,
        ),
        ErrorModel<P1::Element>,
    > {
        match self.parser1.model(cursor) {
            Err(e1) => Err(e1),
            Ok((o1, c1)) => match self.parser2.model(c1) {
                Ok((o2, c2)) => Ok(((o1, Option::Some(o2)), c2)),
                Err(_) => Ok(((o1, Option::None), c1)),
            },
        }
    }

    fn parse(&self, cursor: AtomicCursor<'code, P1::Element>) -> (r: Result<
        (Self::Output, AtomicCursor<'code, P1::Element>),
        Self::Error,
    >) {
        let (result1, cursor1) = match self.parser1.parse(cursor) {
            Ok(x) => x,
            Err(e) => {
                return Err(ThenOptionallyError::FirstParser(e));
            },
        };
        // Try the second parser, but don't fail if it doesn't succeed.
        match self.parser2.parse(cursor1) {
            Ok((result2, cursor2)) => Ok(((result1, Option::Some(result2)), cursor2)),
            Err(_) => Ok(((result1, Option::None), cursor1)),
        }
    }
}

/// Convenience function to create a ThenOptionally parser.
pub fn then_optionally<'code, P1, P2>(parser1: P1, parser2: P2) -> (r: ThenOptionally<
    P1,
    P2,
>) where P1: Parser<'code>, P2: Parser<'code, Element = P1::Element>
    ensures
        r.parser1 == parser1,
        r.parser2 == parser2,
{
    ThenOptionally::new(parser1, parser2)
}

/// Extension trait to add `.then_optionally()` method support for parsers.
pub trait ThenOptionallyExt<'code>: Parser<'code> {
    fn then_optionally<P>(self, other: P) -> (r: ThenOptionally<Self, P>) where
        P: Parser<'code, Element = Self::Element>,

        ensures
            r.parser1 == self,
            r.parser2 == other,
    ;
}

impl<'code, P0: Parser<'code>> ThenOptionallyExt<'code> for P0 {
    fn then_optionally<P>(self, other: P) -> (r: ThenOptionally<Self, P>) where
        P: Parser<'code, Element = Self::Element>,
    {
        ThenOptionally::new(self, other)
    }
}

} // verus!
