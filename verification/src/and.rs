use vstd::prelude::*;

use crate::cursors::AtomicCursor;
use crate::error::{ErrorModel, ErrorNode, ParsicombError};
use crate::parser::Parser;

verus! {

/// Error type for the And parser: wraps the error of whichever child failed.
#[derive(Debug)]
pub enum AndError<E1, E2> {
    /// Error from the first parser.
    FirstParser(E1),
    /// Error from the second parser.
    SecondParser(E2),
}

impl<'code, E1, E2, T: crate::atomic::Atomic> ErrorNode<'code> for AndError<E1, E2> where
    E1: ErrorNode<'code, Element = T>,
    E2: ErrorNode<'code, Element = T>,
 {
    type Element = T;

    open spec fn leaf_model(&self) -> ErrorModel<T> {
        match *self {
            AndError::FirstParser(ref e1) => e1.leaf_model(),
            AndError::SecondParser(ref e2) => e2.leaf_model(),
        }
    }

    fn likely_error(&self) -> (r: &ParsicombError<'code, T>) {
        match self {
            AndError::FirstParser(e1) => e1.likely_error(),
            AndError::SecondParser(e2) => e2.likely_error(),
        }
    }
}

/// Parser combinator that sequences two parsers and returns both results as a
/// tuple.
///
/// The second parser runs on the cursor the first one returned; the failure
/// of either child is wrapped, tagged by which child it was, so that
/// furthest-error resolution can descend into it.
pub struct And<P1, P2> {
    pub parser1: P1,
    pub parser2: P2,
}

impl<P1, P2> And<P1, P2> {
    pub fn new(parser1: P1, parser2: P2) -> (r: Self)
        ensures
            r.parser1 == parser1,
            r.parser2 == parser2,
    {
        And { parser1, parser2 }
    }
}

impl<'code, P1, P2> Parser<'code> for And<P1, P2> where
    P1: Parser<'code>,
    P2: Parser<'code, Element = P1::Element>,
 {
    type Element = P1::Element;

    type Output = (P1::Output, P2::Output);

    type OutputV = (P1::OutputV, P2::OutputV);

    type Error = AndError<P1::Error, P2::Error>;

    open spec fn out_view(o: (P1::Output, P2::Output)) -> (P1::OutputV, P2::OutputV) {
        (P1::out_view(o.0), P2::out_view(o.1))
    }

    open spec fn wf(&self) -> bool {
        self.parser1.wf() && self.parser2.wf()
    }

    open spec fn obeys_model(&self) -> bool {
        self.parser1.obeys_model() && self.parser2.obeys_model()
    }

    open spec fn model(&self, cursor: AtomicCursor<'code, P1::Element>) -> Result<
        ((P1::OutputV, P2::OutputV), AtomicCursor<'code, P1::Element>),
        ErrorModel<P1::Element>,
    > {
        match self.parser1.model(cursor) {
            Ok((o1, c1)) => match self.parser2.model(c1) {
                Ok((o2, c2)) => Ok(((o1, o2), c2)),
                Err(e2) => Err(e2),
            },
            Err(e1) => Err(e1),
        }
    }

    fn parse(&self, cursor: AtomicCursor<'code, P1::Element>) -> (r: Result<
        (Self::Output, AtomicCursor<'code, P1::Element>),
        Self::Error,
    >) {
        let (result1, cursor1) = match self.parser1.parse(cursor) {
            Ok(x) => x,
            Err(e) => {
                return Err(AndError::FirstParser(e));
            },
        };
        let (result2, cursor2) = match self.parser2.parse(cursor1) {
            Ok(x) => x,
            Err(e) => {
                return Err(AndError::SecondParser(e));
            },
        };
        Ok(((result1, result2), cursor2))
    }
}

/// Convenience function to create an And parser.
pub fn and<'code, P1, P2>(parser1: P1, parser2: P2) -> (r: And<P1, P2>) where
    P1: Parser<'code>,
    P2: Parser<'code, Element = P1::Element>,

    ensures
        r.parser1 == parser1,
        r.parser2 == parser2,
{
    And::new(parser1, parser2)
}

/// Extension trait to add `.and()` method support for parsers.
pub trait AndExt<'code>: Parser<'code> {
    fn and<P>(self, other: P) -> (r: And<Self, P>) where P: Parser<'code, Element = Self::Element>
        ensures
            r.parser1 == self,
            r.parser2 == other,
    ;
}

impl<'code, P0: Parser<'code>> AndExt<'code> for P0 {
    fn and<P>(self, other: P) -> (r: And<Self, P>) where P: Parser<'code, Element = Self::Element>
    {
        And::new(self, other)
    }
}

} // verus!
