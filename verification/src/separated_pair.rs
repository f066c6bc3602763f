use vstd::prelude::*;

use crate::cursors::AtomicCursor;
use crate::error::{ErrorModel, ErrorNode, ParsicombError};
use crate::parser::Parser;

verus! {

/// Error type for the SeparatedPair parser: wraps the error of whichever
/// constituent parser failed.
#[derive(Debug)]
pub enum SeparatedPairError<E1, ES, E2> {
    /// Error from the left parser.
    LeftParser(E1),
    /// Error from the separator parser.
    Separator(ES),
    /// Error from the right parser.
    RightParser(E2),
}

impl<'code, E1, ES, E2, T: crate::atomic::Atomic> ErrorNode<'code> for SeparatedPairError<
    E1,
    ES,
    E2,
> where
    E1: ErrorNode<'code, Element = T>,
    ES: ErrorNode<'code, Element = T>,
    E2: ErrorNode<'code, Element = T>,
 {
    type Element = T;

    open spec fn leaf_model(&self) -> ErrorModel<T> {
        match *self {
            SeparatedPairError::LeftParser(ref e1) => e1.leaf_model(),
            SeparatedPairError::Separator(ref e) => e.leaf_model(),
            SeparatedPairError::RightParser(ref e2) => e2.leaf_model(),
        }
    }

    fn likely_error(&self) -> (r: &ParsicombError<'code, T>) {
        match self {
            SeparatedPairError::LeftParser(e1) => e1.likely_error(),
            SeparatedPairError::Separator(e) => e.likely_error(),
            SeparatedPairError::RightParser(e2) => e2.likely_error(),
        }
    }
}

/// Parser that matches two values separated by a parser.
///
/// This parses `left + separator + right` and returns the tuple
/// `(left_value, right_value)` with the separator discarded. It does not
/// handle whitespace automatically; for whitespace handling, use the
/// version in `utf8::whitespace::separated_pair`.
pub struct SeparatedPair<P1, PS, P2> {
    pub left: P1,
    pub separator: PS,
    pub right: P2,
}

impl<P1, PS, P2> SeparatedPair<P1, PS, P2> {
    pub fn new(left: P1, separator: PS, right: P2) -> (r: Self)
        ensures
            r.left == left,
            r.separator == separator,
            r.right == right,
    {
        SeparatedPair { left, separator, right }
    }
}

impl<'code, P1, PS, P2> Parser<'code> for SeparatedPair<P1, PS, P2> where
    P1: Parser<'code>,
    PS: Parser<'code, Element = P1::Element>,
    P2: Parser<'code, Element = P1::Element>,
 {
    type Element = P1::Element;

    type Output = (P1::Output, P2::Output);

    type OutputV = (P1::OutputV, P2::OutputV);

    type Error = SeparatedPairError<P1::Error, PS::Error, P2::Error>;

    open spec fn out_view(o: (P1::Output, P2::Output)) -> (P1::OutputV, P2::OutputV) {
        (P1::out_view(o.0), P2::out_view(o.1))
    }

    open spec fn wf(&self) -> bool {
        self.left.wf() && self.separator.wf() && self.right.wf()
    }

    open spec fn obeys_model(&self) -> bool {
        self.left.obeys_model() && self.separator.obeys_model() && self.right.obeys_model()
    }

    open spec fn model(&self, cursor: AtomicCursor<'code, P1::Element>) -> Result<
        ((P1::OutputV, P2::OutputV), AtomicCursor<'code, P1::Element>),
        ErrorModel<P1::Element>,
    > {
        match self.left.model(cursor) {
            Err(e1) => Err(e1),
            Ok((o1, c1)) => match self.separator.model(c1) {
                Err(e) => Err(e),
                Ok((_, c2)) => match self.right.model(c2) {
                    Err(e2) => Err(e2),
                    Ok((o2, c3)) => Ok(((o1, o2), c3)),
                },
            },
        }
    }

    fn parse(&self, cursor: AtomicCursor<'code, P1::Element>) -> (r: Result<
        (Self::Output, AtomicCursor<'code, P1::Element>),
        Self::Error,
    >) {
        let (left_val, cursor1) = match self.left.parse(cursor) {
            Ok(x) => x,
            Err(e) => {
                return Err(SeparatedPairError::LeftParser(e));
            },
        };
        let (_, cursor2) = match self.separator.parse(cursor1) {
            Ok(x) => x,
            Err(e) => {
                return Err(SeparatedPairError::Separator(e));
            },
        };
        let (right_val, cursor3) = match self.right.parse(cursor2) {
            Ok(x) => x,
            Err(e) => {
                return Err(SeparatedPairError::RightParser(e));
            },
        };
        Ok(((left_val, right_val), cursor3))
    }
}

/// Creates a parser that matches two values separated by the given parser.
pub fn separated_pair<'code, P1, PS, P2>(left: P1, separator: PS, right: P2) -> (r: SeparatedPair<
    P1,
    PS,
    P2,
>) where
    P1: Parser<'code>,
    PS: Parser<'code, Element = P1::Element>,
    P2: Parser<'code, Element = P1::Element>,

    ensures
        r.left == left,
        r.separator == separator,
        r.right == right,
{
    SeparatedPair::new(left, separator, right)
}

} // verus!
