use vstd::prelude::*;

use crate::cursors::AtomicCursor;
use crate::error::{ErrorModel, ErrorNode, ParsicombError};
use crate::parser::Parser;

verus! {

/// Error type for the Or parser: wraps the errors of both alternatives when
/// both fail.
///
/// Resolution keeps the leaf whose absolute position is larger — the branch
/// that made it furthest into the input is judged the most informative — and
/// ties favour the first alternative.
#[derive(Debug)]
pub enum OrError<E1, E2> {
    /// Both parsers failed.
    BothFailed { first: E1, second: E2 },
}

impl<'code, E1, E2, T: crate::atomic::Atomic> ErrorNode<'code> for OrError<E1, E2> where
    E1: ErrorNode<'code, Element = T>,
    E2: ErrorNode<'code, Element = T>,
 {
    type Element = T;

    open spec fn leaf_model(&self) -> ErrorModel<T> {
        match *self {
            OrError::BothFailed { ref first, ref second } => first.leaf_model().further(
                second.leaf_model(),
            ),
        }
    }

    fn likely_error(&self) -> (r: &ParsicombError<'code, T>) {
        match self {
            OrError::BothFailed { first, second } => {
                let first_base = first.likely_error();
                let second_base = second.likely_error();
                if first_base.position() >= second_base.position() {
                    first_base
                } else {
                    second_base
                }
            },
        }
    }
}

/// Parser combinator that tries the first parser, and if it fails, tries the
/// second parser against the same original cursor.
///
/// Because cursors are copied values and a failed parse returns no cursor,
/// the second alternative necessarily starts from the very position the
/// first one started from: a failed branch cannot leak consumed input.
pub struct Or<P1, P2> {
    pub parser1: P1,
    pub parser2: P2,
}

impl<P1, P2> Or<P1, P2> {
    pub fn new(parser1: P1, parser2: P2) -> (r: Self)
        ensures
            r.parser1 == parser1,
            r.parser2 == parser2,
    {
        Or { parser1, parser2 }
    }
}

impl<'code, P1, P2> Parser<'code> for Or<P1, P2> where
    P1: Parser<'code>,
    P2: Parser<'code, Element = P1::Element, Output = P1::Output, OutputV = P1::OutputV>,
 {
    type Element = P1::Element;

    type Output = P1::Output;

    type OutputV = P1::OutputV;

    type Error = OrError<P1::Error, P2::Error>;

    open spec fn out_view(o: P1::Output) -> P1::OutputV {
        P1::out_view(o)
    }

    open spec fn wf(&self) -> bool {
        self.parser1.wf() && self.parser2.wf()
    }

    open spec fn obeys_model(&self) -> bool {
        &&& self.parser1.obeys_model()
        &&& self.parser2.obeys_model()
        &&& forall|o: P1::Output| #[trigger] P1::out_view(o) == P2::out_view(o)
    }

    open spec fn model(&self, cursor: AtomicCursor<'code, P1::Element>) -> Result<
        (P1::OutputV, AtomicCursor<'code, P1::Element>),
        ErrorModel<P1::Element>,
    > {
        match self.parser1.model(cursor) {
            Ok(r) => Ok(r),
            Err(e1) => match self.parser2.model(cursor) {
                Ok(r) => Ok(r),
                Err(e2) => Err(e1.further(e2)),
            },
        }
    }

    fn parse(&self, cursor: AtomicCursor<'code, P1::Element>) -> (r: Result<
        (Self::Output, AtomicCursor<'code, P1::Element>),
        Self::Error,
    >) {
        match self.parser1.parse(cursor) {
            Ok(result) => Ok(result),
            Err(first_error) => match self.parser2.parse(cursor) {
                Ok(result) => Ok(result),
                Err(second_error) => Err(
                    OrError::BothFailed { first: first_error, second: second_error },
                ),
            },
        }
    }
}

/// Extension trait to add `.or()` method support for parsers.
pub trait OrExt<'code>: Parser<'code> {
    fn or<P>(self, other: P) -> (r: Or<Self, P>) where
        P: Parser<'code, Element = Self::Element, Output = Self::Output, OutputV = Self::OutputV>,

        ensures
            r.parser1 == self,
            r.parser2 == other,
    ;
}

impl<'code, P0: Parser<'code>> OrExt<'code> for P0 {
    fn or<P>(self, other: P) -> (r: Or<Self, P>) where
        P: Parser<'code, Element = Self::Element, Output = Self::Output, OutputV = Self::OutputV>,
    {
        Or::new(self, other)
    }
}

/// Backtracking law: a failed first alternative consumes nothing. Whenever
/// the first parser's model fails on a cursor, the alternation behaves
/// exactly as the second parser run against that same original cursor: a
/// success of the second alternative, from the full original input, is the
/// success of the whole alternation.
pub proof fn lemma_or_backtracks<'code, P1, P2>(
    or_parser: Or<P1, P2>,
    cursor: AtomicCursor<'code, P1::Element>,
) where P1: Parser<'code>, P2: Parser<'code, Element = P1::Element, Output = P1::Output, OutputV = P1::OutputV>
    requires
        or_parser.parser1.model(cursor) is Err,
    ensures
        (match or_parser.parser2.model(cursor) {
            Ok(r) => or_parser.model(cursor) == Ok::<_, ErrorModel<P1::Element>>(r),
            Err(_) => or_parser.model(cursor) is Err,
        }),
{
}

/// Furthest-error selection law: when both alternatives fail, the resolved
/// leaf is the one of the child whose resolved leaf stands further into the
/// input, and an exact tie favours the first alternative. Because node
/// errors resolve recursively, this holds at every level of nesting.
pub proof fn lemma_or_error_furthest<'code, E1, E2, T: crate::atomic::Atomic>(
    e: OrError<E1, E2>,
) where E1: ErrorNode<'code, Element = T>, E2: ErrorNode<'code, Element = T>
    ensures
        (match e {
            OrError::BothFailed { first, second } => {
                &&& e.leaf_model().pos == (if first.leaf_model().pos >= second.leaf_model().pos {
                    first.leaf_model().pos
                } else {
                    second.leaf_model().pos
                })
                &&& (first.leaf_model().pos >= second.leaf_model().pos ==> e.leaf_model()
                    == first.leaf_model())
                &&& (first.leaf_model().pos < second.leaf_model().pos ==> e.leaf_model()
                    == second.leaf_model())
            },
        }),
{
}

/// Convenience function to create an Or parser.
pub fn or<'code, P1, P2>(parser1: P1, parser2: P2) -> (r: Or<P1, P2>) where
    P1: Parser<'code>,
    P2: Parser<'code, Element = P1::Element, Output = P1::Output, OutputV = P1::OutputV>,

    ensures
        r.parser1 == parser1,
        r.parser2 == parser2,
{
    Or::new(parser1, parser2)
}

} // verus!
