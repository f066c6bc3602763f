use vstd::prelude::*;

use crate::cursors::AtomicCursor;
use crate::error::{ErrorModel, ErrorNode, ParsicombError};
use crate::parser::Parser;

verus! {

/// Error type for the Between parser: wraps the error of whichever
/// constituent parser failed.
#[derive(Debug)]
pub enum BetweenError<E1, E2, E3> {
    /// Error from the opening delimiter parser.
    OpenDelimiter(E1),
    /// Error from the content parser.
    Content(E2),
    /// Error from the closing delimiter parser.
    CloseDelimiter(E3),
}

impl<'code, E1, E2, E3, T: crate::atomic::Atomic> ErrorNode<'code> for BetweenError<
    E1,
    E2,
    E3,
> where
    E1: ErrorNode<'code, Element = T>,
    E2: ErrorNode<'code, Element = T>,
    E3: ErrorNode<'code, Element = T>,
 {
    type Element = T;

    open spec fn leaf_model(&self) -> ErrorModel<T> {
        match *self {
            BetweenError::OpenDelimiter(ref e1) => e1.leaf_model(),
            BetweenError::Content(ref e2) => e2.leaf_model(),
            BetweenError::CloseDelimiter(ref e3) => e3.leaf_model(),
        }
    }

    fn likely_error(&self) -> (r: &ParsicombError<'code, T>) {
        match self {
            BetweenError::OpenDelimiter(e1) => e1.likely_error(),
            BetweenError::Content(e2) => e2.likely_error(),
            BetweenError::CloseDelimiter(e3) => e3.likely_error(),
        }
    }
}

/// Parser that matches content between opening and closing delimiters.
///
/// This parses `open + content + close` and returns just the `content`
/// value with the delimiters discarded. It does not handle whitespace
/// automatically; for whitespace handling, use the version in
/// `utf8::whitespace::between`.
pub struct Between<P1, P2, P3> {
    pub open_delim: P1,
    pub content: P2,
    pub close_delim: P3,
}

impl<P1, P2, P3> Between<P1, P2, P3> {
    pub fn new(open_delim: P1, content: P2, close_delim: P3) -> (r: Self)
        ensures
            r.open_delim == open_delim,
            r.content == content,
            r.close_delim == close_delim,
    {
        Between { open_delim, content, close_delim }
    }
}

impl<'code, P1, P2, P3> Parser<'code> for Between<P1, P2, P3> where
    P1: Parser<'code>,
    P2: Parser<'code, Element = P1::Element>,
    P3: Parser<'code, Element = P1::Element>,
 {
    type Element = P1::Element;

    type Output = P2::Output;

    type OutputV = P2::OutputV;

    type Error = BetweenError<P1::Error, P2::Error, P3::Error>;

    open spec fn out_view(o: P2::Output) -> P2::OutputV {
        P2::out_view(o)
    }

    open spec fn wf(&self) -> bool {
        self.open_delim.wf() && self.content.wf() && self.close_delim.wf()
    }

    open spec fn obeys_model(&self) -> bool {
        self.open_delim.obeys_model() && self.content.obeys_model()
            && self.close_delim.obeys_model()
    }

    open spec fn model(&self, cursor: AtomicCursor<'code, P1::Element>) -> Result<
        (P2::OutputV, AtomicCursor<'code, P1::Element>),
        ErrorModel<P1::Element>,
    > {
        match self.open_delim.model(cursor) {
            Err(e1) => Err(e1),
            Ok((_, c1)) => match self.content.model(c1) {
                Err(e2) => Err(e2),
                Ok((o, c2)) => match self.close_delim.model(c2) {
                    Err(e3) => Err(e3),
                    Ok((_, c3)) => Ok((o, c3)),
                },
            },
        }
    }

    fn parse(&self, cursor: AtomicCursor<'code, P1::Element>) -> (r: Result<
        (Self::Output, AtomicCursor<'code, P1::Element>),
        Self::Error,
    >) {
        let (_, cursor1) = match self.open_delim.parse(cursor) {
            Ok(x) => x,
            Err(e) => {
                return Err(BetweenError::OpenDelimiter(e));
            },
        };
        let (content_val, cursor2) = match self.content.parse(cursor1) {
            Ok(x) => x,
            Err(e) => {
                return Err(BetweenError::Content(e));
            },
        };
        let (_, cursor3) = match self.close_delim.parse(cursor2) {
            Ok(x) => x,
            Err(e) => {
                return Err(BetweenError::CloseDelimiter(e));
            },
        };
        Ok((content_val, cursor3))
    }
}

/// Convenience function to create a Between parser.
pub fn between<'code, P1, P2, P3>(open_delim: P1, content: P2, close_delim: P3) -> (r: Between<
    P1,
    P2,
    P3,
>) where
    P1: Parser<'code>,
    P2: Parser<'code, Element = P1::Element>,
    P3: Parser<'code, Element = P1::Element>,

    ensures
        r.open_delim == open_delim,
        r.content == content,
        r.close_delim == close_delim,
{
    Between::new(open_delim, content, close_delim)
}

} // verus!
