use vstd::prelude::*;

use crate::atomic::Atomic;
use crate::cursors::AtomicCursor;
use crate::error::{CodeLoc, ErrorModel, ErrorNode, ParsicombError};
use crate::parser::Parser;

verus! {

/// Error type for the filter parser: either the child parser's error, or a
/// filter-specific syntax error.
#[derive(Debug)]
pub enum FilterError<'code, E, T: Atomic> {
    /// Error from the child parser.
    ParserError(E),
    /// Filter predicate rejected the parsed value.
    FilterFailed(ParsicombError<'code, T>),
}

impl<'code, E, T: Atomic> ErrorNode<'code> for FilterError<'code, E, T> where
    E: ErrorNode<'code, Element = T>,
 {
    type Element = T;

    open spec fn leaf_model(&self) -> ErrorModel<T> {
        match *self {
            FilterError::ParserError(ref e) => e.leaf_model(),
            FilterError::FilterFailed(ref e) => e.leaf_model_spec(),
        }
    }

    fn likely_error(&self) -> (r: &ParsicombError<'code, T>) {
        match self {
            FilterError::ParserError(e) => e.likely_error(),
            FilterError::FilterFailed(e) => e,
        }
    }
}

/// Parser that applies a predicate function to gate the output of another
/// parser.
///
/// When the predicate rejects the value, the resulting syntax error is
/// anchored at the cursor position *before* the child ran, so the error
/// points at the start of the rejected token, not its end.
pub struct FilterParser<P, F> {
    pub parser: P,
    pub predicate: F,
    pub error_message: String,
}

impl<P, F> FilterParser<P, F> {
    pub fn new(parser: P, predicate: F, error_message: String) -> (r: Self)
        ensures
            r.parser == parser,
            r.predicate == predicate,
            r.error_message == error_message,
    {
        Self { parser, predicate, error_message }
    }
}

impl<'code, P, F> Parser<'code> for FilterParser<P, F> where
    P: Parser<'code>,
    F: Fn(&P::Output) -> bool,
 {
    type Element = P::Element;

    type Output = P::Output;

    type OutputV = P::OutputV;

    type Error = FilterError<'code, P::Error, P::Element>;

    open spec fn out_view(o: P::Output) -> P::OutputV {
        P::out_view(o)
    }

    open spec fn wf(&self) -> bool {
        &&& self.parser.wf()
        &&& forall|t: P::Output| #[trigger] call_requires(self.predicate, (&t,))
    }

    // The predicate closure is opaque to the model; the errors and the
    // cursor of an accepted value still follow the child's model (see the
    // `ensures` of `parse`).
    open spec fn obeys_model(&self) -> bool {
        false
    }

    open spec fn model(&self, cursor: AtomicCursor<'code, P::Element>) -> Result<
        (P::OutputV, AtomicCursor<'code, P::Element>),
        ErrorModel<P::Element>,
    > {
        arbitrary()
    }

    fn parse(&self, cursor: AtomicCursor<'code, P::Element>) -> (r: Result<
        (P::Output, AtomicCursor<'code, P::Element>),
        Self::Error,
    >)
        ensures
            self.parser.obeys_model() ==> (match (r, self.parser.model(cursor)) {
                // an accepted value is exactly the child's, with its cursor
                (Ok((o, c2)), Ok((mo, mc))) => P::out_view(o) == mo && c2 == mc,
                // a rejected value turns into a syntax error at the start
                (Err(e), Ok((mo, mc))) => e.leaf_model() == ErrorModel::syntax(
                    cursor.src(),
                    cursor.pos(),
                    self.error_message@,
                ),
                // the child's failure is passed through unchanged
                (Err(e), Err(me)) => e.leaf_model() == me,
                (Ok(_), Err(_)) => false,
            }),
    {
        let (value, new_cursor) = match self.parser.parse(cursor) {
            Ok(x) => x,
            Err(e) => {
                return Err(FilterError::ParserError(e));
            },
        };
        if (self.predicate)(&value) {
            Ok((value, new_cursor))
        } else {
            let (data, position) = cursor.inner();
            Err(
                FilterError::FilterFailed(
                    ParsicombError::SyntaxError {
                        message: self.error_message.clone(),
                        loc: CodeLoc::new(data, position),
                    },
                ),
            )
        }
    }
}

/// Extension trait to add a `.filter()` method to all parsers.
pub trait FilterExt<'code>: Parser<'code> {
    fn filter<F>(self, predicate: F, error_message: &str) -> (r: FilterParser<Self, F>) where
        F: Fn(&Self::Output) -> bool,

        ensures
            r.parser == self,
            r.predicate == predicate,
            r.error_message@ == error_message@,
    ;
}

impl<'code, P0: Parser<'code>> FilterExt<'code> for P0 {
    fn filter<F>(self, predicate: F, error_message: &str) -> (r: FilterParser<Self, F>) where
        F: Fn(&Self::Output) -> bool,
    {
        FilterParser::new(self, predicate, error_message.to_owned())
    }
}

/// Convenience function to create a filtered parser.
pub fn filter<'code, P, F>(parser: P, predicate: F, error_message: &str) -> (r: FilterParser<
    P,
    F,
>) where P: Parser<'code>, F: Fn(&P::Output) -> bool
    ensures
        r.parser == parser,
        r.predicate == predicate,
        r.error_message@ == error_message@,
{
    FilterParser::new(parser, predicate, error_message.to_owned())
}

} // verus!
