use vstd::prelude::*;

use crate::atomic::Atomic;
use crate::cursors::AtomicCursor;
use crate::error::{ErrorModel, ErrorNode};

verus! {

/// Core parser trait for parser combinators.
///
/// A parser consumes a cursor and produces either a value together with the
/// advanced cursor, or a typed error. Failure never hands back a cursor, so a
/// failed branch cannot leak partially consumed input into a sibling attempt;
/// backtracking combinators simply reuse the original cursor value.
///
/// Every parser promises the structural laws stated on [`Parser::parse`]: a
/// success keeps the same source and never moves the cursor backwards, and a
/// failure resolves to a leaf inside the same source, at or after the cursor.
///
/// A parser whose building blocks are deterministic additionally `obeys` its
/// `model`: a spec-level function that pins down exactly which result
/// `parse` returns, stated over spec-level views of the output and over
/// [`ErrorModel`] descriptions of the resolved failure.
pub trait Parser<'code>: Sized {
    /// The element type of the source sequence this parser reads.
    type Element: Atomic + 'code;

    /// The output type produced by successful parsing.
    type Output;

    /// The spec-level image of the output type the model is stated over.
    type OutputV;

    /// The error type produced by failed parsing.
    type Error: ErrorNode<'code, Element = Self::Element>;

    /// The spec-level view of an output value.
    spec fn out_view(o: Self::Output) -> Self::OutputV;

    /// Validity of this parser value (e.g. preconditions of held closures).
    spec fn wf(&self) -> bool;

    /// Whether this parser is bound to its mathematical model.
    ///
    /// Parsers built from opaque closures cannot state one; combinators
    /// obey their model exactly when all their children do.
    spec fn obeys_model(&self) -> bool;

    /// The mathematical model: the one result `parse` returns, described
    /// over views of the output and resolved-leaf views of the error.
    spec fn model(&self, cursor: AtomicCursor<'code, Self::Element>) -> Result<
        (Self::OutputV, AtomicCursor<'code, Self::Element>),
        ErrorModel<Self::Element>,
    >;

    /// Attempt to parse from the given cursor position.
    ///
    /// Returns `Ok` with the parsed value and the advanced cursor on
    /// success, or `Err` if the parse fails. Failures do not consume input.
    fn parse(&self, cursor: AtomicCursor<'code, Self::Element>) -> (r: Result<
        (Self::Output, AtomicCursor<'code, Self::Element>),
        Self::Error,
    >)
        requires
            self.wf(),
            cursor.wf(),
        ensures
            (match r {
                Ok((o, c2)) => c2.wf() && c2.src() == cursor.src() && cursor.pos() <= c2.pos(),
                Err(e) => {
                    &&& e.leaf_model().src == cursor.src()
                    &&& cursor.pos() <= e.leaf_model().pos <= cursor.src().len()
                },
            }),
            self.obeys_model() ==> (match (r, self.model(cursor)) {
                (Ok((o, c2)), Ok((mo, mc))) => Self::out_view(o) == mo && c2 == mc,
                (Err(e), Err(me)) => e.leaf_model() == me,
                _ => false,
            }),
    ;
}

} // verus!
