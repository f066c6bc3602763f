use vstd::prelude::*;

use crate::atomic::Atomic;
use crate::cursors::AtomicCursor;
use crate::error::{ErrorKind, ErrorModel, ParsicombError};

verus! {

/// Generic cursor trait for parser combinators.
///
/// A cursor represents a position in a sequence of elements that can be
/// advanced and queried. Advancing is functional: it returns a new cursor
/// rather than mutating shared state.
pub trait Cursor<'code>: Copy + Sized {
    /// The type of elements this cursor iterates over.
    type Element: Atomic;

    /// The full source sequence.
    spec fn src_spec(&self) -> Seq<Self::Element>;

    /// The absolute position; the sequence length when at the end.
    spec fn pos_spec(&self) -> int;

    /// Well-formedness: the position stays within the sequence.
    spec fn wf_spec(&self) -> bool;

    /// Get the element at the current cursor position.
    ///
    /// Returns an error if the cursor is positioned at the end of the
    /// sequence.
    fn value(&self) -> (r: Result<Self::Element, ParsicombError<'code, Self::Element>>)
        requires
            self.wf_spec(),
        ensures
            self.pos_spec() < self.src_spec().len() ==> (match r {
                Ok(v) => v == self.src_spec()[self.pos_spec()],
                Err(_) => false,
            }),
            self.pos_spec() >= self.src_spec().len() ==> (match r {
                Ok(_) => false,
                Err(e) => e.leaf_model_spec() == ErrorModel::eof_value(self.src_spec()),
            }),
    ;

    /// Advance the cursor to the next element.
    ///
    /// If already at the end, returns a cursor still positioned at the end.
    fn next(self) -> (r: Self)
        requires
            self.wf_spec(),
        ensures
            r.wf_spec(),
            r.src_spec() == self.src_spec(),
            r.pos_spec() == (if self.pos_spec() + 1 < self.src_spec().len() {
                self.pos_spec() + 1
            } else {
                self.src_spec().len() as int
            }),
    ;

    /// Advance the cursor to the next element, returning an error if already
    /// at the end or stepping past the last element.
    fn try_next(self) -> (r: Result<Self, ParsicombError<'code, Self::Element>>)
        requires
            self.wf_spec(),
        ensures
            self.pos_spec() + 1 < self.src_spec().len() ==> (match r {
                Ok(c) => c.wf_spec() && c.src_spec() == self.src_spec() && c.pos_spec()
                    == self.pos_spec() + 1,
                Err(_) => false,
            }),
            self.pos_spec() + 1 == self.src_spec().len() ==> (match r {
                Ok(_) => false,
                Err(e) => e.leaf_model_spec().kind == ErrorKind::UnexpectedEndOfFile,
            }),
            self.pos_spec() >= self.src_spec().len() ==> (match r {
                Ok(_) => false,
                Err(e) => e.leaf_model_spec().kind == ErrorKind::AlreadyAtEndOfFile,
            }),
    ;

    /// Get the current position in the sequence.
    fn position(&self) -> (r: usize)
        ensures
            r as int == self.pos_spec(),
    ;

    /// Check if the cursor is at the end of the sequence.
    fn eos(&self) -> (r: bool)
        requires
            self.wf_spec(),
        ensures
            r == (self.pos_spec() == self.src_spec().len()),
    ;

    /// Get the source data without consuming the cursor.
    fn source(&self) -> (r: &'code [Self::Element])
        ensures
            r@ == self.src_spec(),
    ;

    /// Consume the cursor and return its inner data and position.
    fn inner(self) -> (r: (&'code [Self::Element], usize))
        ensures
            r.0@ == self.src_spec(),
            r.1 as int == self.pos_spec(),
    ;
}

impl<'code, T: Atomic> Cursor<'code> for AtomicCursor<'code, T> {
    type Element = T;

    open spec fn src_spec(&self) -> Seq<T> {
        self.src()
    }

    open spec fn pos_spec(&self) -> int {
        self.pos()
    }

    open spec fn wf_spec(&self) -> bool {
        self.wf()
    }

    fn value(&self) -> (r: Result<T, ParsicombError<'code, T>>) {
        AtomicCursor::value(self)
    }

    fn next(self) -> (r: Self) {
        AtomicCursor::next(self)
    }

    fn try_next(self) -> (r: Result<Self, ParsicombError<'code, T>>) {
        AtomicCursor::try_next(self)
    }

    fn position(&self) -> (r: usize) {
        AtomicCursor::position(self)
    }

    fn eos(&self) -> (r: bool) {
        AtomicCursor::eos(self)
    }

    fn source(&self) -> (r: &'code [T]) {
        AtomicCursor::source(self)
    }

    fn inner(self) -> (r: (&'code [T], usize)) {
        AtomicCursor::inner(self)
    }
}

} // verus!
