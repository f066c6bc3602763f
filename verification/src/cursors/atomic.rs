use vstd::prelude::*;

use crate::atomic::Atomic;
use crate::error::{CodeLoc, ParsicombError};

verus! {

/// An immutable, cheaply copyable position into a borrowed source sequence.
///
/// A cursor either points at a valid index of the sequence, or is past the
/// last element (`EndOfFile`). Advancing never panics: it saturates at the
/// end-of-sequence variant. Copying a cursor is O(1) and yields two
/// independent positions over the same underlying data.
#[derive(Debug, Copy, Clone)]
pub enum AtomicCursor<'code, T: Atomic> {
    Valid { data: &'code [T], position: usize },
    EndOfFile { data: &'code [T] },
}

impl<'code, T: Atomic> AtomicCursor<'code, T> {
    /// The reference to the backing sequence.
    pub open spec fn data(&self) -> &'code [T] {
        match *self {
            AtomicCursor::Valid { data, position } => data,
            AtomicCursor::EndOfFile { data } => data,
        }
    }

    /// The full source sequence this cursor ranges over.
    pub open spec fn src(&self) -> Seq<T> {
        match *self {
            AtomicCursor::Valid { data, position } => data@,
            AtomicCursor::EndOfFile { data } => data@,
        }
    }

    /// The absolute position of this cursor; equals `src().len()` at the end.
    pub open spec fn pos(&self) -> int {
        match *self {
            AtomicCursor::Valid { data, position } => position as int,
            AtomicCursor::EndOfFile { data } => data@.len() as int,
        }
    }

    /// A cursor is well formed when a `Valid` cursor indexes into the source.
    pub open spec fn wf(&self) -> bool {
        match *self {
            AtomicCursor::Valid { data, position } => position < data@.len(),
            AtomicCursor::EndOfFile { data } => true,
        }
    }

    /// The cursor over the same source standing at position `p`
    /// (clamped into the end-of-sequence variant at or past the end).
    pub open spec fn spec_at(&self, p: int) -> Self {
        match *self {
            AtomicCursor::Valid { data, position } => if p < data@.len() {
                AtomicCursor::Valid { data, position: p as usize }
            } else {
                AtomicCursor::EndOfFile { data }
            },
            AtomicCursor::EndOfFile { data } => if p < data@.len() {
                AtomicCursor::Valid { data, position: p as usize }
            } else {
                AtomicCursor::EndOfFile { data }
            },
        }
    }

    /// The cursor advanced by one element (clamped at end-of-sequence).
    pub open spec fn spec_next(&self) -> Self {
        self.spec_at(self.pos() + 1)
    }

    /// The source of a cursor is backed by a slice, so its length is
    /// bounded by the address space.
    pub proof fn lemma_src_len_bound(self)
        ensures
            self.src().len() <= usize::MAX,
    {
        vstd::slice::axiom_spec_len::<T>(self.data());
    }

    pub fn new(data: &'code [T]) -> (r: Self)
        ensures
            r.wf(),
            r.src() == data@,
            r.pos() == 0,
            (r is EndOfFile) <==> data@.len() == 0,
    {
        if data.len() == 0 {
            return AtomicCursor::EndOfFile { data };
        }
        AtomicCursor::Valid { data, position: 0 }
    }

    /// Read the element at the current cursor position; fails at the end of
    /// the sequence with a `CannotReadValueAtEof` error located there.
    pub fn value(&self) -> (r: Result<T, ParsicombError<'code, T>>)
        requires
            self.wf(),
        ensures
            self.pos() < self.src().len() ==> r == Ok::<T, ParsicombError<'code, T>>(
                self.src()[self.pos()],
            ),
            self.pos() >= self.src().len() ==> (match r {
                Ok(_) => false,
                Err(e) => e.leaf_model_spec() == crate::error::ErrorModel::eof_value(self.src()),
            }),
    {
        match self {
            AtomicCursor::Valid { data, position } => Ok(data[*position]),
            AtomicCursor::EndOfFile { data } => Err(
                ParsicombError::CannotReadValueAtEof(CodeLoc::new(data, data.len())),
            ),
        }
    }

    /// Advance the cursor to the next element; total, clamped at the end.
    pub fn next(self) -> (r: Self)
        requires
            self.wf(),
        ensures
            r == self.spec_next(),
            r.wf(),
            r.src() == self.src(),
            r.pos() == (if self.pos() + 1 < self.src().len() {
                self.pos() + 1
            } else {
                self.src().len() as int
            }),
    {
        match self {
            AtomicCursor::Valid { data, position } => {
                let n = data.len();
                if position + 1 >= n {
                    AtomicCursor::EndOfFile { data }
                } else {
                    AtomicCursor::Valid { data, position: position + 1 }
                }
            },
            AtomicCursor::EndOfFile { data } => AtomicCursor::EndOfFile { data },
        }
    }

    /// Advance the cursor, or fail if the advance would leave the sequence:
    /// `UnexpectedEndOfFile` when stepping past the last element,
    /// `AlreadyAtEndOfFile` when the cursor already stands at the end.
    pub fn try_next(self) -> (r: Result<Self, ParsicombError<'code, T>>)
        requires
            self.wf(),
        ensures
            self.pos() + 1 < self.src().len() ==> (match r {
                Ok(c) => c == self.spec_next() && c.wf() && c.src() == self.src() && c.pos()
                    == self.pos() + 1,
                Err(_) => false,
            }),
            self.pos() + 1 == self.src().len() ==> (match r {
                Ok(_) => false,
                Err(e) => e.leaf_model_spec() == (crate::error::ErrorModel {
                    kind: crate::error::ErrorKind::UnexpectedEndOfFile,
                    src: self.src(),
                    pos: self.src().len() as int,
                    msg: Seq::empty(),
                }),
            }),
            self.pos() >= self.src().len() ==> (match r {
                Ok(_) => false,
                Err(e) => e.leaf_model_spec() == (crate::error::ErrorModel {
                    kind: crate::error::ErrorKind::AlreadyAtEndOfFile,
                    src: self.src(),
                    pos: self.src().len() as int,
                    msg: Seq::empty(),
                }),
            }),
    {
        match self {
            AtomicCursor::Valid { data, position } => {
                let next = self.next();
                match next {
                    AtomicCursor::Valid { .. } => Ok(next),
                    AtomicCursor::EndOfFile { data } => Err(
                        ParsicombError::UnexpectedEndOfFile(CodeLoc::new(data, data.len())),
                    ),
                }
            },
            AtomicCursor::EndOfFile { data } => Err(
                ParsicombError::AlreadyAtEndOfFile(CodeLoc::new(data, data.len())),
            ),
        }
    }

    /// The absolute index of the cursor; the sequence length when at the end.
    pub fn position(&self) -> (r: usize)
        ensures
            r as int == self.pos(),
    {
        match self {
            AtomicCursor::Valid { position, .. } => *position,
            AtomicCursor::EndOfFile { data } => data.len(),
        }
    }

    /// Borrow the full backing sequence.
    pub fn source(&self) -> (r: &'code [T])
        ensures
            r == self.data(),
            r@ == self.src(),
    {
        match self {
            AtomicCursor::Valid { data, .. } => data,
            AtomicCursor::EndOfFile { data } => data,
        }
    }

    /// Whether the cursor stands at the end of the sequence.
    pub fn eos(&self) -> (r: bool)
        requires
            self.wf(),
        ensures
            r == (self.pos() == self.src().len()),
    {
        match self {
            AtomicCursor::Valid { data, position } => *position >= data.len(),
            AtomicCursor::EndOfFile { .. } => true,
        }
    }

    /// Consume the cursor and return its backing sequence and position.
    pub fn inner(self) -> (r: (&'code [T], usize))
        ensures
            r.0@ == self.src(),
            r.1 as int == self.pos(),
    {
        match self {
            AtomicCursor::Valid { data, position } => (data, position),
            AtomicCursor::EndOfFile { data } => (data, data.len()),
        }
    }
}

} // verus!
