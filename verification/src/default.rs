use vstd::prelude::*;

use crate::atomic::Atomic;
use crate::cursors::AtomicCursor;
use crate::error::{ErrorModel, ParsicombError};
use crate::parser::Parser;

verus! {

/// Parser that always succeeds without consuming input and returns a clone
/// of the held value.
pub struct DefaultParser<T, E> {
    pub default: T,
    pub marker: core::marker::PhantomData<E>,
}

impl<T, E> DefaultParser<T, E> {
    pub fn new(default: T) -> (r: Self)
        ensures
            r.default == default,
    {
        DefaultParser { default, marker: core::marker::PhantomData }
    }
}

impl<'code, T, E> Parser<'code> for DefaultParser<T, E> where
    T: Clone,
    E: Atomic + 'code,
 {
    type Element = E;

    type Output = T;

    type OutputV = T;

    type Error = ParsicombError<'code, E>;

    open spec fn out_view(o: T) -> T {
        o
    }

    open spec fn wf(&self) -> bool {
        true
    }

    // What `Clone` returns for an arbitrary type is not specified, so the
    // produced value cannot be pinned down; the cursor is still returned
    // untouched (see the `ensures` of `parse`).
    open spec fn obeys_model(&self) -> bool {
        false
    }

    open spec fn model(&self, cursor: AtomicCursor<'code, E>) -> Result<
        (T, AtomicCursor<'code, E>),
        ErrorModel<E>,
    > {
        arbitrary()
    }

    fn parse(&self, cursor: AtomicCursor<'code, E>) -> (r: Result<
        (T, AtomicCursor<'code, E>),
        Self::Error,
    >)
        ensures
            (match r {
                Ok((o, c2)) => c2 == cursor,
                Err(_) => false,
            }),
    {
        Ok((self.default.clone(), cursor))
    }
}

/// Convenience function to create a default parser.
pub fn default<T: Clone, E>(value: T) -> (r: DefaultParser<T, E>)
    ensures
        r.default == value,
{
    DefaultParser::new(value)
}

} // verus!
