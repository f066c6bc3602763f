use vstd::prelude::*;

use crate::cursors::AtomicCursor;

verus! {

/// A cursor over byte data: the byte instance of [`AtomicCursor`].
pub type ByteCursor<'code> = AtomicCursor<'code, u8>;

} // verus!
