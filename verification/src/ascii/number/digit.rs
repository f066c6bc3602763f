use vstd::prelude::*;

use crate::byte::{between_bytes, BetweenBytesParser};

verus! {

/// Parser that matches a single ASCII digit (0-9).
pub fn digit() -> (r: BetweenBytesParser)
    ensures
        r.start == 48,
        r.end == 57,
{
    between_bytes(48, 57)
}

} // verus!
