use vstd::prelude::*;

use crate::byte::{is_byte, IsByteParser};
use crate::or::{Or, OrExt};

verus! {

/// The whitespace alternatives: space, tab, newline, carriage return.
pub open spec fn whitespace_parser() -> Or<Or<Or<IsByteParser, IsByteParser>, IsByteParser>,
    IsByteParser,
> {
    Or {
        parser1: Or {
            parser1: Or {
                parser1: IsByteParser { expected: 32 },
                parser2: IsByteParser { expected: 9 },
            },
            parser2: IsByteParser { expected: 10 },
        },
        parser2: IsByteParser { expected: 13 },
    }
}

/// Parser that matches a single ASCII whitespace byte (space, tab, newline,
/// carriage return).
pub fn whitespace<'a>() -> (r: Or<Or<Or<IsByteParser, IsByteParser>, IsByteParser>, IsByteParser>)
    ensures
        r == whitespace_parser(),
{
    is_byte(32).or(is_byte(9)).or(is_byte(10)).or(is_byte(13))
}

} // verus!
