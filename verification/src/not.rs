use vstd::prelude::*;

use crate::cursors::AtomicCursor;
use crate::error::{CodeLoc, ErrorModel, ParsicombError};
use crate::parser::Parser;

verus! {

/// Parser combinator that performs negative lookahead.
///
/// Succeeds with `()` if the given parser fails at the current position;
/// fails with a syntax error anchored at the current position if the given
/// parser succeeds. Never consumes any input regardless of outcome.
pub struct Not<P> {
    pub parser: P,
}

impl<P> Not<P> {
    pub fn new(parser: P) -> (r: Self)
        ensures
            r.parser == parser,
    {
        Not { parser }
    }
}

impl<'code, P> Parser<'code> for Not<P> where P: Parser<'code> {
    type Element = P::Element;

    type Output = ();

    type OutputV = ();

    type Error = ParsicombError<'code, P::Element>;

    open spec fn out_view(o: ()) -> () {
        o
    }

    open spec fn wf(&self) -> bool {
        self.parser.wf()
    }

    open spec fn obeys_model(&self) -> bool {
        self.parser.obeys_model()
    }

    open spec fn model(&self, cursor: AtomicCursor<'code, P::Element>) -> Result<
        ((), AtomicCursor<'code, P::Element>),
        ErrorModel<P::Element>,
    > {
        match self.parser.model(cursor) {
            Ok(_) => Err(
                ErrorModel::syntax(
                    cursor.src(),
                    cursor.pos(),
                    "negative lookahead failed: unexpected match"@,
                ),
            ),
            Err(_) => Ok(((), cursor)),
        }
    }

    fn parse(&self, cursor: AtomicCursor<'code, P::Element>) -> (r: Result<
        ((), AtomicCursor<'code, P::Element>),
        Self::Error,
    >) {
        match self.parser.parse(cursor) {
            Ok(_) => {
                // The parser succeeded where it was required to fail.
                let (data, position) = cursor.inner();
                Err(
                    ParsicombError::SyntaxError {
                        message: "negative lookahead failed: unexpected match".to_owned(),
                        loc: CodeLoc::new(data, position),
                    },
                )
            },
            Err(_) => {
                // The parser failed as expected: succeed without consuming.
                Ok(((), cursor))
            },
        }
    }
}

/// Convenience function to create a Not parser for negative lookahead.
pub fn not<'code, P>(parser: P) -> (r: Not<P>) where P: Parser<'code>
    ensures
        r.parser == parser,
{
    Not::new(parser)
}

/// Extension trait to add `.not()` method support for parsers.
pub trait NotExt<'code>: Parser<'code> {
    fn not(self) -> (r: Not<Self>)
        ensures
            r.parser == self,
    ;
}

impl<'code, P0: Parser<'code>> NotExt<'code> for P0 {
    fn not(self) -> (r: Not<Self>) {
        Not::new(self)
    }
}

} // verus!
