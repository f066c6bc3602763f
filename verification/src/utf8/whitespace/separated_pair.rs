use vstd::prelude::*;

use crate::byte_cursor::ByteCursor;
use crate::error::{ErrorModel, ErrorNode, ParsicombError};
use crate::filter::FilterError;
use crate::many::parse_repeat;
use crate::parser::Parser;
use super::{skip_whitespace, UnicodeWhitespaceParser};

verus! {

/// Error type for the whitespace-aware SeparatedPair parser.
#[derive(Debug)]
pub enum SeparatedPairError<'code, E1, ES, E2> {
    /// Error from the left parser.
    LeftParser(E1),
    /// Error from whitespace after the left parser.
    LeftWhitespace(FilterError<'code, ParsicombError<'code, u8>, u8>),
    /// Error from the separator parser.
    Separator(ES),
    /// Error from whitespace after the separator.
    RightWhitespace(FilterError<'code, ParsicombError<'code, u8>, u8>),
    /// Error from the right parser.
    RightParser(E2),
}

impl<'code, E1, ES, E2> ErrorNode<'code> for SeparatedPairError<'code, E1, ES, E2> where
    E1: ErrorNode<'code, Element = u8>,
    ES: ErrorNode<'code, Element = u8>,
    E2: ErrorNode<'code, Element = u8>,
 {
    type Element = u8;

    open spec fn leaf_model(&self) -> ErrorModel<u8> {
        match *self {
            SeparatedPairError::LeftParser(ref e) => e.leaf_model(),
            SeparatedPairError::LeftWhitespace(ref e) => e.leaf_model(),
            SeparatedPairError::Separator(ref e) => e.leaf_model(),
            SeparatedPairError::RightWhitespace(ref e) => e.leaf_model(),
            SeparatedPairError::RightParser(ref e) => e.leaf_model(),
        }
    }

    fn likely_error(&self) -> (r: &ParsicombError<'code, u8>) {
        match self {
            SeparatedPairError::LeftParser(e) => e.likely_error(),
            SeparatedPairError::LeftWhitespace(e) => e.likely_error(),
            SeparatedPairError::Separator(e) => e.likely_error(),
            SeparatedPairError::RightWhitespace(e) => e.likely_error(),
            SeparatedPairError::RightParser(e) => e.likely_error(),
        }
    }
}

/// Parser that matches two values separated by a parser, with optional
/// Unicode whitespace around the separator:
/// `left + whitespace* + separator + whitespace* + right`.
pub struct SeparatedPair<P1, PS, P2> {
    pub left: P1,
    pub separator: PS,
    pub right: P2,
}

impl<'code, P1, PS, P2> Parser<'code> for SeparatedPair<P1, PS, P2> where
    P1: Parser<'code, Element = u8>,
    PS: Parser<'code, Element = u8>,
    P2: Parser<'code, Element = u8>,
 {
    type Element = u8;

    type Output = (P1::Output, P2::Output);

    type OutputV = (P1::OutputV, P2::OutputV);

    type Error = SeparatedPairError<'code, P1::Error, PS::Error, P2::Error>;

    open spec fn out_view(o: (P1::Output, P2::Output)) -> (P1::OutputV, P2::OutputV) {
        (P1::out_view(o.0), P2::out_view(o.1))
    }

    open spec fn wf(&self) -> bool {
        self.left.wf() && self.separator.wf() && self.right.wf()
    }

    open spec fn obeys_model(&self) -> bool {
        self.left.obeys_model() && self.separator.obeys_model() && self.right.obeys_model()
    }

    open spec fn model(&self, cursor: ByteCursor<'code>) -> Result<
        ((P1::OutputV, P2::OutputV), ByteCursor<'code>),
        ErrorModel<u8>,
    > {
        match self.left.model(cursor) {
            Err(e) => Err(e),
            Ok((o1, c1)) => match self.separator.model(skip_whitespace(c1)) {
                Err(e) => Err(e),
                Ok((_, c2)) => match self.right.model(skip_whitespace(c2)) {
                    Err(e) => Err(e),
                    Ok((o2, c3)) => Ok(((o1, o2), c3)),
                },
            },
        }
    }

    fn parse(&self, cursor: ByteCursor<'code>) -> (r: Result<
        (Self::Output, ByteCursor<'code>),
        Self::Error,
    >) {
        let (left_val, cursor1) = match self.left.parse(cursor) {
            Ok(x) => x,
            Err(e) => {
                return Err(SeparatedPairError::LeftParser(e));
            },
        };
        let (_, cursor2) = parse_repeat(&UnicodeWhitespaceParser, cursor1);
        let (_, cursor3) = match self.separator.parse(cursor2) {
            Ok(x) => x,
            Err(e) => {
                return Err(SeparatedPairError::Separator(e));
            },
        };
        let (_, cursor4) = parse_repeat(&UnicodeWhitespaceParser, cursor3);
        let (right_val, cursor5) = match self.right.parse(cursor4) {
            Ok(x) => x,
            Err(e) => {
                return Err(SeparatedPairError::RightParser(e));
            },
        };
        Ok(((left_val, right_val), cursor5))
    }
}

/// Creates a whitespace-aware parser that matches two values separated by
/// the given parser.
pub fn separated_pair<'code, P1, PS, P2>(left: P1, separator: PS, right: P2) -> (r: SeparatedPair<
    P1,
    PS,
    P2,
>) where
    P1: Parser<'code, Element = u8>,
    PS: Parser<'code, Element = u8>,
    P2: Parser<'code, Element = u8>,

    ensures
        r.left == left,
        r.separator == separator,
        r.right == right,
{
    SeparatedPair { left, separator, right }
}

} // verus!
