use vstd::prelude::*;

use crate::byte_cursor::ByteCursor;
use crate::error::{ErrorModel, ErrorNode, ParsicombError};
use crate::filter::FilterError;
use crate::many::parse_repeat;
use crate::parser::Parser;
use super::{skip_whitespace, UnicodeWhitespaceParser};

verus! {

/// Error type for the whitespace-aware Between parser.
#[derive(Debug)]
pub enum BetweenError<'code, E1, E2, E3> {
    /// Error from the opening delimiter parser.
    OpenDelimiter(E1),
    /// Error from whitespace after the open delimiter.
    OpenWhitespace(FilterError<'code, ParsicombError<'code, u8>, u8>),
    /// Error from the content parser.
    Content(E2),
    /// Error from whitespace before the close delimiter.
    CloseWhitespace(FilterError<'code, ParsicombError<'code, u8>, u8>),
    /// Error from the closing delimiter parser.
    CloseDelimiter(E3),
}

impl<'code, E1, E2, E3> ErrorNode<'code> for BetweenError<'code, E1, E2, E3> where
    E1: ErrorNode<'code, Element = u8>,
    E2: ErrorNode<'code, Element = u8>,
    E3: ErrorNode<'code, Element = u8>,
 {
    type Element = u8;

    open spec fn leaf_model(&self) -> ErrorModel<u8> {
        match *self {
            BetweenError::OpenDelimiter(ref e) => e.leaf_model(),
            BetweenError::OpenWhitespace(ref e) => e.leaf_model(),
            BetweenError::Content(ref e) => e.leaf_model(),
            BetweenError::CloseWhitespace(ref e) => e.leaf_model(),
            BetweenError::CloseDelimiter(ref e) => e.leaf_model(),
        }
    }

    fn likely_error(&self) -> (r: &ParsicombError<'code, u8>) {
        match self {
            BetweenError::OpenDelimiter(e) => e.likely_error(),
            BetweenError::OpenWhitespace(e) => e.likely_error(),
            BetweenError::Content(e) => e.likely_error(),
            BetweenError::CloseWhitespace(e) => e.likely_error(),
            BetweenError::CloseDelimiter(e) => e.likely_error(),
        }
    }
}

impl<'code, E1, E2, E3> BetweenError<'code, E1, E2, E3> where
    E1: ErrorNode<'code, Element = u8>,
    E2: ErrorNode<'code, Element = u8>,
    E3: ErrorNode<'code, Element = u8>,
 {
    /// The tag naming which constituent failed, as rendered text.
    pub open spec fn tag_text(&self) -> Seq<char> {
        match *self {
            BetweenError::OpenDelimiter(_) => "Open delimiter failed: "@,
            BetweenError::OpenWhitespace(_) => "Open whitespace failed: "@,
            BetweenError::Content(_) => "Content failed: "@,
            BetweenError::CloseWhitespace(_) => "Close whitespace failed: "@,
            BetweenError::CloseDelimiter(_) => "Close delimiter failed: "@,
        }
    }

    /// Render this error as text: which constituent failed, then the
    /// resolved leaf failure.
    pub fn to_display_string(&self) -> (r: String)
        requires
            self.leaf_model().pos <= self.leaf_model().src.len(),
            self.leaf_model().src.len() < usize::MAX,
        ensures
            self.tag_text().is_prefix_of(r@),
    {
        let leaf = self.likely_error();
        let mut out = String::new();
        match self {
            BetweenError::OpenDelimiter(_) => out.push_str("Open delimiter failed: "),
            BetweenError::OpenWhitespace(_) => out.push_str("Open whitespace failed: "),
            BetweenError::Content(_) => out.push_str("Content failed: "),
            BetweenError::CloseWhitespace(_) => out.push_str("Close whitespace failed: "),
            BetweenError::CloseDelimiter(_) => out.push_str("Close delimiter failed: "),
        }
        let rendered = leaf.to_display_string();
        out.push_str(rendered.as_str());
        proof {
            assert(self.tag_text() =~= out@.subrange(0, self.tag_text().len() as int));
        }
        out
    }
}

/// Parser that matches content between delimiters with automatic Unicode
/// whitespace stripping around the content:
/// `open + whitespace* + content + whitespace* + close`.
pub struct Between<P1, P2, P3> {
    pub open_delim: P1,
    pub content: P2,
    pub close_delim: P3,
}

impl<'code, P1, P2, P3> Parser<'code> for Between<P1, P2, P3> where
    P1: Parser<'code, Element = u8>,
    P2: Parser<'code, Element = u8>,
    P3: Parser<'code, Element = u8>,
 {
    type Element = u8;

    type Output = P2::Output;

    type OutputV = P2::OutputV;

    type Error = BetweenError<'code, P1::Error, P2::Error, P3::Error>;

    open spec fn out_view(o: P2::Output) -> P2::OutputV {
        P2::out_view(o)
    }

    open spec fn wf(&self) -> bool {
        self.open_delim.wf() && self.content.wf() && self.close_delim.wf()
    }

    open spec fn obeys_model(&self) -> bool {
        self.open_delim.obeys_model() && self.content.obeys_model()
            && self.close_delim.obeys_model()
    }

    open spec fn model(&self, cursor: ByteCursor<'code>) -> Result<
        (P2::OutputV, ByteCursor<'code>),
        ErrorModel<u8>,
    > {
        match self.open_delim.model(cursor) {
            Err(e1) => Err(e1),
            Ok((_, c1)) => match self.content.model(skip_whitespace(c1)) {
                Err(e2) => Err(e2),
                Ok((o, c2)) => match self.close_delim.model(skip_whitespace(c2)) {
                    Err(e3) => Err(e3),
                    Ok((_, c3)) => Ok((o, c3)),
                },
            },
        }
    }

    fn parse(&self, cursor: ByteCursor<'code>) -> (r: Result<
        (Self::Output, ByteCursor<'code>),
        Self::Error,
    >) {
        let (_, cursor1) = match self.open_delim.parse(cursor) {
            Ok(x) => x,
            Err(e) => {
                return Err(BetweenError::OpenDelimiter(e));
            },
        };
        let (_, cursor2) = parse_repeat(&UnicodeWhitespaceParser, cursor1);
        let (content_val, cursor3) = match self.content.parse(cursor2) {
            Ok(x) => x,
            Err(e) => {
                return Err(BetweenError::Content(e));
            },
        };
        let (_, cursor4) = parse_repeat(&UnicodeWhitespaceParser, cursor3);
        let (_, cursor5) = match self.close_delim.parse(cursor4) {
            Ok(x) => x,
            Err(e) => {
                return Err(BetweenError::CloseDelimiter(e));
            },
        };
        Ok((content_val, cursor5))
    }
}

/// Creates a whitespace-aware Between parser.
pub fn between<'code, P1, P2, P3>(open_delim: P1, content: P2, close_delim: P3) -> (r: Between<
    P1,
    P2,
    P3,
>) where
    P1: Parser<'code, Element = u8>,
    P2: Parser<'code, Element = u8>,
    P3: Parser<'code, Element = u8>,

    ensures
        r.open_delim == open_delim,
        r.content == content,
        r.close_delim == close_delim,
{
    Between { open_delim, content, close_delim }
}

} // verus!
