use vstd::prelude::*;

use crate::atomic::Atomic;
use crate::cursors::AtomicCursor;
use crate::error::ErrorModel;
use crate::parser::Parser;

verus! {

/// A half-open span `[start, end)` in the source code, together with a
/// reference to the source it indexes into.
#[derive(Debug, Clone, Copy, PartialEq, Eq)]
pub struct Span<'code, T: Atomic> {
    /// Reference to the source code.
    pub source: &'code [T],
    /// Start position (inclusive).
    pub start: usize,
    /// End position (exclusive).
    pub end: usize,
}

impl<'code, T: Atomic> Span<'code, T> {
    /// A span is well formed when its bounds are ordered and inside the
    /// source.
    pub open spec fn wf(&self) -> bool {
        self.start <= self.end && self.end <= self.source@.len()
    }

    /// The elements this span covers.
    pub open spec fn slice_spec(&self) -> Seq<T> {
        self.source@.subrange(self.start as int, self.end as int)
    }

    /// Create a new span.
    pub fn new(source: &'code [T], start: usize, end: usize) -> (r: Self)
        requires
            start <= end <= source@.len(),
        ensures
            r == (Span { source, start, end }),
            r.wf(),
    {
        Span { source, start, end }
    }

    /// Get the length of the span.
    pub fn len(&self) -> (r: usize)
        requires
            self.wf(),
        ensures
            r == self.end - self.start,
            r == self.slice_spec().len(),
    {
        self.end - self.start
    }

    /// Check if the span is empty.
    pub fn is_empty(&self) -> (r: bool)
        requires
            self.wf(),
        ensures
            r == (self.slice_spec().len() == 0),
    {
        self.start == self.end
    }

    /// Get the slice of code that this span represents.
    pub fn slice(&self) -> (r: &'code [T])
        requires
            self.wf(),
        ensures
            r@ == self.slice_spec(),
    {
        vstd::slice::slice_subrange(self.source, self.start, self.end)
    }

    /// Format the spanned content as a string.
    pub fn as_string(&self) -> (r: String)
        requires
            self.wf(),
        ensures
            r@ == T::text_of(self.slice_spec()),
    {
        T::format_slice(self.slice())
    }
}

/// A parser combinator that captures the position span of a successful
/// parse alongside its output.
pub struct Position<P> {
    pub parser: P,
}

impl<P> Position<P> {
    pub fn new(parser: P) -> (r: Self)
        ensures
            r.parser == parser,
    {
        Position { parser }
    }
}

impl<'code, P> Parser<'code> for Position<P> where P: Parser<'code> {
    type Element = P::Element;

    type Output = (P::Output, Span<'code, P::Element>);

    type OutputV = (P::OutputV, Span<'code, P::Element>);

    type Error = P::Error;

    open spec fn out_view(o: (P::Output, Span<'code, P::Element>)) -> (
        P::OutputV,
        Span<'code, P::Element>,
    ) {
        (P::out_view(o.0), o.1)
    }

    open spec fn wf(&self) -> bool {
        self.parser.wf()
    }

    open spec fn obeys_model(&self) -> bool {
        self.parser.obeys_model()
    }

    open spec fn model(&self, cursor: AtomicCursor<'code, P::Element>) -> Result<
        ((P::OutputV, Span<'code, P::Element>), AtomicCursor<'code, P::Element>),
        ErrorModel<P::Element>,
    > {
        match self.parser.model(cursor) {
            Err(e) => Err(e),
            Ok((o, c2)) => Ok(
                (
                    (
                        o,
                        Span {
                            source: cursor.data(),
                            start: cursor.pos() as usize,
                            end: c2.pos() as usize,
                        },
                    ),
                    c2,
                ),
            ),
        }
    }

    fn parse(&self, cursor: AtomicCursor<'code, P::Element>) -> (r: Result<
        (Self::Output, AtomicCursor<'code, P::Element>),
        Self::Error,
    >)
        ensures
            (match r {
                Ok(((o, span), c2)) => span == (Span {
                    source: cursor.data(),
                    start: cursor.pos() as usize,
                    end: c2.pos() as usize,
                }) && span.wf(),
                Err(_) => true,
            }),
    {
        let start_pos = cursor.position();
        let source = cursor.source();
        let (output, new_cursor) = match self.parser.parse(cursor) {
            Ok(x) => x,
            Err(e) => {
                return Err(e);
            },
        };
        let end_pos = new_cursor.position();
        let span = Span::new(source, start_pos, end_pos);
        Ok(((output, span), new_cursor))
    }
}

/// Extension trait to add position tracking to any parser.
pub trait PositionExt<'code>: Parser<'code> {
    /// Wrap this parser to capture its position span.
    fn with_position(self) -> (r: Position<Self>)
        ensures
            r.parser == self,
    ;
}

impl<'code, P0: Parser<'code>> PositionExt<'code> for P0 {
    fn with_position(self) -> (r: Position<Self>) {
        Position::new(self)
    }
}

/// Round-trip law for spans: the span a successful `Position` parse yields
/// covers exactly the region between the cursor it started from and the
/// cursor it returned, so slicing the original source at `[start, end)`
/// reproduces exactly the elements the wrapped parser consumed.
pub proof fn lemma_position_span<'code, T: Atomic>(
    cursor: AtomicCursor<'code, T>,
    end_cursor: AtomicCursor<'code, T>,
    span: Span<'code, T>,
)
    requires
        cursor.wf(),
        end_cursor.wf(),
        end_cursor.src() == cursor.src(),
        cursor.pos() <= end_cursor.pos(),
        span == (Span {
            source: cursor.data(),
            start: cursor.pos() as usize,
            end: end_cursor.pos() as usize,
        }),
    ensures
        span.wf(),
        span.slice_spec() == cursor.src().subrange(cursor.pos(), end_cursor.pos()),
{
    cursor.lemma_src_len_bound();
}

/// Convenience function to create a Position combinator.
pub fn position<'code, P: Parser<'code>>(parser: P) -> (r: Position<P>)
    ensures
        r.parser == parser,
{
    Position::new(parser)
}

} // verus!
