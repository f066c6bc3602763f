use vstd::prelude::*;

use crate::cursors::AtomicCursor;
use crate::error::ParsicombError;
use crate::parser::Parser;

verus! {

/// Trait for atomic elements that can be used in parsing.
///
/// An element must be cheaply copyable, must know whether it is the newline
/// marker (used for line counting in diagnostics), and must know how to render
/// a slice of elements as text for error messages.
pub trait Atomic: Copy + Sized {
    /// Whether this element counts as a line break in diagnostics.
    spec fn is_newline_spec(&self) -> bool;

    /// The text a slice of elements renders as.
    spec fn text_of(s: Seq<Self>) -> Seq<char>;

    /// Executable check matching `is_newline_spec`.
    fn is_newline(&self) -> (r: bool)
        ensures
            r == self.is_newline_spec(),
    ;

    /// Render a slice of elements as text for display in error messages.
    fn format_slice(slice: &[Self]) -> (r: String)
        ensures
            r@ == Self::text_of(slice@),
    ;
}

impl Atomic for u8 {
    open spec fn is_newline_spec(&self) -> bool {
        *self == 10u8
    }

    open spec fn text_of(s: Seq<u8>) -> Seq<char> {
        lossy_text_of(s)
    }

    fn is_newline(&self) -> (r: bool) {
        *self == 10u8
    }

    fn format_slice(slice: &[Self]) -> (r: String) {
        lossy_utf8(slice)
    }
}

/// The space-separated decimal rendering of the values from index `i` on,
/// each preceded by a separating space.
pub open spec fn dec_list_tail_text(s: Seq<u32>, i: int) -> Seq<char>
    decreases s.len() - i,
{
    if i >= s.len() {
        Seq::empty()
    } else {
        seq![' '] + crate::text::dec_text(s[i] as int) + dec_list_tail_text(s, i + 1)
    }
}

/// The space-separated decimal rendering of a value sequence.
pub open spec fn dec_list_text(s: Seq<u32>) -> Seq<char> {
    if s.len() == 0 {
        Seq::empty()
    } else {
        crate::text::dec_text(s[0] as int) + dec_list_tail_text(s, 1)
    }
}

impl Atomic for u32 {
    open spec fn is_newline_spec(&self) -> bool {
        *self == 10u32
    }

    open spec fn text_of(s: Seq<u32>) -> Seq<char> {
        dec_list_text(s)
    }

    fn is_newline(&self) -> (r: bool) {
        *self == 10u32
    }

    fn format_slice(slice: &[Self]) -> (r: String) {
        let mut out = String::new();
        let mut i: usize = 0;
        while i < slice.len()
            invariant
                i <= slice@.len(),
                i == 0 ==> out@ == Seq::<char>::empty(),
                i > 0 ==> out@ + dec_list_tail_text(slice@, i as int) == dec_list_text(slice@),
            decreases slice.len() - i,
        {
            let ghost prev = out@;
            if i > 0 {
                out.push(' ');
            }
            crate::text::push_dec(&mut out, slice[i] as u64);
            proof {
                if i == 0 {
                    assert(out@ =~= crate::text::dec_text(slice@[0] as int));
                    assert(out@ + dec_list_tail_text(slice@, 1) =~= dec_list_text(slice@));
                } else {
                    assert(out@ =~= prev + (seq![' '] + crate::text::dec_text(
                        slice@[i as int] as int,
                    )));
                    assert(out@ + dec_list_tail_text(slice@, i + 1) =~= prev
                        + dec_list_tail_text(slice@, i as int));
                }
            }
            i = i + 1;
        }
        proof {
            if slice@.len() == 0 {
                assert(out@ =~= dec_list_text(slice@));
            } else {
                assert(dec_list_tail_text(slice@, slice@.len() as int) =~= Seq::<char>::empty());
                assert(out@ =~= out@ + dec_list_tail_text(slice@, slice@.len() as int));
            }
        }
        out
    }
}

/// The text that `String::from_utf8_lossy` renders for a byte sequence; it
/// depends on the bytes alone.
pub uninterp spec fn lossy_text_of(s: Seq<u8>) -> Seq<char>;

/// Relies on `String::from_utf8_lossy`: renders the bytes as text, replacing
/// invalid sequences with U+FFFD.
#[verifier::external_body]
fn lossy_utf8(slice: &[u8]) -> (r: String)
    ensures
        r@ == lossy_text_of(slice@),
{
    String::from_utf8_lossy(slice).to_string()
}

/// A parser that reads one atomic element from the cursor and advances it.
/// This is the generic equivalent of a byte parser.
pub struct AtomicParser<T> {
    pub marker: core::marker::PhantomData<T>,
}

impl<T> AtomicParser<T> {
    pub fn new() -> (r: Self) {
        AtomicParser { marker: core::marker::PhantomData }
    }
}

impl<'code, T: Atomic + 'code> Parser<'code> for AtomicParser<T> {
    type Element = T;

    type Output = T;

    type OutputV = T;

    type Error = ParsicombError<'code, T>;

    open spec fn out_view(o: T) -> T {
        o
    }

    open spec fn wf(&self) -> bool {
        true
    }

    open spec fn obeys_model(&self) -> bool {
        true
    }

    open spec fn model(&self, cursor: AtomicCursor<'code, T>) -> Result<
        (T, AtomicCursor<'code, T>),
        crate::error::ErrorModel<T>,
    > {
        if cursor.pos() < cursor.src().len() {
            Ok((cursor.src()[cursor.pos()], cursor.spec_next()))
        } else {
            Err(crate::error::ErrorModel::eof_value(cursor.src()))
        }
    }

    fn parse(&self, cursor: AtomicCursor<'code, T>) -> (r: Result<
        (T, AtomicCursor<'code, T>),
        Self::Error,
    >) {
        let value = match cursor.value() {
            Ok(v) => v,
            Err(e) => {
                return Err(e);
            },
        };
        let next_cursor = cursor.next();
        Ok((value, next_cursor))
    }
}

/// Convenience function to create an atomic parser for a specific element type.
pub fn atomic<T>() -> (r: AtomicParser<T>) {
    AtomicParser::new()
}

} // verus!
