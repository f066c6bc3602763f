use vstd::prelude::*;

use crate::cursors::AtomicCursor;
use crate::error::{ErrorModel, ErrorNode};
use crate::many::out_views;
use crate::parser::Parser;

verus! {

/// The scanning relation: `items` are the values collected by applying `p`
/// from `cursor` on, and `outcome` is how the scan ended.
///
/// Each collected item is the child's model output at its position, and one
/// the predicate can reject. The scan ends in one of four ways: at the end
/// of the input; before an item the predicate can accept (that item is not
/// consumed); after a collected item whose parse consumed nothing (it would
/// otherwise repeat forever); or in the child's failure, whose resolved
/// leaf the outcome carries.
pub open spec fn scan_rel<'code, P, F>(
    p: P,
    f: F,
    cursor: AtomicCursor<'code, P::Element>,
    items: Seq<P::Output>,
    outcome: Result<AtomicCursor<'code, P::Element>, ErrorModel<P::Element>>,
) -> bool where P: Parser<'code>, F: Fn(&P::Output) -> bool
    decreases items.len(),
{
    if items.len() == 0 {
        match outcome {
            Ok(end) => end == cursor && (cursor.pos() == cursor.src().len() || (
            match p.model(cursor) {
                Ok((mo, c1)) => exists|t: P::Output|
                    P::out_view(t) == mo && #[trigger] call_ensures(f, (&t,), true),
                Err(_) => false,
            })),
            Err(em) => cursor.pos() < cursor.src().len() && (match p.model(cursor) {
                Ok(_) => false,
                Err(me) => me == em,
            }),
        }
    } else {
        match p.model(cursor) {
            Ok((mo, c1)) => P::out_view(items[0]) == mo && call_ensures(f, (&items[0],), false)
                && (if c1.src() == cursor.src() && cursor.pos() < c1.pos() && c1.pos()
                <= cursor.src().len() {
                scan_rel(p, f, c1, items.drop_first(), outcome)
            } else {
                items.len() == 1 && outcome == Ok::<
                    AtomicCursor<'code, P::Element>,
                    ErrorModel<P::Element>,
                >(c1)
            }),
            Err(_) => false,
        }
    }
}

/// Whether a scan from `cursor` can end in the failure `em` after some
/// collected items.
pub open spec fn scan_can_fail<'code, P, F>(
    p: P,
    f: F,
    cursor: AtomicCursor<'code, P::Element>,
    em: ErrorModel<P::Element>,
) -> bool where P: Parser<'code>, F: Fn(&P::Output) -> bool {
    exists|items: Seq<P::Output>| #[trigger] scan_rel(p, f, cursor, items, Err(em))
}

/// Parser that repeatedly applies another parser, accumulating outputs, and
/// stops *without consuming* the item that satisfies the predicate.
///
/// Reaching the end of the sequence also ends the scan; a failure of the
/// child parser is propagated. A successful application that consumes
/// nothing ends the scan (it would otherwise repeat forever).
pub struct TakeUntilParser<P, F> {
    pub parser: P,
    pub predicate: F,
}

impl<P, F> TakeUntilParser<P, F> {
    pub fn new(parser: P, predicate: F) -> (r: Self)
        ensures
            r.parser == parser,
            r.predicate == predicate,
    {
        Self { parser, predicate }
    }
}

impl<'code, P, F> TakeUntilParser<P, F> where P: Parser<'code>, F: Fn(&P::Output) -> bool {
    /// The scanning engine: appends the collected items to `results` and
    /// returns how the scan ended.
    fn scan(
        &self,
        cursor: AtomicCursor<'code, P::Element>,
        results: &mut Vec<P::Output>,
    ) -> (outcome: Result<AtomicCursor<'code, P::Element>, P::Error>)
        requires
            self.wf(),
            cursor.wf(),
        ensures
            old(results)@.is_prefix_of(final(results)@),
            (match outcome {
                Ok(end) => end.wf() && end.src() == cursor.src() && cursor.pos() <= end.pos(),
                Err(e) => {
                    &&& e.leaf_model().src == cursor.src()
                    &&& cursor.pos() <= e.leaf_model().pos <= cursor.src().len()
                },
            }),
            self.parser.obeys_model() ==> scan_rel(
                self.parser,
                self.predicate,
                cursor,
                final(results)@.skip(old(results)@.len() as int),
                (match outcome {
                    Ok(c) => Ok::<_, ErrorModel<P::Element>>(c),
                    Err(e) => Err(e.leaf_model()),
                }),
            ),
        decreases cursor.src().len() - cursor.pos(),
    {
        if cursor.eos() {
            proof {
                assert(results@.skip(results@.len() as int) =~= Seq::<P::Output>::empty());
            }
            return Ok(cursor);
        }
        match self.parser.parse(cursor) {
            Err(e) => {
                proof {
                    assert(results@.skip(results@.len() as int) =~= Seq::<P::Output>::empty());
                }
                Err(e)
            },
            Ok((item, next_cursor)) => {
                if (self.predicate)(&item) {
                    // Stop without consuming the item that matched.
                    proof {
                        assert(results@.skip(results@.len() as int) =~= Seq::<
                            P::Output,
                        >::empty());
                        if self.parser.obeys_model() {
                            assert(call_ensures(self.predicate, (&item,), true));
                        }
                    }
                    Ok(cursor)
                } else {
                    let ghost old_len = results@.len();
                    let stalled: bool = next_cursor.position() == cursor.position();
                    results.push(item);
                    if stalled {
                        proof {
                            assert(results@.skip(old_len as int) =~= seq![item]);
                        }
                        Ok(next_cursor)
                    } else {
                        let ghost pushed = results@;
                        let outcome = self.scan(next_cursor, results);
                        proof {
                            let suffix = results@.skip(old_len as int);
                            assert(pushed.is_prefix_of(results@));
                            assert(pushed =~= results@.subrange(0, pushed.len() as int));
                            assert(results@[old_len as int] == pushed[old_len as int]);
                            assert(suffix[0] == results@[old_len as int]);
                            assert(suffix.drop_first() =~= results@.skip(old_len as int + 1));
                        }
                        outcome
                    }
                }
            },
        }
    }
}

impl<'code, P, F> Parser<'code> for TakeUntilParser<P, F> where
    P: Parser<'code>,
    F: Fn(&P::Output) -> bool,
 {
    type Element = P::Element;

    type Output = Vec<P::Output>;

    type OutputV = Seq<P::OutputV>;

    type Error = P::Error;

    open spec fn out_view(o: Vec<P::Output>) -> Seq<P::OutputV> {
        out_views::<P>(o@)
    }

    open spec fn wf(&self) -> bool {
        &&& self.parser.wf()
        &&& forall|t: P::Output| #[trigger] call_requires(self.predicate, (&t,))
    }

    // The stopping predicate is an opaque closure, so the scan has no
    // closed-form model; what it collects and where it stops is stated in
    // the `ensures` of `parse`, over the predicate's own postcondition.
    open spec fn obeys_model(&self) -> bool {
        false
    }

    open spec fn model(&self, cursor: AtomicCursor<'code, P::Element>) -> Result<
        (Seq<P::OutputV>, AtomicCursor<'code, P::Element>),
        ErrorModel<P::Element>,
    > {
        arbitrary()
    }

    fn parse(&self, cursor: AtomicCursor<'code, P::Element>) -> (r: Result<
        (Self::Output, AtomicCursor<'code, P::Element>),
        Self::Error,
    >)
        ensures
            self.parser.obeys_model() ==> (match r {
                Ok((items, end)) => scan_rel(
                    self.parser,
                    self.predicate,
                    cursor,
                    items@,
                    Ok::<_, ErrorModel<P::Element>>(end),
                ),
                Err(e) => scan_can_fail(self.parser, self.predicate, cursor, e.leaf_model()),
            }),
    {
        let mut results: Vec<P::Output> = Vec::new();
        match self.scan(cursor, &mut results) {
            Ok(end) => {
                proof {
                    assert(results@.skip(0) =~= results@);
                }
                Ok((results, end))
            },
            Err(e) => {
                proof {
                    if self.parser.obeys_model() {
                        assert(results@.skip(0) =~= results@);
                        assert(scan_rel(
                            self.parser,
                            self.predicate,
                            cursor,
                            results@,
                            Err(e.leaf_model()),
                        ));
                        assert(scan_can_fail(self.parser, self.predicate, cursor, e.leaf_model()));
                    }
                }
                Err(e)
            },
        }
    }
}

/// Convenience function to create a TakeUntilParser.
pub fn take_until<'code, P, F>(parser: P, predicate: F) -> (r: TakeUntilParser<P, F>) where
    P: Parser<'code>,
    F: Fn(&P::Output) -> bool,

    ensures
        r.parser == parser,
        r.predicate == predicate,
{
    TakeUntilParser::new(parser, predicate)
}

} // verus!
