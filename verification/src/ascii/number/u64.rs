use vstd::prelude::*;

use crate::byte::{byte_range_text, BetweenBytesParser};
use crate::byte_cursor::ByteCursor;
use crate::cursors::AtomicCursor;
use crate::error::{CodeLoc, ErrorModel, ParsicombError};
use crate::many::{many_model, out_views};
use crate::parser::Parser;
use crate::some::some;
use super::digit::digit;

verus! {

/// The number of consecutive ASCII digits in `s` starting at `i`.
pub open spec fn digit_run(s: Seq<u8>, i: int) -> int
    decreases s.len() - i,
{
    if 0 <= i && i < s.len() && 48 <= s[i] && s[i] <= 57 {
        1 + digit_run(s, i + 1)
    } else {
        0
    }
}

/// The value of the `k` decimal digit bytes of `s` starting at `i`.
pub open spec fn digits_value(s: Seq<u8>, i: int, k: int) -> int
    decreases k,
{
    if k <= 0 {
        0
    } else {
        digits_value(s, i, k - 1) * 10 + (s[i + k - 1] - 48)
    }
}

/// The `k` digit bytes of `s` starting at `i`, as bytes and as text.
pub open spec fn digit_bytes_of(s: Seq<u8>, i: int, k: int) -> Seq<u8> {
    Seq::new(k as nat, |j: int| s[i + j])
}

pub open spec fn digits_text(s: Seq<u8>, i: int, k: int) -> Seq<char> {
    Seq::new(k as nat, |j: int| ((s[i + j] as u32) as char))
}

/// What parsing an unsigned decimal number at position `i` of `s` yields:
/// the value of the longest run of digits and the position after it, or the
/// exact failure (no digit at all, or a value beyond `u64::MAX`).
pub open spec fn u64_model(s: Seq<u8>, i: int) -> Result<(u64, int), ErrorModel<u8>> {
    let k = digit_run(s, i);
    if k == 0 {
        if i >= s.len() {
            Err(ErrorModel::eof_value(s))
        } else {
            Err(ErrorModel::syntax(s, i, byte_range_text(48, 57, s[i])))
        }
    } else {
        let v = digits_value(s, i, k);
        if v > u64::MAX {
            Err(ErrorModel::syntax(s, i + k, "number too large: "@ + digits_text(s, i, k)))
        } else {
            Ok((v as u64, i + k))
        }
    }
}

/// A digit run stays within the sequence.
pub proof fn lemma_digit_run_bound(s: Seq<u8>, i: int)
    requires
        0 <= i <= s.len(),
    ensures
        0 <= digit_run(s, i),
        i + digit_run(s, i) <= s.len(),
    decreases s.len() - i,
{
    if i < s.len() && 48 <= s[i] && s[i] <= 57 {
        lemma_digit_run_bound(s, i + 1);
    }
}

/// The digits of a digit run are digits, and repeated digit parsing
/// consumes exactly the digit run.
proof fn lemma_digit_run_many(c: ByteCursor)
    requires
        c.wf(),
    ensures
        ({
            let p = BetweenBytesParser { start: 48, end: 57 };
            let s = c.src();
            let i = c.pos();
            let k = digit_run(s, i);
            &&& 0 <= k
            &&& i + k <= s.len()
            &&& many_model(p, c).0 =~= digit_bytes_of(s, i, k)
            &&& many_model(p, c).1 == c.spec_at(i + k)
            &&& forall|j: int| 0 <= j < k ==> 48 <= #[trigger] s[i + j] <= 57
        }),
    decreases c.src().len() - c.pos(),
{
    let p = BetweenBytesParser { start: 48, end: 57 };
    let s = c.src();
    let i = c.pos();
    let k = digit_run(s, i);
    c.lemma_src_len_bound();
    if 0 <= i && i < s.len() && 48 <= s[i] && s[i] <= 57 {
        let c1 = c.spec_next();
        assert(c1 == c.spec_at(i + 1));
        assert(c1.src() == s && c1.pos() == i + 1 && c1.wf());
        lemma_digit_run_many(c1);
        assert(k == 1 + digit_run(s, i + 1));
        assert(c1.spec_at(i + k) == c.spec_at(i + k));
        assert(p.model(c) == Ok::<(u8, ByteCursor), ErrorModel<u8>>((s[i], c1)));
        assert(many_model(p, c).0 =~= seq![s[i]] + many_model(p, c1).0);
        assert(seq![s[i]] + digit_bytes_of(s, i + 1, k - 1) =~= digit_bytes_of(s, i, k));
        assert(forall|j: int| 0 <= j < k ==> 48 <= #[trigger] s[i + j] <= 57) by {
            assert(forall|j: int|
                1 <= j < k ==> 48 <= #[trigger] s[(i + 1) + (j - 1)] <= 57);
            assert(forall|j: int| 1 <= j < k ==> #[trigger] s[i + j] == s[(i + 1) + (j - 1)]);
        }
    } else {
        assert(c.wf());
        if i < s.len() {
            assert(c.spec_at(i) == c);
        } else {
            assert(i == s.len());
            assert(c.spec_at(i) == c);
        }
    }
}

/// `digits_value` never goes negative, and grows with each digit.
proof fn lemma_digits_value_nonneg(s: Seq<u8>, i: int, k: int)
    requires
        forall|j: int| 0 <= j < k ==> 48 <= #[trigger] s[i + j] <= 57,
    ensures
        digits_value(s, i, k) >= 0,
    decreases k,
{
    if k > 0 {
        lemma_digits_value_nonneg(s, i, k - 1);
        assert(digits_value(s, i, k - 1) * 10 >= 0) by (nonlinear_arith)
            requires
                digits_value(s, i, k - 1) >= 0,
        ;
    }
}

/// The step of the accumulation: appending a digit multiplies by ten and
/// adds, and the bound check `a <= (m - d) / 10` decides overflow exactly.
proof fn lemma_accumulate_bound(a: int, d: int, m: int)
    requires
        0 <= a,
        0 <= d <= 9,
        9 <= m,
    ensures
        (a * 10 + d <= m) <==> (a <= (m - d) / 10),
{
    assert((a * 10 + d <= m) <==> (a <= (m - d) / 10)) by (nonlinear_arith)
        requires
            0 <= a,
            0 <= d <= 9,
            9 <= m,
    ;
}

/// Parser that matches one or more ASCII digits and returns them as a u64.
pub struct UIntParser;

impl<'code> Parser<'code> for UIntParser {
    type Element = u8;

    type Output = u64;

    type OutputV = u64;

    type Error = ParsicombError<'code, u8>;

    open spec fn out_view(o: u64) -> u64 {
        o
    }

    open spec fn wf(&self) -> bool {
        true
    }

    open spec fn obeys_model(&self) -> bool {
        true
    }

    open spec fn model(&self, cursor: ByteCursor<'code>) -> Result<
        (u64, ByteCursor<'code>),
        ErrorModel<u8>,
    > {
        match u64_model(cursor.src(), cursor.pos()) {
            Ok((v, j)) => Ok((v, cursor.spec_at(j))),
            Err(em) => Err(em),
        }
    }

    fn parse(&self, cursor: ByteCursor<'code>) -> (r: Result<
        (u64, ByteCursor<'code>),
        Self::Error,
    >) {
        let ghost s = cursor.src();
        let ghost i = cursor.pos();
        let ghost k = digit_run(s, i);
        proof {
            lemma_digit_run_many(cursor);
            cursor.lemma_src_len_bound();
        }
        let (digit_bytes, end_cursor) = match some(digit()).parse(cursor) {
            Ok(x) => x,
            Err(e) => {
                return Err(e);
            },
        };
        proof {
            assert(out_views::<BetweenBytesParser>(digit_bytes@) =~= digit_bytes@);
            assert(digit_bytes@ =~= digit_bytes_of(s, i, k));
        }

        // Accumulate the value, detecting overflow exactly.
        let mut value: u64 = 0;
        let mut overflow: bool = false;
        let mut idx: usize = 0;
        while idx < digit_bytes.len()
            invariant
                0 <= idx <= digit_bytes.len(),
                digit_bytes@ =~= digit_bytes_of(s, i, k),
                k == digit_run(s, i),
                forall|j: int| 0 <= j < k ==> 48 <= #[trigger] s[i + j] <= 57,
                digit_bytes@.len() == k,
                !overflow ==> value == digits_value(s, i, idx as int),
                overflow ==> digits_value(s, i, idx as int) > u64::MAX,
            decreases digit_bytes.len() - idx,
        {
            let b = digit_bytes[idx];
            assert(b == s[i + idx]);
            let d: u64 = (b - 48) as u64;
            proof {
                lemma_digits_value_nonneg(s, i, idx as int);
                lemma_accumulate_bound(digits_value(s, i, idx as int), d as int, u64::MAX as int);
                if digits_value(s, i, idx as int) > u64::MAX {
                    assert(digits_value(s, i, idx as int) * 10 + d > u64::MAX) by (
                    nonlinear_arith)
                        requires
                            digits_value(s, i, idx as int) > u64::MAX,
                            d >= 0,
                    ;
                }
            }
            if !overflow && value <= (u64::MAX - d) / 10 {
                value = value * 10 + d;
            } else {
                overflow = true;
            }
            idx = idx + 1;
        }

        if overflow {
            let mut message = String::new();
            message.push_str("number too large: ");
            let mut j: usize = 0;
            while j < digit_bytes.len()
                invariant
                    0 <= j <= digit_bytes.len(),
                    digit_bytes@ =~= digit_bytes_of(s, i, k),
                    digit_bytes@.len() == k,
                    forall|t: int| 0 <= t < k ==> 48 <= #[trigger] s[i + t] <= 57,
                    message@ =~= "number too large: "@ + digits_text(s, i, j as int),
                decreases digit_bytes.len() - j,
            {
                let b = digit_bytes[j];
                assert(b == s[i + j]);
                let c = char::from_u32(b as u32).unwrap();
                proof {
                    vstd::utf8::char_u32_cast(c, b as u32);
                }
                message.push(c);
                proof {
                    assert(message@ =~= "number too large: "@ + digits_text(s, i, j + 1));
                }
                j = j + 1;
            }
            let (data, position) = end_cursor.inner();
            assert(message@ =~= "number too large: "@ + digits_text(s, i, k));
            return Err(
                ParsicombError::SyntaxError { message, loc: CodeLoc::new(data, position) },
            );
        }
        Ok((value, end_cursor))
    }
}

/// Parser that matches one or more ASCII digits and returns them as a u64.
pub fn u64<'code>() -> (r: UIntParser) {
    UIntParser
}

} // verus!
