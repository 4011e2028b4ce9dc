//! Decimal parsing of the numeric count fields that the upstream API
//! serves as strings: an optional sign, then digits, rejected on any other
//! character or when the value leaves the `i64` range.

use vstd::prelude::*;
use vstd::string::StrSliceExecFns;

verus! {

/// An ASCII decimal digit.
pub open spec fn is_digit(c: char) -> bool {
    48 <= c as u32 <= 57
}

/// The numeric value of one digit.
pub open spec fn digit_val(c: char) -> int {
    c as u32 - 48
}

/// True when every character of `s` is a digit.
pub open spec fn all_digits(s: Seq<char>) -> bool {
    forall|i: int| 0 <= i < s.len() ==> is_digit(s[i])
}

/// The value of a digit string, most significant digit first.
pub open spec fn dec_val(s: Seq<char>) -> int
    decreases s.len(),
{
    if s.len() == 0 {
        0
    } else {
        dec_val(s.drop_last()) * 10 + digit_val(s.last())
    }
}

/// What parsing an integer yields: an optional `+` or `-`, then at least
/// one digit and nothing else, with the signed value inside `i64`.
pub open spec fn parse_i64_spec(s: Seq<char>) -> Option<i64> {
    let negative = s.len() > 0 && s[0] == '-';
    let digits = if s.len() > 0 && (s[0] == '-' || s[0] == '+') {
        s.drop_first()
    } else {
        s
    };
    if digits.len() == 0 || !all_digits(digits) {
        None
    } else {
        let v = if negative {
            -dec_val(digits)
        } else {
            dec_val(digits)
        };
        if i64::MIN <= v <= i64::MAX {
            Some(v as i64)
        } else {
            None
        }
    }
}

proof fn lemma_dec_val_nonneg(s: Seq<char>)
    requires
        all_digits(s),
    ensures
        dec_val(s) >= 0,
    decreases s.len(),
{
    if s.len() > 0 {
        assert(all_digits(s.drop_last())) by {
            assert(forall|i: int|
                0 <= i < s.drop_last().len() ==> s.drop_last()[i] == s[i] && is_digit(s[i]));
        }
        lemma_dec_val_nonneg(s.drop_last());
    }
}

proof fn lemma_dec_val_prefix_bound(s: Seq<char>, j: int)
    requires
        all_digits(s),
        0 <= j <= s.len(),
    ensures
        dec_val(s) >= dec_val(s.subrange(0, j)),
    decreases s.len() - j,
{
    if j == s.len() {
        assert(s.subrange(0, j) =~= s);
    } else {
        let p = s.subrange(0, j);
        let q = s.subrange(0, j + 1);
        assert(q.drop_last() =~= p);
        assert(all_digits(p)) by {
            assert(forall|i: int| 0 <= i < p.len() ==> p[i] == s[i] && is_digit(s[i]));
        }
        lemma_dec_val_nonneg(p);
        assert(dec_val(q) == dec_val(p) * 10 + digit_val(s[j]));
        assert(is_digit(s[j]));
        lemma_dec_val_prefix_bound(s, j + 1);
    }
}

/// Parses a signed decimal integer exactly as the spec describes.
#[verifier::loop_isolation(false)]
pub fn parse_i64_str(s: &str) -> (r: Option<i64>)
    ensures
        r == parse_i64_spec(s@),
{
    let n: usize = s.unicode_len();
    if n == 0 {
        return None;
    }
    let c0 = s.get_char(0);
    let negative = c0 == '-';
    let start: usize = if c0 == '-' || c0 == '+' {
        1
    } else {
        0
    };
    let ghost digits = if start == 1 {
        s@.drop_first()
    } else {
        s@
    };
    proof {
        assert(digits.len() == n - start);
        assert(forall|j: int| 0 <= j < digits.len() ==> digits[j] == s@[j + start]);
    }
    if start == n {
        return None;
    }
    let mut acc: i64 = 0;
    let mut i: usize = start;
    while i < n
        invariant
            n == s@.len(),
            start <= i <= n,
            start <= 1,
            n > start,
            digits == (if start == 1 {
                s@.drop_first()
            } else {
                s@
            }),
            digits.len() == n - start,
            forall|j: int| 0 <= j < digits.len() ==> digits[j] == s@[j + start],
            all_digits(digits.subrange(0, i - start)),
            acc == -dec_val(digits.subrange(0, i - start)),
            acc <= 0,
        decreases n - i,
    {
        let c = s.get_char(i);
        let cv = c as u32;
        let ghost done = digits.subrange(0, i - start);
        if cv < 48 || cv > 57 {
            proof {
                assert(digits[i - start] == s@[i as int]);
                assert(!is_digit(digits[i - start]));
            }
            return None;
        }
        let d = (cv - 48) as i64;
        proof {
            let next = digits.subrange(0, i - start + 1);
            assert(next.drop_last() =~= done);
            assert(next.last() == s@[i as int]);
            assert(dec_val(next) == dec_val(done) * 10 + digit_val(s@[i as int]));
        }
        let step = match acc.checked_mul(10) {
            Some(x) => x.checked_sub(d),
            None => None,
        };
        match step {
            Some(y) => {
                acc = y;
            },
            None => {
                // The magnitude has left the i64 range; more digits only
                // grow it, so the parse is out of range whichever sign.
                proof {
                    let next = digits.subrange(0, i - start + 1);
                    assert(all_digits(next)) by {
                        assert(forall|j: int|
                            0 <= j < next.len() ==> next[j] == digits[j]);
                        assert(forall|j: int| 0 <= j < done.len() ==> done[j] == digits[j]);
                    }
                    assert(dec_val(next) > i64::MAX + 1);
                    if all_digits(digits) {
                        lemma_dec_val_prefix_bound(digits, i - start + 1);
                        assert(dec_val(digits) > i64::MAX + 1);
                    }
                }
                return None;
            },
        }
        i += 1;
    }
    proof {
        assert(digits.subrange(0, n - start) =~= digits);
    }
    if negative {
        proof {
            assert(acc as int == -dec_val(digits));
        }
        Some(acc)
    } else {
        if acc == i64::MIN {
            // The magnitude is one above i64::MAX.
            return None;
        }
        Some(-acc)
    }
}

} // verus!
