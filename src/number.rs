//! Decimal integers as `i32::from_str` reads them: an optional sign, then one
//! or more ASCII digits, with a value in range.
use vstd::prelude::*;

verus! {

pub open spec fn is_digit(c: char) -> bool {
    '0' <= c && c <= '9'
}

/// One or more digits and nothing else.
pub open spec fn all_digits(s: Seq<char>) -> bool {
    s.len() > 0 && forall|k: int| 0 <= k < s.len() ==> is_digit(#[trigger] s[k])
}

/// The value of a run of digits.
pub open spec fn digits_value(s: Seq<char>) -> int
    decreases s.len(),
{
    if s.len() == 0 {
        0
    } else {
        digits_value(s.drop_last()) * 10 + (s.last() as int - '0' as int)
    }
}

/// The integer that `s` writes, if it writes one.
pub open spec fn decimal_value(s: Seq<char>) -> Option<int> {
    if s.len() > 0 && s[0] == '-' && all_digits(s.drop_first()) {
        Some(-digits_value(s.drop_first()))
    } else if s.len() > 0 && s[0] == '+' && all_digits(s.drop_first()) {
        Some(digits_value(s.drop_first()))
    } else if all_digits(s) {
        Some(digits_value(s))
    } else {
        None
    }
}

/// The `i32` that `s` writes, if it writes one in range.
pub open spec fn i32_of(s: Seq<char>) -> Option<i32> {
    match decimal_value(s) {
        Some(v) => if i32::MIN <= v <= i32::MAX {
            Some(v as i32)
        } else {
            None
        },
        None => None,
    }
}

proof fn lemma_digits_nonneg(s: Seq<char>)
    requires
        forall|k: int| 0 <= k < s.len() ==> is_digit(#[trigger] s[k]),
    ensures
        digits_value(s) >= 0,
    decreases s.len(),
{
    if s.len() > 0 {
        assert(is_digit(s[s.len() - 1]));
        lemma_digits_nonneg(s.drop_last());
    }
}

/// A longer run of digits is worth at least as much as its prefix.
proof fn lemma_digits_grow(s: Seq<char>, j: int, k: int)
    requires
        0 <= j <= k <= s.len(),
        forall|m: int| 0 <= m < s.len() ==> is_digit(#[trigger] s[m]),
    ensures
        digits_value(s.take(j)) <= digits_value(s.take(k)),
    decreases k - j,
{
    if j < k {
        lemma_digits_grow(s, j, k - 1);
        let t = s.take(k);
        assert(t.drop_last() =~= s.take(k - 1));
        assert(is_digit(s[k - 1]));
        assert forall|m: int| 0 <= m < s.take(k - 1).len() implies is_digit(
            #[trigger] s.take(k - 1)[m],
        ) by {
            assert(s.take(k - 1)[m] == s[m]);
        }
        lemma_digits_nonneg(s.take(k - 1));
    }
}

/// How the value of `s` follows from the digits after its sign.
proof fn lemma_value_of_body(s: Seq<char>, start: int)
    requires
        s.len() > start,
        start == 0 || start == 1,
        (start == 1) == (s[0] == '-' || s[0] == '+'),
    ensures
        all_digits(s.skip(start)) ==> decimal_value(s) == Some(
            if s[0] == '-' {
                -digits_value(s.skip(start))
            } else {
                digits_value(s.skip(start))
            },
        ),
        !all_digits(s.skip(start)) ==> decimal_value(s) is None,
{
    if start == 1 {
        assert(s.skip(1) =~= s.drop_first());
        assert(!is_digit(s[0]));
    } else {
        assert(s.skip(0) =~= s);
    }
}

const LIMIT: i64 = 2147483648;

/// The `i32` that `s` writes, as `i32::from_str` reads it.
pub fn parse_i32(s: &str) -> (r: Option<i32>)
    ensures
        r == i32_of(s@),
{
    let n = s.unicode_len();
    if n == 0 {
        return None;
    }
    let first = s.get_char(0);
    let negative = first == '-';
    let start: usize = if first == '-' || first == '+' {
        1
    } else {
        0
    };
    if start == n {
        proof {
            assert(!all_digits(s@.drop_first()));
            assert(!is_digit(s@[0]));
        }
        return None;
    }
    let ghost body = s@.skip(start as int);
    proof {
        if start == 1 {
            assert(body =~= s@.drop_first());
            assert(!is_digit(s@[0]));
        }
    }
    let mut v: i64 = 0;
    let mut i: usize = start;
    while i < n
        invariant
            n == s@.len(),
            body == s@.skip(start as int),
            start <= i <= n,
            start < n,
            start == 0 || start == 1,
            (start == 1) == (s@[0] == '-' || s@[0] == '+'),
            negative == (s@[0] == '-'),
            forall|m: int| 0 <= m < i - start ==> is_digit(#[trigger] body[m]),
            v == digits_value(body.take(i - start)),
            0 <= v <= LIMIT,
        decreases n - i,
    {
        let c = s.get_char(i);
        assert(body[i - start] == c);
        if !('0' <= c && c <= '9') {
            proof {
                assert(!is_digit(body[i - start]));
                lemma_value_of_body(s@, start as int);
            }
            return None;
        }
        let d = (c as u32 - '0' as u32) as i64;
        proof {
            assert(body.take(i - start + 1).drop_last() =~= body.take(i - start));
            assert(body.take(i - start + 1).last() == c);
        }
        v = v * 10 + d;
        i = i + 1;
        if v > LIMIT {
            proof {
                lemma_value_of_body(s@, start as int);
                if all_digits(body) {
                    lemma_digits_grow(body, i - start, body.len() as int);
                    assert(body.take(body.len() as int) =~= body);
                }
            }
            return None;
        }
    }
    proof {
        assert(body.take(n - start) =~= body);
        assert(all_digits(body));
        lemma_value_of_body(s@, start as int);
    }
    if negative {
        Some((-v) as i32)
    } else if v == LIMIT {
        None
    } else {
        Some(v as i32)
    }
}

} // verus!
