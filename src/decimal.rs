use vstd::prelude::*;

verus! {

/// `c` is one of the ASCII digits `0` to `9`.
pub open spec fn is_digit(c: char) -> bool {
    '0' <= c && c <= '9'
}

pub open spec fn digit_value(c: char) -> int {
    (c as int) - ('0' as int)
}

/// The number that a sequence of digits writes in base ten.
pub open spec fn digits_value(s: Seq<char>) -> int
    decreases s.len(),
{
    if s.len() == 0 {
        0
    } else {
        10 * digits_value(s.drop_last()) + digit_value(s.last())
    }
}

pub open spec fn all_digits(s: Seq<char>) -> bool {
    s.len() > 0 && forall|i: int| 0 <= i < s.len() ==> is_digit(#[trigger] s[i])
}

/// Length of the optional leading sign.
pub open spec fn sign_len(s: Seq<char>) -> int {
    if s.len() > 0 && (s[0] == '-' || s[0] == '+') {
        1
    } else {
        0
    }
}

/// The integer that `s` writes in decimal, with an optional `+` or `-`
/// sign in front of at least one digit, if it writes one.
pub open spec fn signed_decimal(s: Seq<char>) -> Option<int> {
    let body = s.skip(sign_len(s));
    if all_digits(body) {
        Some(if s[0] == '-' { -digits_value(body) } else { digits_value(body) })
    } else {
        None
    }
}

/// What the decimal text `s` denotes as a signed 64-bit integer, if it
/// denotes one in range.
pub open spec fn decimal_i64(s: Seq<char>) -> Option<i64> {
    match signed_decimal(s) {
        Some(v) => if i64::MIN <= v && v <= i64::MAX { Some(v as i64) } else { None },
        None => None,
    }
}

proof fn lemma_digits_nonneg(s: Seq<char>)
    requires
        forall|i: int| 0 <= i < s.len() ==> is_digit(#[trigger] s[i]),
    ensures
        digits_value(s) >= 0,
    decreases s.len(),
{
    if s.len() > 0 {
        lemma_digits_nonneg(s.drop_last());
    }
}

/// Appending digits never makes the value smaller.
proof fn lemma_digits_monotone(s: Seq<char>, j: int)
    requires
        0 <= j <= s.len(),
        forall|i: int| 0 <= i < s.len() ==> is_digit(#[trigger] s[i]),
    ensures
        digits_value(s.subrange(0, j)) <= digits_value(s),
    decreases s.len(),
{
    if j < s.len() {
        let t = s.drop_last();
        assert(t.subrange(0, j) == s.subrange(0, j));
        lemma_digits_monotone(t, j);
        lemma_digits_nonneg(t);
        lemma_digits_nonneg(s.subrange(0, j));
    } else {
        assert(s.subrange(0, j) == s);
    }
}

/// Parses a signed 64-bit decimal integer, with an optional sign, as
/// `str::parse::<i64>` accepts it.
pub fn parse_i64(s: &str) -> (r: Option<i64>)
    ensures
        r == decimal_i64(s@),
{
    let n = s.unicode_len();
    if n == 0 {
        return None;
    }
    let first = s.get_char(0);
    let negative = first == '-';
    let start: usize = if first == '-' || first == '+' { 1 } else { 0 };
    assert(start as int == sign_len(s@));
    let ghost body = s@.skip(start as int);
    if start >= n {
        assert(body.len() == 0);
        return None;
    }
    let limit: u64 = 9223372036854775808;
    let mut acc: u64 = 0;
    let mut i: usize = start;
    while i < n
        invariant
            start <= i <= n,
            n == s@.len(),
            start < n,
            body == s@.skip(start as int),
            start as int == sign_len(s@),
            limit == 9223372036854775808u64,
            acc <= limit,
            acc as int == digits_value(body.subrange(0, i - start)),
            forall|k: int| 0 <= k < i - start ==> is_digit(#[trigger] body[k]),
        decreases n - i,
    {
        let c = s.get_char(i);
        assert(body[i - start] == c);
        if !(c >= '0' && c <= '9') {
            assert(!all_digits(body));
            assert(signed_decimal(s@).is_none());
            return None;
        }
        let d: u64 = (c as u32 - '0' as u32) as u64;
        assert(d as int == digit_value(c));
        let ghost prefix = body.subrange(0, i + 1 - start);
        assert(prefix.drop_last() == body.subrange(0, i - start));
        assert(prefix.last() == c);
        if acc > 922337203685477580 || (acc == 922337203685477580 && d > 8) {
            proof {
                assert(digits_value(prefix) == 10 * acc + d);
                assert(10 * acc + d > limit) by (nonlinear_arith)
                    requires
                        acc > 922337203685477580 || (acc == 922337203685477580 && d > 8),
                        limit == 9223372036854775808u64,
                ;
                if all_digits(body) {
                    lemma_digits_monotone(body, i + 1 - start);
                }
            }
            return None;
        }
        assert(acc * 10 + d <= limit) by (nonlinear_arith)
            requires
                acc <= 922337203685477580,
                d <= 9,
                !(acc == 922337203685477580 && d > 8),
                limit == 9223372036854775808u64,
        ;
        acc = acc * 10 + d;
        i = i + 1;
    }
    assert(body.subrange(0, n - start) == body);
    if negative {
        if acc == limit {
            Some(i64::MIN)
        } else {
            Some(-(acc as i64))
        }
    } else if acc <= 9223372036854775807 {
        Some(acc as i64)
    } else {
        None
    }
}

} // verus!
