use vstd::prelude::*;

verus! {

/// Whether `c` is an ASCII decimal digit.
pub open spec fn is_digit(c: char) -> bool {
    '0' <= c && c <= '9'
}

/// Whether every character of `s` is a decimal digit and there is at least one.
pub open spec fn is_decimal(s: Seq<char>) -> bool {
    s.len() > 0 && forall|i: int| 0 <= i < s.len() ==> is_digit(#[trigger] s[i])
}

/// The value of a string of decimal digits.
pub open spec fn decimal_value(s: Seq<char>) -> int
    decreases s.len(),
{
    if s.len() == 0 {
        0
    } else {
        10 * decimal_value(s.drop_last()) + (s.last() as int - '0' as int)
    }
}

/// The value of `s` read as decimal digits, when it is one and at most `max`.
pub open spec fn bounded_decimal(s: Seq<char>, max: int) -> Option<int> {
    if is_decimal(s) && decimal_value(s) <= max {
        Some(decimal_value(s))
    } else {
        None
    }
}

proof fn lemma_decimal_value_grows(s: Seq<char>, i: int, j: int)
    requires
        is_decimal(s),
        0 <= i <= j <= s.len(),
    ensures
        decimal_value(s.take(i)) <= decimal_value(s.take(j)),
        decimal_value(s.take(i)) >= 0,
    decreases j - i,
{
    if i < j {
        lemma_decimal_value_grows(s, i, j - 1);
        assert(s.take(j).drop_last() =~= s.take(j - 1));
        lemma_decimal_value_nonneg(s.take(j - 1));
    } else {
        lemma_decimal_value_nonneg(s.take(i));
    }
}

proof fn lemma_decimal_value_nonneg(s: Seq<char>)
    requires
        forall|i: int| 0 <= i < s.len() ==> is_digit(#[trigger] s[i]),
    ensures
        decimal_value(s) >= 0,
    decreases s.len(),
{
    if s.len() > 0 {
        lemma_decimal_value_nonneg(s.drop_last());
    }
}

/// Reads `s` as decimal digits, refusing anything else and any value above `max`.
pub fn parse_decimal(s: &Vec<char>, max: u128) -> (r: Option<u128>)
    ensures
        match bounded_decimal(s@, max as int) {
            Some(v) => r == Some(v as u128) && v >= 0,
            None => r is None,
        },
{
    let n = s.len();
    if n == 0 {
        return None;
    }
    let mut acc: u128 = 0;
    let mut i: usize = 0;
    while i < n
        invariant
            n == s@.len(),
            i <= n,
            acc as int == decimal_value(s@.take(i as int)),
            acc <= max,
            forall|k: int| 0 <= k < i ==> is_digit(#[trigger] s@[k]),
        decreases n - i,
    {
        let c = s[i];
        if !('0' <= c && c <= '9') {
            assert(!is_decimal(s@));
            return None;
        }
        let d = (c as u32 - '0' as u32) as u128;
        assert(s@.take(i + 1).drop_last() =~= s@.take(i as int));
        if d > max || acc > (max - d) / 10 {
            proof {
                assert(10 * acc + d > max) by (nonlinear_arith)
                    requires
                        d > max || acc > (max - d) / 10,
                        acc >= 0,
                ;
                if is_decimal(s@) {
                    lemma_decimal_value_grows(s@, i + 1, n as int);
                    assert(s@.take(n as int) =~= s@);
                }
            }
            return None;
        }
        assert(acc * 10 + d <= max) by (nonlinear_arith)
            requires
                acc <= (max - d) / 10,
                d <= max,
        ;
        acc = acc * 10 + d;
        i = i + 1;
    }
    assert(s@.take(n as int) =~= s@);
    Some(acc)
}

} // verus!
