//! Small numeric helpers shared by the indicators.

use vstd::prelude::*;

use crate::num::{is_isqrt, Num};

verus! {

/// The raw values behind a sequence of numbers.
pub open spec fn views(s: Seq<Num>) -> Seq<int> {
    s.map_values(|n: Num| n@)
}

/// Largest element of a nonempty sequence.
pub open spec fn seq_max(s: Seq<int>) -> int
    recommends
        s.len() >= 1,
    decreases s.len(),
{
    if s.len() <= 1 {
        s[0]
    } else if s.last() > seq_max(s.drop_last()) {
        s.last()
    } else {
        seq_max(s.drop_last())
    }
}

/// Smallest element of a nonempty sequence.
pub open spec fn seq_min(s: Seq<int>) -> int
    recommends
        s.len() >= 1,
    decreases s.len(),
{
    if s.len() <= 1 {
        s[0]
    } else if s.last() < seq_min(s.drop_last()) {
        s.last()
    } else {
        seq_min(s.drop_last())
    }
}

/// The maximum is an upper bound for every element.
pub proof fn lemma_seq_max_ge(s: Seq<int>, i: int)
    requires
        0 <= i < s.len(),
    ensures
        s[i] <= seq_max(s),
    decreases s.len(),
{
    if s.len() > 1 && i < s.len() - 1 {
        lemma_seq_max_ge(s.drop_last(), i);
    }
}

/// Any upper bound for the elements bounds the maximum.
pub proof fn lemma_seq_max_le(s: Seq<int>, b: int)
    requires
        s.len() >= 1,
        forall|i: int| 0 <= i < s.len() ==> s[i] <= b,
    ensures
        seq_max(s) <= b,
    decreases s.len(),
{
    if s.len() > 1 {
        lemma_seq_max_le(s.drop_last(), b);
    }
}

/// The minimum is a lower bound for every element.
pub proof fn lemma_seq_min_le(s: Seq<int>, i: int)
    requires
        0 <= i < s.len(),
    ensures
        s[i] >= seq_min(s),
    decreases s.len(),
{
    if s.len() > 1 && i < s.len() - 1 {
        lemma_seq_min_le(s.drop_last(), i);
    }
}

/// Any lower bound for the elements bounds the minimum.
pub proof fn lemma_seq_min_ge(s: Seq<int>, b: int)
    requires
        s.len() >= 1,
        forall|i: int| 0 <= i < s.len() ==> s[i] >= b,
    ensures
        seq_min(s) >= b,
    decreases s.len(),
{
    if s.len() > 1 {
        lemma_seq_min_ge(s.drop_last(), b);
    }
}

/// Largest of three values.
pub open spec fn max3_v(a: int, b: int, c: int) -> int {
    if a >= b && a >= c {
        a
    } else if b >= c {
        b
    } else {
        c
    }
}

/// Returns the largest of 3 given numbers.
pub fn max3(a: Num, b: Num, c: Num) -> (r: Num)
    ensures
        r@ == max3_v(a@, b@, c@),
{
    a.max(b).max(c)
}

/// Integer square root of a count, rounded down.
pub fn isqrt_usize(n: usize) -> (r: usize)
    ensures
        is_isqrt(n as int, r as int),
        r <= n,
{
    let mut lo: usize = 0;
    let mut hi: usize = n;
    if n < 2 {
        proof {
            assert(is_isqrt(n as int, n as int)) by (nonlinear_arith)
                requires
                    0 <= n as int,
                    (n as int) < 2;
        }
        return n;
    }
    // For n >= 2 the root is strictly below n.
    proof {
        assert((n as int) < (n as int) * (n as int)) by (nonlinear_arith)
            requires
                n as int >= 2;
    }
    while lo + 1 < hi
        invariant
            lo < hi <= n,
            (lo as int) * (lo as int) <= n as int,
            (hi as int) * (hi as int) > n as int,
        decreases hi - lo,
    {
        let mid: usize = lo + (hi - lo) / 2;
        proof {
            assert((mid as int) * (mid as int) <= (n as int) * (n as int)) by (nonlinear_arith)
                requires
                    0 <= mid as int <= n as int;
        }
        if mid <= n / mid {
            // mid * mid <= n, compared without overflow.
            proof {
                vstd::arithmetic::div_mod::lemma_fundamental_div_mod(n as int, mid as int);
                assert((mid as int) * (mid as int) <= n as int) by (nonlinear_arith)
                    requires
                        mid as int >= 1,
                        mid as int <= (n as int) / (mid as int),
                        (n as int) / (mid as int) * (mid as int) + (n as int) % (mid as int)
                            == n as int,
                        (n as int) % (mid as int) >= 0;
            }
            lo = mid;
        } else {
            proof {
                vstd::arithmetic::div_mod::lemma_fundamental_div_mod(n as int, mid as int);
                assert((mid as int) * (mid as int) > n as int) by (nonlinear_arith)
                    requires
                        mid as int >= 1,
                        (mid as int) > (n as int) / (mid as int),
                        (n as int) / (mid as int) * (mid as int) + (n as int) % (mid as int)
                            == n as int,
                        (n as int) % (mid as int) < mid as int;
            }
            hi = mid;
        }
    }
    lo
}

} // verus!
