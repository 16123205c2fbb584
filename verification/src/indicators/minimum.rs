//! The extremum tracker for minima.

use vstd::prelude::*;

use crate::errors::TaError;
use crate::helpers::{lemma_seq_min_ge, lemma_seq_min_le, seq_min, views};
use crate::num::{in_range, Num, RAW_LIMIT};
use crate::traits::{Low, Next, Period, Reset};

verus! {

/// Abstract state of a [`Minimum`].
pub struct MinView {
    /// The window capacity.
    pub period: nat,
    /// Index of the cached minimum.
    pub min_index: nat,
    /// Slot that the next input overwrites.
    pub cur_index: nat,
    /// The window slots, as raw fixed-point values.
    pub deque: Seq<int>,
}

/// State of a fresh tracker: every slot holds the positive sentinel, which
/// no real input loses against.
pub open spec fn min_init(period: nat) -> MinView {
    MinView {
        period,
        min_index: 0,
        cur_index: 0,
        deque: Seq::new(period, |i: int| RAW_LIMIT as int),
    }
}

/// The cached index points at a smallest slot.
pub open spec fn min_cache_ok(s: MinView) -> bool {
    forall|i: int| 0 <= i < s.deque.len() ==> #[trigger] s.deque[i] >= s.deque[s.min_index as int]
}

/// Index of the first slot holding the smallest value, as the linear rescan
/// computes it: `m` and `idx` are the best value and index seen so far.
pub open spec fn scan_min(d: Seq<int>, i: nat, m: int, idx: nat) -> nat
    decreases d.len() - i,
{
    if i >= d.len() {
        idx
    } else if d[i as int] < m {
        scan_min(d, i + 1, d[i as int], i)
    } else {
        scan_min(d, i + 1, m, idx)
    }
}

/// Index found by a full rescan of the window.
pub open spec fn rescan_min_index(d: Seq<int>) -> nat {
    scan_min(d, 0, RAW_LIMIT as int, 0)
}

/// State after one input: the input overwrites the slot at the cursor; the
/// cache moves to the cursor when the input wins, is recomputed by a rescan
/// when the previous minimum was overwritten, and is unchanged otherwise.
pub open spec fn min_step(s: MinView, x: int) -> MinView {
    let d = s.deque.update(s.cur_index as int, x);
    let mi: nat = if x < d[s.min_index as int] {
        s.cur_index
    } else if s.min_index == s.cur_index {
        rescan_min_index(d)
    } else {
        s.min_index
    };
    let ci: nat = if s.cur_index + 1 < s.period {
        s.cur_index + 1
    } else {
        0
    };
    MinView { min_index: mi, cur_index: ci, deque: d, ..s }
}

/// Output for one input: the slot the cache then points at.
pub open spec fn min_out(s: MinView, x: int) -> int {
    let s2 = min_step(s, x);
    s2.deque[s2.min_index as int]
}

/// State after a whole input sequence.
pub open spec fn min_run(s: MinView, xs: Seq<int>) -> MinView
    decreases xs.len(),
{
    if xs.len() == 0 {
        s
    } else {
        min_run(min_step(s, xs[0]), xs.skip(1))
    }
}

/// Returns the lowest value in a given time frame.
///
/// A circular window of the last _period_ inputs plus a lazily recomputed
/// index of the current minimum: constant time per input except when the
/// reigning minimum is overwritten, which forces one linear rescan.
///
/// # Parameters
///
/// * _period_ - size of the time frame (integer greater than 0). Default value is 14.
#[derive(Debug)]
pub struct Minimum {
    period: usize,
    min_index: usize,
    cur_index: usize,
    deque: Vec<Num>,
}

impl View for Minimum {
    type V = MinView;

    closed spec fn view(&self) -> MinView {
        MinView {
            period: self.period as nat,
            min_index: self.min_index as nat,
            cur_index: self.cur_index as nat,
            deque: views(self.deque@),
        }
    }
}

impl Minimum {
    /// The window always has exactly `period` slots and both indices stay
    /// inside it.
    #[verifier::type_invariant]
    closed spec fn inv(self) -> bool {
        &&& self.period >= 1
        &&& self.deque@.len() == self.period
        &&& self.min_index < self.period
        &&& self.cur_index < self.period
    }

    /// Build a tracker over the given time frame; a zero period is refused.
    #[verifier::loop_isolation(false)]
    pub fn new(period: usize) -> (r: Result<Self, TaError>)
        ensures
            match r {
                Ok(m) => period >= 1 && m@ == min_init(period as nat) && min_cache_ok(m@),
                Err(e) => period == 0 && e == TaError::InvalidParameter,
            },
    {
        if period == 0 {
            Err(TaError::InvalidParameter)
        } else {
            let mut deque: Vec<Num> = Vec::new();
            let sentinel = Num::max_value();
            while deque.len() < period
                invariant
                    deque@.len() <= period,
                    forall|i: int| 0 <= i < deque@.len() ==> deque@[i]@ == RAW_LIMIT as int,
                decreases period - deque@.len(),
            {
                let ghost before = deque@;
                deque.push(sentinel);
                proof {
                    assert(forall|i: int|
                        0 <= i < before.len() ==> deque@[i] == before[i]);
                }
            }
            let m = Minimum { period, min_index: 0, cur_index: 0, deque };
            proof {
                assert(m@.deque =~= min_init(period as nat).deque);
            }
            Ok(m)
        }
    }

    /// Rescan the whole window for the first smallest slot.
    #[verifier::loop_isolation(false)]
    fn find_min_index(&self) -> (r: usize)
        ensures
            r as nat == rescan_min_index(views(self.deque@)),
            r < self.deque@.len(),
            forall|j: int|
                0 <= j < self.deque@.len() ==> views(self.deque@)[j] >= views(
                    self.deque@,
                )[r as int],
    {
        proof {
            use_type_invariant(&*self);
        }
        let ghost d = views(self.deque@);
        let mut min = Num::max_value();
        let mut index: usize = 0;
        let mut i: usize = 0;

        while i < self.deque.len()
            invariant
                self.deque@.len() >= 1,
                d == views(self.deque@),
                i <= d.len(),
                index < d.len(),
                rescan_min_index(d) == scan_min(d, i as nat, min@, index as nat),
                forall|j: int| 0 <= j < i ==> d[j] >= min@,
                if i == 0 {
                    min@ == RAW_LIMIT as int && index == 0
                } else {
                    index < i && d[index as int] == min@
                },
            decreases d.len() - i,
        {
            let val = self.deque[i];
            proof {
                use_type_invariant(&val);
            }
            if val < min {
                min = val;
                index = i;
            }
            i = i + 1;
        }
        index
    }

    /// Feed one value; returns the smallest of the last `period` inputs seen
    /// so far (all inputs, while fewer than `period` have arrived).
    fn next_num(&mut self, input: Num) -> (r: Num)
        ensures
            final(self)@ == min_step(old(self)@, input@),
            r@ == min_out(old(self)@, input@),
            min_cache_ok(old(self)@) ==> min_cache_ok(final(self)@) && r@ == seq_min(
                final(self)@.deque,
            ),
    {
        proof {
            use_type_invariant(&*self);
        }
        let ghost pre = self@;
        self.deque[self.cur_index] = input;

        if input < self.deque[self.min_index] {
            self.min_index = self.cur_index;
        } else if self.min_index == self.cur_index {
            self.min_index = self.find_min_index();
        }

        self.cur_index = if self.cur_index + 1 < self.period {
            self.cur_index + 1
        } else {
            0
        };

        let r = self.deque[self.min_index];
        proof {
            let post = min_step(pre, input@);
            assert(final(self)@.deque =~= post.deque);
            assert(final(self)@ == post);
            if min_cache_ok(pre) {
                let d = final(self)@.deque;
                let mi = final(self)@.min_index as int;
                assert forall|i: int| 0 <= i < d.len() implies d[i] >= d[mi] by {
                    if input@ < d[pre.min_index as int] {
                    } else if pre.min_index == pre.cur_index {
                    } else {
                    }
                }
                lemma_seq_min_ge(d, d[mi]);
                lemma_seq_min_le(d, mi);
            }
        }
        r
    }
}

impl Period for Minimum {
    fn period(&self) -> (r: usize)
        ensures
            r as nat == self@.period,
    {
        self.period
    }
}

impl Next<Num> for Minimum {
    type Output = Num;

    fn next(&mut self, input: Num) -> (r: Num)
        ensures
            final(self)@ == min_step(old(self)@, input@),
            r@ == min_out(old(self)@, input@),
            min_cache_ok(old(self)@) ==> min_cache_ok(final(self)@) && r@ == seq_min(
                final(self)@.deque,
            ),
    {
        self.next_num(input)
    }
}

impl<T: Low> Next<&T> for Minimum {
    type Output = Num;

    fn next(&mut self, input: &T) -> (r: Num)
        ensures
            final(self)@ == min_step(old(self)@, input.low_spec()),
            r@ == min_out(old(self)@, input.low_spec()),
            min_cache_ok(old(self)@) ==> min_cache_ok(final(self)@) && r@ == seq_min(
                final(self)@.deque,
            ),
    {
        let h = input.low();
        self.next_num(h)
    }
}

impl Reset for Minimum {
    #[verifier::loop_isolation(false)]
    fn reset(&mut self)
        ensures
            final(self)@ == min_init(old(self)@.period),
            min_cache_ok(final(self)@),
    {
        proof {
            use_type_invariant(&*self);
        }
        self.min_index = 0;
        self.cur_index = 0;
        let mut i: usize = 0;
        let sentinel = Num::max_value();
        while i < self.period
            invariant
                self.period == old(self).period,
                self.min_index == 0,
                self.cur_index == 0,
                self.deque@.len() == self.period,
                i <= self.period,
                forall|j: int| 0 <= j < i ==> self.deque@[j]@ == RAW_LIMIT as int,
            decreases self.period - i,
        {
            self.deque[i] = sentinel;
            i = i + 1;
        }
        proof {
            assert(final(self)@.deque =~= min_init(old(self)@.period).deque);
        }
    }
}

impl Clone for Minimum {
    /// A clone is an independent, identically behaving instance.
    fn clone(&self) -> (r: Self)
        ensures
            r@ == self@,
    {
        proof {
            use_type_invariant(&*self);
        }
        Minimum {
            period: self.period,
            min_index: self.min_index,
            cur_index: self.cur_index,
            deque: self.deque.clone(),
        }
    }
}

impl Default for Minimum {
    fn default() -> (r: Self)
        ensures
            r@ == min_init(14),
    {
        Minimum::new(14).unwrap()
    }
}

impl Minimum {
    /// The canonical display form, derived from the construction
    /// parameters alone.
    pub fn to_string(&self) -> (r: String)
        ensures
            r@ == crate::text::named1("MIN"@, self@.period),
    {
        crate::text::format_name1("MIN", self.period)
    }
}

/// One slot of the window after a run: either never written (still the
/// sentinel), or holding the input of the last time the cursor passed it.
pub open spec fn min_slot_ok(xs: Seq<int>, p: nat, d: Seq<int>, j: int) -> bool {
    ||| (d[j] == RAW_LIMIT as int && (forall|t: int|
        0 <= t < xs.len() ==> #[trigger] (t % (p as int)) != j))
    ||| (exists|t: int|
        0 <= t < xs.len() && #[trigger] (t % (p as int)) == j && d[j] == xs[t] && (forall|t2: int|
            t < t2 < xs.len() ==> #[trigger] (t2 % (p as int)) != j))
}

/// Everything a run from a fresh tracker guarantees: the shape of the
/// state, the cursor position, the cache, and the contents of every slot.
pub open spec fn min_run_ok(xs: Seq<int>, p: nat, s: MinView) -> bool {
    &&& s.period == p
    &&& s.deque.len() == p
    &&& s.cur_index as int == xs.len() as int % (p as int)
    &&& s.min_index < p
    &&& min_cache_ok(s)
    &&& forall|j: int| 0 <= j < p ==> min_slot_ok(xs, p, s.deque, j)
}

/// A run consumes its input sequence one element at a time from the front,
/// so appending one input steps the final state once.
pub proof fn lemma_min_run_snoc(s: MinView, xs: Seq<int>, x: int)
    ensures
        min_run(s, xs.push(x)) == min_step(min_run(s, xs), x),
    decreases xs.len(),
{
    if xs.len() == 0 {
        assert(xs.push(x).skip(1) =~= Seq::<int>::empty());
        assert(xs.push(x)[0] == x);
        assert(min_run(s, xs.push(x)) == min_run(min_step(s, x), Seq::<int>::empty()));
        assert(min_run(min_step(s, x), Seq::<int>::empty()) == min_step(s, x));
        assert(min_run(s, xs) == s);
    } else {
        assert(xs.push(x)[0] == xs[0]);
        assert(xs.push(x).skip(1) =~= xs.skip(1).push(x));
        assert(min_run(s, xs.push(x)) == min_run(min_step(s, xs[0]), xs.skip(1).push(x)));
        lemma_min_run_snoc(min_step(s, xs[0]), xs.skip(1), x);
        assert(min_run(s, xs) == min_run(min_step(s, xs[0]), xs.skip(1)));
    }
}

/// The rescan returns an index of a smallest slot, provided every slot is a
/// representable value: `m` and `idx` are the best value and index so far.
proof fn lemma_scan_min_props(d: Seq<int>, i: nat, m: int, idx: nat)
    requires
        1 <= d.len(),
        i <= d.len(),
        idx < d.len(),
        forall|j: int| 0 <= j < i ==> d[j] >= m,
        forall|j: int| 0 <= j < d.len() ==> d[j] <= RAW_LIMIT as int,
        d[idx as int] == m || m == RAW_LIMIT as int,
    ensures
        scan_min(d, i, m, idx) < d.len(),
        d[scan_min(d, i, m, idx) as int] <= m,
        forall|j: int| 0 <= j < d.len() ==> #[trigger] d[j] >= d[scan_min(d, i, m, idx) as int],
    decreases d.len() - i,
{
    if i >= d.len() {
        if m == RAW_LIMIT as int {
            assert(forall|j: int| 0 <= j < d.len() ==> d[j] <= m || d[j] >= m);
        }
        if d.len() == i {
            if !(d[idx as int] == m) {
                assert(forall|j: int| 0 <= j < d.len() ==> d[j] <= m);
                assert(d[idx as int] >= m && d[idx as int] <= m);
            }
        }
    } else if d[i as int] < m {
        lemma_scan_min_props(d, i + 1, d[i as int], i);
    } else {
        lemma_scan_min_props(d, i + 1, m, idx);
    }
}

/// One step keeps the cache pointing at a smallest slot, provided every
/// value in play is representable.
proof fn lemma_min_step_cache(s: MinView, x: int)
    requires
        s.period >= 1,
        s.deque.len() == s.period,
        s.cur_index < s.period,
        s.min_index < s.period,
        min_cache_ok(s),
        in_range(x),
        forall|j: int| 0 <= j < s.deque.len() ==> in_range(#[trigger] s.deque[j]),
    ensures
        min_step(s, x).min_index < s.period,
        min_cache_ok(min_step(s, x)),
        min_out(s, x) == seq_min(min_step(s, x).deque),
    decreases 0int,
{
    let d = s.deque.update(s.cur_index as int, x);
    let s2 = min_step(s, x);
    if x < d[s.min_index as int] {
        assert(s.min_index != s.cur_index);
        assert forall|i: int| 0 <= i < d.len() implies #[trigger] d[i] >= d[s2.min_index as int] by {}
    } else if s.min_index == s.cur_index {
        lemma_scan_min_props(d, 0, RAW_LIMIT as int, 0);
    } else {
        assert forall|i: int| 0 <= i < d.len() implies #[trigger] d[i] >= d[s2.min_index as int] by {}
    }
    lemma_seq_min_ge(d, d[s2.min_index as int]);
    lemma_seq_min_le(d, s2.min_index as int);
}

/// The cursor wraps by exactly one position per input.
proof fn lemma_mod_increment(n: int, p: int)
    requires
        n >= 0,
        p >= 1,
    ensures
        (n + 1) % p == if n % p + 1 < p {
            n % p + 1
        } else {
            0
        },
{
    vstd::arithmetic::div_mod::lemma_fundamental_div_mod(n, p);
    let q = n / p;
    let r = n % p;
    vstd::arithmetic::div_mod::lemma_mod_bound(n, p);
    if r + 1 < p {
        assert(n + 1 == q * p + (r + 1)) by (nonlinear_arith)
            requires
                n == p * q + r;
        vstd::arithmetic::div_mod::lemma_fundamental_div_mod_converse_mod(n + 1, p, q, r + 1);
    } else {
        assert(n + 1 == (q + 1) * p + 0) by (nonlinear_arith)
            requires
                n == p * q + r,
                r + 1 == p;
        vstd::arithmetic::div_mod::lemma_fundamental_div_mod_converse_mod(n + 1, p, q + 1, 0);
    }
}

/// Running a fresh tracker over any representable input sequence leaves
/// every slot holding the last input that wrote it, with the cache on a
/// smallest slot.
pub proof fn lemma_min_run_ok(p: nat, xs: Seq<int>)
    requires
        p >= 1,
        forall|i: int| 0 <= i < xs.len() ==> in_range(#[trigger] xs[i]),
    ensures
        min_run_ok(xs, p, min_run(min_init(p), xs)),
    decreases xs.len(),
{
    let pint = p as int;
    if xs.len() == 0 {
        vstd::arithmetic::div_mod::lemma_small_mod(0, p);
        assert(min_run(min_init(p), xs) == min_init(p));
        assert forall|j: int| 0 <= j < p implies min_slot_ok(xs, p, min_init(p).deque, j) by {
            assert(min_init(p).deque[j] == RAW_LIMIT as int);
        }
    } else {
        let ys = xs.drop_last();
        let x = xs.last();
        assert(ys.push(x) =~= xs);
        lemma_min_run_ok(p, ys);
        lemma_min_run_snoc(min_init(p), ys, x);
        let s = min_run(min_init(p), ys);
        let n = ys.len() as int;
        assert forall|j: int| 0 <= j < s.deque.len() implies in_range(#[trigger] s.deque[j]) by {
            assert(min_slot_ok(ys, p, s.deque, j));
        }
        lemma_min_step_cache(s, x);
        let s2 = min_step(s, x);
        vstd::arithmetic::div_mod::lemma_mod_bound(n, pint);
        lemma_mod_increment(n, pint);
        let cur = s.cur_index as int;
        assert forall|j: int| 0 <= j < p implies min_slot_ok(xs, p, s2.deque, j) by {
            if j == cur {
                assert(n % pint == j);
                assert(s2.deque[j] == xs[n]);
                assert(forall|t2: int| n < t2 < xs.len() ==> #[trigger] (t2 % pint) != j);
            } else {
                assert(min_slot_ok(ys, p, s.deque, j));
                assert(s2.deque[j] == s.deque[j]);
                if s.deque[j] == RAW_LIMIT as int && (forall|t: int|
                    0 <= t < ys.len() ==> #[trigger] (t % pint) != j) {
                    assert(forall|t: int| 0 <= t < xs.len() ==> #[trigger] (t % pint) != j);
                } else {
                    let t = choose|t: int|
                        0 <= t < ys.len() && #[trigger] (t % pint) == j && s.deque[j] == ys[t] && (
                        forall|t2: int| t < t2 < ys.len() ==> #[trigger] (t2 % pint) != j);
                    assert(0 <= t < xs.len() && t % pint == j && s2.deque[j] == xs[t] && (
                    forall|t2: int| t < t2 < xs.len() ==> #[trigger] (t2 % pint) != j));
                }
            }
        }
    }
}

/// After each input, the reported extremum equals the true minimum of the
/// last `min(period, n)` inputs, where `n` counts the inputs seen so far:
/// exactly what a brute-force reference window would report.
pub proof fn lemma_min_reports_window_min(p: nat, xs: Seq<int>, t: int)
    requires
        p >= 1,
        0 <= t < xs.len(),
        forall|i: int| 0 <= i < xs.len() ==> in_range(#[trigger] xs[i]),
    ensures
        ({
            let m = if t + 1 <= p {
                t + 1
            } else {
                p as int
            };
            min_out(min_run(min_init(p), xs.take(t)), xs[t]) == seq_min(
                xs.subrange(t + 1 - m, t + 1),
            )
        }),
{
    let pint = p as int;
    let pre = xs.take(t);
    let now = xs.take(t + 1);
    assert(pre.push(xs[t]) =~= now);
    lemma_min_run_ok(p, pre);
    lemma_min_run_ok(p, now);
    lemma_min_run_snoc(min_init(p), pre, xs[t]);
    let s = min_run(min_init(p), pre);
    assert forall|j: int| 0 <= j < s.deque.len() implies in_range(#[trigger] s.deque[j]) by {
        assert(min_slot_ok(pre, p, s.deque, j));
    }
    lemma_min_step_cache(s, xs[t]);
    let s2 = min_run(min_init(p), now);
    let n = t + 1;
    let m = if n <= pint {
        n
    } else {
        pint
    };
    let w = xs.subrange(n - m, n);
    // Every slot is bounded by some window element.
    assert forall|j: int| 0 <= j < s2.deque.len() implies s2.deque[j] >= seq_min(w) by {
        assert(min_slot_ok(now, p, s2.deque, j));
        lemma_seq_min_le(w, m - 1);
        if s2.deque[j] != RAW_LIMIT as int || !(forall|u: int|
            0 <= u < now.len() ==> #[trigger] (u % pint) != j) {
            let u = choose|u: int|
                0 <= u < now.len() && #[trigger] (u % pint) == j && s2.deque[j] == now[u] && (
                forall|u2: int| u < u2 < now.len() ==> #[trigger] (u2 % pint) != j);
            if u < n - pint {
                vstd::arithmetic::div_mod::lemma_mod_add_multiples_vanish(u, pint);
                assert((u + pint) % pint == j);
                assert(false);
            }
            lemma_seq_min_le(w, u - (n - m));
        } else {
            assert(w[m - 1] <= RAW_LIMIT as int);
        }
    }
    lemma_seq_min_ge(s2.deque, seq_min(w));
    // Every window element sits in some slot.
    assert forall|i: int| 0 <= i < w.len() implies w[i] >= seq_min(s2.deque) by {
        let u = n - m + i;
        vstd::arithmetic::div_mod::lemma_mod_bound(u, pint);
        let j = u % pint;
        assert(min_slot_ok(now, p, s2.deque, j));
        assert forall|u2: int| u < u2 < now.len() implies #[trigger] (u2 % pint) != j by {
            if u2 % pint == j {
                vstd::arithmetic::div_mod::lemma_mod_equivalence(u2, u, pint);
                assert((u2 - u) % pint == 0);
                vstd::arithmetic::div_mod::lemma_mod_is_zero((u2 - u) as nat, pint as nat);
                assert(u2 >= n);
            }
        }
        if s2.deque[j] == RAW_LIMIT as int && (forall|v: int|
            0 <= v < now.len() ==> #[trigger] (v % pint) != j) {
            assert(u % pint != j);
            assert(false);
        }
        let v = choose|v: int|
            0 <= v < now.len() && #[trigger] (v % pint) == j && s2.deque[j] == now[v] && (
            forall|v2: int| v < v2 < now.len() ==> #[trigger] (v2 % pint) != j);
        if v < u {
            assert(u % pint == j);
            assert(false);
        }
        if u < v {
            assert(v % pint != j || !(u < v));
        }
        assert(v == u);
        assert(s2.deque[j] == now[u]);
        lemma_seq_min_le(s2.deque, j);
    }
    lemma_seq_min_ge(w, seq_min(s2.deque));
}

/// A plain-value snapshot of a tracker's full state.  Restoring a
/// snapshot and continuing the input stream produces the same reported
/// extrema as an uninterrupted run.
#[derive(Debug, Clone, PartialEq)]
pub struct MinimumSnapshot {
    /// The window capacity.
    pub period: usize,
    /// The cached extremum index.
    pub min_index: usize,
    /// Slot that the next input overwrites.
    pub cur_index: usize,
    /// The window contents.
    pub deque: Vec<Num>,
}

/// Does the snapshot hold exactly this abstract state?
pub open spec fn min_snapshot_of(s: &MinimumSnapshot, v: MinView) -> bool {
    &&& s.period as nat == v.period
    &&& s.min_index as nat == v.min_index
    &&& s.cur_index as nat == v.cur_index
    &&& views(s.deque@) == v.deque
}

/// The abstract state a restored tracker holds: the cached index is
/// recomputed by a rescan rather than taken from the snapshot.
pub open spec fn min_snapshot_view(s: &MinimumSnapshot) -> MinView {
    MinView {
        period: s.period as nat,
        min_index: rescan_min_index(views(s.deque@)),
        cur_index: s.cur_index as nat,
        deque: views(s.deque@),
    }
}

/// A snapshot whose fields a tracker can actually hold.
pub open spec fn min_snapshot_valid(s: &MinimumSnapshot) -> bool {
    &&& s.period >= 1
    &&& s.deque@.len() == s.period
    &&& s.min_index < s.period
    &&& s.cur_index < s.period
}

impl Minimum {
    /// Capture the full state.
    pub fn snapshot(&self) -> (s: MinimumSnapshot)
        ensures
            min_snapshot_of(&s, self@),
            min_snapshot_valid(&s),
    {
        proof {
            use_type_invariant(&*self);
        }
        let s = MinimumSnapshot {
            period: self.period,
            min_index: self.min_index,
            cur_index: self.cur_index,
            deque: self.deque.clone(),
        };
        proof {
            assert(views(s.deque@) =~= self@.deque);
        }
        s
    }

    /// Rebuild a tracker from a snapshot; inconsistent snapshots are
    /// refused.  The cached index is recomputed by a rescan rather than
    /// trusted, so the rebuilt tracker always points at a true extremum;
    /// restoring what [`Self::snapshot`] captured therefore reports the
    /// same extrema as the uninterrupted instance on any continuation.
    pub fn restore(s: &MinimumSnapshot) -> (r: Result<Self, TaError>)
        ensures
            match r {
                Ok(t) => min_snapshot_valid(s) && t@ == min_snapshot_view(s) && min_cache_ok(
                    t@,
                ),
                Err(e) => !min_snapshot_valid(s) && e == TaError::InvalidParameter,
            },
    {
        let valid = s.period >= 1 && s.deque.len() == s.period && s.min_index < s.period
            && s.cur_index < s.period;
        if !valid {
            Err(TaError::InvalidParameter)
        } else {
            let mut t = Minimum {
                period: s.period,
                min_index: s.min_index,
                cur_index: s.cur_index,
                deque: s.deque.clone(),
            };
            proof {
                assert(t@.deque =~= views(s.deque@));
            }
            t.min_index = t.find_min_index();
            Ok(t)
        }
    }
}

} // verus!
