//! The extremum tracker for maxima.

use vstd::prelude::*;

use crate::errors::TaError;
use crate::helpers::{lemma_seq_max_ge, lemma_seq_max_le, seq_max, views};
use crate::num::{in_range, Num, RAW_LIMIT};
use crate::traits::{High, Next, Period, Reset};

verus! {

/// Abstract state of a [`Maximum`].
pub struct MaxView {
    /// The window capacity.
    pub period: nat,
    /// Index of the cached maximum.
    pub max_index: nat,
    /// Slot that the next input overwrites.
    pub cur_index: nat,
    /// The window slots, as raw fixed-point values.
    pub deque: Seq<int>,
}

/// State of a fresh tracker: every slot holds the negative sentinel, which
/// no real input loses against.
pub open spec fn max_init(period: nat) -> MaxView {
    MaxView {
        period,
        max_index: 0,
        cur_index: 0,
        deque: Seq::new(period, |i: int| -(RAW_LIMIT as int)),
    }
}

/// The cached index points at a largest slot.
pub open spec fn max_cache_ok(s: MaxView) -> bool {
    forall|i: int| 0 <= i < s.deque.len() ==> #[trigger] s.deque[i] <= s.deque[s.max_index as int]
}

/// Index of the first slot holding the largest value, as the linear rescan
/// computes it: `m` and `idx` are the best value and index seen so far.
pub open spec fn scan_max(d: Seq<int>, i: nat, m: int, idx: nat) -> nat
    decreases d.len() - i,
{
    if i >= d.len() {
        idx
    } else if d[i as int] > m {
        scan_max(d, i + 1, d[i as int], i)
    } else {
        scan_max(d, i + 1, m, idx)
    }
}

/// Index found by a full rescan of the window.
pub open spec fn rescan_index(d: Seq<int>) -> nat {
    scan_max(d, 0, -(RAW_LIMIT as int), 0)
}

/// State after one input: the input overwrites the slot at the cursor; the
/// cache moves to the cursor when the input wins, is recomputed by a rescan
/// when the previous maximum was overwritten, and is unchanged otherwise.
pub open spec fn max_step(s: MaxView, x: int) -> MaxView {
    let d = s.deque.update(s.cur_index as int, x);
    let mi: nat = if x > d[s.max_index as int] {
        s.cur_index
    } else if s.max_index == s.cur_index {
        rescan_index(d)
    } else {
        s.max_index
    };
    let ci: nat = if s.cur_index + 1 < s.period {
        s.cur_index + 1
    } else {
        0
    };
    MaxView { max_index: mi, cur_index: ci, deque: d, ..s }
}

/// Output for one input: the slot the cache then points at.
pub open spec fn max_out(s: MaxView, x: int) -> int {
    let s2 = max_step(s, x);
    s2.deque[s2.max_index as int]
}

/// State after a whole input sequence.
pub open spec fn max_run(s: MaxView, xs: Seq<int>) -> MaxView
    decreases xs.len(),
{
    if xs.len() == 0 {
        s
    } else {
        max_run(max_step(s, xs[0]), xs.skip(1))
    }
}

/// Returns the highest value in a given time frame.
///
/// A circular window of the last _period_ inputs plus a lazily recomputed
/// index of the current maximum: constant time per input except when the
/// reigning maximum is overwritten, which forces one linear rescan.
///
/// # Parameters
///
/// * _period_ - size of the time frame (integer greater than 0). Default value is 14.
#[derive(Debug)]
pub struct Maximum {
    period: usize,
    max_index: usize,
    cur_index: usize,
    deque: Vec<Num>,
}

impl View for Maximum {
    type V = MaxView;

    closed spec fn view(&self) -> MaxView {
        MaxView {
            period: self.period as nat,
            max_index: self.max_index as nat,
            cur_index: self.cur_index as nat,
            deque: views(self.deque@),
        }
    }
}

impl Maximum {
    /// The window always has exactly `period` slots and both indices stay
    /// inside it.
    #[verifier::type_invariant]
    closed spec fn inv(self) -> bool {
        &&& self.period >= 1
        &&& self.deque@.len() == self.period
        &&& self.max_index < self.period
        &&& self.cur_index < self.period
    }

    /// Build a tracker over the given time frame; a zero period is refused.
    #[verifier::loop_isolation(false)]
    pub fn new(period: usize) -> (r: Result<Self, TaError>)
        ensures
            match r {
                Ok(m) => period >= 1 && m@ == max_init(period as nat) && max_cache_ok(m@),
                Err(e) => period == 0 && e == TaError::InvalidParameter,
            },
    {
        if period == 0 {
            Err(TaError::InvalidParameter)
        } else {
            let mut deque: Vec<Num> = Vec::new();
            let sentinel = Num::min_value();
            while deque.len() < period
                invariant
                    deque@.len() <= period,
                    forall|i: int| 0 <= i < deque@.len() ==> deque@[i]@ == -(RAW_LIMIT as int),
                decreases period - deque@.len(),
            {
                let ghost before = deque@;
                deque.push(sentinel);
                proof {
                    assert(forall|i: int|
                        0 <= i < before.len() ==> deque@[i] == before[i]);
                }
            }
            let m = Maximum { period, max_index: 0, cur_index: 0, deque };
            proof {
                assert(m@.deque =~= max_init(period as nat).deque);
            }
            Ok(m)
        }
    }

    /// Rescan the whole window for the first largest slot.
    #[verifier::loop_isolation(false)]
    fn find_max_index(&self) -> (r: usize)
        ensures
            r as nat == rescan_index(views(self.deque@)),
            r < self.deque@.len(),
            forall|j: int|
                0 <= j < self.deque@.len() ==> views(self.deque@)[j] <= views(
                    self.deque@,
                )[r as int],
    {
        proof {
            use_type_invariant(&*self);
        }
        let ghost d = views(self.deque@);
        let mut max = Num::min_value();
        let mut index: usize = 0;
        let mut i: usize = 0;

        while i < self.deque.len()
            invariant
                self.deque@.len() >= 1,
                d == views(self.deque@),
                i <= d.len(),
                index < d.len(),
                rescan_index(d) == scan_max(d, i as nat, max@, index as nat),
                forall|j: int| 0 <= j < i ==> d[j] <= max@,
                if i == 0 {
                    max@ == -(RAW_LIMIT as int) && index == 0
                } else {
                    index < i && d[index as int] == max@
                },
            decreases d.len() - i,
        {
            let val = self.deque[i];
            proof {
                use_type_invariant(&val);
            }
            if val > max {
                max = val;
                index = i;
            }
            i = i + 1;
        }
        index
    }

    /// Feed one value; returns the largest of the last `period` inputs seen
    /// so far (all inputs, while fewer than `period` have arrived).
    fn next_num(&mut self, input: Num) -> (r: Num)
        ensures
            final(self)@ == max_step(old(self)@, input@),
            r@ == max_out(old(self)@, input@),
            max_cache_ok(old(self)@) ==> max_cache_ok(final(self)@) && r@ == seq_max(
                final(self)@.deque,
            ),
    {
        proof {
            use_type_invariant(&*self);
        }
        let ghost pre = self@;
        self.deque[self.cur_index] = input;

        if input > self.deque[self.max_index] {
            self.max_index = self.cur_index;
        } else if self.max_index == self.cur_index {
            self.max_index = self.find_max_index();
        }

        self.cur_index = if self.cur_index + 1 < self.period {
            self.cur_index + 1
        } else {
            0
        };

        let r = self.deque[self.max_index];
        proof {
            let post = max_step(pre, input@);
            assert(final(self)@.deque =~= post.deque);
            assert(final(self)@ == post);
            if max_cache_ok(pre) {
                let d = final(self)@.deque;
                let mi = final(self)@.max_index as int;
                assert forall|i: int| 0 <= i < d.len() implies d[i] <= d[mi] by {
                    if input@ > d[pre.max_index as int] {
                    } else if pre.max_index == pre.cur_index {
                    } else {
                    }
                }
                lemma_seq_max_le(d, d[mi]);
                lemma_seq_max_ge(d, mi);
            }
        }
        r
    }
}

impl Period for Maximum {
    fn period(&self) -> (r: usize)
        ensures
            r as nat == self@.period,
    {
        self.period
    }
}

impl Next<Num> for Maximum {
    type Output = Num;

    fn next(&mut self, input: Num) -> (r: Num)
        ensures
            final(self)@ == max_step(old(self)@, input@),
            r@ == max_out(old(self)@, input@),
            max_cache_ok(old(self)@) ==> max_cache_ok(final(self)@) && r@ == seq_max(
                final(self)@.deque,
            ),
    {
        self.next_num(input)
    }
}

impl<T: High> Next<&T> for Maximum {
    type Output = Num;

    fn next(&mut self, input: &T) -> (r: Num)
        ensures
            final(self)@ == max_step(old(self)@, input.high_spec()),
            r@ == max_out(old(self)@, input.high_spec()),
            max_cache_ok(old(self)@) ==> max_cache_ok(final(self)@) && r@ == seq_max(
                final(self)@.deque,
            ),
    {
        let h = input.high();
        self.next_num(h)
    }
}

impl Reset for Maximum {
    #[verifier::loop_isolation(false)]
    fn reset(&mut self)
        ensures
            final(self)@ == max_init(old(self)@.period),
            max_cache_ok(final(self)@),
    {
        proof {
            use_type_invariant(&*self);
        }
        self.max_index = 0;
        self.cur_index = 0;
        let mut i: usize = 0;
        let sentinel = Num::min_value();
        while i < self.period
            invariant
                self.period == old(self).period,
                self.max_index == 0,
                self.cur_index == 0,
                self.deque@.len() == self.period,
                i <= self.period,
                forall|j: int| 0 <= j < i ==> self.deque@[j]@ == -(RAW_LIMIT as int),
            decreases self.period - i,
        {
            self.deque[i] = sentinel;
            i = i + 1;
        }
        proof {
            assert(final(self)@.deque =~= max_init(old(self)@.period).deque);
        }
    }
}

impl Clone for Maximum {
    /// A clone is an independent, identically behaving instance.
    fn clone(&self) -> (r: Self)
        ensures
            r@ == self@,
    {
        proof {
            use_type_invariant(&*self);
        }
        Maximum {
            period: self.period,
            max_index: self.max_index,
            cur_index: self.cur_index,
            deque: self.deque.clone(),
        }
    }
}

impl Default for Maximum {
    fn default() -> (r: Self)
        ensures
            r@ == max_init(14),
    {
        Maximum::new(14).unwrap()
    }
}

impl Maximum {
    /// The canonical display form, derived from the construction
    /// parameters alone.
    pub fn to_string(&self) -> (r: String)
        ensures
            r@ == crate::text::named1("MAX"@, self@.period),
    {
        crate::text::format_name1("MAX", self.period)
    }
}


/// One slot of the window after a run: either never written (still the
/// sentinel), or holding the input of the last time the cursor passed it.
pub open spec fn max_slot_ok(xs: Seq<int>, p: nat, d: Seq<int>, j: int) -> bool {
    ||| (d[j] == -(RAW_LIMIT as int) && (forall|t: int|
        0 <= t < xs.len() ==> #[trigger] (t % (p as int)) != j))
    ||| (exists|t: int|
        0 <= t < xs.len() && #[trigger] (t % (p as int)) == j && d[j] == xs[t] && (forall|t2: int|
            t < t2 < xs.len() ==> #[trigger] (t2 % (p as int)) != j))
}

/// Everything a run from a fresh tracker guarantees: the shape of the
/// state, the cursor position, the cache, and the contents of every slot.
pub open spec fn max_run_ok(xs: Seq<int>, p: nat, s: MaxView) -> bool {
    &&& s.period == p
    &&& s.deque.len() == p
    &&& s.cur_index as int == xs.len() as int % (p as int)
    &&& s.max_index < p
    &&& max_cache_ok(s)
    &&& forall|j: int| 0 <= j < p ==> max_slot_ok(xs, p, s.deque, j)
}

/// A run consumes its input sequence one element at a time from the front,
/// so appending one input steps the final state once.
pub proof fn lemma_max_run_snoc(s: MaxView, xs: Seq<int>, x: int)
    ensures
        max_run(s, xs.push(x)) == max_step(max_run(s, xs), x),
    decreases xs.len(),
{
    if xs.len() == 0 {
        assert(xs.push(x).skip(1) =~= Seq::<int>::empty());
        assert(xs.push(x)[0] == x);
        assert(max_run(s, xs.push(x)) == max_run(max_step(s, x), Seq::<int>::empty()));
        assert(max_run(max_step(s, x), Seq::<int>::empty()) == max_step(s, x));
        assert(max_run(s, xs) == s);
    } else {
        assert(xs.push(x)[0] == xs[0]);
        assert(xs.push(x).skip(1) =~= xs.skip(1).push(x));
        assert(max_run(s, xs.push(x)) == max_run(max_step(s, xs[0]), xs.skip(1).push(x)));
        lemma_max_run_snoc(max_step(s, xs[0]), xs.skip(1), x);
        assert(max_run(s, xs) == max_run(max_step(s, xs[0]), xs.skip(1)));
    }
}

/// The rescan returns an index of a largest slot, provided every slot is a
/// representable value: `m` and `idx` are the best value and index so far.
proof fn lemma_scan_max_props(d: Seq<int>, i: nat, m: int, idx: nat)
    requires
        1 <= d.len(),
        i <= d.len(),
        idx < d.len(),
        forall|j: int| 0 <= j < i ==> d[j] <= m,
        forall|j: int| 0 <= j < d.len() ==> d[j] >= -(RAW_LIMIT as int),
        d[idx as int] == m || m == -(RAW_LIMIT as int),
    ensures
        scan_max(d, i, m, idx) < d.len(),
        d[scan_max(d, i, m, idx) as int] >= m,
        forall|j: int| 0 <= j < d.len() ==> #[trigger] d[j] <= d[scan_max(d, i, m, idx) as int],
    decreases d.len() - i,
{
    if i >= d.len() {
        if m == -(RAW_LIMIT as int) {
            assert(forall|j: int| 0 <= j < d.len() ==> d[j] <= m || d[j] >= m);
        }
        if d.len() == i {
            if !(d[idx as int] == m) {
                assert(forall|j: int| 0 <= j < d.len() ==> d[j] <= m);
                assert(d[idx as int] >= m && d[idx as int] <= m);
            }
        }
    } else if d[i as int] > m {
        lemma_scan_max_props(d, i + 1, d[i as int], i);
    } else {
        lemma_scan_max_props(d, i + 1, m, idx);
    }
}

/// One step keeps the cache pointing at a largest slot, provided every
/// value in play is representable.
proof fn lemma_max_step_cache(s: MaxView, x: int)
    requires
        s.period >= 1,
        s.deque.len() == s.period,
        s.cur_index < s.period,
        s.max_index < s.period,
        max_cache_ok(s),
        in_range(x),
        forall|j: int| 0 <= j < s.deque.len() ==> in_range(#[trigger] s.deque[j]),
    ensures
        max_step(s, x).max_index < s.period,
        max_cache_ok(max_step(s, x)),
        max_out(s, x) == seq_max(max_step(s, x).deque),
    decreases 0int,
{
    let d = s.deque.update(s.cur_index as int, x);
    let s2 = max_step(s, x);
    if x > d[s.max_index as int] {
        assert(s.max_index != s.cur_index);
        assert forall|i: int| 0 <= i < d.len() implies #[trigger] d[i] <= d[s2.max_index as int] by {}
    } else if s.max_index == s.cur_index {
        lemma_scan_max_props(d, 0, -(RAW_LIMIT as int), 0);
    } else {
        assert forall|i: int| 0 <= i < d.len() implies #[trigger] d[i] <= d[s2.max_index as int] by {}
    }
    lemma_seq_max_le(d, d[s2.max_index as int]);
    lemma_seq_max_ge(d, s2.max_index as int);
}

/// The cursor wraps by exactly one position per input.
proof fn lemma_mod_increment(n: int, p: int)
    requires
        n >= 0,
        p >= 1,
    ensures
        (n + 1) % p == if n % p + 1 < p {
            n % p + 1
        } else {
            0
        },
{
    vstd::arithmetic::div_mod::lemma_fundamental_div_mod(n, p);
    let q = n / p;
    let r = n % p;
    vstd::arithmetic::div_mod::lemma_mod_bound(n, p);
    if r + 1 < p {
        assert(n + 1 == q * p + (r + 1)) by (nonlinear_arith)
            requires
                n == p * q + r;
        vstd::arithmetic::div_mod::lemma_fundamental_div_mod_converse_mod(n + 1, p, q, r + 1);
    } else {
        assert(n + 1 == (q + 1) * p + 0) by (nonlinear_arith)
            requires
                n == p * q + r,
                r + 1 == p;
        vstd::arithmetic::div_mod::lemma_fundamental_div_mod_converse_mod(n + 1, p, q + 1, 0);
    }
}

/// Running a fresh tracker over any representable input sequence leaves
/// every slot holding the last input that wrote it, with the cache on a
/// largest slot.
pub proof fn lemma_max_run_ok(p: nat, xs: Seq<int>)
    requires
        p >= 1,
        forall|i: int| 0 <= i < xs.len() ==> in_range(#[trigger] xs[i]),
    ensures
        max_run_ok(xs, p, max_run(max_init(p), xs)),
    decreases xs.len(),
{
    let pint = p as int;
    if xs.len() == 0 {
        vstd::arithmetic::div_mod::lemma_small_mod(0, p);
        assert(max_run(max_init(p), xs) == max_init(p));
        assert forall|j: int| 0 <= j < p implies max_slot_ok(xs, p, max_init(p).deque, j) by {
            assert(max_init(p).deque[j] == -(RAW_LIMIT as int));
        }
    } else {
        let ys = xs.drop_last();
        let x = xs.last();
        assert(ys.push(x) =~= xs);
        lemma_max_run_ok(p, ys);
        lemma_max_run_snoc(max_init(p), ys, x);
        let s = max_run(max_init(p), ys);
        let n = ys.len() as int;
        assert forall|j: int| 0 <= j < s.deque.len() implies in_range(#[trigger] s.deque[j]) by {
            assert(max_slot_ok(ys, p, s.deque, j));
        }
        lemma_max_step_cache(s, x);
        let s2 = max_step(s, x);
        vstd::arithmetic::div_mod::lemma_mod_bound(n, pint);
        lemma_mod_increment(n, pint);
        let cur = s.cur_index as int;
        assert forall|j: int| 0 <= j < p implies max_slot_ok(xs, p, s2.deque, j) by {
            if j == cur {
                assert(n % pint == j);
                assert(s2.deque[j] == xs[n]);
                assert(forall|t2: int| n < t2 < xs.len() ==> #[trigger] (t2 % pint) != j);
            } else {
                assert(max_slot_ok(ys, p, s.deque, j));
                assert(s2.deque[j] == s.deque[j]);
                if s.deque[j] == -(RAW_LIMIT as int) && (forall|t: int|
                    0 <= t < ys.len() ==> #[trigger] (t % pint) != j) {
                    assert(forall|t: int| 0 <= t < xs.len() ==> #[trigger] (t % pint) != j);
                } else {
                    let t = choose|t: int|
                        0 <= t < ys.len() && #[trigger] (t % pint) == j && s.deque[j] == ys[t] && (
                        forall|t2: int| t < t2 < ys.len() ==> #[trigger] (t2 % pint) != j);
                    assert(0 <= t < xs.len() && t % pint == j && s2.deque[j] == xs[t] && (
                    forall|t2: int| t < t2 < xs.len() ==> #[trigger] (t2 % pint) != j));
                }
            }
        }
    }
}

/// After each input, the reported extremum equals the true maximum of the
/// last `min(period, n)` inputs, where `n` counts the inputs seen so far:
/// exactly what a brute-force reference window would report.
pub proof fn lemma_max_reports_window_max(p: nat, xs: Seq<int>, t: int)
    requires
        p >= 1,
        0 <= t < xs.len(),
        forall|i: int| 0 <= i < xs.len() ==> in_range(#[trigger] xs[i]),
    ensures
        ({
            let m = if t + 1 <= p {
                t + 1
            } else {
                p as int
            };
            max_out(max_run(max_init(p), xs.take(t)), xs[t]) == seq_max(
                xs.subrange(t + 1 - m, t + 1),
            )
        }),
{
    let pint = p as int;
    let pre = xs.take(t);
    let now = xs.take(t + 1);
    assert(pre.push(xs[t]) =~= now);
    lemma_max_run_ok(p, pre);
    lemma_max_run_ok(p, now);
    lemma_max_run_snoc(max_init(p), pre, xs[t]);
    let s = max_run(max_init(p), pre);
    assert forall|j: int| 0 <= j < s.deque.len() implies in_range(#[trigger] s.deque[j]) by {
        assert(max_slot_ok(pre, p, s.deque, j));
    }
    lemma_max_step_cache(s, xs[t]);
    let s2 = max_run(max_init(p), now);
    let n = t + 1;
    let m = if n <= pint {
        n
    } else {
        pint
    };
    let w = xs.subrange(n - m, n);
    // Every slot is bounded by some window element.
    assert forall|j: int| 0 <= j < s2.deque.len() implies s2.deque[j] <= seq_max(w) by {
        assert(max_slot_ok(now, p, s2.deque, j));
        lemma_seq_max_ge(w, m - 1);
        if s2.deque[j] != -(RAW_LIMIT as int) || !(forall|u: int|
            0 <= u < now.len() ==> #[trigger] (u % pint) != j) {
            let u = choose|u: int|
                0 <= u < now.len() && #[trigger] (u % pint) == j && s2.deque[j] == now[u] && (
                forall|u2: int| u < u2 < now.len() ==> #[trigger] (u2 % pint) != j);
            if u < n - pint {
                vstd::arithmetic::div_mod::lemma_mod_add_multiples_vanish(u, pint);
                assert((u + pint) % pint == j);
                assert(false);
            }
            lemma_seq_max_ge(w, u - (n - m));
        } else {
            assert(w[m - 1] >= -(RAW_LIMIT as int));
        }
    }
    lemma_seq_max_le(s2.deque, seq_max(w));
    // Every window element sits in some slot.
    assert forall|i: int| 0 <= i < w.len() implies w[i] <= seq_max(s2.deque) by {
        let u = n - m + i;
        vstd::arithmetic::div_mod::lemma_mod_bound(u, pint);
        let j = u % pint;
        assert(max_slot_ok(now, p, s2.deque, j));
        assert forall|u2: int| u < u2 < now.len() implies #[trigger] (u2 % pint) != j by {
            if u2 % pint == j {
                vstd::arithmetic::div_mod::lemma_mod_equivalence(u2, u, pint);
                assert((u2 - u) % pint == 0);
                vstd::arithmetic::div_mod::lemma_mod_is_zero((u2 - u) as nat, pint as nat);
                assert(u2 >= n);
            }
        }
        if s2.deque[j] == -(RAW_LIMIT as int) && (forall|v: int|
            0 <= v < now.len() ==> #[trigger] (v % pint) != j) {
            assert(u % pint != j);
            assert(false);
        }
        let v = choose|v: int|
            0 <= v < now.len() && #[trigger] (v % pint) == j && s2.deque[j] == now[v] && (
            forall|v2: int| v < v2 < now.len() ==> #[trigger] (v2 % pint) != j);
        if v < u {
            assert(u % pint == j);
            assert(false);
        }
        if u < v {
            assert(v % pint != j || !(u < v));
        }
        assert(v == u);
        assert(s2.deque[j] == now[u]);
        lemma_seq_max_ge(s2.deque, j);
    }
    lemma_seq_max_le(w, seq_max(s2.deque));
}

/// A plain-value snapshot of a tracker's full state.  Restoring a
/// snapshot and continuing the input stream produces the same reported
/// extrema as an uninterrupted run.
#[derive(Debug, Clone, PartialEq)]
pub struct MaximumSnapshot {
    /// The window capacity.
    pub period: usize,
    /// The cached extremum index.
    pub max_index: usize,
    /// Slot that the next input overwrites.
    pub cur_index: usize,
    /// The window contents.
    pub deque: Vec<Num>,
}

/// Does the snapshot hold exactly this abstract state?
pub open spec fn max_snapshot_of(s: &MaximumSnapshot, v: MaxView) -> bool {
    &&& s.period as nat == v.period
    &&& s.max_index as nat == v.max_index
    &&& s.cur_index as nat == v.cur_index
    &&& views(s.deque@) == v.deque
}

/// The abstract state a restored tracker holds: the cached index is
/// recomputed by a rescan rather than taken from the snapshot.
pub open spec fn max_snapshot_view(s: &MaximumSnapshot) -> MaxView {
    MaxView {
        period: s.period as nat,
        max_index: rescan_index(views(s.deque@)),
        cur_index: s.cur_index as nat,
        deque: views(s.deque@),
    }
}

/// A snapshot whose fields a tracker can actually hold.
pub open spec fn max_snapshot_valid(s: &MaximumSnapshot) -> bool {
    &&& s.period >= 1
    &&& s.deque@.len() == s.period
    &&& s.max_index < s.period
    &&& s.cur_index < s.period
}

impl Maximum {
    /// Capture the full state.
    pub fn snapshot(&self) -> (s: MaximumSnapshot)
        ensures
            max_snapshot_of(&s, self@),
            max_snapshot_valid(&s),
    {
        proof {
            use_type_invariant(&*self);
        }
        let s = MaximumSnapshot {
            period: self.period,
            max_index: self.max_index,
            cur_index: self.cur_index,
            deque: self.deque.clone(),
        };
        proof {
            assert(views(s.deque@) =~= self@.deque);
        }
        s
    }

    /// Rebuild a tracker from a snapshot; inconsistent snapshots are
    /// refused.  The cached index is recomputed by a rescan rather than
    /// trusted, so the rebuilt tracker always points at a true extremum;
    /// restoring what [`Self::snapshot`] captured therefore reports the
    /// same extrema as the uninterrupted instance on any continuation.
    pub fn restore(s: &MaximumSnapshot) -> (r: Result<Self, TaError>)
        ensures
            match r {
                Ok(t) => max_snapshot_valid(s) && t@ == max_snapshot_view(s) && max_cache_ok(
                    t@,
                ),
                Err(e) => !max_snapshot_valid(s) && e == TaError::InvalidParameter,
            },
    {
        let valid = s.period >= 1 && s.deque.len() == s.period && s.max_index < s.period
            && s.cur_index < s.period;
        if !valid {
            Err(TaError::InvalidParameter)
        } else {
            let mut t = Maximum {
                period: s.period,
                max_index: s.max_index,
                cur_index: s.cur_index,
                deque: s.deque.clone(),
            };
            proof {
                assert(t@.deque =~= views(s.deque@));
            }
            t.max_index = t.find_max_index();
            Ok(t)
        }
    }
}

} // verus!
