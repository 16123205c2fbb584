//! Kaufman's efficiency ratio.

use vstd::prelude::*;

use crate::errors::TaError;
use crate::helpers::views;
use crate::num::{abs_v, add_v, div_v, sub_v, Num};
use crate::traits::{Close, Next, Period, Reset};

verus! {

/// Abstract state of an [`EfficiencyRatio`].
pub struct ErView {
    /// The window capacity.
    pub period: nat,
    /// Slot that the next input overwrites.
    pub index: nat,
    /// How many inputs have been seen, capped at `period`.
    pub count: nat,
    /// The window slots, as raw fixed-point values.
    pub deque: Seq<int>,
}

/// State of a fresh indicator.
pub open spec fn er_init(period: nat) -> ErView {
    ErView { period, index: 0, count: 0, deque: Seq::new(period, |i: int| 0) }
}

/// Walk the slots from `i` (exclusive of `end`) accumulating the absolute
/// moves between consecutive values; returns the last value seen and the
/// accumulated volatility.
pub open spec fn er_scan(d: Seq<int>, i: int, end: int, prev: int, acc: int) -> (int, int)
    decreases end - i,
{
    if i >= end {
        (prev, acc)
    } else {
        er_scan(d, i + 1, end, d[i], add_v(acc, abs_v(sub_v(prev, d[i]))))
    }
}

/// State after one input.
pub open spec fn er_step(s: ErView, x: int) -> ErView {
    let c: nat = if s.count >= s.period {
        s.count
    } else {
        s.count + 1
    };
    let d = s.deque.update(s.index as int, x);
    let idx: nat = if s.index + 1 < s.period {
        s.index + 1
    } else {
        0
    };
    ErView { index: idx, count: c, deque: d, period: s.period }
}

/// Output for one input: the net move over the window divided by the sum of
/// the absolute moves inside it.
pub open spec fn er_out(s: ErView, x: int) -> int {
    let first: int = if s.count >= s.period {
        s.deque[s.index as int]
    } else {
        s.deque[0]
    };
    let s2 = er_step(s, x);
    let scan1 = er_scan(s2.deque, s2.index as int, s2.count as int, first, 0);
    let scan2 = er_scan(s2.deque, 0, s2.index as int, scan1.0, scan1.1);
    div_v(abs_v(sub_v(first, x)), scan2.1)
}

/// State after a whole input sequence.
pub open spec fn er_run(s: ErView, xs: Seq<int>) -> ErView
    decreases xs.len(),
{
    if xs.len() == 0 {
        s
    } else {
        er_run(er_step(s, xs[0]), xs.skip(1))
    }
}

/// Kaufman's Efficiency Ratio (ER): the price change over a period divided
/// by the absolute sum of the price movements that occurred to achieve that
/// change.  Ranges between 0 and 1, higher values meaning a more efficient
/// or trending market.
///
/// # Parameters
///
/// * _period_ - number of periods (integer greater than 0)
#[derive(Debug)]
pub struct EfficiencyRatio {
    period: usize,
    index: usize,
    count: usize,
    deque: Vec<Num>,
}

impl View for EfficiencyRatio {
    type V = ErView;

    closed spec fn view(&self) -> ErView {
        ErView {
            period: self.period as nat,
            index: self.index as nat,
            count: self.count as nat,
            deque: views(self.deque@),
        }
    }
}

impl EfficiencyRatio {
    /// The window always has exactly `period` slots, the cursor stays inside
    /// it and the fill count never exceeds it.
    #[verifier::type_invariant]
    closed spec fn inv(self) -> bool {
        &&& self.period >= 1
        &&& self.deque@.len() == self.period
        &&& self.index < self.period
        &&& self.count <= self.period
    }

    /// Build an indicator over the given period; a zero period is refused.
    #[verifier::loop_isolation(false)]
    pub fn new(period: usize) -> (r: Result<Self, TaError>)
        ensures
            match r {
                Ok(s) => period >= 1 && s@ == er_init(period as nat),
                Err(e) => period == 0 && e == TaError::InvalidParameter,
            },
    {
        if period == 0 {
            Err(TaError::InvalidParameter)
        } else {
            let mut deque: Vec<Num> = Vec::new();
            let zero = Num::zero();
            while deque.len() < period
                invariant
                    deque@.len() <= period,
                    forall|i: int| 0 <= i < deque@.len() ==> deque@[i]@ == 0,
                decreases period - deque@.len(),
            {
                deque.push(zero);
            }
            let s = EfficiencyRatio { period, index: 0, count: 0, deque };
            proof {
                assert(s@.deque =~= er_init(period as nat).deque);
            }
            Ok(s)
        }
    }
}

impl Period for EfficiencyRatio {
    fn period(&self) -> (r: usize)
        ensures
            r as nat == self@.period,
    {
        self.period
    }
}

impl Next<Num> for EfficiencyRatio {
    type Output = Num;

    #[verifier::loop_isolation(false)]
    fn next(&mut self, input: Num) -> (r: Num)
        ensures
            final(self)@ == er_step(old(self)@, input@),
            r@ == er_out(old(self)@, input@),
    {
        proof {
            use_type_invariant(&*self);
        }
        let ghost pre = self@;
        let first = if self.count >= self.period {
            self.deque[self.index]
        } else {
            self.count = self.count + 1;
            self.deque[0]
        };
        self.deque[self.index] = input;

        self.index = if self.index + 1 < self.period {
            self.index + 1
        } else {
            0
        };
        proof {
            assert(final(self)@.deque =~= er_step(pre, input@).deque);
            assert(final(self)@ == er_step(pre, input@));
        }

        let ghost d = views(self.deque@);
        let ghost scan1 = er_scan(d, self@.index as int, self@.count as int, first@, 0);
        let mut volatility = Num::zero();
        let mut previous = first;
        let mut i: usize = self.index;
        while i < self.count
            invariant
                self.index <= i,
                scan1 == er_scan(d, i as int, self.count as int, previous@, volatility@),
            decreases self.count - i,
        {
            let n = self.deque[i];
            volatility = volatility.add(previous.sub(n).abs());
            previous = n;
            i = i + 1;
        }
        proof {
            assert(scan1 == (previous@, volatility@));
        }
        let mut j: usize = 0;
        while j < self.index
            invariant
                0 <= j <= self.index,
                er_scan(d, 0, self.index as int, scan1.0, scan1.1) == er_scan(
                    d,
                    j as int,
                    self.index as int,
                    previous@,
                    volatility@,
                ),
            decreases self.index - j,
        {
            let n = self.deque[j];
            volatility = volatility.add(previous.sub(n).abs());
            previous = n;
            j = j + 1;
        }

        first.sub(input).abs().div(volatility)
    }
}

impl<T: Close> Next<&T> for EfficiencyRatio {
    type Output = Num;

    fn next(&mut self, input: &T) -> (r: Num)
        ensures
            final(self)@ == er_step(old(self)@, input.close_spec()),
            r@ == er_out(old(self)@, input.close_spec()),
    {
        let c = input.close();
        Next::<Num>::next(self, c)
    }
}

impl Reset for EfficiencyRatio {
    #[verifier::loop_isolation(false)]
    fn reset(&mut self)
        ensures
            final(self)@ == er_init(old(self)@.period),
    {
        proof {
            use_type_invariant(&*self);
        }
        self.index = 0;
        self.count = 0;
        let zero = Num::zero();
        let mut i: usize = 0;
        while i < self.period
            invariant
                self.period == old(self).period,
                self.index == 0,
                self.count == 0,
                self.deque@.len() == self.period,
                i <= self.period,
                forall|j: int| 0 <= j < i ==> self.deque@[j]@ == 0,
            decreases self.period - i,
        {
            self.deque[i] = zero;
            i = i + 1;
        }
        proof {
            assert(final(self)@.deque =~= er_init(old(self)@.period).deque);
        }
    }
}

impl Clone for EfficiencyRatio {
    /// A clone is an independent, identically behaving instance.
    fn clone(&self) -> (r: Self)
        ensures
            r@ == self@,
    {
        proof {
            use_type_invariant(&*self);
        }
        let r = EfficiencyRatio {
            period: self.period,
            index: self.index,
            count: self.count,
            deque: self.deque.clone(),
        };
        proof {
            assert(r@.deque =~= self@.deque);
        }
        r
    }
}

impl Default for EfficiencyRatio {
    fn default() -> (r: Self)
        ensures
            r@ == er_init(14),
    {
        EfficiencyRatio::new(14).unwrap()
    }
}

impl EfficiencyRatio {
    /// The canonical display form, derived from the construction
    /// parameters alone.
    pub fn to_string(&self) -> (r: String)
        ensures
            r@ == crate::text::named1("ER"@, self@.period),
    {
        crate::text::format_name1("ER", self.period)
    }
}

/// Feeding a sequence fills the window by exactly one slot per input until
/// it is full: the fill count after a run is the smaller of the number of
/// inputs seen and the period, so the filling-to-full transition happens
/// exactly at the period-th input.
pub proof fn lemma_er_fill_transition(s: ErView, xs: Seq<int>)
    requires
        s.count <= s.period,
    ensures
        er_run(s, xs).period == s.period,
        er_run(s, xs).count == if s.count + xs.len() <= s.period {
            s.count + xs.len()
        } else {
            s.period
        },
    decreases xs.len(),
{
    if xs.len() > 0 {
        lemma_er_fill_transition(er_step(s, xs[0]), xs.skip(1));
    }
}

/// A plain-value snapshot of the indicator's full state.  Restoring a
/// snapshot and continuing the input stream produces the same outputs as
/// an uninterrupted run.
#[derive(Debug, Clone, PartialEq)]
pub struct ErSnapshot {
    /// The window capacity.
    pub period: usize,
    /// Slot that the next input overwrites.
    pub index: usize,
    /// How many inputs have been seen.
    pub count: usize,
    /// The window contents.
    pub deque: Vec<Num>,
}

/// The abstract state a snapshot holds.
pub open spec fn er_snapshot_view(s: &ErSnapshot) -> ErView {
    ErView {
        period: s.period as nat,
        index: s.index as nat,
        count: s.count as nat,
        deque: crate::helpers::views(s.deque@),
    }
}

/// A snapshot whose fields the indicator can actually hold.
pub open spec fn er_snapshot_valid(s: &ErSnapshot) -> bool {
    &&& s.period >= 1
    &&& s.deque@.len() == s.period
    &&& s.index < s.period
    &&& s.count <= s.period
}

impl EfficiencyRatio {
    /// Capture the full state.
    pub fn snapshot(&self) -> (s: ErSnapshot)
        ensures
            er_snapshot_view(&s) == self@,
            er_snapshot_valid(&s),
    {
        proof {
            use_type_invariant(&*self);
        }
        let s = ErSnapshot {
            period: self.period,
            index: self.index,
            count: self.count,
            deque: self.deque.clone(),
        };
        proof {
            assert(er_snapshot_view(&s).deque =~= self@.deque);
        }
        s
    }

    /// Rebuild an indicator from a snapshot; inconsistent snapshots are
    /// refused.  Restoring what [`Self::snapshot`] captured gives back
    /// exactly the captured state, so continuing any input stream yields
    /// the same outputs as an uninterrupted run.
    pub fn restore(s: &ErSnapshot) -> (r: Result<Self, TaError>)
        ensures
            match r {
                Ok(t) => er_snapshot_valid(s) && t@ == er_snapshot_view(s),
                Err(e) => !er_snapshot_valid(s) && e == TaError::InvalidParameter,
            },
    {
        let valid = s.period >= 1 && s.deque.len() == s.period && s.index < s.period && s.count <= s.period;
        if !valid {
            Err(TaError::InvalidParameter)
        } else {
            let t = EfficiencyRatio {
                period: s.period,
                index: s.index,
                count: s.count,
                deque: s.deque.clone(),
            };
            proof {
                assert(t@.deque =~= er_snapshot_view(s).deque);
            }
            Ok(t)
        }
    }
}

} // verus!
