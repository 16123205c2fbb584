//! Weighted moving average.

use vstd::prelude::*;

use crate::errors::TaError;
use crate::helpers::views;
use crate::num::{add_v, clip, div_v, mul_v, sub_v, Num, SCALE};
use crate::traits::{Close, Next, Period, Reset};

verus! {

/// Abstract state of a [`WeightedMovingAverage`].
pub struct WmaView {
    /// The window capacity.
    pub period: nat,
    /// Slot that the next input overwrites.
    pub index: nat,
    /// How many inputs have been seen, capped at `period`.
    pub count: nat,
    /// The weight of the newest sample, as a raw fixed-point value.
    pub weight: int,
    /// Running weighted sum, as a raw fixed-point value.
    pub sum: int,
    /// Running flat (unweighted) sum, as a raw fixed-point value.
    pub sum_flat: int,
    /// The window slots, as raw fixed-point values.
    pub deque: Seq<int>,
}

/// State of a fresh average.
pub open spec fn wma_init(period: nat) -> WmaView {
    WmaView {
        period,
        index: 0,
        count: 0,
        weight: 0,
        sum: 0,
        sum_flat: 0,
        deque: Seq::new(period, |i: int| 0),
    }
}

/// State after one input: while filling, the newest weight grows with the
/// count; once full, the flat sum of the departing window is removed from
/// the weighted sum, which shifts every remaining weight down by one.
pub open spec fn wma_step(s: WmaView, x: int) -> WmaView {
    let old_val = s.deque[s.index as int];
    let d = s.deque.update(s.index as int, x);
    let idx: nat = if s.index + 1 < s.period {
        s.index + 1
    } else {
        0
    };
    let c: nat = if s.count < s.period {
        s.count + 1
    } else {
        s.count
    };
    let w: int = if s.count < s.period {
        clip(c * SCALE as int)
    } else {
        s.weight
    };
    let sum: int = if s.count < s.period {
        add_v(s.sum, mul_v(x, w))
    } else {
        add_v(sub_v(s.sum, s.sum_flat), mul_v(x, w))
    };
    let sum_flat: int = add_v(sub_v(s.sum_flat, old_val), x);
    WmaView { index: idx, count: c, weight: w, sum, sum_flat, deque: d, period: s.period }
}

/// Output for one input: the weighted sum divided by the triangular weight
/// total `weight * (weight + 1) / 2`.
pub open spec fn wma_out(s: WmaView, x: int) -> int {
    let s2 = wma_step(s, x);
    div_v(s2.sum, div_v(mul_v(s2.weight, add_v(s2.weight, SCALE as int)), clip(2 * SCALE as int)))
}

/// State after a whole input sequence.
pub open spec fn wma_run(s: WmaView, xs: Seq<int>) -> WmaView
    decreases xs.len(),
{
    if xs.len() == 0 {
        s
    } else {
        wma_run(wma_step(s, xs[0]), xs.skip(1))
    }
}

/// Weighted moving average (WMA).
///
/// A moving average that assigns weights that decrease in arithmetical
/// progression.  In an _n_-day WMA the latest day has weight _n_, the second
/// latest _n-1_, etc., down to one.
///
/// # Parameters
///
/// * _period_ - number of periods (integer greater than 0).
#[derive(Debug)]
pub struct WeightedMovingAverage {
    period: usize,
    index: usize,
    count: usize,
    weight: Num,
    sum: Num,
    sum_flat: Num,
    deque: Vec<Num>,
}

impl View for WeightedMovingAverage {
    type V = WmaView;

    closed spec fn view(&self) -> WmaView {
        WmaView {
            period: self.period as nat,
            index: self.index as nat,
            count: self.count as nat,
            weight: self.weight@,
            sum: self.sum@,
            sum_flat: self.sum_flat@,
            deque: views(self.deque@),
        }
    }
}

impl WeightedMovingAverage {
    /// The window always has exactly `period` slots, the cursor stays inside
    /// it and the fill count never exceeds it.
    #[verifier::type_invariant]
    closed spec fn inv(self) -> bool {
        &&& self.period >= 1
        &&& self.deque@.len() == self.period
        &&& self.index < self.period
        &&& self.count <= self.period
    }

    /// Build an average over the given period; a zero period is refused.
    #[verifier::loop_isolation(false)]
    pub fn new(period: usize) -> (r: Result<Self, TaError>)
        ensures
            match r {
                Ok(s) => period >= 1 && s@ == wma_init(period as nat),
                Err(e) => period == 0 && e == TaError::InvalidParameter,
            },
    {
        if period == 0 {
            Err(TaError::InvalidParameter)
        } else {
            let mut deque: Vec<Num> = Vec::new();
            let zero = Num::zero();
            while deque.len() < period
                invariant
                    deque@.len() <= period,
                    forall|i: int| 0 <= i < deque@.len() ==> deque@[i]@ == 0,
                decreases period - deque@.len(),
            {
                deque.push(zero);
            }
            let s = WeightedMovingAverage {
                period,
                index: 0,
                count: 0,
                weight: Num::zero(),
                sum: Num::zero(),
                sum_flat: Num::zero(),
                deque,
            };
            proof {
                assert(s@.deque =~= wma_init(period as nat).deque);
            }
            Ok(s)
        }
    }
}

impl Period for WeightedMovingAverage {
    fn period(&self) -> (r: usize)
        ensures
            r as nat == self@.period,
    {
        self.period
    }
}

impl Next<Num> for WeightedMovingAverage {
    type Output = Num;

    fn next(&mut self, input: Num) -> (r: Num)
        ensures
            final(self)@ == wma_step(old(self)@, input@),
            r@ == wma_out(old(self)@, input@),
    {
        proof {
            use_type_invariant(&*self);
        }
        let ghost pre = self@;
        let old_val = self.deque[self.index];
        self.deque[self.index] = input;

        self.index = if self.index + 1 < self.period {
            self.index + 1
        } else {
            0
        };

        if self.count < self.period {
            self.count = self.count + 1;
            self.weight = Num::from_usize(self.count);
            self.sum = self.sum.add(input.mul(self.weight));
        } else {
            self.sum = self.sum.sub(self.sum_flat).add(input.mul(self.weight));
        }
        self.sum_flat = self.sum_flat.sub(old_val).add(input);
        proof {
            assert(final(self)@.deque =~= wma_step(pre, input@).deque);
            assert(final(self)@ == wma_step(pre, input@));
        }
        self.sum.div(self.weight.mul(self.weight.add(Num::one())).div(Num::from_int(2)))
    }
}

impl<T: Close> Next<&T> for WeightedMovingAverage {
    type Output = Num;

    fn next(&mut self, input: &T) -> (r: Num)
        ensures
            final(self)@ == wma_step(old(self)@, input.close_spec()),
            r@ == wma_out(old(self)@, input.close_spec()),
    {
        let c = input.close();
        Next::<Num>::next(self, c)
    }
}

impl Reset for WeightedMovingAverage {
    #[verifier::loop_isolation(false)]
    fn reset(&mut self)
        ensures
            final(self)@ == wma_init(old(self)@.period),
    {
        proof {
            use_type_invariant(&*self);
        }
        self.index = 0;
        self.count = 0;
        self.weight = Num::zero();
        self.sum = Num::zero();
        self.sum_flat = Num::zero();
        let zero = Num::zero();
        let mut i: usize = 0;
        while i < self.period
            invariant
                self.period == old(self).period,
                self.index == 0,
                self.count == 0,
                self.weight@ == 0,
                self.sum@ == 0,
                self.sum_flat@ == 0,
                self.deque@.len() == self.period,
                i <= self.period,
                forall|j: int| 0 <= j < i ==> self.deque@[j]@ == 0,
            decreases self.period - i,
        {
            self.deque[i] = zero;
            i = i + 1;
        }
        proof {
            assert(final(self)@.deque =~= wma_init(old(self)@.period).deque);
        }
    }
}

impl Clone for WeightedMovingAverage {
    /// A clone is an independent, identically behaving instance.
    fn clone(&self) -> (r: Self)
        ensures
            r@ == self@,
    {
        proof {
            use_type_invariant(&*self);
        }
        let r = WeightedMovingAverage {
            period: self.period,
            index: self.index,
            count: self.count,
            weight: self.weight,
            sum: self.sum,
            sum_flat: self.sum_flat,
            deque: self.deque.clone(),
        };
        proof {
            assert(r@.deque =~= self@.deque);
        }
        r
    }
}

impl Default for WeightedMovingAverage {
    fn default() -> (r: Self)
        ensures
            r@ == wma_init(9),
    {
        WeightedMovingAverage::new(9).unwrap()
    }
}

impl WeightedMovingAverage {
    /// The canonical display form, derived from the construction
    /// parameters alone.
    pub fn to_string(&self) -> (r: String)
        ensures
            r@ == crate::text::named1("WMA"@, self@.period),
    {
        crate::text::format_name1("WMA", self.period)
    }
}

/// Feeding a sequence fills the window by exactly one slot per input until
/// it is full: the fill count after a run is the smaller of the number of
/// inputs seen and the period, so the filling-to-full transition happens
/// exactly at the period-th input.  Outputs are well defined throughout,
/// because the step and output functions are total.
pub proof fn lemma_wma_fill_transition(s: WmaView, xs: Seq<int>)
    requires
        s.count <= s.period,
    ensures
        wma_run(s, xs).period == s.period,
        wma_run(s, xs).count == if s.count + xs.len() <= s.period {
            s.count + xs.len()
        } else {
            s.period
        },
    decreases xs.len(),
{
    if xs.len() > 0 {
        lemma_wma_fill_transition(wma_step(s, xs[0]), xs.skip(1));
    }
}

/// A plain-value snapshot of the indicator's full state.  Restoring a
/// snapshot and continuing the input stream produces the same outputs as
/// an uninterrupted run.
#[derive(Debug, Clone, PartialEq)]
pub struct WmaSnapshot {
    /// The window capacity.
    pub period: usize,
    /// Slot that the next input overwrites.
    pub index: usize,
    /// How many inputs have been seen.
    pub count: usize,
    /// The weight of the newest sample.
    pub weight: Num,
    /// The running weighted sum.
    pub sum: Num,
    /// The running flat sum.
    pub sum_flat: Num,
    /// The window contents.
    pub deque: Vec<Num>,
}

/// The abstract state a snapshot holds.
pub open spec fn wma_snapshot_view(s: &WmaSnapshot) -> WmaView {
    WmaView {
        period: s.period as nat,
        index: s.index as nat,
        count: s.count as nat,
        weight: s.weight@,
        sum: s.sum@,
        sum_flat: s.sum_flat@,
        deque: crate::helpers::views(s.deque@),
    }
}

/// A snapshot whose fields the indicator can actually hold.
pub open spec fn wma_snapshot_valid(s: &WmaSnapshot) -> bool {
    &&& s.period >= 1
    &&& s.deque@.len() == s.period
    &&& s.index < s.period
    &&& s.count <= s.period
}

impl WeightedMovingAverage {
    /// Capture the full state.
    pub fn snapshot(&self) -> (s: WmaSnapshot)
        ensures
            wma_snapshot_view(&s) == self@,
            wma_snapshot_valid(&s),
    {
        proof {
            use_type_invariant(&*self);
        }
        let s = WmaSnapshot {
            period: self.period,
            index: self.index,
            count: self.count,
            weight: self.weight,
            sum: self.sum,
            sum_flat: self.sum_flat,
            deque: self.deque.clone(),
        };
        proof {
            assert(wma_snapshot_view(&s).deque =~= self@.deque);
        }
        s
    }

    /// Rebuild an indicator from a snapshot; inconsistent snapshots are
    /// refused.  Restoring what [`Self::snapshot`] captured gives back
    /// exactly the captured state, so continuing any input stream yields
    /// the same outputs as an uninterrupted run.
    pub fn restore(s: &WmaSnapshot) -> (r: Result<Self, TaError>)
        ensures
            match r {
                Ok(t) => wma_snapshot_valid(s) && t@ == wma_snapshot_view(s),
                Err(e) => !wma_snapshot_valid(s) && e == TaError::InvalidParameter,
            },
    {
        let valid = s.period >= 1 && s.deque.len() == s.period && s.index < s.period && s.count <= s.period;
        if !valid {
            Err(TaError::InvalidParameter)
        } else {
            let t = WeightedMovingAverage {
                period: s.period,
                index: s.index,
                count: s.count,
                weight: s.weight,
                sum: s.sum,
                sum_flat: s.sum_flat,
                deque: s.deque.clone(),
            };
            proof {
                assert(t@.deque =~= wma_snapshot_view(s).deque);
            }
            Ok(t)
        }
    }
}

} // verus!
