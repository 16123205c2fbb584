//! Simple moving average.

use vstd::prelude::*;

use crate::errors::TaError;
use crate::helpers::views;
use crate::num::{add_v, clip, div_v, sub_v, Num, SCALE};
use crate::traits::{Close, Next, Period, Reset};

verus! {

/// Abstract state of a [`SimpleMovingAverage`].
pub struct SmaView {
    /// The window capacity.
    pub period: nat,
    /// Slot that the next input overwrites.
    pub index: nat,
    /// How many inputs have been seen, capped at `period`.
    pub count: nat,
    /// Running sum of the windowed samples, as a raw fixed-point value.
    pub sum: int,
    /// The window slots, as raw fixed-point values.
    pub deque: Seq<int>,
}

/// State of a fresh average.
pub open spec fn sma_init(period: nat) -> SmaView {
    SmaView { period, index: 0, count: 0, sum: 0, deque: Seq::new(period, |i: int| 0) }
}

/// State after one input: the input replaces the oldest slot and the running
/// sum is adjusted by the difference.
pub open spec fn sma_step(s: SmaView, x: int) -> SmaView {
    let old_val = s.deque[s.index as int];
    let d = s.deque.update(s.index as int, x);
    let idx: nat = if s.index + 1 < s.period {
        s.index + 1
    } else {
        0
    };
    let c: nat = if s.count < s.period {
        s.count + 1
    } else {
        s.count
    };
    SmaView { index: idx, count: c, sum: add_v(sub_v(s.sum, old_val), x), deque: d, period: s.period }
}

/// Output for one input: the running sum divided by the fill count.
pub open spec fn sma_out(s: SmaView, x: int) -> int {
    let s2 = sma_step(s, x);
    div_v(s2.sum, clip(s2.count * SCALE as int))
}

/// State after a whole input sequence.
pub open spec fn sma_run(s: SmaView, xs: Seq<int>) -> SmaView
    decreases xs.len(),
{
    if xs.len() == 0 {
        s
    } else {
        sma_run(sma_step(s, xs[0]), xs.skip(1))
    }
}

/// Simple moving average (SMA): the arithmetic mean of the last `period`
/// inputs (of all inputs, while fewer than `period` have arrived).
///
/// # Parameters
///
/// * `period` - Number of periods (integer greater than 0).
#[derive(Debug)]
pub struct SimpleMovingAverage {
    period: usize,
    index: usize,
    count: usize,
    sum: Num,
    deque: Vec<Num>,
}

impl View for SimpleMovingAverage {
    type V = SmaView;

    closed spec fn view(&self) -> SmaView {
        SmaView {
            period: self.period as nat,
            index: self.index as nat,
            count: self.count as nat,
            sum: self.sum@,
            deque: views(self.deque@),
        }
    }
}

impl SimpleMovingAverage {
    /// The window always has exactly `period` slots, the cursor stays inside
    /// it and the fill count never exceeds it.
    #[verifier::type_invariant]
    closed spec fn inv(self) -> bool {
        &&& self.period >= 1
        &&& self.deque@.len() == self.period
        &&& self.index < self.period
        &&& self.count <= self.period
    }

    /// Build an average over the given period; a zero period is refused.
    #[verifier::loop_isolation(false)]
    pub fn new(period: usize) -> (r: Result<Self, TaError>)
        ensures
            match r {
                Ok(s) => period >= 1 && s@ == sma_init(period as nat),
                Err(e) => period == 0 && e == TaError::InvalidParameter,
            },
    {
        if period == 0 {
            Err(TaError::InvalidParameter)
        } else {
            let mut deque: Vec<Num> = Vec::new();
            let zero = Num::zero();
            while deque.len() < period
                invariant
                    deque@.len() <= period,
                    forall|i: int| 0 <= i < deque@.len() ==> deque@[i]@ == 0,
                decreases period - deque@.len(),
            {
                deque.push(zero);
            }
            let s = SimpleMovingAverage { period, index: 0, count: 0, sum: Num::zero(), deque };
            proof {
                assert(s@.deque =~= sma_init(period as nat).deque);
            }
            Ok(s)
        }
    }
}

impl Period for SimpleMovingAverage {
    fn period(&self) -> (r: usize)
        ensures
            r as nat == self@.period,
    {
        self.period
    }
}

impl Next<Num> for SimpleMovingAverage {
    type Output = Num;

    fn next(&mut self, input: Num) -> (r: Num)
        ensures
            final(self)@ == sma_step(old(self)@, input@),
            r@ == sma_out(old(self)@, input@),
    {
        proof {
            use_type_invariant(&*self);
        }
        let ghost pre = self@;
        let old_val = self.deque[self.index];
        self.deque[self.index] = input;

        self.index = if self.index + 1 < self.period {
            self.index + 1
        } else {
            0
        };

        if self.count < self.period {
            self.count = self.count + 1;
        }

        self.sum = self.sum.sub(old_val).add(input);
        proof {
            assert(final(self)@.deque =~= sma_step(pre, input@).deque);
            assert(final(self)@ == sma_step(pre, input@));
        }
        self.sum.div(Num::from_usize(self.count))
    }
}

impl<T: Close> Next<&T> for SimpleMovingAverage {
    type Output = Num;

    fn next(&mut self, input: &T) -> (r: Num)
        ensures
            final(self)@ == sma_step(old(self)@, input.close_spec()),
            r@ == sma_out(old(self)@, input.close_spec()),
    {
        let c = input.close();
        Next::<Num>::next(self, c)
    }
}

impl Reset for SimpleMovingAverage {
    #[verifier::loop_isolation(false)]
    fn reset(&mut self)
        ensures
            final(self)@ == sma_init(old(self)@.period),
    {
        proof {
            use_type_invariant(&*self);
        }
        self.index = 0;
        self.count = 0;
        self.sum = Num::zero();
        let zero = Num::zero();
        let mut i: usize = 0;
        while i < self.period
            invariant
                self.period == old(self).period,
                self.index == 0,
                self.count == 0,
                self.sum@ == 0,
                self.deque@.len() == self.period,
                i <= self.period,
                forall|j: int| 0 <= j < i ==> self.deque@[j]@ == 0,
            decreases self.period - i,
        {
            self.deque[i] = zero;
            i = i + 1;
        }
        proof {
            assert(final(self)@.deque =~= sma_init(old(self)@.period).deque);
        }
    }
}

impl Clone for SimpleMovingAverage {
    /// A clone is an independent, identically behaving instance.
    fn clone(&self) -> (r: Self)
        ensures
            r@ == self@,
    {
        proof {
            use_type_invariant(&*self);
        }
        let r = SimpleMovingAverage {
            period: self.period,
            index: self.index,
            count: self.count,
            sum: self.sum,
            deque: self.deque.clone(),
        };
        proof {
            assert(r@.deque =~= self@.deque);
        }
        r
    }
}

impl Default for SimpleMovingAverage {
    fn default() -> (r: Self)
        ensures
            r@ == sma_init(9),
    {
        SimpleMovingAverage::new(9).unwrap()
    }
}

impl SimpleMovingAverage {
    /// The canonical display form, derived from the construction
    /// parameters alone.
    pub fn to_string(&self) -> (r: String)
        ensures
            r@ == crate::text::named1("SMA"@, self@.period),
    {
        crate::text::format_name1("SMA", self.period)
    }
}

/// Feeding a sequence fills the window by exactly one slot per input until
/// it is full: the fill count after a run is the smaller of the number of
/// inputs seen and the period, so the filling-to-full transition happens
/// exactly at the period-th input.  Outputs are well defined throughout,
/// because the step and output functions are total.
pub proof fn lemma_sma_fill_transition(s: SmaView, xs: Seq<int>)
    requires
        s.count <= s.period,
    ensures
        sma_run(s, xs).period == s.period,
        sma_run(s, xs).count == if s.count + xs.len() <= s.period {
            s.count + xs.len()
        } else {
            s.period
        },
    decreases xs.len(),
{
    if xs.len() > 0 {
        lemma_sma_fill_transition(sma_step(s, xs[0]), xs.skip(1));
    }
}

/// A plain-value snapshot of the indicator's full state.  Restoring a
/// snapshot and continuing the input stream produces the same outputs as
/// an uninterrupted run.
#[derive(Debug, Clone, PartialEq)]
pub struct SmaSnapshot {
    /// The window capacity.
    pub period: usize,
    /// Slot that the next input overwrites.
    pub index: usize,
    /// How many inputs have been seen.
    pub count: usize,
    /// The running sum.
    pub sum: Num,
    /// The window contents.
    pub deque: Vec<Num>,
}

/// The abstract state a snapshot holds.
pub open spec fn sma_snapshot_view(s: &SmaSnapshot) -> SmaView {
    SmaView {
        period: s.period as nat,
        index: s.index as nat,
        count: s.count as nat,
        sum: s.sum@,
        deque: crate::helpers::views(s.deque@),
    }
}

/// A snapshot whose fields the indicator can actually hold.
pub open spec fn sma_snapshot_valid(s: &SmaSnapshot) -> bool {
    &&& s.period >= 1
    &&& s.deque@.len() == s.period
    &&& s.index < s.period
    &&& s.count <= s.period
}

impl SimpleMovingAverage {
    /// Capture the full state.
    pub fn snapshot(&self) -> (s: SmaSnapshot)
        ensures
            sma_snapshot_view(&s) == self@,
            sma_snapshot_valid(&s),
    {
        proof {
            use_type_invariant(&*self);
        }
        let s = SmaSnapshot {
            period: self.period,
            index: self.index,
            count: self.count,
            sum: self.sum,
            deque: self.deque.clone(),
        };
        proof {
            assert(sma_snapshot_view(&s).deque =~= self@.deque);
        }
        s
    }

    /// Rebuild an indicator from a snapshot; inconsistent snapshots are
    /// refused.  Restoring what [`Self::snapshot`] captured gives back
    /// exactly the captured state, so continuing any input stream yields
    /// the same outputs as an uninterrupted run.
    pub fn restore(s: &SmaSnapshot) -> (r: Result<Self, TaError>)
        ensures
            match r {
                Ok(t) => sma_snapshot_valid(s) && t@ == sma_snapshot_view(s),
                Err(e) => !sma_snapshot_valid(s) && e == TaError::InvalidParameter,
            },
    {
        let valid = s.period >= 1 && s.deque.len() == s.period && s.index < s.period && s.count <= s.period;
        if !valid {
            Err(TaError::InvalidParameter)
        } else {
            let t = SimpleMovingAverage {
                period: s.period,
                index: s.index,
                count: s.count,
                sum: s.sum,
                deque: s.deque.clone(),
            };
            proof {
                assert(t@.deque =~= sma_snapshot_view(s).deque);
            }
            Ok(t)
        }
    }
}

} // verus!
