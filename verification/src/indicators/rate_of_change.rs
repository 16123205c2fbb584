//! Rate of change.

use vstd::prelude::*;

use crate::errors::TaError;
use crate::helpers::views;
use crate::num::{clip, div_v, mul_v, sub_v, Num, SCALE};
use crate::traits::{Close, Next, Period, Reset};

verus! {

/// Abstract state of a [`RateOfChange`].
pub struct RocView {
    /// The window capacity.
    pub period: nat,
    /// Slot that the next input overwrites.
    pub index: nat,
    /// How many inputs have been seen, capped at `period + 1`.
    pub count: nat,
    /// The window slots, as raw fixed-point values.
    pub deque: Seq<int>,
}

/// State of a fresh indicator.
pub open spec fn roc_init(period: nat) -> RocView {
    RocView { period, index: 0, count: 0, deque: Seq::new(period, |i: int| 0) }
}

/// The reference value one output compares against: the value `period`
/// inputs ago, the very first input for the early calls, and the input
/// itself on the first call.
pub open spec fn roc_prev(s: RocView, x: int) -> int {
    if s.count > s.period {
        s.deque[s.index as int]
    } else if s.count == 0 {
        x
    } else {
        s.deque[0]
    }
}

/// State after one input.
pub open spec fn roc_step(s: RocView, x: int) -> RocView {
    let c: nat = if s.count > s.period {
        s.count
    } else if s.count < usize::MAX {
        s.count + 1
    } else {
        s.count
    };
    let d = s.deque.update(s.index as int, x);
    let idx: nat = if s.index + 1 < s.period {
        s.index + 1
    } else {
        0
    };
    RocView { index: idx, count: c, deque: d, period: s.period }
}

/// Output for one input: `(input - previous) / previous * 100`.
pub open spec fn roc_out(s: RocView, x: int) -> int {
    let prev = roc_prev(s, x);
    mul_v(div_v(sub_v(x, prev), prev), clip(100 * SCALE as int))
}

/// State after a whole input sequence.
pub open spec fn roc_run(s: RocView, xs: Seq<int>) -> RocView
    decreases xs.len(),
{
    if xs.len() == 0 {
        s
    } else {
        roc_run(roc_step(s, xs[0]), xs.skip(1))
    }
}

/// Rate of Change (ROC).
///
/// # Formula
///
/// ROC = (Price<sub>t</sub> - Price<sub>t-n</sub>) / Price<sub>t-n</sub> * 100
///
/// # Parameters
///
/// * _period_ - number of periods (integer greater than 0)
#[derive(Debug)]
pub struct RateOfChange {
    period: usize,
    index: usize,
    count: usize,
    deque: Vec<Num>,
}

impl View for RateOfChange {
    type V = RocView;

    closed spec fn view(&self) -> RocView {
        RocView {
            period: self.period as nat,
            index: self.index as nat,
            count: self.count as nat,
            deque: views(self.deque@),
        }
    }
}

impl RateOfChange {
    /// The window always has exactly `period` slots, the cursor stays inside
    /// it and the fill count never exceeds `period + 1`.
    #[verifier::type_invariant]
    closed spec fn inv(self) -> bool {
        &&& self.period >= 1
        &&& self.deque@.len() == self.period
        &&& self.index < self.period
        &&& self.count <= self.period + 1
    }

    /// Build an indicator over the given period; a zero period is refused.
    #[verifier::loop_isolation(false)]
    pub fn new(period: usize) -> (r: Result<Self, TaError>)
        ensures
            match r {
                Ok(s) => period >= 1 && s@ == roc_init(period as nat),
                Err(e) => period == 0 && e == TaError::InvalidParameter,
            },
    {
        if period == 0 {
            Err(TaError::InvalidParameter)
        } else {
            let mut deque: Vec<Num> = Vec::new();
            let zero = Num::zero();
            while deque.len() < period
                invariant
                    deque@.len() <= period,
                    forall|i: int| 0 <= i < deque@.len() ==> deque@[i]@ == 0,
                decreases period - deque@.len(),
            {
                deque.push(zero);
            }
            let s = RateOfChange { period, index: 0, count: 0, deque };
            proof {
                assert(s@.deque =~= roc_init(period as nat).deque);
            }
            Ok(s)
        }
    }
}

impl Period for RateOfChange {
    fn period(&self) -> (r: usize)
        ensures
            r as nat == self@.period,
    {
        self.period
    }
}

impl Next<Num> for RateOfChange {
    type Output = Num;

    fn next(&mut self, input: Num) -> (r: Num)
        ensures
            final(self)@ == roc_step(old(self)@, input@),
            r@ == roc_out(old(self)@, input@),
    {
        proof {
            use_type_invariant(&*self);
        }
        let ghost pre = self@;
        let previous = if self.count > self.period {
            self.deque[self.index]
        } else {
            if self.count < usize::MAX {
                self.count = self.count + 1;
            }
            if self.count == 1 {
                input
            } else {
                self.deque[0]
            }
        };
        self.deque[self.index] = input;

        self.index = if self.index + 1 < self.period {
            self.index + 1
        } else {
            0
        };
        proof {
            assert(final(self)@.deque =~= roc_step(pre, input@).deque);
            assert(final(self)@ == roc_step(pre, input@));
        }

        input.sub(previous).div(previous).mul(Num::from_int(100))
    }
}

impl<T: Close> Next<&T> for RateOfChange {
    type Output = Num;

    fn next(&mut self, input: &T) -> (r: Num)
        ensures
            final(self)@ == roc_step(old(self)@, input.close_spec()),
            r@ == roc_out(old(self)@, input.close_spec()),
    {
        let c = input.close();
        Next::<Num>::next(self, c)
    }
}

impl Reset for RateOfChange {
    #[verifier::loop_isolation(false)]
    fn reset(&mut self)
        ensures
            final(self)@ == roc_init(old(self)@.period),
    {
        proof {
            use_type_invariant(&*self);
        }
        self.index = 0;
        self.count = 0;
        let zero = Num::zero();
        let mut i: usize = 0;
        while i < self.period
            invariant
                self.period == old(self).period,
                self.index == 0,
                self.count == 0,
                self.deque@.len() == self.period,
                i <= self.period,
                forall|j: int| 0 <= j < i ==> self.deque@[j]@ == 0,
            decreases self.period - i,
        {
            self.deque[i] = zero;
            i = i + 1;
        }
        proof {
            assert(final(self)@.deque =~= roc_init(old(self)@.period).deque);
        }
    }
}

impl Clone for RateOfChange {
    /// A clone is an independent, identically behaving instance.
    fn clone(&self) -> (r: Self)
        ensures
            r@ == self@,
    {
        proof {
            use_type_invariant(&*self);
        }
        let r = RateOfChange {
            period: self.period,
            index: self.index,
            count: self.count,
            deque: self.deque.clone(),
        };
        proof {
            assert(r@.deque =~= self@.deque);
        }
        r
    }
}

impl Default for RateOfChange {
    fn default() -> (r: Self)
        ensures
            r@ == roc_init(9),
    {
        RateOfChange::new(9).unwrap()
    }
}

impl RateOfChange {
    /// The canonical display form, derived from the construction
    /// parameters alone.
    pub fn to_string(&self) -> (r: String)
        ensures
            r@ == crate::text::named1("ROC"@, self@.period),
    {
        crate::text::format_name1("ROC", self.period)
    }
}

/// A plain-value snapshot of the indicator's full state.  Restoring a
/// snapshot and continuing the input stream produces the same outputs as
/// an uninterrupted run.
#[derive(Debug, Clone, PartialEq)]
pub struct RocSnapshot {
    /// The window capacity.
    pub period: usize,
    /// Slot that the next input overwrites.
    pub index: usize,
    /// How many inputs have been seen.
    pub count: usize,
    /// The window contents.
    pub deque: Vec<Num>,
}

/// The abstract state a snapshot holds.
pub open spec fn roc_snapshot_view(s: &RocSnapshot) -> RocView {
    RocView {
        period: s.period as nat,
        index: s.index as nat,
        count: s.count as nat,
        deque: crate::helpers::views(s.deque@),
    }
}

/// A snapshot whose fields the indicator can actually hold.
pub open spec fn roc_snapshot_valid(s: &RocSnapshot) -> bool {
    &&& s.period >= 1
    &&& s.deque@.len() == s.period
    &&& s.index < s.period
    &&& s.count <= s.period + 1
}

impl RateOfChange {
    /// Capture the full state.
    pub fn snapshot(&self) -> (s: RocSnapshot)
        ensures
            roc_snapshot_view(&s) == self@,
            roc_snapshot_valid(&s),
    {
        proof {
            use_type_invariant(&*self);
        }
        let s = RocSnapshot {
            period: self.period,
            index: self.index,
            count: self.count,
            deque: self.deque.clone(),
        };
        proof {
            assert(roc_snapshot_view(&s).deque =~= self@.deque);
        }
        s
    }

    /// Rebuild an indicator from a snapshot; inconsistent snapshots are
    /// refused.  Restoring what [`Self::snapshot`] captured gives back
    /// exactly the captured state, so continuing any input stream yields
    /// the same outputs as an uninterrupted run.
    pub fn restore(s: &RocSnapshot) -> (r: Result<Self, TaError>)
        ensures
            match r {
                Ok(t) => roc_snapshot_valid(s) && t@ == roc_snapshot_view(s),
                Err(e) => !roc_snapshot_valid(s) && e == TaError::InvalidParameter,
            },
    {
        let valid = s.period >= 1 && s.deque.len() == s.period && s.index < s.period && (s.count
            == 0 || s.count - 1 <= s.period);
        if !valid {
            Err(TaError::InvalidParameter)
        } else {
            let t = RateOfChange {
                period: s.period,
                index: s.index,
                count: s.count,
                deque: s.deque.clone(),
            };
            proof {
                assert(t@.deque =~= roc_snapshot_view(s).deque);
            }
            Ok(t)
        }
    }
}

} // verus!
