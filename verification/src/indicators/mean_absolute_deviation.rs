//! Mean absolute deviation.

use vstd::prelude::*;

use crate::errors::TaError;
use crate::helpers::views;
use crate::num::{abs_v, add_v, clip, div_v, sub_v, Num, SCALE};
use crate::traits::{Close, Next, Period, Reset};

verus! {

/// Abstract state of a [`MeanAbsoluteDeviation`].
pub struct MadView {
    /// The window capacity.
    pub period: nat,
    /// Slot that the next input overwrites.
    pub index: nat,
    /// How many inputs have been seen, capped at `period`.
    pub count: nat,
    /// Running sum of the windowed samples, as a raw fixed-point value.
    pub sum: int,
    /// The window slots, as raw fixed-point values.
    pub deque: Seq<int>,
}

/// State of a fresh tracker.
pub open spec fn mad_init(period: nat) -> MadView {
    MadView { period, index: 0, count: 0, sum: 0, deque: Seq::new(period, |i: int| 0) }
}

/// State after one input.
pub open spec fn mad_step(s: MadView, x: int) -> MadView {
    let c: nat = if s.count < s.period {
        s.count + 1
    } else {
        s.count
    };
    let sum: int = if s.count < s.period {
        add_v(s.sum, x)
    } else {
        sub_v(add_v(s.sum, x), s.deque[s.index as int])
    };
    let d = s.deque.update(s.index as int, x);
    let idx: nat = if s.index + 1 < s.period {
        s.index + 1
    } else {
        0
    };
    MadView { index: idx, count: c, sum, deque: d, period: s.period }
}

/// Sum of the absolute deviations of the first `n` slots from `mean`.
pub open spec fn mad_fold(d: Seq<int>, mean: int, n: int) -> int
    decreases n,
{
    if n <= 0 {
        0
    } else {
        add_v(mad_fold(d, mean, n - 1), abs_v(sub_v(d[n - 1], mean)))
    }
}

/// Output for one input: the average absolute deviation of the filled slots
/// from their mean.
pub open spec fn mad_out(s: MadView, x: int) -> int {
    let s2 = mad_step(s, x);
    let mean = div_v(s2.sum, clip(s2.count * SCALE as int));
    div_v(mad_fold(s2.deque, mean, s2.count as int), clip(s2.count * SCALE as int))
}

/// State after a whole input sequence.
pub open spec fn mad_run(s: MadView, xs: Seq<int>) -> MadView
    decreases xs.len(),
{
    if xs.len() == 0 {
        s
    } else {
        mad_run(mad_step(s, xs[0]), xs.skip(1))
    }
}

/// Mean Absolute Deviation (MAD): the average of the absolute differences
/// between the windowed samples and their arithmetic mean.
///
/// A window of equal samples always yields zero.  The converse holds only
/// down to the representation's last decimal place: deviations below one
/// raw unit can truncate to a zero average even though the samples differ.
///
/// # Parameters
///
/// * _period_ - number of periods (integer greater than 0). Default is 9.
#[derive(Debug)]
pub struct MeanAbsoluteDeviation {
    period: usize,
    index: usize,
    count: usize,
    sum: Num,
    deque: Vec<Num>,
}

impl View for MeanAbsoluteDeviation {
    type V = MadView;

    closed spec fn view(&self) -> MadView {
        MadView {
            period: self.period as nat,
            index: self.index as nat,
            count: self.count as nat,
            sum: self.sum@,
            deque: views(self.deque@),
        }
    }
}

impl MeanAbsoluteDeviation {
    /// The window always has exactly `period` slots, the cursor stays inside
    /// it and the fill count never exceeds it.
    #[verifier::type_invariant]
    closed spec fn inv(self) -> bool {
        &&& self.period >= 1
        &&& self.deque@.len() == self.period
        &&& self.index < self.period
        &&& self.count <= self.period
    }

    /// Build a tracker over the given period; a zero period is refused.
    #[verifier::loop_isolation(false)]
    pub fn new(period: usize) -> (r: Result<Self, TaError>)
        ensures
            match r {
                Ok(s) => period >= 1 && s@ == mad_init(period as nat),
                Err(e) => period == 0 && e == TaError::InvalidParameter,
            },
    {
        if period == 0 {
            Err(TaError::InvalidParameter)
        } else {
            let mut deque: Vec<Num> = Vec::new();
            let zero = Num::zero();
            while deque.len() < period
                invariant
                    deque@.len() <= period,
                    forall|i: int| 0 <= i < deque@.len() ==> deque@[i]@ == 0,
                decreases period - deque@.len(),
            {
                deque.push(zero);
            }
            let s = MeanAbsoluteDeviation { period, index: 0, count: 0, sum: Num::zero(), deque };
            proof {
                assert(s@.deque =~= mad_init(period as nat).deque);
            }
            Ok(s)
        }
    }
}

impl Period for MeanAbsoluteDeviation {
    fn period(&self) -> (r: usize)
        ensures
            r as nat == self@.period,
    {
        self.period
    }
}

impl Next<Num> for MeanAbsoluteDeviation {
    type Output = Num;

    #[verifier::loop_isolation(false)]
    fn next(&mut self, input: Num) -> (r: Num)
        ensures
            final(self)@ == mad_step(old(self)@, input@),
            r@ == mad_out(old(self)@, input@),
    {
        proof {
            use_type_invariant(&*self);
        }
        let ghost pre = self@;
        if self.count < self.period {
            self.count = self.count + 1;
            self.sum = self.sum.add(input);
        } else {
            self.sum = self.sum.add(input).sub(self.deque[self.index]);
        }

        self.deque[self.index] = input;
        self.index = if self.index + 1 < self.period {
            self.index + 1
        } else {
            0
        };
        proof {
            assert(final(self)@.deque =~= mad_step(pre, input@).deque);
            assert(final(self)@ == mad_step(pre, input@));
        }

        let mean = self.sum.div(Num::from_usize(self.count));
        let ghost d = views(self.deque@);
        let mut mad = Num::zero();
        let mut j: usize = 0;
        while j < self.count
            invariant
                j <= self.count,
                mad@ == mad_fold(d, mean@, j as int),
            decreases self.count - j,
        {
            mad = mad.add(self.deque[j].sub(mean).abs());
            j = j + 1;
        }
        mad.div(Num::from_usize(self.count))
    }
}

impl<T: Close> Next<&T> for MeanAbsoluteDeviation {
    type Output = Num;

    fn next(&mut self, input: &T) -> (r: Num)
        ensures
            final(self)@ == mad_step(old(self)@, input.close_spec()),
            r@ == mad_out(old(self)@, input.close_spec()),
    {
        let c = input.close();
        Next::<Num>::next(self, c)
    }
}

impl Reset for MeanAbsoluteDeviation {
    #[verifier::loop_isolation(false)]
    fn reset(&mut self)
        ensures
            final(self)@ == mad_init(old(self)@.period),
    {
        proof {
            use_type_invariant(&*self);
        }
        self.index = 0;
        self.count = 0;
        self.sum = Num::zero();
        let zero = Num::zero();
        let mut i: usize = 0;
        while i < self.period
            invariant
                self.period == old(self).period,
                self.index == 0,
                self.count == 0,
                self.sum@ == 0,
                self.deque@.len() == self.period,
                i <= self.period,
                forall|j: int| 0 <= j < i ==> self.deque@[j]@ == 0,
            decreases self.period - i,
        {
            self.deque[i] = zero;
            i = i + 1;
        }
        proof {
            assert(final(self)@.deque =~= mad_init(old(self)@.period).deque);
        }
    }
}

impl Clone for MeanAbsoluteDeviation {
    /// A clone is an independent, identically behaving instance.
    fn clone(&self) -> (r: Self)
        ensures
            r@ == self@,
    {
        proof {
            use_type_invariant(&*self);
        }
        let r = MeanAbsoluteDeviation {
            period: self.period,
            index: self.index,
            count: self.count,
            sum: self.sum,
            deque: self.deque.clone(),
        };
        proof {
            assert(r@.deque =~= self@.deque);
        }
        r
    }
}

impl Default for MeanAbsoluteDeviation {
    fn default() -> (r: Self)
        ensures
            r@ == mad_init(9),
    {
        MeanAbsoluteDeviation::new(9).unwrap()
    }
}

impl MeanAbsoluteDeviation {
    /// The canonical display form, derived from the construction
    /// parameters alone.
    pub fn to_string(&self) -> (r: String)
        ensures
            r@ == crate::text::named1("MAD"@, self@.period),
    {
        crate::text::format_name1("MAD", self.period)
    }
}

/// Feeding a sequence fills the window by exactly one slot per input until
/// it is full: the fill count after a run is the smaller of the number of
/// inputs seen and the period, so the filling-to-full transition happens
/// exactly at the period-th input.  Outputs are well defined throughout,
/// because the step and output functions are total.
pub proof fn lemma_mad_fill_transition(s: MadView, xs: Seq<int>)
    requires
        s.count <= s.period,
    ensures
        mad_run(s, xs).period == s.period,
        mad_run(s, xs).count == if s.count + xs.len() <= s.period {
            s.count + xs.len()
        } else {
            s.period
        },
    decreases xs.len(),
{
    if xs.len() > 0 {
        lemma_mad_fill_transition(mad_step(s, xs[0]), xs.skip(1));
    }
}

/// A plain-value snapshot of the indicator's full state.  Restoring a
/// snapshot and continuing the input stream produces the same outputs as
/// an uninterrupted run.
#[derive(Debug, Clone, PartialEq)]
pub struct MadSnapshot {
    /// The window capacity.
    pub period: usize,
    /// Slot that the next input overwrites.
    pub index: usize,
    /// How many inputs have been seen.
    pub count: usize,
    /// The running sum.
    pub sum: Num,
    /// The window contents.
    pub deque: Vec<Num>,
}

/// The abstract state a snapshot holds.
pub open spec fn mad_snapshot_view(s: &MadSnapshot) -> MadView {
    MadView {
        period: s.period as nat,
        index: s.index as nat,
        count: s.count as nat,
        sum: s.sum@,
        deque: crate::helpers::views(s.deque@),
    }
}

/// A snapshot whose fields the indicator can actually hold.
pub open spec fn mad_snapshot_valid(s: &MadSnapshot) -> bool {
    &&& s.period >= 1
    &&& s.deque@.len() == s.period
    &&& s.index < s.period
    &&& s.count <= s.period
}

impl MeanAbsoluteDeviation {
    /// Capture the full state.
    pub fn snapshot(&self) -> (s: MadSnapshot)
        ensures
            mad_snapshot_view(&s) == self@,
            mad_snapshot_valid(&s),
    {
        proof {
            use_type_invariant(&*self);
        }
        let s = MadSnapshot {
            period: self.period,
            index: self.index,
            count: self.count,
            sum: self.sum,
            deque: self.deque.clone(),
        };
        proof {
            assert(mad_snapshot_view(&s).deque =~= self@.deque);
        }
        s
    }

    /// Rebuild an indicator from a snapshot; inconsistent snapshots are
    /// refused.  Restoring what [`Self::snapshot`] captured gives back
    /// exactly the captured state, so continuing any input stream yields
    /// the same outputs as an uninterrupted run.
    pub fn restore(s: &MadSnapshot) -> (r: Result<Self, TaError>)
        ensures
            match r {
                Ok(t) => mad_snapshot_valid(s) && t@ == mad_snapshot_view(s),
                Err(e) => !mad_snapshot_valid(s) && e == TaError::InvalidParameter,
            },
    {
        let valid = s.period >= 1 && s.deque.len() == s.period && s.index < s.period && s.count <= s.period;
        if !valid {
            Err(TaError::InvalidParameter)
        } else {
            let t = MeanAbsoluteDeviation {
                period: s.period,
                index: s.index,
                count: s.count,
                sum: s.sum,
                deque: s.deque.clone(),
            };
            proof {
                assert(t@.deque =~= mad_snapshot_view(s).deque);
            }
            Ok(t)
        }
    }
}

} // verus!
