//! The online mean/variance tracker.

use vstd::prelude::*;

use crate::errors::TaError;
use crate::helpers::views;
use crate::num::{add_v, clip, div_v, mul_v, sqrt_v, sub_v, Num, SCALE};
use crate::traits::{Close, Next, Period, Reset};

verus! {

/// Abstract state of a [`StandardDeviation`].
pub struct SdView {
    /// The window capacity.
    pub period: nat,
    /// Slot that the next input overwrites.
    pub index: nat,
    /// How many inputs have been seen, capped at `period`.
    pub count: nat,
    /// Running mean, as a raw fixed-point value.
    pub m: int,
    /// Running sum of squared deviations, as a raw fixed-point value.
    pub m2: int,
    /// The window slots, as raw fixed-point values.
    pub deque: Seq<int>,
}

/// State of a fresh tracker.
pub open spec fn sd_init(period: nat) -> SdView {
    SdView { period, index: 0, count: 0, m: 0, m2: 0, deque: Seq::new(period, |i: int| 0) }
}

/// A count, as the raw fixed-point value it converts to.
pub open spec fn count_v(n: nat) -> int {
    clip(n * SCALE as int)
}

/// State after one input, by the windowed Welford recurrence: while the
/// window is filling, the standard increment; once it is full, the departing
/// sample's contribution is removed with the paired-delta form.  The sum of
/// squared deviations is clamped at zero to absorb truncation error.
pub open spec fn sd_step(s: SdView, x: int) -> SdView {
    let old_val = s.deque[s.index as int];
    let d = s.deque.update(s.index as int, x);
    let idx: nat = if s.index + 1 < s.period {
        s.index + 1
    } else {
        0
    };
    let c: nat = if s.count < s.period {
        s.count + 1
    } else {
        s.count
    };
    let m1: int = if s.count < s.period {
        add_v(s.m, div_v(sub_v(x, s.m), count_v(c)))
    } else {
        add_v(s.m, div_v(sub_v(x, old_val), count_v(s.period)))
    };
    let m2raw: int = if s.count < s.period {
        add_v(s.m2, mul_v(sub_v(x, s.m), sub_v(x, m1)))
    } else {
        add_v(s.m2, mul_v(sub_v(x, old_val), sub_v(add_v(sub_v(x, m1), old_val), s.m)))
    };
    let m2c: int = if m2raw < 0 {
        0
    } else {
        m2raw
    };
    SdView { index: idx, count: c, m: m1, m2: m2c, deque: d, period: s.period }
}

/// Output for one input: the square root of `m2 / count` after the step.
pub open spec fn sd_out(s: SdView, x: int) -> int {
    let s2 = sd_step(s, x);
    sqrt_v(div_v(s2.m2, count_v(s2.count)))
}

/// State after a whole input sequence.
pub open spec fn sd_run(s: SdView, xs: Seq<int>) -> SdView
    decreases xs.len(),
{
    if xs.len() == 0 {
        s
    } else {
        sd_run(sd_step(s, xs[0]), xs.skip(1))
    }
}

/// Standard deviation (SD).
///
/// Returns the standard deviation of the last `period` values, computed
/// incrementally by the windowed Welford recurrence: a circular window, a
/// running mean and a running sum of squared deviations, updated in place
/// on every input.
///
/// This is the library's one mean/variance tracker.  A full rescan of the
/// window every step would cost a factor of `period` more and, while the
/// window is still filling, would wrongly average empty slots in as zero
/// samples; the incremental form computes over the available samples only.
///
/// # Parameters
///
/// * _period_ - number of periods (integer greater than 0)
#[derive(Debug)]
pub struct StandardDeviation {
    period: usize,
    index: usize,
    count: usize,
    m: Num,
    m2: Num,
    deque: Vec<Num>,
}

impl View for StandardDeviation {
    type V = SdView;

    closed spec fn view(&self) -> SdView {
        SdView {
            period: self.period as nat,
            index: self.index as nat,
            count: self.count as nat,
            m: self.m@,
            m2: self.m2@,
            deque: views(self.deque@),
        }
    }
}

impl StandardDeviation {
    /// The window always has exactly `period` slots, the cursor stays inside
    /// it, the fill count never exceeds it, and the sum of squared
    /// deviations never goes negative.
    #[verifier::type_invariant]
    closed spec fn inv(self) -> bool {
        &&& self.period >= 1
        &&& self.deque@.len() == self.period
        &&& self.index < self.period
        &&& self.count <= self.period
        &&& self.m2@ >= 0
    }

    /// Build a tracker over the given period; a zero period is refused.
    #[verifier::loop_isolation(false)]
    pub fn new(period: usize) -> (r: Result<Self, TaError>)
        ensures
            match r {
                Ok(s) => period >= 1 && s@ == sd_init(period as nat),
                Err(e) => period == 0 && e == TaError::InvalidParameter,
            },
    {
        if period == 0 {
            Err(TaError::InvalidParameter)
        } else {
            let mut deque: Vec<Num> = Vec::new();
            let zero = Num::zero();
            while deque.len() < period
                invariant
                    deque@.len() <= period,
                    forall|i: int| 0 <= i < deque@.len() ==> deque@[i]@ == 0,
                decreases period - deque@.len(),
            {
                deque.push(zero);
            }
            let s = StandardDeviation {
                period,
                index: 0,
                count: 0,
                m: Num::zero(),
                m2: Num::zero(),
                deque,
            };
            proof {
                assert(s@.deque =~= sd_init(period as nat).deque);
            }
            Ok(s)
        }
    }

    /// The running mean of the windowed samples.
    pub fn mean(&self) -> (r: Num)
        ensures
            r@ == self@.m,
    {
        self.m
    }
}

impl Period for StandardDeviation {
    fn period(&self) -> (r: usize)
        ensures
            r as nat == self@.period,
    {
        self.period
    }
}

impl Next<Num> for StandardDeviation {
    type Output = Num;

    fn next(&mut self, input: Num) -> (r: Num)
        ensures
            final(self)@ == sd_step(old(self)@, input@),
            r@ == sd_out(old(self)@, input@),
            r@ >= 0,
    {
        proof {
            use_type_invariant(&*self);
        }
        let ghost pre = self@;
        let old_val = self.deque[self.index];
        self.deque[self.index] = input;

        self.index = if self.index + 1 < self.period {
            self.index + 1
        } else {
            0
        };

        if self.count < self.period {
            self.count = self.count + 1;
            let delta = input.sub(self.m);
            self.m = self.m.add(delta.div(Num::from_usize(self.count)));
            let delta2 = input.sub(self.m);
            let m2 = self.m2.add(delta.mul(delta2));
            self.m2 = if m2.is_negative() {
                Num::zero()
            } else {
                m2
            };
        } else {
            let delta = input.sub(old_val);
            let old_m = self.m;
            self.m = self.m.add(delta.div(Num::from_usize(self.period)));
            let delta2 = input.sub(self.m).add(old_val).sub(old_m);
            let m2 = self.m2.add(delta.mul(delta2));
            self.m2 = if m2.is_negative() {
                Num::zero()
            } else {
                m2
            };
        }
        proof {
            assert(final(self)@.deque =~= sd_step(pre, input@).deque);
            assert(final(self)@ == sd_step(pre, input@));
        }
        self.m2.div(Num::from_usize(self.count)).sqrt()
    }
}

impl<T: Close> Next<&T> for StandardDeviation {
    type Output = Num;

    fn next(&mut self, input: &T) -> (r: Num)
        ensures
            final(self)@ == sd_step(old(self)@, input.close_spec()),
            r@ == sd_out(old(self)@, input.close_spec()),
            r@ >= 0,
    {
        let c = input.close();
        Next::<Num>::next(self, c)
    }
}

impl Reset for StandardDeviation {
    #[verifier::loop_isolation(false)]
    fn reset(&mut self)
        ensures
            final(self)@ == sd_init(old(self)@.period),
    {
        proof {
            use_type_invariant(&*self);
        }
        self.index = 0;
        self.count = 0;
        self.m = Num::zero();
        self.m2 = Num::zero();
        let zero = Num::zero();
        let mut i: usize = 0;
        while i < self.period
            invariant
                self.period == old(self).period,
                self.index == 0,
                self.count == 0,
                self.m@ == 0,
                self.m2@ == 0,
                self.deque@.len() == self.period,
                i <= self.period,
                forall|j: int| 0 <= j < i ==> self.deque@[j]@ == 0,
            decreases self.period - i,
        {
            self.deque[i] = zero;
            i = i + 1;
        }
        proof {
            assert(final(self)@.deque =~= sd_init(old(self)@.period).deque);
        }
    }
}

impl Clone for StandardDeviation {
    /// A clone is an independent, identically behaving instance.
    fn clone(&self) -> (r: Self)
        ensures
            r@ == self@,
    {
        proof {
            use_type_invariant(&*self);
        }
        let r = StandardDeviation {
            period: self.period,
            index: self.index,
            count: self.count,
            m: self.m,
            m2: self.m2,
            deque: self.deque.clone(),
        };
        proof {
            assert(r@.deque =~= self@.deque);
        }
        r
    }
}

impl Default for StandardDeviation {
    fn default() -> (r: Self)
        ensures
            r@ == sd_init(9),
    {
        StandardDeviation::new(9).unwrap()
    }
}

impl StandardDeviation {
    /// The canonical display form, derived from the construction
    /// parameters alone.
    pub fn to_string(&self) -> (r: String)
        ensures
            r@ == crate::text::named1("SD"@, self@.period),
    {
        crate::text::format_name1("SD", self.period)
    }
}

/// A plain-value snapshot of a tracker's full state.  Restoring a
/// snapshot and continuing the input stream produces the same outputs as
/// an uninterrupted run.
#[derive(Debug, Clone, PartialEq)]
pub struct SdSnapshot {
    /// The window capacity.
    pub period: usize,
    /// Slot that the next input overwrites.
    pub index: usize,
    /// How many inputs have been seen.
    pub count: usize,
    /// The running mean.
    pub m: Num,
    /// The running sum of squared deviations.
    pub m2: Num,
    /// The window contents.
    pub deque: Vec<Num>,
}

/// The abstract state a snapshot holds.
pub open spec fn sd_snapshot_view(s: &SdSnapshot) -> SdView {
    SdView {
        period: s.period as nat,
        index: s.index as nat,
        count: s.count as nat,
        m: s.m@,
        m2: s.m2@,
        deque: crate::helpers::views(s.deque@),
    }
}

/// A snapshot whose fields a tracker can actually hold.
pub open spec fn sd_snapshot_valid(s: &SdSnapshot) -> bool {
    &&& s.period >= 1
    &&& s.deque@.len() == s.period
    &&& s.index < s.period
    &&& s.count <= s.period
    &&& s.m2@ >= 0
}

impl StandardDeviation {
    /// Capture the full state.
    pub fn snapshot(&self) -> (s: SdSnapshot)
        ensures
            sd_snapshot_view(&s) == self@,
            sd_snapshot_valid(&s),
    {
        proof {
            use_type_invariant(&*self);
        }
        let s = SdSnapshot {
            period: self.period,
            index: self.index,
            count: self.count,
            m: self.m,
            m2: self.m2,
            deque: self.deque.clone(),
        };
        proof {
            assert(sd_snapshot_view(&s).deque =~= self@.deque);
        }
        s
    }

    /// Rebuild a tracker from a snapshot; inconsistent snapshots are
    /// refused.  Restoring what [`Self::snapshot`] captured gives back
    /// exactly the captured state, so continuing any input stream yields
    /// the same outputs as an uninterrupted run.
    pub fn restore(s: &SdSnapshot) -> (r: Result<Self, TaError>)
        ensures
            match r {
                Ok(t) => sd_snapshot_valid(s) && t@ == sd_snapshot_view(s),
                Err(e) => !sd_snapshot_valid(s) && e == TaError::InvalidParameter,
            },
    {
        let valid = s.period >= 1 && s.deque.len() == s.period && s.index < s.period && s.count
            <= s.period && !s.m2.is_negative();
        if !valid {
            Err(TaError::InvalidParameter)
        } else {
            let t = StandardDeviation {
                period: s.period,
                index: s.index,
                count: s.count,
                m: s.m,
                m2: s.m2,
                deque: s.deque.clone(),
            };
            proof {
                assert(t@.deque =~= sd_snapshot_view(s).deque);
            }
            Ok(t)
        }
    }
}

/// Feeding a sequence fills the window by exactly one slot per input until
/// it is full: the fill count after a run is the smaller of the number of
/// inputs seen and the period, so the filling-to-full transition happens
/// exactly at the period-th input.  Outputs are well defined throughout,
/// because the step and output functions are total.
pub proof fn lemma_sd_fill_transition(s: SdView, xs: Seq<int>)
    requires
        s.count <= s.period,
    ensures
        sd_run(s, xs).period == s.period,
        sd_run(s, xs).count == if s.count + xs.len() <= s.period {
            s.count + xs.len()
        } else {
            s.period
        },
    decreases xs.len(),
{
    if xs.len() > 0 {
        lemma_sd_fill_transition(sd_step(s, xs[0]), xs.skip(1));
    }
}

} // verus!
