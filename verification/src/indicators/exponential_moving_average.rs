//! Exponential moving average.

use vstd::prelude::*;

use crate::errors::TaError;
use crate::num::{add_v, clip, div_v, mul_v, sub_v, Num, SCALE};
use crate::traits::{Close, Next, Period, Reset};

verus! {

/// Abstract state of an [`ExponentialMovingAverage`].
pub struct EmaView {
    /// The configured period.
    pub period: nat,
    /// The smoothing constant `2 / (period + 1)`, as a raw fixed-point value.
    pub k: int,
    /// The current estimate, as a raw fixed-point value.
    pub current: int,
    /// True until the first input arrives.
    pub is_new: bool,
}

/// The smoothing constant `2 / (period + 1)` of a given period, as computed
/// in fixed point.
pub open spec fn ema_k(period: nat) -> int {
    div_v(clip(2 * SCALE as int), add_v(clip(period * SCALE as int), SCALE as int))
}

/// State of a freshly constructed smoother.
pub open spec fn ema_init(period: nat) -> EmaView {
    EmaView { period, k: ema_k(period), current: 0, is_new: true }
}

/// A well-formed state: positive period, smoothing constant as configured.
pub open spec fn ema_wf(s: EmaView) -> bool {
    &&& s.period >= 1
    &&& s.k == ema_k(s.period)
}

/// Output for one input: the input itself on the first call, and
/// `k * input + (1 - k) * current` afterwards.
pub open spec fn ema_out(s: EmaView, x: int) -> int {
    if s.is_new {
        x
    } else {
        add_v(mul_v(s.k, x), mul_v(sub_v(SCALE as int, s.k), s.current))
    }
}

/// State after one input.
pub open spec fn ema_step(s: EmaView, x: int) -> EmaView {
    EmaView { current: ema_out(s, x), is_new: false, ..s }
}

/// State after a whole input sequence.
pub open spec fn ema_run(s: EmaView, xs: Seq<int>) -> EmaView
    decreases xs.len(),
{
    if xs.len() == 0 {
        s
    } else {
        ema_run(ema_step(s, xs[0]), xs.skip(1))
    }
}

/// An exponential moving average (EMA), also known as an exponentially
/// weighted moving average (EWMA).
///
/// # Formula
///
/// EMA<sub>t</sub> = k · p<sub>t</sub> + (1 - k) · EMA<sub>t-1</sub>, with
/// k = 2 / (period + 1); the first input is returned unchanged.
///
/// # Parameters
///
/// * _period_ - number of periods (integer greater than 0)
#[derive(Debug)]
pub struct ExponentialMovingAverage {
    period: usize,
    k: Num,
    current: Num,
    is_new: bool,
}

impl View for ExponentialMovingAverage {
    type V = EmaView;

    closed spec fn view(&self) -> EmaView {
        EmaView {
            period: self.period as nat,
            k: self.k@,
            current: self.current@,
            is_new: self.is_new,
        }
    }
}

impl ExponentialMovingAverage {
    /// Every smoother ever constructed has a positive period and the
    /// smoothing constant derived from it.
    #[verifier::type_invariant]
    closed spec fn inv(self) -> bool {
        ema_wf(self@)
    }

    /// Build a smoother over the given period; a zero period is refused.
    pub fn new(period: usize) -> (r: Result<Self, TaError>)
        ensures
            match r {
                Ok(e) => period >= 1 && e@ == ema_init(period as nat) && ema_wf(e@),
                Err(e) => period == 0 && e == TaError::InvalidParameter,
            },
    {
        if period == 0 {
            Err(TaError::InvalidParameter)
        } else {
            let k = Num::from_int(2).div(Num::from_usize(period).add(Num::one()));
            Ok(ExponentialMovingAverage { period, k, current: Num::zero(), is_new: true })
        }
    }

    /// The configured period.
    pub fn length(&self) -> (r: usize)
        ensures
            r as nat == self@.period,
    {
        self.period
    }
}

impl Period for ExponentialMovingAverage {
    fn period(&self) -> (r: usize)
        ensures
            r as nat == self@.period,
            r >= 1,
    {
        proof {
            use_type_invariant(&*self);
        }
        self.period
    }
}

impl Next<Num> for ExponentialMovingAverage {
    type Output = Num;

    fn next(&mut self, input: Num) -> (r: Num)
        ensures
            final(self)@ == ema_step(old(self)@, input@),
            r@ == ema_out(old(self)@, input@),
    {
        proof {
            use_type_invariant(&*self);
        }
        if self.is_new {
            self.is_new = false;
            self.current = input;
        } else {
            self.current = self.k.mul(input).add(Num::one().sub(self.k).mul(self.current));
        }
        self.current
    }
}

impl<T: Close> Next<&T> for ExponentialMovingAverage {
    type Output = Num;

    fn next(&mut self, input: &T) -> (r: Num)
        ensures
            final(self)@ == ema_step(old(self)@, input.close_spec()),
            r@ == ema_out(old(self)@, input.close_spec()),
    {
        let c = input.close();
        Next::<Num>::next(self, c)
    }
}

impl Reset for ExponentialMovingAverage {
    fn reset(&mut self)
        ensures
            final(self)@ == ema_init(old(self)@.period),
    {
        proof {
            use_type_invariant(&*self);
        }
        self.current = Num::zero();
        self.is_new = true;
    }
}

impl Clone for ExponentialMovingAverage {
    /// A clone is an independent, identically behaving instance.
    fn clone(&self) -> (r: Self)
        ensures
            r@ == self@,
    {
        proof {
            use_type_invariant(&*self);
        }
        ExponentialMovingAverage {
            period: self.period,
            k: self.k,
            current: self.current,
            is_new: self.is_new,
        }
    }
}

impl Default for ExponentialMovingAverage {
    fn default() -> (r: Self)
        ensures
            r@ == ema_init(9),
    {
        ExponentialMovingAverage::new(9).unwrap()
    }
}

/// After a reset, a well-formed smoother behaves exactly like a freshly
/// constructed one: both run every input sequence to the same state, and so
/// to the same outputs.
pub proof fn lemma_ema_reset_determinism(s: EmaView, xs: Seq<int>)
    requires
        ema_wf(s),
    ensures
        ema_run(ema_init(s.period), xs) == ema_run(
            EmaView { current: 0, is_new: true, ..s },
            xs,
        ),
{
    assert(EmaView { current: 0, is_new: true, ..s } == ema_init(s.period));
}

impl ExponentialMovingAverage {
    /// The canonical display form, derived from the construction
    /// parameters alone.
    pub fn to_string(&self) -> (r: String)
        ensures
            r@ == crate::text::named1("EMA"@, self@.period),
    {
        crate::text::format_name1("EMA", self.period)
    }
}

/// A plain-value snapshot of a smoother's full state.  Restoring a
/// snapshot and continuing the input stream produces the same outputs as
/// an uninterrupted run; the smoothing constant is derived from the
/// period, so it needs no slot of its own.
#[derive(Debug, Clone, Copy, PartialEq, Eq, Structural)]
pub struct EmaSnapshot {
    /// The configured period.
    pub period: usize,
    /// The current estimate.
    pub current: Num,
    /// True until the first input arrives.
    pub is_new: bool,
}

/// The abstract state a snapshot holds, with the smoothing constant
/// recomputed from the period.
pub open spec fn ema_snapshot_view(s: &EmaSnapshot) -> EmaView {
    EmaView {
        period: s.period as nat,
        k: ema_k(s.period as nat),
        current: s.current@,
        is_new: s.is_new,
    }
}

/// A snapshot whose fields a smoother can actually hold.
pub open spec fn ema_snapshot_valid(s: &EmaSnapshot) -> bool {
    s.period >= 1
}

impl ExponentialMovingAverage {
    /// Capture the full state.
    pub fn snapshot(&self) -> (s: EmaSnapshot)
        ensures
            ema_snapshot_view(&s) == self@,
            ema_snapshot_valid(&s),
            ema_wf(self@),
    {
        proof {
            use_type_invariant(&*self);
        }
        EmaSnapshot { period: self.period, current: self.current, is_new: self.is_new }
    }

    /// Rebuild a smoother from a snapshot; a zero period is refused.
    /// Restoring what [`Self::snapshot`] captured gives back exactly the
    /// captured state.
    pub fn restore(s: &EmaSnapshot) -> (r: Result<Self, TaError>)
        ensures
            match r {
                Ok(e) => ema_snapshot_valid(s) && e@ == ema_snapshot_view(s),
                Err(e) => !ema_snapshot_valid(s) && e == TaError::InvalidParameter,
            },
    {
        match ExponentialMovingAverage::new(s.period) {
            Ok(mut e) => {
                e.current = s.current;
                e.is_new = s.is_new;
                Ok(e)
            },
            Err(e) => Err(e),
        }
    }
}

/// Restoring a snapshot and continuing any input sequence reaches the same
/// state, and so the same outputs, as the uninterrupted run.
pub proof fn lemma_ema_snapshot_resume(s: EmaView, xs: Seq<int>)
    requires
        ema_wf(s),
    ensures
        ema_run(
            EmaView { period: s.period, k: ema_k(s.period), current: s.current, is_new: s.is_new },
            xs,
        ) == ema_run(s, xs),
{
    assert(EmaView { period: s.period, k: ema_k(s.period), current: s.current, is_new: s.is_new }
        == s);
}

} // verus!
