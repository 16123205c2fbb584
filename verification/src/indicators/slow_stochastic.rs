//! Slow stochastic oscillator.

use vstd::prelude::*;

use crate::errors::TaError;
use crate::indicators::exponential_moving_average::{
    ema_init, ema_out, ema_step, EmaView, ExponentialMovingAverage,
};
use crate::indicators::fast_stochastic::{
    fast_stochastic_init, fast_stochastic_out, fast_stochastic_out_bar, fast_stochastic_step,
    fast_stochastic_step_bar, FastStochastic, FastStochasticView,
};
use crate::num::Num;
use crate::traits::{Close, High, Low, Next, Period, Reset};

verus! {

/// Abstract state of a [`SlowStochastic`].
pub struct SlowStochasticView {
    /// State of the owned fast oscillator.
    pub fast_stochastic: FastStochasticView,
    /// State of the owned smoother.
    pub ema: EmaView,
}

/// State of a fresh oscillator.
pub open spec fn slow_stochastic_init(stochastic_period: nat, ema_period: nat) -> SlowStochasticView {
    SlowStochasticView {
        fast_stochastic: fast_stochastic_init(stochastic_period),
        ema: ema_init(ema_period),
    }
}

/// Output for one bare value: the smoothed fast oscillator.
pub open spec fn slow_stochastic_out(s: SlowStochasticView, x: int) -> int {
    ema_out(s.ema, fast_stochastic_out(s.fast_stochastic, x))
}

/// State after one bare value.
pub open spec fn slow_stochastic_step(s: SlowStochasticView, x: int) -> SlowStochasticView {
    SlowStochasticView {
        fast_stochastic: fast_stochastic_step(s.fast_stochastic, x),
        ema: ema_step(s.ema, fast_stochastic_out(s.fast_stochastic, x)),
    }
}

/// Output for one bar.
pub open spec fn slow_stochastic_out_bar(
    s: SlowStochasticView,
    high: int,
    low: int,
    close: int,
) -> int {
    ema_out(s.ema, fast_stochastic_out_bar(s.fast_stochastic, high, low, close))
}

/// State after one bar.
pub open spec fn slow_stochastic_step_bar(
    s: SlowStochasticView,
    high: int,
    low: int,
    close: int,
) -> SlowStochasticView {
    SlowStochasticView {
        fast_stochastic: fast_stochastic_step_bar(s.fast_stochastic, high, low),
        ema: ema_step(s.ema, fast_stochastic_out_bar(s.fast_stochastic, high, low, close)),
    }
}

/// Slow stochastic oscillator: a fast stochastic oscillator smoothed with
/// an exponential moving average.
///
/// # Parameters
///
/// * _stochastic_period_ - number of periods for the fast stochastic
///   (integer greater than 0). Default is 14.
/// * _ema_period_ - period for the smoothing EMA (integer greater than 0).
///   Default is 3.
#[derive(Debug)]
pub struct SlowStochastic {
    fast_stochastic: FastStochastic,
    ema: ExponentialMovingAverage,
}

impl View for SlowStochastic {
    type V = SlowStochasticView;

    closed spec fn view(&self) -> SlowStochasticView {
        SlowStochasticView { fast_stochastic: self.fast_stochastic@, ema: self.ema@ }
    }
}

impl SlowStochastic {
    /// Build an oscillator from the two periods; a zero anywhere is
    /// refused.
    pub fn new(stochastic_period: usize, ema_period: usize) -> (r: Result<Self, TaError>)
        ensures
            match r {
                Ok(s) => stochastic_period >= 1 && ema_period >= 1 && s@ == slow_stochastic_init(
                    stochastic_period as nat,
                    ema_period as nat,
                ),
                Err(e) => (stochastic_period == 0 || ema_period == 0) && e
                    == TaError::InvalidParameter,
            },
    {
        let fast = match FastStochastic::new(stochastic_period) {
            Ok(f) => f,
            Err(e) => {
                return Err(e);
            },
        };
        let ema = match ExponentialMovingAverage::new(ema_period) {
            Ok(e) => e,
            Err(e) => {
                return Err(e);
            },
        };
        Ok(SlowStochastic { fast_stochastic: fast, ema })
    }
}

impl Next<Num> for SlowStochastic {
    type Output = Num;

    fn next(&mut self, input: Num) -> (r: Num)
        ensures
            final(self)@ == slow_stochastic_step(old(self)@, input@),
            r@ == slow_stochastic_out(old(self)@, input@),
    {
        let fast = self.fast_stochastic.next(input);
        self.ema.next(fast)
    }
}

impl<T: High + Low + Close> Next<&T> for SlowStochastic {
    type Output = Num;

    fn next(&mut self, input: &T) -> (r: Num)
        ensures
            final(self)@ == slow_stochastic_step_bar(
                old(self)@,
                input.high_spec(),
                input.low_spec(),
                input.close_spec(),
            ),
            r@ == slow_stochastic_out_bar(
                old(self)@,
                input.high_spec(),
                input.low_spec(),
                input.close_spec(),
            ),
    {
        let fast = self.fast_stochastic.next(input);
        self.ema.next(fast)
    }
}

impl Reset for SlowStochastic {
    fn reset(&mut self)
        ensures
            final(self)@.fast_stochastic.length == old(self)@.fast_stochastic.length,
            final(self)@.fast_stochastic.minimum == crate::indicators::min_init(
                old(self)@.fast_stochastic.minimum.period,
            ),
            final(self)@.fast_stochastic.maximum == crate::indicators::max_init(
                old(self)@.fast_stochastic.maximum.period,
            ),
            final(self)@.ema == ema_init(old(self)@.ema.period),
    {
        self.fast_stochastic.reset();
        self.ema.reset();
    }
}

impl Clone for SlowStochastic {
    /// A clone is an independent, identically behaving instance.
    fn clone(&self) -> (r: Self)
        ensures
            r@ == self@,
    {
        SlowStochastic { fast_stochastic: self.fast_stochastic.clone(), ema: self.ema.clone() }
    }
}

impl Default for SlowStochastic {
    fn default() -> (r: Self)
        ensures
            r@ == slow_stochastic_init(14, 3),
    {
        SlowStochastic::new(14, 3).unwrap()
    }
}

impl SlowStochastic {
    /// The canonical display form, derived from the construction
    /// parameters alone.
    pub fn to_string(&self) -> (r: String)
        ensures
            r@ == crate::text::named2(
                "SLOW_STOCH"@,
                self@.fast_stochastic.length,
                self@.ema.period,
            ),
    {
        crate::text::format_name2("SLOW_STOCH", self.fast_stochastic.length(), self.ema.period())
    }
}

/// A plain-value snapshot of the oscillator's full state.
#[derive(Debug, Clone, PartialEq)]
pub struct SlowStochasticSnapshot {
    /// Snapshot of the owned fast oscillator.
    pub fast_stochastic: crate::indicators::FastStochasticSnapshot,
    /// Snapshot of the owned smoother.
    pub ema: crate::indicators::EmaSnapshot,
}

/// The abstract state a restored oscillator holds.
pub open spec fn slow_stochastic_snapshot_view(s: &SlowStochasticSnapshot) -> SlowStochasticView {
    SlowStochasticView {
        fast_stochastic: crate::indicators::fast_stochastic_snapshot_view(&s.fast_stochastic),
        ema: crate::indicators::ema_snapshot_view(&s.ema),
    }
}

/// A snapshot whose fields the oscillator can actually hold.
pub open spec fn slow_stochastic_snapshot_valid(s: &SlowStochasticSnapshot) -> bool {
    &&& crate::indicators::fast_stochastic_snapshot_valid(&s.fast_stochastic)
    &&& crate::indicators::ema_snapshot_valid(&s.ema)
}

impl SlowStochastic {
    /// Capture the full state.
    pub fn snapshot(&self) -> (s: SlowStochasticSnapshot)
        ensures
            crate::indicators::fast_stochastic_snapshot_of(
                &s.fast_stochastic,
                self@.fast_stochastic,
            ),
            crate::indicators::ema_snapshot_view(&s.ema) == self@.ema,
            slow_stochastic_snapshot_valid(&s),
    {
        SlowStochasticSnapshot {
            fast_stochastic: self.fast_stochastic.snapshot(),
            ema: self.ema.snapshot(),
        }
    }

    /// Rebuild an oscillator from a snapshot; inconsistent children are
    /// refused.  The extremum caches are recomputed rather than trusted.
    pub fn restore(s: &SlowStochasticSnapshot) -> (r: Result<Self, TaError>)
        ensures
            match r {
                Ok(t) => slow_stochastic_snapshot_valid(s) && t@ == slow_stochastic_snapshot_view(
                    s,
                ),
                Err(e) => !slow_stochastic_snapshot_valid(s) && e == TaError::InvalidParameter,
            },
    {
        let fast = match FastStochastic::restore(&s.fast_stochastic) {
            Ok(t) => t,
            Err(e) => {
                return Err(e);
            },
        };
        let ema = match ExponentialMovingAverage::restore(&s.ema) {
            Ok(t) => t,
            Err(e) => {
                return Err(e);
            },
        };
        Ok(SlowStochastic { fast_stochastic: fast, ema })
    }
}

} // verus!
