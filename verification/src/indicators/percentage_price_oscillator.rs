//! Percentage price oscillator.

use vstd::prelude::*;

use crate::errors::TaError;
use crate::indicators::exponential_moving_average::{
    ema_init, ema_out, ema_step, EmaView, ExponentialMovingAverage,
};
use crate::num::{clip, div_v, mul_v, sub_v, Num, SCALE};
use crate::traits::{Close, Next, Period, Reset};

verus! {

/// Abstract state of a [`PercentagePriceOscillator`].
pub struct PpoView {
    /// State of the fast smoother.
    pub fast_ema: EmaView,
    /// State of the slow smoother.
    pub slow_ema: EmaView,
    /// State of the signal smoother.
    pub signal_ema: EmaView,
}

/// State of a fresh indicator.
pub open spec fn ppo_init(fast: nat, slow: nat, signal: nat) -> PpoView {
    PpoView { fast_ema: ema_init(fast), slow_ema: ema_init(slow), signal_ema: ema_init(signal) }
}

/// The three outputs for one input, as raw fixed-point values: the PPO
/// line `(fast - slow) / slow * 100`, its signal smoothing, and their
/// difference.
pub open spec fn ppo_out(s: PpoView, x: int) -> (int, int, int) {
    let fast = ema_out(s.fast_ema, x);
    let slow = ema_out(s.slow_ema, x);
    let ppo = mul_v(div_v(sub_v(fast, slow), slow), clip(100 * SCALE as int));
    let signal = ema_out(s.signal_ema, ppo);
    (ppo, signal, sub_v(ppo, signal))
}

/// State after one input.
pub open spec fn ppo_step(s: PpoView, x: int) -> PpoView {
    let fast = ema_out(s.fast_ema, x);
    let slow = ema_out(s.slow_ema, x);
    let ppo = mul_v(div_v(sub_v(fast, slow), slow), clip(100 * SCALE as int));
    PpoView {
        fast_ema: ema_step(s.fast_ema, x),
        slow_ema: ema_step(s.slow_ema, x),
        signal_ema: ema_step(s.signal_ema, ppo),
    }
}

/// State after a whole input sequence.
pub open spec fn ppo_run(s: PpoView, xs: Seq<int>) -> PpoView
    decreases xs.len(),
{
    if xs.len() == 0 {
        s
    } else {
        ppo_run(ppo_step(s, xs[0]), xs.skip(1))
    }
}

/// One PPO output: the PPO series proper, the signal series, and the
/// divergence between the two.
#[derive(Debug, Clone, Copy, PartialEq, Eq, Structural)]
pub struct PercentagePriceOscillatorOutput {
    /// The PPO line: the fast-slow gap as a percentage of the slow EMA.
    pub ppo: Num,
    /// The signal line: an EMA of the PPO line.
    pub signal: Num,
    /// The histogram: PPO line minus signal line.
    pub histogram: Num,
}

/// Percentage Price Oscillator (PPO).
///
/// Like [MACD](crate::indicators::MovingAverageConvergenceDivergence), but
/// the fast-slow difference is expressed as a percentage of the slow
/// moving average.
///
/// # Parameters
///
/// * _fast_period_ - period for the fast EMA. Default is 12.
/// * _slow_period_ - period for the slow EMA. Default is 26.
/// * _signal_period_ - period for the signal EMA. Default is 9.
#[derive(Debug)]
pub struct PercentagePriceOscillator {
    fast_ema: ExponentialMovingAverage,
    slow_ema: ExponentialMovingAverage,
    signal_ema: ExponentialMovingAverage,
}

impl View for PercentagePriceOscillator {
    type V = PpoView;

    closed spec fn view(&self) -> PpoView {
        PpoView {
            fast_ema: self.fast_ema@,
            slow_ema: self.slow_ema@,
            signal_ema: self.signal_ema@,
        }
    }
}

impl PercentagePriceOscillator {
    /// Build an indicator from the three periods; a zero anywhere is
    /// refused.
    pub fn new(fast_period: usize, slow_period: usize, signal_period: usize) -> (r: Result<
        Self,
        TaError,
    >)
        ensures
            match r {
                Ok(s) => fast_period >= 1 && slow_period >= 1 && signal_period >= 1 && s@
                    == ppo_init(fast_period as nat, slow_period as nat, signal_period as nat),
                Err(e) => (fast_period == 0 || slow_period == 0 || signal_period == 0) && e
                    == TaError::InvalidParameter,
            },
    {
        let fast = match ExponentialMovingAverage::new(fast_period) {
            Ok(e) => e,
            Err(e) => {
                return Err(e);
            },
        };
        let slow = match ExponentialMovingAverage::new(slow_period) {
            Ok(e) => e,
            Err(e) => {
                return Err(e);
            },
        };
        let signal = match ExponentialMovingAverage::new(signal_period) {
            Ok(e) => e,
            Err(e) => {
                return Err(e);
            },
        };
        Ok(PercentagePriceOscillator { fast_ema: fast, slow_ema: slow, signal_ema: signal })
    }
}

impl Next<Num> for PercentagePriceOscillator {
    type Output = PercentagePriceOscillatorOutput;

    fn next(&mut self, input: Num) -> (r: PercentagePriceOscillatorOutput)
        ensures
            final(self)@ == ppo_step(old(self)@, input@),
            (r.ppo@, r.signal@, r.histogram@) == ppo_out(old(self)@, input@),
    {
        let fast_val = self.fast_ema.next(input);
        let slow_val = self.slow_ema.next(input);

        let ppo = fast_val.sub(slow_val).div(slow_val).mul(Num::from_int(100));
        let signal = self.signal_ema.next(ppo);
        let histogram = ppo.sub(signal);

        PercentagePriceOscillatorOutput { ppo, signal, histogram }
    }
}

impl<T: Close> Next<&T> for PercentagePriceOscillator {
    type Output = PercentagePriceOscillatorOutput;

    fn next(&mut self, input: &T) -> (r: PercentagePriceOscillatorOutput)
        ensures
            final(self)@ == ppo_step(old(self)@, input.close_spec()),
            (r.ppo@, r.signal@, r.histogram@) == ppo_out(old(self)@, input.close_spec()),
    {
        let c = input.close();
        Next::<Num>::next(self, c)
    }
}

impl Reset for PercentagePriceOscillator {
    fn reset(&mut self)
        ensures
            final(self)@ == ppo_init(
                old(self)@.fast_ema.period,
                old(self)@.slow_ema.period,
                old(self)@.signal_ema.period,
            ),
    {
        self.fast_ema.reset();
        self.slow_ema.reset();
        self.signal_ema.reset();
    }
}

impl Clone for PercentagePriceOscillator {
    /// A clone is an independent, identically behaving instance.
    fn clone(&self) -> (r: Self)
        ensures
            r@ == self@,
    {
        PercentagePriceOscillator {
            fast_ema: self.fast_ema.clone(),
            slow_ema: self.slow_ema.clone(),
            signal_ema: self.signal_ema.clone(),
        }
    }
}

impl Default for PercentagePriceOscillator {
    fn default() -> (r: Self)
        ensures
            r@ == ppo_init(12, 26, 9),
    {
        PercentagePriceOscillator::new(12, 26, 9).unwrap()
    }
}

impl PercentagePriceOscillator {
    /// The canonical display form, derived from the construction
    /// parameters alone.
    pub fn to_string(&self) -> (r: String)
        ensures
            r@ == crate::text::named3(
                "PPO"@,
                self@.fast_ema.period,
                self@.slow_ema.period,
                self@.signal_ema.period,
            ),
    {
        crate::text::format_name3(
            "PPO",
            self.fast_ema.period(),
            self.slow_ema.period(),
            self.signal_ema.period(),
        )
    }
}

/// A plain-value snapshot of the indicator's full state: one snapshot per
/// owned smoother.
#[derive(Debug, Clone, Copy, PartialEq, Eq, Structural)]
pub struct PpoSnapshot {
    /// Snapshot of the fast smoother.
    pub fast_ema: crate::indicators::EmaSnapshot,
    /// Snapshot of the slow smoother.
    pub slow_ema: crate::indicators::EmaSnapshot,
    /// Snapshot of the signal smoother.
    pub signal_ema: crate::indicators::EmaSnapshot,
}

/// The abstract state a snapshot holds.
pub open spec fn ppo_snapshot_view(s: &PpoSnapshot) -> PpoView {
    PpoView {
        fast_ema: crate::indicators::ema_snapshot_view(&s.fast_ema),
        slow_ema: crate::indicators::ema_snapshot_view(&s.slow_ema),
        signal_ema: crate::indicators::ema_snapshot_view(&s.signal_ema),
    }
}

/// A snapshot whose fields the indicator can actually hold.
pub open spec fn ppo_snapshot_valid(s: &PpoSnapshot) -> bool {
    &&& crate::indicators::ema_snapshot_valid(&s.fast_ema)
    &&& crate::indicators::ema_snapshot_valid(&s.slow_ema)
    &&& crate::indicators::ema_snapshot_valid(&s.signal_ema)
}

impl PercentagePriceOscillator {
    /// Capture the full state.
    pub fn snapshot(&self) -> (s: PpoSnapshot)
        ensures
            ppo_snapshot_view(&s) == self@,
            ppo_snapshot_valid(&s),
    {
        PpoSnapshot {
            fast_ema: self.fast_ema.snapshot(),
            slow_ema: self.slow_ema.snapshot(),
            signal_ema: self.signal_ema.snapshot(),
        }
    }

    /// Rebuild an indicator from a snapshot; a zero period anywhere is
    /// refused.  Restoring what [`Self::snapshot`] captured gives back
    /// exactly the captured state.
    pub fn restore(s: &PpoSnapshot) -> (r: Result<Self, TaError>)
        ensures
            match r {
                Ok(t) => ppo_snapshot_valid(s) && t@ == ppo_snapshot_view(s),
                Err(e) => !ppo_snapshot_valid(s) && e == TaError::InvalidParameter,
            },
    {
        let fast = match ExponentialMovingAverage::restore(&s.fast_ema) {
            Ok(e) => e,
            Err(e) => {
                return Err(e);
            },
        };
        let slow = match ExponentialMovingAverage::restore(&s.slow_ema) {
            Ok(e) => e,
            Err(e) => {
                return Err(e);
            },
        };
        let signal = match ExponentialMovingAverage::restore(&s.signal_ema) {
            Ok(e) => e,
            Err(e) => {
                return Err(e);
            },
        };
        Ok(PercentagePriceOscillator { fast_ema: fast, slow_ema: slow, signal_ema: signal })
    }
}

} // verus!
