//! Moving average convergence divergence.

use vstd::prelude::*;

use crate::errors::TaError;
use crate::indicators::exponential_moving_average::{
    ema_init, ema_out, ema_step, EmaView, ExponentialMovingAverage,
};
use crate::num::{sub_v, Num};
use crate::traits::{Close, Next, Period, Reset};

verus! {

/// Abstract state of a [`MovingAverageConvergenceDivergence`].
pub struct MacdView {
    /// State of the fast smoother.
    pub fast_ema: EmaView,
    /// State of the slow smoother.
    pub slow_ema: EmaView,
    /// State of the signal smoother.
    pub signal_ema: EmaView,
}

/// State of a fresh indicator.
pub open spec fn macd_init(fast: nat, slow: nat, signal: nat) -> MacdView {
    MacdView { fast_ema: ema_init(fast), slow_ema: ema_init(slow), signal_ema: ema_init(signal) }
}

/// The three outputs for one input, as raw fixed-point values: the MACD
/// line `fast - slow`, its signal smoothing, and their difference.
pub open spec fn macd_out(s: MacdView, x: int) -> (int, int, int) {
    let macd = sub_v(ema_out(s.fast_ema, x), ema_out(s.slow_ema, x));
    let signal = ema_out(s.signal_ema, macd);
    (macd, signal, sub_v(macd, signal))
}

/// State after one input.
pub open spec fn macd_step(s: MacdView, x: int) -> MacdView {
    let macd = sub_v(ema_out(s.fast_ema, x), ema_out(s.slow_ema, x));
    MacdView {
        fast_ema: ema_step(s.fast_ema, x),
        slow_ema: ema_step(s.slow_ema, x),
        signal_ema: ema_step(s.signal_ema, macd),
    }
}

/// State after a whole input sequence.
pub open spec fn macd_run(s: MacdView, xs: Seq<int>) -> MacdView
    decreases xs.len(),
{
    if xs.len() == 0 {
        s
    } else {
        macd_run(macd_step(s, xs[0]), xs.skip(1))
    }
}

/// One MACD output: the MACD series proper, the signal series, and the
/// divergence between the two.
#[derive(Debug, Clone, Copy, PartialEq, Eq, Structural)]
pub struct MovingAverageConvergenceDivergenceOutput {
    /// The MACD line: fast EMA minus slow EMA.
    pub macd: Num,
    /// The signal line: an EMA of the MACD line.
    pub signal: Num,
    /// The histogram: MACD line minus signal line.
    pub histogram: Num,
}

/// Moving average convergence divergence (MACD).
///
/// Three series computed from the input stream: the difference between a
/// fast and a slow exponential moving average, an EMA of that difference
/// (the signal), and the gap between the two (the histogram).
///
/// # Parameters
///
/// * `fast_period` - Period for the fast EMA. Default is 12.
/// * `slow_period` - Period for the slow EMA. Default is 26.
/// * `signal_period` - Period for the signal EMA. Default is 9.
#[derive(Debug)]
pub struct MovingAverageConvergenceDivergence {
    fast_ema: ExponentialMovingAverage,
    slow_ema: ExponentialMovingAverage,
    signal_ema: ExponentialMovingAverage,
}

impl View for MovingAverageConvergenceDivergence {
    type V = MacdView;

    closed spec fn view(&self) -> MacdView {
        MacdView {
            fast_ema: self.fast_ema@,
            slow_ema: self.slow_ema@,
            signal_ema: self.signal_ema@,
        }
    }
}

impl MovingAverageConvergenceDivergence {
    /// Build an indicator from the three periods; a zero anywhere is
    /// refused.
    pub fn new(fast_period: usize, slow_period: usize, signal_period: usize) -> (r: Result<
        Self,
        TaError,
    >)
        ensures
            match r {
                Ok(s) => fast_period >= 1 && slow_period >= 1 && signal_period >= 1 && s@
                    == macd_init(fast_period as nat, slow_period as nat, signal_period as nat),
                Err(e) => (fast_period == 0 || slow_period == 0 || signal_period == 0) && e
                    == TaError::InvalidParameter,
            },
    {
        let fast = match ExponentialMovingAverage::new(fast_period) {
            Ok(e) => e,
            Err(e) => {
                return Err(e);
            },
        };
        let slow = match ExponentialMovingAverage::new(slow_period) {
            Ok(e) => e,
            Err(e) => {
                return Err(e);
            },
        };
        let signal = match ExponentialMovingAverage::new(signal_period) {
            Ok(e) => e,
            Err(e) => {
                return Err(e);
            },
        };
        Ok(MovingAverageConvergenceDivergence { fast_ema: fast, slow_ema: slow, signal_ema: signal })
    }
}

impl Next<Num> for MovingAverageConvergenceDivergence {
    type Output = MovingAverageConvergenceDivergenceOutput;

    fn next(&mut self, input: Num) -> (r: MovingAverageConvergenceDivergenceOutput)
        ensures
            final(self)@ == macd_step(old(self)@, input@),
            (r.macd@, r.signal@, r.histogram@) == macd_out(old(self)@, input@),
    {
        let fast_val = self.fast_ema.next(input);
        let slow_val = self.slow_ema.next(input);

        let macd = fast_val.sub(slow_val);
        let signal = self.signal_ema.next(macd);
        let histogram = macd.sub(signal);

        MovingAverageConvergenceDivergenceOutput { macd, signal, histogram }
    }
}

impl<T: Close> Next<&T> for MovingAverageConvergenceDivergence {
    type Output = MovingAverageConvergenceDivergenceOutput;

    fn next(&mut self, input: &T) -> (r: MovingAverageConvergenceDivergenceOutput)
        ensures
            final(self)@ == macd_step(old(self)@, input.close_spec()),
            (r.macd@, r.signal@, r.histogram@) == macd_out(old(self)@, input.close_spec()),
    {
        let c = input.close();
        Next::<Num>::next(self, c)
    }
}

impl Reset for MovingAverageConvergenceDivergence {
    fn reset(&mut self)
        ensures
            final(self)@ == macd_init(
                old(self)@.fast_ema.period,
                old(self)@.slow_ema.period,
                old(self)@.signal_ema.period,
            ),
    {
        self.fast_ema.reset();
        self.slow_ema.reset();
        self.signal_ema.reset();
    }
}

impl Clone for MovingAverageConvergenceDivergence {
    /// A clone is an independent, identically behaving instance.
    fn clone(&self) -> (r: Self)
        ensures
            r@ == self@,
    {
        MovingAverageConvergenceDivergence {
            fast_ema: self.fast_ema.clone(),
            slow_ema: self.slow_ema.clone(),
            signal_ema: self.signal_ema.clone(),
        }
    }
}

impl Default for MovingAverageConvergenceDivergence {
    fn default() -> (r: Self)
        ensures
            r@ == macd_init(12, 26, 9),
    {
        MovingAverageConvergenceDivergence::new(12, 26, 9).unwrap()
    }
}

impl MovingAverageConvergenceDivergence {
    /// The canonical display form, derived from the construction
    /// parameters alone.
    pub fn to_string(&self) -> (r: String)
        ensures
            r@ == crate::text::named3(
                "MACD"@,
                self@.fast_ema.period,
                self@.slow_ema.period,
                self@.signal_ema.period,
            ),
    {
        crate::text::format_name3(
            "MACD",
            self.fast_ema.period(),
            self.slow_ema.period(),
            self.signal_ema.period(),
        )
    }
}

/// A plain-value snapshot of the indicator's full state: one snapshot per
/// owned smoother.
#[derive(Debug, Clone, Copy, PartialEq, Eq, Structural)]
pub struct MacdSnapshot {
    /// Snapshot of the fast smoother.
    pub fast_ema: crate::indicators::EmaSnapshot,
    /// Snapshot of the slow smoother.
    pub slow_ema: crate::indicators::EmaSnapshot,
    /// Snapshot of the signal smoother.
    pub signal_ema: crate::indicators::EmaSnapshot,
}

/// The abstract state a snapshot holds.
pub open spec fn macd_snapshot_view(s: &MacdSnapshot) -> MacdView {
    MacdView {
        fast_ema: crate::indicators::ema_snapshot_view(&s.fast_ema),
        slow_ema: crate::indicators::ema_snapshot_view(&s.slow_ema),
        signal_ema: crate::indicators::ema_snapshot_view(&s.signal_ema),
    }
}

/// A snapshot whose fields the indicator can actually hold.
pub open spec fn macd_snapshot_valid(s: &MacdSnapshot) -> bool {
    &&& crate::indicators::ema_snapshot_valid(&s.fast_ema)
    &&& crate::indicators::ema_snapshot_valid(&s.slow_ema)
    &&& crate::indicators::ema_snapshot_valid(&s.signal_ema)
}

impl MovingAverageConvergenceDivergence {
    /// Capture the full state.
    pub fn snapshot(&self) -> (s: MacdSnapshot)
        ensures
            macd_snapshot_view(&s) == self@,
            macd_snapshot_valid(&s),
    {
        MacdSnapshot {
            fast_ema: self.fast_ema.snapshot(),
            slow_ema: self.slow_ema.snapshot(),
            signal_ema: self.signal_ema.snapshot(),
        }
    }

    /// Rebuild an indicator from a snapshot; a zero period anywhere is
    /// refused.  Restoring what [`Self::snapshot`] captured gives back
    /// exactly the captured state.
    pub fn restore(s: &MacdSnapshot) -> (r: Result<Self, TaError>)
        ensures
            match r {
                Ok(m) => macd_snapshot_valid(s) && m@ == macd_snapshot_view(s),
                Err(e) => !macd_snapshot_valid(s) && e == TaError::InvalidParameter,
            },
    {
        let fast = match ExponentialMovingAverage::restore(&s.fast_ema) {
            Ok(e) => e,
            Err(e) => {
                return Err(e);
            },
        };
        let slow = match ExponentialMovingAverage::restore(&s.slow_ema) {
            Ok(e) => e,
            Err(e) => {
                return Err(e);
            },
        };
        let signal = match ExponentialMovingAverage::restore(&s.signal_ema) {
            Ok(e) => e,
            Err(e) => {
                return Err(e);
            },
        };
        Ok(MovingAverageConvergenceDivergence { fast_ema: fast, slow_ema: slow, signal_ema: signal })
    }
}

} // verus!
