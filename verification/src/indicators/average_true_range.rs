//! Average true range.

use vstd::prelude::*;

use crate::errors::TaError;
use crate::indicators::exponential_moving_average::{
    ema_init, ema_out, ema_step, EmaView, ExponentialMovingAverage,
};
use crate::indicators::true_range::{
    tr_init, tr_out, tr_out_bar, tr_step, tr_step_bar, TrView, TrueRange,
};
use crate::num::Num;
use crate::traits::{Close, High, Low, Next, Period, Reset};

verus! {

/// Abstract state of an [`AverageTrueRange`].
pub struct AtrView {
    /// State of the owned true range.
    pub true_range: TrView,
    /// State of the owned smoother.
    pub ema: EmaView,
}

/// State of a fresh indicator.
pub open spec fn atr_init(period: nat) -> AtrView {
    AtrView { true_range: tr_init(), ema: ema_init(period) }
}

/// Output for one bare value: the smoothed true range.
pub open spec fn atr_out(s: AtrView, x: int) -> int {
    ema_out(s.ema, tr_out(s.true_range, x))
}

/// State after one bare value.
pub open spec fn atr_step(s: AtrView, x: int) -> AtrView {
    AtrView {
        true_range: tr_step(s.true_range, x),
        ema: ema_step(s.ema, tr_out(s.true_range, x)),
    }
}

/// Output for one bar.
pub open spec fn atr_out_bar(s: AtrView, high: int, low: int) -> int {
    ema_out(s.ema, tr_out_bar(s.true_range, high, low))
}

/// State after one bar.
pub open spec fn atr_step_bar(s: AtrView, high: int, low: int, close: int) -> AtrView {
    AtrView {
        true_range: tr_step_bar(s.true_range, close),
        ema: ema_step(s.ema, tr_out_bar(s.true_range, high, low)),
    }
}

/// Average true range (ATR): an exponential moving average of the
/// [true range](crate::indicators::TrueRange).
///
/// # Formula
///
/// ATR(period)<sub>t</sub> = EMA(period) of TR<sub>t</sub>
///
/// # Parameters
///
/// * _period_ - smoothing period of EMA (integer greater than 0)
#[derive(Debug)]
pub struct AverageTrueRange {
    true_range: TrueRange,
    ema: ExponentialMovingAverage,
}

impl View for AverageTrueRange {
    type V = AtrView;

    closed spec fn view(&self) -> AtrView {
        AtrView { true_range: self.true_range@, ema: self.ema@ }
    }
}

impl AverageTrueRange {
    /// Build an indicator over the given period; a zero period is refused.
    pub fn new(period: usize) -> (r: Result<Self, TaError>)
        ensures
            match r {
                Ok(a) => period >= 1 && a@ == atr_init(period as nat),
                Err(e) => period == 0 && e == TaError::InvalidParameter,
            },
    {
        match ExponentialMovingAverage::new(period) {
            Ok(ema) => Ok(AverageTrueRange { true_range: TrueRange::new(), ema }),
            Err(e) => Err(e),
        }
    }
}

impl Period for AverageTrueRange {
    fn period(&self) -> (r: usize)
        ensures
            r as nat == self@.ema.period,
            r >= 1,
    {
        self.ema.period()
    }
}

impl Next<Num> for AverageTrueRange {
    type Output = Num;

    fn next(&mut self, input: Num) -> (r: Num)
        ensures
            final(self)@ == atr_step(old(self)@, input@),
            r@ == atr_out(old(self)@, input@),
    {
        let tr = self.true_range.next(input);
        self.ema.next(tr)
    }
}

impl<T: High + Low + Close> Next<&T> for AverageTrueRange {
    type Output = Num;

    fn next(&mut self, input: &T) -> (r: Num)
        ensures
            final(self)@ == atr_step_bar(
                old(self)@,
                input.high_spec(),
                input.low_spec(),
                input.close_spec(),
            ),
            r@ == atr_out_bar(old(self)@, input.high_spec(), input.low_spec()),
    {
        let tr = self.true_range.next(input);
        self.ema.next(tr)
    }
}

impl Reset for AverageTrueRange {
    fn reset(&mut self)
        ensures
            final(self)@ == atr_init(old(self)@.ema.period),
    {
        self.true_range.reset();
        self.ema.reset();
    }
}

impl Clone for AverageTrueRange {
    /// A clone is an independent, identically behaving instance.
    fn clone(&self) -> (r: Self)
        ensures
            r@ == self@,
    {
        AverageTrueRange { true_range: self.true_range.clone(), ema: self.ema.clone() }
    }
}

impl Default for AverageTrueRange {
    fn default() -> (r: Self)
        ensures
            r@ == atr_init(14),
    {
        AverageTrueRange::new(14).unwrap()
    }
}

impl AverageTrueRange {
    /// The canonical display form, derived from the construction
    /// parameters alone.
    pub fn to_string(&self) -> (r: String)
        ensures
            r@ == crate::text::named1("ATR"@, self@.ema.period),
    {
        crate::text::format_name1("ATR", self.ema.period())
    }
}

/// A plain-value snapshot of the indicator's full state.
#[derive(Debug, Clone, PartialEq)]
pub struct AtrSnapshot {
    /// Snapshot of the owned true range.
    pub true_range: crate::indicators::TrSnapshot,
    /// Snapshot of the owned smoother.
    pub ema: crate::indicators::EmaSnapshot,
}

/// The abstract state a snapshot holds.
pub open spec fn atr_snapshot_view(s: &AtrSnapshot) -> AtrView {
    AtrView {
        true_range: crate::indicators::tr_snapshot_view(&s.true_range),
        ema: crate::indicators::ema_snapshot_view(&s.ema),
    }
}

/// A snapshot whose fields the indicator can actually hold.
pub open spec fn atr_snapshot_valid(s: &AtrSnapshot) -> bool {
    crate::indicators::ema_snapshot_valid(&s.ema)
}

impl AverageTrueRange {
    /// Capture the full state.
    pub fn snapshot(&self) -> (s: AtrSnapshot)
        ensures
            atr_snapshot_view(&s) == self@,
            atr_snapshot_valid(&s),
    {
        AtrSnapshot { true_range: self.true_range.snapshot(), ema: self.ema.snapshot() }
    }

    /// Rebuild an indicator from a snapshot; a zero period is refused.
    /// Restoring what [`Self::snapshot`] captured gives back exactly the
    /// captured state.
    pub fn restore(s: &AtrSnapshot) -> (r: Result<Self, TaError>)
        ensures
            match r {
                Ok(t) => atr_snapshot_valid(s) && t@ == atr_snapshot_view(s),
                Err(e) => !atr_snapshot_valid(s) && e == TaError::InvalidParameter,
            },
    {
        let ema = match ExponentialMovingAverage::restore(&s.ema) {
            Ok(e) => e,
            Err(e) => {
                return Err(e);
            },
        };
        Ok(AverageTrueRange { true_range: TrueRange::restore(&s.true_range), ema })
    }
}

} // verus!
