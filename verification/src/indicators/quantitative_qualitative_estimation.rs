//! Quantitative qualitative estimation.

use vstd::prelude::*;

use crate::errors::TaError;
use crate::indicators::exponential_moving_average::{
    ema_init, ema_out, ema_step, EmaView, ExponentialMovingAverage,
};
use crate::indicators::relative_strength_index::{
    rsi_init, rsi_out, rsi_step, RelativeStrengthIndex, RsiView,
};
use crate::num::{abs_v, add_v, clip, mul_v, sub_v, Num, SCALE};
use crate::traits::{Close, Next, Period, Reset};

verus! {

/// Abstract state of a [`QuantitativeQualitativeEstimation`].
pub struct QqeView {
    /// The configured period.
    pub period: nat,
    /// The configured Wilder multiplier, as a raw fixed-point value.
    pub wilders_multiplier: int,
    /// The previous smoothed RSI, as a raw fixed-point value.
    pub last_smoothed_rsi: int,
    /// The previous lower band, as a raw fixed-point value.
    pub last_lowerband: int,
    /// The previous upper band, as a raw fixed-point value.
    pub last_upperband: int,
    /// The current trend: true while long.
    pub trend: bool,
    /// State of the owned relative strength index.
    pub rsi: RsiView,
    /// State of the RSI smoother.
    pub rsi_smoother: EmaView,
    /// State of the RSI true-range smoother.
    pub rsi_tr_smoother: EmaView,
    /// State of the Wilder smoother applied on top.
    pub wilders_smoother: EmaView,
}

/// State of a fresh indicator.
pub open spec fn qqe_init(period: nat, smooth_period: nat, wilders_multiplier: int) -> QqeView {
    QqeView {
        period,
        wilders_multiplier,
        last_smoothed_rsi: clip(50 * SCALE as int),
        last_lowerband: 0,
        last_upperband: 0,
        trend: true,
        rsi: rsi_init(period),
        rsi_smoother: ema_init(smooth_period),
        rsi_tr_smoother: ema_init((2 * period - 1) as nat),
        wilders_smoother: ema_init((2 * period - 1) as nat),
    }
}

/// One full step of the indicator, producing the next state together with
/// the smoothed RSI and the two bands.
pub open spec fn qqe_transition(s: QqeView, x: int) -> (QqeView, int, int, int) {
    let rsi_val = rsi_out(s.rsi, x);
    let smoothed_rsi = ema_out(s.rsi_smoother, rsi_val);
    let rsi_tr = abs_v(sub_v(s.last_smoothed_rsi, smoothed_rsi));
    let rsi_tr_smooth = ema_out(s.rsi_tr_smoother, rsi_tr);
    let band_gap = mul_v(ema_out(s.wilders_smoother, rsi_tr_smooth), s.wilders_multiplier);
    let new_upper = add_v(smoothed_rsi, band_gap);
    let upperband = if s.last_smoothed_rsi > s.last_upperband && smoothed_rsi > s.last_upperband
        && new_upper < s.last_upperband {
        s.last_upperband
    } else {
        new_upper
    };
    let new_lower = sub_v(smoothed_rsi, band_gap);
    let lowerband = if s.last_smoothed_rsi < s.last_lowerband && smoothed_rsi < s.last_lowerband
        && new_lower > s.last_lowerband {
        s.last_lowerband
    } else {
        new_lower
    };
    let trend = if (smoothed_rsi > lowerband && s.last_smoothed_rsi < s.last_lowerband) || (
    smoothed_rsi <= lowerband && s.last_smoothed_rsi >= s.last_lowerband) {
        true
    } else if (smoothed_rsi > upperband && s.last_smoothed_rsi < s.last_upperband) || (
    smoothed_rsi <= upperband && s.last_smoothed_rsi >= s.last_upperband) {
        false
    } else {
        s.trend
    };
    let s2 = QqeView {
        last_smoothed_rsi: smoothed_rsi,
        last_lowerband: lowerband,
        last_upperband: upperband,
        trend,
        rsi: rsi_step(s.rsi, x),
        rsi_smoother: ema_step(s.rsi_smoother, rsi_val),
        rsi_tr_smoother: ema_step(s.rsi_tr_smoother, rsi_tr),
        wilders_smoother: ema_step(s.wilders_smoother, rsi_tr_smooth),
        period: s.period,
        wilders_multiplier: s.wilders_multiplier,
    };
    (s2, smoothed_rsi, upperband, lowerband)
}

/// State after one input.
pub open spec fn qqe_step(s: QqeView, x: int) -> QqeView {
    qqe_transition(s, x).0
}

/// The combined band for one input: the upper band while the trend is
/// long, the lower band while it is short.
pub open spec fn qqe_combined(s: QqeView, x: int) -> int {
    let t = qqe_transition(s, x);
    if t.0.trend {
        t.2
    } else {
        t.3
    }
}

/// One QQE output.
#[derive(Debug, Clone, Copy, PartialEq, Eq, Structural)]
pub struct QuantitativeQualitativeEstimationOutput {
    /// The smoothed RSI.
    pub rsi_ma: Num,
    /// The trailing band that the current trend follows.
    pub qqe_combined: Num,
    /// The upper band.
    pub qqe_upperband: Num,
    /// The lower band.
    pub qqe_lowerband: Num,
}

/// Quantitative Qualitative Estimation (QQE): a smoothed RSI with two
/// trailing bands whose width is a doubly smoothed true range of the
/// smoothed RSI, scaled by a Wilder multiplier; a trend flag selects which
/// band trails the price.
///
/// # Parameters
///
/// * _period_ - RSI period (integer greater than 0)
/// * _smooth_period_ - RSI smoothing period (integer greater than 0)
/// * _wilders_multiplier_ - band width factor (at least 1)
#[derive(Debug)]
pub struct QuantitativeQualitativeEstimation {
    period: usize,
    wilders_multiplier: Num,
    last_smoothed_rsi: Num,
    last_lowerband: Num,
    last_upperband: Num,
    trend: bool,
    rsi: RelativeStrengthIndex,
    rsi_smoother: ExponentialMovingAverage,
    rsi_tr_smoother: ExponentialMovingAverage,
    wilders_smoother: ExponentialMovingAverage,
}

impl View for QuantitativeQualitativeEstimation {
    type V = QqeView;

    closed spec fn view(&self) -> QqeView {
        QqeView {
            period: self.period as nat,
            wilders_multiplier: self.wilders_multiplier@,
            last_smoothed_rsi: self.last_smoothed_rsi@,
            last_lowerband: self.last_lowerband@,
            last_upperband: self.last_upperband@,
            trend: self.trend,
            rsi: self.rsi@,
            rsi_smoother: self.rsi_smoother@,
            rsi_tr_smoother: self.rsi_tr_smoother@,
            wilders_smoother: self.wilders_smoother@,
        }
    }
}

impl QuantitativeQualitativeEstimation {
    /// Build an indicator; a zero period, a zero smoothing period, or a
    /// Wilder multiplier below one is refused.
    pub fn new(period: usize, smooth_period: usize, wilders_multiplier: Num) -> (r: Result<
        Self,
        TaError,
    >)
        ensures
            match r {
                Ok(s) => period >= 1 && smooth_period >= 1 && wilders_multiplier@ >= SCALE as int
                    && period <= usize::MAX / 2 && s@ == qqe_init(
                    period as nat,
                    smooth_period as nat,
                    wilders_multiplier@,
                ),
                Err(e) => (period == 0 || smooth_period == 0 || wilders_multiplier@ < SCALE as int
                    || period > usize::MAX / 2) && e == TaError::InvalidParameter,
            },
    {
        let one = Num::one();
        if wilders_multiplier < one || period == 0 || period > usize::MAX / 2 {
            // The doubled Wilder period must fit in a machine word.
            Err(TaError::InvalidParameter)
        } else {
            let wilders_period: usize = 2 * period - 1;
            let rsi = match RelativeStrengthIndex::new(period) {
                Ok(i) => i,
                Err(e) => {
                    return Err(e);
                },
            };
            let rsi_smoother = match ExponentialMovingAverage::new(smooth_period) {
                Ok(i) => i,
                Err(e) => {
                    return Err(e);
                },
            };
            let rsi_tr_smoother = match ExponentialMovingAverage::new(wilders_period) {
                Ok(i) => i,
                Err(e) => {
                    return Err(e);
                },
            };
            let wilders_smoother = match ExponentialMovingAverage::new(wilders_period) {
                Ok(i) => i,
                Err(e) => {
                    return Err(e);
                },
            };
            Ok(
                QuantitativeQualitativeEstimation {
                    period,
                    wilders_multiplier,
                    last_smoothed_rsi: Num::from_int(50),
                    last_lowerband: Num::zero(),
                    last_upperband: Num::zero(),
                    trend: true,
                    rsi,
                    rsi_smoother,
                    rsi_tr_smoother,
                    wilders_smoother,
                },
            )
        }
    }
}

impl Period for QuantitativeQualitativeEstimation {
    fn period(&self) -> (r: usize)
        ensures
            r as nat == self@.period,
    {
        self.period
    }
}

impl Next<Num> for QuantitativeQualitativeEstimation {
    type Output = QuantitativeQualitativeEstimationOutput;

    fn next(&mut self, input: Num) -> (r: QuantitativeQualitativeEstimationOutput)
        ensures
            final(self)@ == qqe_step(old(self)@, input@),
            r.rsi_ma@ == qqe_transition(old(self)@, input@).1,
            r.qqe_upperband@ == qqe_transition(old(self)@, input@).2,
            r.qqe_lowerband@ == qqe_transition(old(self)@, input@).3,
            r.qqe_combined@ == qqe_combined(old(self)@, input@),
    {
        // The central indicator.
        let rsi_val = self.rsi.next(input);
        let smoothed_rsi = self.rsi_smoother.next(rsi_val);

        // Calculations for the gap width.
        let rsi_tr = self.last_smoothed_rsi.sub(smoothed_rsi).abs();
        let rsi_tr_smooth = self.rsi_tr_smoother.next(rsi_tr);
        let band_gap = self.wilders_smoother.next(rsi_tr_smooth).mul(self.wilders_multiplier);

        // Band calculations.
        let new_upper = smoothed_rsi.add(band_gap);
        let upperband = if self.last_smoothed_rsi > self.last_upperband && smoothed_rsi
            > self.last_upperband && new_upper < self.last_upperband {
            self.last_upperband
        } else {
            new_upper
        };

        let new_lower = smoothed_rsi.sub(band_gap);
        let lowerband = if self.last_smoothed_rsi < self.last_lowerband && smoothed_rsi
            < self.last_lowerband && new_lower > self.last_lowerband {
            self.last_lowerband
        } else {
            new_lower
        };

        // Calculate crossovers to determine the trend direction.
        if (smoothed_rsi > lowerband && self.last_smoothed_rsi < self.last_lowerband) || (
        smoothed_rsi <= lowerband && self.last_smoothed_rsi >= self.last_lowerband) {
            self.trend = true;  // long
        } else if (smoothed_rsi > upperband && self.last_smoothed_rsi < self.last_upperband) || (
        smoothed_rsi <= upperband && self.last_smoothed_rsi >= self.last_upperband) {
            self.trend = false;  // short
        }

        let combined = if self.trend {
            upperband
        } else {
            lowerband
        };

        self.last_smoothed_rsi = smoothed_rsi;
        self.last_upperband = upperband;
        self.last_lowerband = lowerband;

        QuantitativeQualitativeEstimationOutput {
            rsi_ma: smoothed_rsi,
            qqe_combined: combined,
            qqe_upperband: upperband,
            qqe_lowerband: lowerband,
        }
    }
}

impl<T: Close> Next<&T> for QuantitativeQualitativeEstimation {
    type Output = QuantitativeQualitativeEstimationOutput;

    fn next(&mut self, input: &T) -> (r: QuantitativeQualitativeEstimationOutput)
        ensures
            final(self)@ == qqe_step(old(self)@, input.close_spec()),
            r.rsi_ma@ == qqe_transition(old(self)@, input.close_spec()).1,
            r.qqe_upperband@ == qqe_transition(old(self)@, input.close_spec()).2,
            r.qqe_lowerband@ == qqe_transition(old(self)@, input.close_spec()).3,
            r.qqe_combined@ == qqe_combined(old(self)@, input.close_spec()),
    {
        let c = input.close();
        Next::<Num>::next(self, c)
    }
}

impl Reset for QuantitativeQualitativeEstimation {
    fn reset(&mut self)
        ensures
            final(self)@ == (QqeView {
                period: old(self)@.period,
                wilders_multiplier: old(self)@.wilders_multiplier,
                last_smoothed_rsi: clip(50 * SCALE as int),
                last_lowerband: 0,
                last_upperband: 0,
                trend: true,
                rsi: (RsiView {
                    period: old(self)@.rsi.period,
                    up_ema: ema_init(old(self)@.rsi.up_ema.period),
                    down_ema: ema_init(old(self)@.rsi.down_ema.period),
                    prev_val: 0,
                    is_new: true,
                }),
                rsi_smoother: ema_init(old(self)@.rsi_smoother.period),
                rsi_tr_smoother: ema_init(old(self)@.rsi_tr_smoother.period),
                wilders_smoother: ema_init(old(self)@.wilders_smoother.period),
            }),
    {
        self.last_smoothed_rsi = Num::from_int(50);
        self.last_upperband = Num::zero();
        self.last_lowerband = Num::zero();
        self.trend = true;
        self.rsi.reset();
        self.rsi_smoother.reset();
        self.rsi_tr_smoother.reset();
        self.wilders_smoother.reset();
    }
}

impl Clone for QuantitativeQualitativeEstimation {
    /// A clone is an independent, identically behaving instance.
    fn clone(&self) -> (r: Self)
        ensures
            r@ == self@,
    {
        QuantitativeQualitativeEstimation {
            period: self.period,
            wilders_multiplier: self.wilders_multiplier,
            last_smoothed_rsi: self.last_smoothed_rsi,
            last_lowerband: self.last_lowerband,
            last_upperband: self.last_upperband,
            trend: self.trend,
            rsi: self.rsi.clone(),
            rsi_smoother: self.rsi_smoother.clone(),
            rsi_tr_smoother: self.rsi_tr_smoother.clone(),
            wilders_smoother: self.wilders_smoother.clone(),
        }
    }
}

impl Default for QuantitativeQualitativeEstimation {
    fn default() -> (r: Self)
        ensures
            r@ == qqe_init(14, 5, 4_236_000_000_000),
    {
        QuantitativeQualitativeEstimation::new(14, 5, Num::from_raw(4_236_000_000_000)).unwrap()
    }
}

impl QuantitativeQualitativeEstimation {
    /// The canonical display form, derived from the construction
    /// parameters alone.
    pub fn to_string(&self) -> (r: String)
        ensures
            r@ == crate::text::named2_num(
                "QQE"@,
                self@.period,
                self@.rsi_smoother.period,
                self@.wilders_multiplier,
            ),
    {
        crate::text::format_name2_num(
            "QQE",
            self.period,
            self.rsi_smoother.period(),
            self.wilders_multiplier,
        )
    }
}

/// A plain-value snapshot of the indicator's full state.
#[derive(Debug, Clone, PartialEq)]
pub struct QqeSnapshot {
    /// The configured period.
    pub period: usize,
    /// The configured Wilder multiplier.
    pub wilders_multiplier: Num,
    /// The previous smoothed RSI.
    pub last_smoothed_rsi: Num,
    /// The previous lower band.
    pub last_lowerband: Num,
    /// The previous upper band.
    pub last_upperband: Num,
    /// The current trend: true while long.
    pub trend: bool,
    /// Snapshot of the owned relative strength index.
    pub rsi: crate::indicators::RsiSnapshot,
    /// Snapshot of the RSI smoother.
    pub rsi_smoother: crate::indicators::EmaSnapshot,
    /// Snapshot of the RSI true-range smoother.
    pub rsi_tr_smoother: crate::indicators::EmaSnapshot,
    /// Snapshot of the Wilder smoother.
    pub wilders_smoother: crate::indicators::EmaSnapshot,
}

/// The abstract state a snapshot holds.
pub open spec fn qqe_snapshot_view(s: &QqeSnapshot) -> QqeView {
    QqeView {
        period: s.period as nat,
        wilders_multiplier: s.wilders_multiplier@,
        last_smoothed_rsi: s.last_smoothed_rsi@,
        last_lowerband: s.last_lowerband@,
        last_upperband: s.last_upperband@,
        trend: s.trend,
        rsi: crate::indicators::rsi_snapshot_view(&s.rsi),
        rsi_smoother: crate::indicators::ema_snapshot_view(&s.rsi_smoother),
        rsi_tr_smoother: crate::indicators::ema_snapshot_view(&s.rsi_tr_smoother),
        wilders_smoother: crate::indicators::ema_snapshot_view(&s.wilders_smoother),
    }
}

/// A snapshot whose fields the indicator can actually hold, with the
/// Wilder multiplier at least one as the factory demands.
pub open spec fn qqe_snapshot_valid(s: &QqeSnapshot) -> bool {
    &&& crate::indicators::rsi_snapshot_valid(&s.rsi)
    &&& crate::indicators::ema_snapshot_valid(&s.rsi_smoother)
    &&& crate::indicators::ema_snapshot_valid(&s.rsi_tr_smoother)
    &&& crate::indicators::ema_snapshot_valid(&s.wilders_smoother)
    &&& s.wilders_multiplier@ >= SCALE as int
}

impl QuantitativeQualitativeEstimation {
    /// Capture the full state.
    pub fn snapshot(&self) -> (s: QqeSnapshot)
        ensures
            qqe_snapshot_view(&s) == self@,
            crate::indicators::rsi_snapshot_valid(&s.rsi),
            crate::indicators::ema_snapshot_valid(&s.rsi_smoother),
            crate::indicators::ema_snapshot_valid(&s.rsi_tr_smoother),
            crate::indicators::ema_snapshot_valid(&s.wilders_smoother),
    {
        QqeSnapshot {
            period: self.period,
            wilders_multiplier: self.wilders_multiplier,
            last_smoothed_rsi: self.last_smoothed_rsi,
            last_lowerband: self.last_lowerband,
            last_upperband: self.last_upperband,
            trend: self.trend,
            rsi: self.rsi.snapshot(),
            rsi_smoother: self.rsi_smoother.snapshot(),
            rsi_tr_smoother: self.rsi_tr_smoother.snapshot(),
            wilders_smoother: self.wilders_smoother.snapshot(),
        }
    }

    /// Rebuild an indicator from a snapshot; inconsistent children and a
    /// Wilder multiplier below one are refused.  Restoring what
    /// [`Self::snapshot`] captured gives back exactly the captured state.
    pub fn restore(s: &QqeSnapshot) -> (r: Result<Self, TaError>)
        ensures
            match r {
                Ok(t) => qqe_snapshot_valid(s) && t@ == qqe_snapshot_view(s),
                Err(e) => !qqe_snapshot_valid(s) && e == TaError::InvalidParameter,
            },
    {
        if s.wilders_multiplier < Num::one() {
            return Err(TaError::InvalidParameter);
        }
        let rsi = match RelativeStrengthIndex::restore(&s.rsi) {
            Ok(t) => t,
            Err(e) => {
                return Err(e);
            },
        };
        let rsi_smoother = match ExponentialMovingAverage::restore(&s.rsi_smoother) {
            Ok(t) => t,
            Err(e) => {
                return Err(e);
            },
        };
        let rsi_tr_smoother = match ExponentialMovingAverage::restore(&s.rsi_tr_smoother) {
            Ok(t) => t,
            Err(e) => {
                return Err(e);
            },
        };
        let wilders_smoother = match ExponentialMovingAverage::restore(&s.wilders_smoother) {
            Ok(t) => t,
            Err(e) => {
                return Err(e);
            },
        };
        Ok(
            QuantitativeQualitativeEstimation {
                period: s.period,
                wilders_multiplier: s.wilders_multiplier,
                last_smoothed_rsi: s.last_smoothed_rsi,
                last_lowerband: s.last_lowerband,
                last_upperband: s.last_upperband,
                trend: s.trend,
                rsi,
                rsi_smoother,
                rsi_tr_smoother,
                wilders_smoother,
            },
        )
    }
}

} // verus!
