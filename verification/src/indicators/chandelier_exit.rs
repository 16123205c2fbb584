//! Chandelier exit.

use vstd::prelude::*;

use crate::errors::TaError;
use crate::indicators::average_true_range::{
    atr_init, atr_out_bar, atr_step_bar, AtrView, AverageTrueRange,
};
use crate::indicators::maximum::{max_cache_ok, max_init, max_out, max_step, MaxView, Maximum};
use crate::indicators::minimum::{min_cache_ok, min_init, min_out, min_step, MinView, Minimum};
use crate::num::{add_v, mul_v, sub_v, Num};
use crate::traits::{Close, High, Low, Next, Period, Reset};

verus! {

/// Abstract state of a [`ChandelierExit`].
pub struct CeView {
    /// State of the owned average true range.
    pub atr: AtrView,
    /// State of the owned minimum tracker.
    pub min: MinView,
    /// State of the owned maximum tracker.
    pub max: MaxView,
    /// The configured multiplier, as a raw fixed-point value.
    pub multiplier: int,
}

/// A well-formed state: all children configured over one period.
pub open spec fn ce_wf(s: CeView) -> bool {
    &&& s.min.period == s.atr.ema.period
    &&& s.max.period == s.atr.ema.period
}

/// State of a fresh indicator.
pub open spec fn ce_init(period: nat, multiplier: int) -> CeView {
    CeView {
        atr: atr_init(period),
        min: min_init(period),
        max: max_init(period),
        multiplier,
    }
}

/// The two outputs for one bar, as raw fixed-point values: the long stop
/// `max - multiplier * atr` and the short stop `min + multiplier * atr`.
pub open spec fn ce_out(s: CeView, high: int, low: int, close: int) -> (int, int) {
    let atr = mul_v(atr_out_bar(s.atr, high, low), s.multiplier);
    let mn = min_out(s.min, low);
    let mx = max_out(s.max, high);
    (sub_v(mx, atr), add_v(mn, atr))
}

/// State after one bar.
pub open spec fn ce_step(s: CeView, high: int, low: int, close: int) -> CeView {
    CeView {
        atr: atr_step_bar(s.atr, high, low, close),
        min: min_step(s.min, low),
        max: max_step(s.max, high),
        multiplier: s.multiplier,
    }
}

/// One Chandelier Exit output.
#[derive(Debug, Clone, Copy, PartialEq, Eq, Structural)]
pub struct ChandelierExitOutput {
    /// The long stop: window maximum minus `multiplier` average true ranges.
    pub long: Num,
    /// The short stop: window minimum plus `multiplier` average true ranges.
    pub short: Num,
}

/// Chandelier Exit (CE): a trailing stop-loss based on the average true
/// range, hung from the window maximum for long positions and from the
/// window minimum for short ones.
///
/// # Parameters
///
/// * _period_ - number of periods (integer greater than 0). Default is 22.
/// * _multiplier_ - ATR factor (greater than 0). Default is 3.
#[derive(Debug)]
pub struct ChandelierExit {
    atr: AverageTrueRange,
    min: Minimum,
    max: Maximum,
    multiplier: Num,
}

impl View for ChandelierExit {
    type V = CeView;

    closed spec fn view(&self) -> CeView {
        CeView { atr: self.atr@, min: self.min@, max: self.max@, multiplier: self.multiplier@ }
    }
}

impl ChandelierExit {
    /// Build an indicator over the given period and multiplier; a zero
    /// period and a non-positive multiplier are refused.
    pub fn new(period: usize, multiplier: Num) -> (r: Result<Self, TaError>)
        ensures
            match r {
                Ok(s) => period >= 1 && multiplier@ > 0 && s@ == ce_init(
                    period as nat,
                    multiplier@,
                ) && ce_wf(s@),
                Err(e) => (period == 0 || multiplier@ <= 0) && e == TaError::InvalidParameter,
            },
    {
        if multiplier <= Num::zero() {
            return Err(TaError::InvalidParameter);
        }
        let atr = match AverageTrueRange::new(period) {
            Ok(a) => a,
            Err(e) => {
                return Err(e);
            },
        };
        let min = match Minimum::new(period) {
            Ok(m) => m,
            Err(e) => {
                return Err(e);
            },
        };
        let max = match Maximum::new(period) {
            Ok(m) => m,
            Err(e) => {
                return Err(e);
            },
        };
        Ok(ChandelierExit { atr, min, max, multiplier })
    }

    /// The configured multiplier.
    pub fn multiplier(&self) -> (r: Num)
        ensures
            r@ == self@.multiplier,
    {
        self.multiplier
    }
}

impl Period for ChandelierExit {
    fn period(&self) -> (r: usize)
        ensures
            r as nat == self@.atr.ema.period,
    {
        self.atr.period()
    }
}

impl<T: Low + High + Close> Next<&T> for ChandelierExit {
    type Output = ChandelierExitOutput;

    fn next(&mut self, input: &T) -> (r: ChandelierExitOutput)
        ensures
            final(self)@ == ce_step(
                old(self)@,
                input.high_spec(),
                input.low_spec(),
                input.close_spec(),
            ),
            (r.long@, r.short@) == ce_out(
                old(self)@,
                input.high_spec(),
                input.low_spec(),
                input.close_spec(),
            ),
    {
        let atr = self.atr.next(input).mul(self.multiplier);
        let min = self.min.next(input.low());
        let max = self.max.next(input.high());

        ChandelierExitOutput { long: max.sub(atr), short: min.add(atr) }
    }
}

impl Reset for ChandelierExit {
    fn reset(&mut self)
        ensures
            final(self)@.atr == atr_init(old(self)@.atr.ema.period),
            final(self)@.multiplier == old(self)@.multiplier,
            final(self)@.min == min_init(old(self)@.min.period),
            final(self)@.max == max_init(old(self)@.max.period),
            ce_wf(old(self)@) ==> final(self)@ == ce_init(
                old(self)@.atr.ema.period,
                old(self)@.multiplier,
            ),
    {
        self.atr.reset();
        self.min.reset();
        self.max.reset();
    }
}

impl Clone for ChandelierExit {
    /// A clone is an independent, identically behaving instance.
    fn clone(&self) -> (r: Self)
        ensures
            r@ == self@,
    {
        ChandelierExit {
            atr: self.atr.clone(),
            min: self.min.clone(),
            max: self.max.clone(),
            multiplier: self.multiplier,
        }
    }
}

impl Default for ChandelierExit {
    fn default() -> (r: Self)
        ensures
            r@ == ce_init(22, 3 * crate::num::SCALE as int),
    {
        ChandelierExit::new(22, Num::from_int(3)).unwrap()
    }
}

impl ChandelierExit {
    /// The canonical display form, derived from the construction
    /// parameters alone.
    pub fn to_string(&self) -> (r: String)
        ensures
            r@ == crate::text::named_num("CE"@, self@.atr.ema.period, self@.multiplier),
    {
        crate::text::format_name_num("CE", self.atr.period(), self.multiplier)
    }
}

/// A plain-value snapshot of the indicator's full state.
#[derive(Debug, Clone, PartialEq)]
pub struct CeSnapshot {
    /// Snapshot of the owned average true range.
    pub atr: crate::indicators::AtrSnapshot,
    /// Snapshot of the owned minimum tracker.
    pub min: crate::indicators::MinimumSnapshot,
    /// Snapshot of the owned maximum tracker.
    pub max: crate::indicators::MaximumSnapshot,
    /// The configured multiplier.
    pub multiplier: Num,
}

/// The abstract state a restored indicator holds: the extremum caches are
/// recomputed by a rescan.
pub open spec fn ce_snapshot_view(s: &CeSnapshot) -> CeView {
    CeView {
        atr: crate::indicators::atr_snapshot_view(&s.atr),
        min: crate::indicators::min_snapshot_view(&s.min),
        max: crate::indicators::max_snapshot_view(&s.max),
        multiplier: s.multiplier@,
    }
}

/// A snapshot whose fields the indicator can actually hold, with the
/// multiplier positive as the factory demands.
pub open spec fn ce_snapshot_valid(s: &CeSnapshot) -> bool {
    &&& crate::indicators::atr_snapshot_valid(&s.atr)
    &&& crate::indicators::min_snapshot_valid(&s.min)
    &&& crate::indicators::max_snapshot_valid(&s.max)
    &&& s.multiplier@ > 0
}

impl ChandelierExit {
    /// Capture the full state.
    pub fn snapshot(&self) -> (s: CeSnapshot)
        ensures
            crate::indicators::atr_snapshot_view(&s.atr) == self@.atr,
            crate::indicators::min_snapshot_of(&s.min, self@.min),
            crate::indicators::max_snapshot_of(&s.max, self@.max),
            s.multiplier@ == self@.multiplier,
            crate::indicators::atr_snapshot_valid(&s.atr),
            crate::indicators::min_snapshot_valid(&s.min),
            crate::indicators::max_snapshot_valid(&s.max),
    {
        CeSnapshot {
            atr: self.atr.snapshot(),
            min: self.min.snapshot(),
            max: self.max.snapshot(),
            multiplier: self.multiplier,
        }
    }

    /// Rebuild an indicator from a snapshot; inconsistent children and a
    /// non-positive multiplier are refused.  The extremum caches are
    /// recomputed rather than trusted, so the rebuilt trackers always
    /// point at true extrema and the restored indicator reports the same
    /// stops as the uninterrupted one on any continuation.
    pub fn restore(s: &CeSnapshot) -> (r: Result<Self, TaError>)
        ensures
            match r {
                Ok(t) => ce_snapshot_valid(s) && t@ == ce_snapshot_view(s) && min_cache_ok(t@.min)
                    && max_cache_ok(t@.max),
                Err(e) => !ce_snapshot_valid(s) && e == TaError::InvalidParameter,
            },
    {
        if s.multiplier <= Num::zero() {
            return Err(TaError::InvalidParameter);
        }
        let atr = match AverageTrueRange::restore(&s.atr) {
            Ok(t) => t,
            Err(e) => {
                return Err(e);
            },
        };
        let min = match Minimum::restore(&s.min) {
            Ok(t) => t,
            Err(e) => {
                return Err(e);
            },
        };
        let max = match Maximum::restore(&s.max) {
            Ok(t) => t,
            Err(e) => {
                return Err(e);
            },
        };
        Ok(ChandelierExit { atr, min, max, multiplier: s.multiplier })
    }
}

} // verus!
