//! Hull moving average.

use vstd::prelude::*;

use crate::errors::TaError;
use crate::helpers::isqrt_usize;
use crate::indicators::weighted_moving_average::{
    wma_init, wma_out, wma_step, WeightedMovingAverage, WmaView,
};
use crate::num::{is_isqrt, mul_v, sub_v, Num};
use crate::traits::{Close, Next, Period, Reset};

verus! {

/// Abstract state of a [`HullMovingAverage`].
pub struct HmaView {
    /// The configured period.
    pub period: nat,
    /// State of the half-period average.
    pub short_wma: WmaView,
    /// State of the full-period average.
    pub regular_wma: WmaView,
    /// State of the root-period average applied on top.
    pub wrapping_wma: WmaView,
}

/// The rounded-down square root of a period.
pub open spec fn period_root(period: nat) -> nat {
    choose|r: nat| #[trigger] is_isqrt(period as int, r as int)
}

/// State of a fresh indicator.
pub open spec fn hma_init(period: nat) -> HmaView {
    HmaView {
        period,
        short_wma: wma_init((period / 2) as nat),
        regular_wma: wma_init(period),
        wrapping_wma: wma_init(period_root(period)),
    }
}

/// The source value handed to the wrapping average for one input:
/// `2 * short - regular`.
pub open spec fn hma_source(s: HmaView, x: int) -> int {
    sub_v(
        mul_v(2 * crate::num::SCALE as int, wma_out(s.short_wma, x)),
        wma_out(s.regular_wma, x),
    )
}

/// Output for one input.
pub open spec fn hma_out(s: HmaView, x: int) -> int {
    wma_out(s.wrapping_wma, hma_source(s, x))
}

/// State after one input.
pub open spec fn hma_step(s: HmaView, x: int) -> HmaView {
    HmaView {
        short_wma: wma_step(s.short_wma, x),
        regular_wma: wma_step(s.regular_wma, x),
        wrapping_wma: wma_step(s.wrapping_wma, hma_source(s, x)),
        period: s.period,
    }
}

/// Hull Moving Average (HMA).
///
/// A moving average that attempts to reduce or remove price lag while
/// maintaining curve smoothness: a weighted moving average of
/// `2 * WMA(period / 2) - WMA(period)`, taken over the square root of the
/// period.
///
/// # Parameters
///
/// * _period_ - number of periods (integer greater than 1)
#[derive(Debug)]
pub struct HullMovingAverage {
    period: usize,
    short_wma: WeightedMovingAverage,
    regular_wma: WeightedMovingAverage,
    wrapping_wma: WeightedMovingAverage,
}

impl View for HullMovingAverage {
    type V = HmaView;

    closed spec fn view(&self) -> HmaView {
        HmaView {
            period: self.period as nat,
            short_wma: self.short_wma@,
            regular_wma: self.regular_wma@,
            wrapping_wma: self.wrapping_wma@,
        }
    }
}

impl HullMovingAverage {
    /// Build an indicator over the given period; periods below two are
    /// refused, because the half-period average needs a positive period.
    pub fn new(period: usize) -> (r: Result<Self, TaError>)
        ensures
            match r {
                Ok(s) => period >= 2 && s@ == hma_init(period as nat),
                Err(e) => period <= 1 && e == TaError::InvalidParameter,
            },
    {
        if period == 0 || period == 1 {
            return Err(TaError::InvalidParameter);
        }
        let short = match WeightedMovingAverage::new(period / 2) {
            Ok(w) => w,
            Err(e) => {
                return Err(e);
            },
        };
        let regular = match WeightedMovingAverage::new(period) {
            Ok(w) => w,
            Err(e) => {
                return Err(e);
            },
        };
        let root = isqrt_usize(period);
        proof {
            assert(root >= 1) by (nonlinear_arith)
                requires
                    is_isqrt(period as int, root as int),
                    period >= 2;
            crate::num::lemma_isqrt_unique(
                period as int,
                root as int,
                period_root(period as nat) as int,
            );
        }
        let wrapping = match WeightedMovingAverage::new(root) {
            Ok(w) => w,
            Err(e) => {
                return Err(e);
            },
        };
        Ok(HullMovingAverage { period, short_wma: short, regular_wma: regular, wrapping_wma: wrapping })
    }
}

impl Period for HullMovingAverage {
    fn period(&self) -> (r: usize)
        ensures
            r as nat == self@.period,
    {
        self.period
    }
}

impl Next<Num> for HullMovingAverage {
    type Output = Num;

    fn next(&mut self, input: Num) -> (r: Num)
        ensures
            final(self)@ == hma_step(old(self)@, input@),
            r@ == hma_out(old(self)@, input@),
    {
        let source = Num::from_int(2).mul(self.short_wma.next(input)).sub(
            self.regular_wma.next(input),
        );
        self.wrapping_wma.next(source)
    }
}

impl<T: Close> Next<&T> for HullMovingAverage {
    type Output = Num;

    fn next(&mut self, input: &T) -> (r: Num)
        ensures
            final(self)@ == hma_step(old(self)@, input.close_spec()),
            r@ == hma_out(old(self)@, input.close_spec()),
    {
        let c = input.close();
        Next::<Num>::next(self, c)
    }
}

impl Reset for HullMovingAverage {
    fn reset(&mut self)
        ensures
            final(self)@ == (HmaView {
                period: old(self)@.period,
                short_wma: wma_init(old(self)@.short_wma.period),
                regular_wma: wma_init(old(self)@.regular_wma.period),
                wrapping_wma: wma_init(old(self)@.wrapping_wma.period),
            }),
    {
        self.short_wma.reset();
        self.regular_wma.reset();
        self.wrapping_wma.reset();
    }
}

impl Clone for HullMovingAverage {
    /// A clone is an independent, identically behaving instance.
    fn clone(&self) -> (r: Self)
        ensures
            r@ == self@,
    {
        HullMovingAverage {
            period: self.period,
            short_wma: self.short_wma.clone(),
            regular_wma: self.regular_wma.clone(),
            wrapping_wma: self.wrapping_wma.clone(),
        }
    }
}

impl Default for HullMovingAverage {
    fn default() -> (r: Self)
        ensures
            r@ == hma_init(9),
    {
        HullMovingAverage::new(9).unwrap()
    }
}

impl HullMovingAverage {
    /// The canonical display form, derived from the construction
    /// parameters alone.
    pub fn to_string(&self) -> (r: String)
        ensures
            r@ == crate::text::named1("HMA"@, self@.period),
    {
        crate::text::format_name1("HMA", self.period)
    }
}

/// A plain-value snapshot of the indicator's full state.
#[derive(Debug, Clone, PartialEq)]
pub struct HmaSnapshot {
    /// The configured period.
    pub period: usize,
    /// Snapshot of the half-period average.
    pub short_wma: crate::indicators::WmaSnapshot,
    /// Snapshot of the full-period average.
    pub regular_wma: crate::indicators::WmaSnapshot,
    /// Snapshot of the root-period average.
    pub wrapping_wma: crate::indicators::WmaSnapshot,
}

/// The abstract state a snapshot holds.
pub open spec fn hma_snapshot_view(s: &HmaSnapshot) -> HmaView {
    HmaView {
        period: s.period as nat,
        short_wma: crate::indicators::wma_snapshot_view(&s.short_wma),
        regular_wma: crate::indicators::wma_snapshot_view(&s.regular_wma),
        wrapping_wma: crate::indicators::wma_snapshot_view(&s.wrapping_wma),
    }
}

/// A snapshot whose fields the indicator can actually hold.
pub open spec fn hma_snapshot_valid(s: &HmaSnapshot) -> bool {
    &&& crate::indicators::wma_snapshot_valid(&s.short_wma)
    &&& crate::indicators::wma_snapshot_valid(&s.regular_wma)
    &&& crate::indicators::wma_snapshot_valid(&s.wrapping_wma)
}

impl HullMovingAverage {
    /// Capture the full state.
    pub fn snapshot(&self) -> (s: HmaSnapshot)
        ensures
            hma_snapshot_view(&s) == self@,
            hma_snapshot_valid(&s),
    {
        HmaSnapshot {
            period: self.period,
            short_wma: self.short_wma.snapshot(),
            regular_wma: self.regular_wma.snapshot(),
            wrapping_wma: self.wrapping_wma.snapshot(),
        }
    }

    /// Rebuild an indicator from a snapshot; inconsistent children are
    /// refused.  Restoring what [`Self::snapshot`] captured gives back
    /// exactly the captured state.
    pub fn restore(s: &HmaSnapshot) -> (r: Result<Self, TaError>)
        ensures
            match r {
                Ok(t) => hma_snapshot_valid(s) && t@ == hma_snapshot_view(s),
                Err(e) => !hma_snapshot_valid(s) && e == TaError::InvalidParameter,
            },
    {
        let short = match WeightedMovingAverage::restore(&s.short_wma) {
            Ok(t) => t,
            Err(e) => {
                return Err(e);
            },
        };
        let regular = match WeightedMovingAverage::restore(&s.regular_wma) {
            Ok(t) => t,
            Err(e) => {
                return Err(e);
            },
        };
        let wrapping = match WeightedMovingAverage::restore(&s.wrapping_wma) {
            Ok(t) => t,
            Err(e) => {
                return Err(e);
            },
        };
        Ok(
            HullMovingAverage {
                period: s.period,
                short_wma: short,
                regular_wma: regular,
                wrapping_wma: wrapping,
            },
        )
    }
}

} // verus!
