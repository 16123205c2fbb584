//! Keltner channel.

use vstd::prelude::*;

use crate::errors::TaError;
use crate::indicators::average_true_range::{
    atr_init, atr_out, atr_out_bar, atr_step, atr_step_bar, AtrView, AverageTrueRange,
};
use crate::indicators::exponential_moving_average::{
    ema_init, ema_out, ema_step, EmaView, ExponentialMovingAverage,
};
use crate::num::{add_v, clip, div_v, mul_v, sub_v, Num, SCALE};
use crate::traits::{Close, High, Low, Next, Period, Reset};

verus! {

/// Abstract state of a [`KeltnerChannel`].
pub struct KcView {
    /// The configured period.
    pub period: nat,
    /// The configured band multiplier, as a raw fixed-point value.
    pub multiplier: int,
    /// State of the owned average true range.
    pub atr: AtrView,
    /// State of the owned smoother.
    pub ema: EmaView,
}

/// A well-formed state: both children configured over the indicator's own
/// period.
pub open spec fn kc_wf(s: KcView) -> bool {
    &&& s.atr.ema.period == s.period
    &&& s.ema.period == s.period
}

/// State of a fresh indicator.
pub open spec fn kc_init(period: nat, multiplier: int) -> KcView {
    KcView { period, multiplier, atr: atr_init(period), ema: ema_init(period) }
}

/// The three outputs for one bare value, as raw fixed-point values: the
/// smoothed input, moved up and down by `multiplier` average true ranges.
pub open spec fn kc_out(s: KcView, x: int) -> (int, int, int) {
    let atr = atr_out(s.atr, x);
    let average = ema_out(s.ema, x);
    (average, add_v(average, mul_v(atr, s.multiplier)), sub_v(average, mul_v(atr, s.multiplier)))
}

/// State after one bare value.
pub open spec fn kc_step(s: KcView, x: int) -> KcView {
    KcView {
        atr: atr_step(s.atr, x),
        ema: ema_step(s.ema, x),
        period: s.period,
        multiplier: s.multiplier,
    }
}

/// The typical price of a bar: the mean of close, high and low.
pub open spec fn typical_price(high: int, low: int, close: int) -> int {
    div_v(add_v(add_v(close, high), low), clip(3 * SCALE as int))
}

/// The three outputs for one bar: the smoother consumes the typical price,
/// the average true range the whole bar.
pub open spec fn kc_out_bar(s: KcView, high: int, low: int, close: int) -> (int, int, int) {
    let tp = typical_price(high, low, close);
    let average = ema_out(s.ema, tp);
    let atr = atr_out_bar(s.atr, high, low);
    (average, add_v(average, mul_v(atr, s.multiplier)), sub_v(average, mul_v(atr, s.multiplier)))
}

/// State after one bar.
pub open spec fn kc_step_bar(s: KcView, high: int, low: int, close: int) -> KcView {
    KcView {
        atr: atr_step_bar(s.atr, high, low, close),
        ema: ema_step(s.ema, typical_price(high, low, close)),
        period: s.period,
        multiplier: s.multiplier,
    }
}

/// One Keltner Channel output.
#[derive(Debug, Clone, Copy, PartialEq, Eq, Structural)]
pub struct KeltnerChannelOutput {
    /// The middle band: the smoothed input.
    pub average: Num,
    /// The upper band: average plus `multiplier` average true ranges.
    pub upper: Num,
    /// The lower band: average minus `multiplier` average true ranges.
    pub lower: Num,
}

/// Keltner Channel (KC): an exponential moving average surrounded by bands
/// `multiplier` average true ranges away on each side.
///
/// # Parameters
///
/// * _period_ - number of periods (integer greater than 0)
/// * _multiplier_ - band width in average true ranges (greater than 0,
///   usually 2.0)
#[derive(Debug)]
pub struct KeltnerChannel {
    period: usize,
    multiplier: Num,
    atr: AverageTrueRange,
    ema: ExponentialMovingAverage,
}

impl View for KeltnerChannel {
    type V = KcView;

    closed spec fn view(&self) -> KcView {
        KcView {
            period: self.period as nat,
            multiplier: self.multiplier@,
            atr: self.atr@,
            ema: self.ema@,
        }
    }
}

impl KeltnerChannel {
    /// Build an indicator over the given period and band multiplier; a zero
    /// period and a non-positive multiplier are refused.
    pub fn new(period: usize, multiplier: Num) -> (r: Result<Self, TaError>)
        ensures
            match r {
                Ok(s) => period >= 1 && multiplier@ > 0 && s@ == kc_init(
                    period as nat,
                    multiplier@,
                ) && kc_wf(s@),
                Err(e) => (period == 0 || multiplier@ <= 0) && e == TaError::InvalidParameter,
            },
    {
        if multiplier <= Num::zero() {
            return Err(TaError::InvalidParameter);
        }
        let atr = match AverageTrueRange::new(period) {
            Ok(a) => a,
            Err(e) => {
                return Err(e);
            },
        };
        let ema = match ExponentialMovingAverage::new(period) {
            Ok(e) => e,
            Err(e) => {
                return Err(e);
            },
        };
        Ok(KeltnerChannel { period, multiplier, atr, ema })
    }

    /// The configured band multiplier.
    pub fn multiplier(&self) -> (r: Num)
        ensures
            r@ == self@.multiplier,
    {
        self.multiplier
    }
}

impl Period for KeltnerChannel {
    fn period(&self) -> (r: usize)
        ensures
            r as nat == self@.period,
    {
        self.period
    }
}

impl Next<Num> for KeltnerChannel {
    type Output = KeltnerChannelOutput;

    fn next(&mut self, input: Num) -> (r: KeltnerChannelOutput)
        ensures
            final(self)@ == kc_step(old(self)@, input@),
            (r.average@, r.upper@, r.lower@) == kc_out(old(self)@, input@),
    {
        let atr = self.atr.next(input);
        let average = self.ema.next(input);

        KeltnerChannelOutput {
            average,
            upper: average.add(atr.mul(self.multiplier)),
            lower: average.sub(atr.mul(self.multiplier)),
        }
    }
}

impl<T: Close + High + Low> Next<&T> for KeltnerChannel {
    type Output = KeltnerChannelOutput;

    fn next(&mut self, input: &T) -> (r: KeltnerChannelOutput)
        ensures
            final(self)@ == kc_step_bar(
                old(self)@,
                input.high_spec(),
                input.low_spec(),
                input.close_spec(),
            ),
            (r.average@, r.upper@, r.lower@) == kc_out_bar(
                old(self)@,
                input.high_spec(),
                input.low_spec(),
                input.close_spec(),
            ),
    {
        let tp = input.close().add(input.high()).add(input.low()).div(Num::from_int(3));

        let average = self.ema.next(tp);
        let atr = self.atr.next(input);

        KeltnerChannelOutput {
            average,
            upper: average.add(atr.mul(self.multiplier)),
            lower: average.sub(atr.mul(self.multiplier)),
        }
    }
}

impl Reset for KeltnerChannel {
    fn reset(&mut self)
        ensures
            final(self)@ == (KcView {
                period: old(self)@.period,
                multiplier: old(self)@.multiplier,
                atr: atr_init(old(self)@.atr.ema.period),
                ema: ema_init(old(self)@.ema.period),
            }),
            kc_wf(old(self)@) ==> final(self)@ == kc_init(old(self)@.period, old(self)@.multiplier),
    {
        self.atr.reset();
        self.ema.reset();
    }
}

impl Clone for KeltnerChannel {
    /// A clone is an independent, identically behaving instance.
    fn clone(&self) -> (r: Self)
        ensures
            r@ == self@,
    {
        KeltnerChannel {
            period: self.period,
            multiplier: self.multiplier,
            atr: self.atr.clone(),
            ema: self.ema.clone(),
        }
    }
}

impl Default for KeltnerChannel {
    fn default() -> (r: Self)
        ensures
            r@ == kc_init(10, 2 * SCALE as int),
    {
        KeltnerChannel::new(10, Num::from_int(2)).unwrap()
    }
}

impl KeltnerChannel {
    /// The canonical display form, derived from the construction
    /// parameters alone.
    pub fn to_string(&self) -> (r: String)
        ensures
            r@ == crate::text::named_num("KC"@, self@.period, self@.multiplier),
    {
        crate::text::format_name_num("KC", self.period, self.multiplier)
    }
}

/// A plain-value snapshot of the indicator's full state.
#[derive(Debug, Clone, PartialEq)]
pub struct KcSnapshot {
    /// The configured period.
    pub period: usize,
    /// The configured band multiplier.
    pub multiplier: Num,
    /// Snapshot of the owned average true range.
    pub atr: crate::indicators::AtrSnapshot,
    /// Snapshot of the owned smoother.
    pub ema: crate::indicators::EmaSnapshot,
}

/// The abstract state a snapshot holds.
pub open spec fn kc_snapshot_view(s: &KcSnapshot) -> KcView {
    KcView {
        period: s.period as nat,
        multiplier: s.multiplier@,
        atr: crate::indicators::atr_snapshot_view(&s.atr),
        ema: crate::indicators::ema_snapshot_view(&s.ema),
    }
}

/// A snapshot whose fields the indicator can actually hold, with the band
/// multiplier positive as the factory demands.
pub open spec fn kc_snapshot_valid(s: &KcSnapshot) -> bool {
    &&& crate::indicators::atr_snapshot_valid(&s.atr)
    &&& crate::indicators::ema_snapshot_valid(&s.ema)
    &&& s.multiplier@ > 0
}

impl KeltnerChannel {
    /// Capture the full state.
    pub fn snapshot(&self) -> (s: KcSnapshot)
        ensures
            kc_snapshot_view(&s) == self@,
            crate::indicators::atr_snapshot_valid(&s.atr),
            crate::indicators::ema_snapshot_valid(&s.ema),
    {
        KcSnapshot {
            period: self.period,
            multiplier: self.multiplier,
            atr: self.atr.snapshot(),
            ema: self.ema.snapshot(),
        }
    }

    /// Rebuild an indicator from a snapshot; a zero period anywhere and a
    /// non-positive multiplier are refused.  Restoring what
    /// [`Self::snapshot`] captured gives back exactly the captured state.
    pub fn restore(s: &KcSnapshot) -> (r: Result<Self, TaError>)
        ensures
            match r {
                Ok(t) => kc_snapshot_valid(s) && t@ == kc_snapshot_view(s),
                Err(e) => !kc_snapshot_valid(s) && e == TaError::InvalidParameter,
            },
    {
        if s.multiplier <= Num::zero() {
            return Err(TaError::InvalidParameter);
        }
        let atr = match AverageTrueRange::restore(&s.atr) {
            Ok(t) => t,
            Err(e) => {
                return Err(e);
            },
        };
        let ema = match ExponentialMovingAverage::restore(&s.ema) {
            Ok(t) => t,
            Err(e) => {
                return Err(e);
            },
        };
        Ok(KeltnerChannel { period: s.period, multiplier: s.multiplier, atr, ema })
    }
}

} // verus!
