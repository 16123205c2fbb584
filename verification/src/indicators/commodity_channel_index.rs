//! Commodity channel index.

use vstd::prelude::*;

use crate::errors::TaError;
use crate::indicators::keltner_channel::typical_price;
use crate::indicators::mean_absolute_deviation::{
    mad_init, mad_out, mad_step, MadView, MeanAbsoluteDeviation,
};
use crate::indicators::simple_moving_average::{
    sma_init, sma_out, sma_step, SimpleMovingAverage, SmaView,
};
use crate::num::{div_v, mul_v, sub_v, Num};
use crate::traits::{Close, High, Low, Next, Period, Reset};

verus! {

/// Abstract state of a [`CommodityChannelIndex`].
pub struct CciView {
    /// State of the owned simple moving average.
    pub sma: SmaView,
    /// State of the owned mean absolute deviation.
    pub mad: MadView,
}

/// A well-formed state: both children configured over one period.
pub open spec fn cci_wf(s: CciView) -> bool {
    s.mad.period == s.sma.period
}

/// State of a fresh indicator.
pub open spec fn cci_init(period: nat) -> CciView {
    CciView { sma: sma_init(period), mad: mad_init(period) }
}

/// The two outputs for one bar: the average consumes the typical price,
/// the deviation tracker the close.  The result is
/// `(tp - sma) / (mad * 0.015)`, or zero when the deviation is zero.
pub open spec fn cci_out(s: CciView, high: int, low: int, close: int) -> int {
    let tp = typical_price(high, low, close);
    let sma = sma_out(s.sma, tp);
    let mad = mad_out(s.mad, close);
    if mad == 0 {
        0
    } else {
        div_v(sub_v(tp, sma), mul_v(mad, 15_000_000_000))
    }
}

/// State after one bar.
pub open spec fn cci_step(s: CciView, high: int, low: int, close: int) -> CciView {
    let tp = typical_price(high, low, close);
    CciView { sma: sma_step(s.sma, tp), mad: mad_step(s.mad, close) }
}

/// Commodity Channel Index (CCI): how far the typical price sits from its
/// moving average, normalised by the mean absolute deviation scaled with
/// the conventional 0.015 constant.
///
/// # Formula
///
/// CCI(_period_) = (TP - SMA(_period_) of TP) / (MAD(_period_) * 0.015)
///
/// # Parameters
///
/// * `period` - number of periods (integer greater than 0). Default is 20.
#[derive(Debug)]
pub struct CommodityChannelIndex {
    sma: SimpleMovingAverage,
    mad: MeanAbsoluteDeviation,
}

impl View for CommodityChannelIndex {
    type V = CciView;

    closed spec fn view(&self) -> CciView {
        CciView { sma: self.sma@, mad: self.mad@ }
    }
}

impl CommodityChannelIndex {
    /// Build an indicator over the given period; a zero period is refused.
    pub fn new(period: usize) -> (r: Result<Self, TaError>)
        ensures
            match r {
                Ok(s) => period >= 1 && s@ == cci_init(period as nat) && cci_wf(s@),
                Err(e) => period == 0 && e == TaError::InvalidParameter,
            },
    {
        let sma = match SimpleMovingAverage::new(period) {
            Ok(s) => s,
            Err(e) => {
                return Err(e);
            },
        };
        let mad = match MeanAbsoluteDeviation::new(period) {
            Ok(m) => m,
            Err(e) => {
                return Err(e);
            },
        };
        Ok(CommodityChannelIndex { sma, mad })
    }
}

impl Period for CommodityChannelIndex {
    fn period(&self) -> (r: usize)
        ensures
            r as nat == self@.sma.period,
    {
        self.sma.period()
    }
}

impl<T: Close + High + Low> Next<&T> for CommodityChannelIndex {
    type Output = Num;

    fn next(&mut self, input: &T) -> (r: Num)
        ensures
            final(self)@ == cci_step(
                old(self)@,
                input.high_spec(),
                input.low_spec(),
                input.close_spec(),
            ),
            r@ == cci_out(old(self)@, input.high_spec(), input.low_spec(), input.close_spec()),
    {
        let tp = input.close().add(input.high()).add(input.low()).div(Num::from_int(3));
        let sma = self.sma.next(tp);
        let mad = self.mad.next(input);
        let zero = Num::zero();
        proof {
            crate::num::lemma_num_view_injective(mad, zero);
        }

        if mad == zero {
            return zero;
        }
        // The conventional scaling constant 0.015 as a raw value.
        tp.sub(sma).div(mad.mul(Num::from_raw(15_000_000_000)))
    }
}

impl Reset for CommodityChannelIndex {
    fn reset(&mut self)
        ensures
            final(self)@ == (CciView {
                sma: sma_init(old(self)@.sma.period),
                mad: mad_init(old(self)@.mad.period),
            }),
            cci_wf(old(self)@) ==> final(self)@ == cci_init(old(self)@.sma.period),
    {
        self.sma.reset();
        self.mad.reset();
    }
}

impl Clone for CommodityChannelIndex {
    /// A clone is an independent, identically behaving instance.
    fn clone(&self) -> (r: Self)
        ensures
            r@ == self@,
    {
        CommodityChannelIndex { sma: self.sma.clone(), mad: self.mad.clone() }
    }
}

impl Default for CommodityChannelIndex {
    fn default() -> (r: Self)
        ensures
            r@ == cci_init(20),
    {
        CommodityChannelIndex::new(20).unwrap()
    }
}

impl CommodityChannelIndex {
    /// The canonical display form, derived from the construction
    /// parameters alone.
    pub fn to_string(&self) -> (r: String)
        ensures
            r@ == crate::text::named1("CCI"@, self@.sma.period),
    {
        crate::text::format_name1("CCI", self.sma.period())
    }
}

/// A plain-value snapshot of the indicator's full state.
#[derive(Debug, Clone, PartialEq)]
pub struct CciSnapshot {
    /// Snapshot of the owned simple moving average.
    pub sma: crate::indicators::SmaSnapshot,
    /// Snapshot of the owned mean absolute deviation.
    pub mad: crate::indicators::MadSnapshot,
}

/// The abstract state a snapshot holds.
pub open spec fn cci_snapshot_view(s: &CciSnapshot) -> CciView {
    CciView {
        sma: crate::indicators::sma_snapshot_view(&s.sma),
        mad: crate::indicators::mad_snapshot_view(&s.mad),
    }
}

/// A snapshot whose fields the indicator can actually hold.
pub open spec fn cci_snapshot_valid(s: &CciSnapshot) -> bool {
    &&& crate::indicators::sma_snapshot_valid(&s.sma)
    &&& crate::indicators::mad_snapshot_valid(&s.mad)
}

impl CommodityChannelIndex {
    /// Capture the full state.
    pub fn snapshot(&self) -> (s: CciSnapshot)
        ensures
            cci_snapshot_view(&s) == self@,
            cci_snapshot_valid(&s),
    {
        CciSnapshot { sma: self.sma.snapshot(), mad: self.mad.snapshot() }
    }

    /// Rebuild an indicator from a snapshot; inconsistent children are
    /// refused.  Restoring what [`Self::snapshot`] captured gives back
    /// exactly the captured state.
    pub fn restore(s: &CciSnapshot) -> (r: Result<Self, TaError>)
        ensures
            match r {
                Ok(t) => cci_snapshot_valid(s) && t@ == cci_snapshot_view(s),
                Err(e) => !cci_snapshot_valid(s) && e == TaError::InvalidParameter,
            },
    {
        let sma = match SimpleMovingAverage::restore(&s.sma) {
            Ok(t) => t,
            Err(e) => {
                return Err(e);
            },
        };
        let mad = match MeanAbsoluteDeviation::restore(&s.mad) {
            Ok(t) => t,
            Err(e) => {
                return Err(e);
            },
        };
        Ok(CommodityChannelIndex { sma, mad })
    }
}

} // verus!
