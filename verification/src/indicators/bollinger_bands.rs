//! Bollinger bands.

use vstd::prelude::*;

use crate::errors::TaError;
use crate::indicators::standard_deviation::{
    sd_init, sd_out, sd_step, SdView, StandardDeviation,
};
use crate::num::{add_v, mul_v, sub_v, Num};
use crate::traits::{Close, Next, Period, Reset};

verus! {

/// Abstract state of a [`BollingerBands`].
pub struct BbView {
    /// The configured period.
    pub period: nat,
    /// The configured band multiplier, as a raw fixed-point value.
    pub multiplier: int,
    /// State of the owned mean/variance tracker.
    pub sd: SdView,
}

/// A well-formed state: the tracker configured over the indicator's own
/// period.
pub open spec fn bb_wf(s: BbView) -> bool {
    s.sd.period == s.period
}

/// State of a fresh indicator.
pub open spec fn bb_init(period: nat, multiplier: int) -> BbView {
    BbView { period, multiplier, sd: sd_init(period) }
}

/// The three outputs for one input, as raw fixed-point values: the running
/// mean, and the mean moved up and down by `multiplier` standard
/// deviations.
pub open spec fn bb_out(s: BbView, x: int) -> (int, int, int) {
    let sd = sd_out(s.sd, x);
    let mean = sd_step(s.sd, x).m;
    (mean, add_v(mean, mul_v(sd, s.multiplier)), sub_v(mean, mul_v(sd, s.multiplier)))
}

/// State after one input.
pub open spec fn bb_step(s: BbView, x: int) -> BbView {
    BbView { sd: sd_step(s.sd, x), period: s.period, multiplier: s.multiplier }
}

/// State after a whole input sequence.
pub open spec fn bb_run(s: BbView, xs: Seq<int>) -> BbView
    decreases xs.len(),
{
    if xs.len() == 0 {
        s
    } else {
        bb_run(bb_step(s, xs[0]), xs.skip(1))
    }
}

/// One Bollinger Bands output.
#[derive(Debug, Clone, Copy, PartialEq, Eq, Structural)]
pub struct BollingerBandsOutput {
    /// The middle band: the running mean.
    pub average: Num,
    /// The upper band: mean plus `multiplier` standard deviations.
    pub upper: Num,
    /// The lower band: mean minus `multiplier` standard deviations.
    pub lower: Num,
}

/// Bollinger Bands (BB): a running mean surrounded by bands `multiplier`
/// standard deviations away on each side.
///
/// # Parameters
///
/// * _period_ - number of periods (integer greater than 0)
/// * _multiplier_ - band width in standard deviations (greater than 0,
///   usually 2.0)
#[derive(Debug)]
pub struct BollingerBands {
    period: usize,
    multiplier: Num,
    sd: StandardDeviation,
}

impl View for BollingerBands {
    type V = BbView;

    closed spec fn view(&self) -> BbView {
        BbView { period: self.period as nat, multiplier: self.multiplier@, sd: self.sd@ }
    }
}

impl BollingerBands {
    /// Build an indicator over the given period and band multiplier; a zero
    /// period and a non-positive multiplier are refused.
    pub fn new(period: usize, multiplier: Num) -> (r: Result<Self, TaError>)
        ensures
            match r {
                Ok(s) => period >= 1 && multiplier@ > 0 && s@ == bb_init(
                    period as nat,
                    multiplier@,
                ) && bb_wf(s@),
                Err(e) => (period == 0 || multiplier@ <= 0) && e == TaError::InvalidParameter,
            },
    {
        if multiplier <= Num::zero() {
            return Err(TaError::InvalidParameter);
        }
        match StandardDeviation::new(period) {
            Ok(sd) => Ok(BollingerBands { period, multiplier, sd }),
            Err(e) => Err(e),
        }
    }

    /// The configured band multiplier.
    pub fn multiplier(&self) -> (r: Num)
        ensures
            r@ == self@.multiplier,
    {
        self.multiplier
    }
}

impl Period for BollingerBands {
    fn period(&self) -> (r: usize)
        ensures
            r as nat == self@.period,
    {
        self.period
    }
}

impl Next<Num> for BollingerBands {
    type Output = BollingerBandsOutput;

    fn next(&mut self, input: Num) -> (r: BollingerBandsOutput)
        ensures
            final(self)@ == bb_step(old(self)@, input@),
            (r.average@, r.upper@, r.lower@) == bb_out(old(self)@, input@),
    {
        let sd = self.sd.next(input);
        let mean = self.sd.mean();

        BollingerBandsOutput {
            average: mean,
            upper: mean.add(sd.mul(self.multiplier)),
            lower: mean.sub(sd.mul(self.multiplier)),
        }
    }
}

impl<T: Close> Next<&T> for BollingerBands {
    type Output = BollingerBandsOutput;

    fn next(&mut self, input: &T) -> (r: BollingerBandsOutput)
        ensures
            final(self)@ == bb_step(old(self)@, input.close_spec()),
            (r.average@, r.upper@, r.lower@) == bb_out(old(self)@, input.close_spec()),
    {
        let c = input.close();
        Next::<Num>::next(self, c)
    }
}

impl Reset for BollingerBands {
    fn reset(&mut self)
        ensures
            final(self)@ == (BbView {
                period: old(self)@.period,
                multiplier: old(self)@.multiplier,
                sd: sd_init(old(self)@.sd.period),
            }),
            bb_wf(old(self)@) ==> final(self)@ == bb_init(old(self)@.period, old(self)@.multiplier),
    {
        self.sd.reset();
    }
}

impl Clone for BollingerBands {
    /// A clone is an independent, identically behaving instance.
    fn clone(&self) -> (r: Self)
        ensures
            r@ == self@,
    {
        BollingerBands { period: self.period, multiplier: self.multiplier, sd: self.sd.clone() }
    }
}

impl Default for BollingerBands {
    fn default() -> (r: Self)
        ensures
            r@ == bb_init(9, 2 * crate::num::SCALE as int),
    {
        BollingerBands::new(9, Num::from_int(2)).unwrap()
    }
}

impl BollingerBands {
    /// The canonical display form, derived from the construction
    /// parameters alone.
    pub fn to_string(&self) -> (r: String)
        ensures
            r@ == crate::text::named_num("BB"@, self@.period, self@.multiplier),
    {
        crate::text::format_name_num("BB", self.period, self.multiplier)
    }
}

/// A plain-value snapshot of the indicator's full state.
#[derive(Debug, Clone, PartialEq)]
pub struct BbSnapshot {
    /// The configured period.
    pub period: usize,
    /// The configured band multiplier.
    pub multiplier: Num,
    /// Snapshot of the owned mean/variance tracker.
    pub sd: crate::indicators::SdSnapshot,
}

/// The abstract state a snapshot holds.
pub open spec fn bb_snapshot_view(s: &BbSnapshot) -> BbView {
    BbView {
        period: s.period as nat,
        multiplier: s.multiplier@,
        sd: crate::indicators::sd_snapshot_view(&s.sd),
    }
}

/// A snapshot whose fields the indicator can actually hold, with the band
/// multiplier positive as the factory demands.
pub open spec fn bb_snapshot_valid(s: &BbSnapshot) -> bool {
    &&& crate::indicators::sd_snapshot_valid(&s.sd)
    &&& s.multiplier@ > 0
}

impl BollingerBands {
    /// Capture the full state.
    pub fn snapshot(&self) -> (s: BbSnapshot)
        ensures
            bb_snapshot_view(&s) == self@,
            crate::indicators::sd_snapshot_valid(&s.sd),
    {
        BbSnapshot { period: self.period, multiplier: self.multiplier, sd: self.sd.snapshot() }
    }

    /// Rebuild an indicator from a snapshot; inconsistent tracker fields
    /// and a non-positive multiplier are refused.  Restoring what
    /// [`Self::snapshot`] captured gives back exactly the captured state.
    pub fn restore(s: &BbSnapshot) -> (r: Result<Self, TaError>)
        ensures
            match r {
                Ok(t) => bb_snapshot_valid(s) && t@ == bb_snapshot_view(s),
                Err(e) => !bb_snapshot_valid(s) && e == TaError::InvalidParameter,
            },
    {
        if s.multiplier <= Num::zero() {
            return Err(TaError::InvalidParameter);
        }
        let sd = match StandardDeviation::restore(&s.sd) {
            Ok(t) => t,
            Err(e) => {
                return Err(e);
            },
        };
        Ok(BollingerBands { period: s.period, multiplier: s.multiplier, sd })
    }
}

} // verus!
