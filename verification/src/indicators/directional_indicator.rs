//! The positive and negative directional indicators.

use vstd::prelude::*;

use crate::errors::TaError;
use crate::indicators::average_true_range::{atr_init, atr_out, atr_step, AtrView, AverageTrueRange};
use crate::indicators::smoothed_directional_movement::{
    sdm_init, sdm_neg_out, sdm_neg_step, sdm_pos_out, sdm_pos_step, SdmView,
    SmoothedNegativeDirectionalMovement, SmoothedPositiveDirectionalMovement,
};
use crate::num::{clip, div_v, mul_v, Num, SCALE};
use crate::traits::{High, Next, Period, Reset};

verus! {

/// Abstract state of a directional indicator: the owned smoothed movement
/// and average true range.
pub struct DiView {
    /// State of the owned smoothed directional movement.
    pub sdm: SdmView,
    /// State of the owned average true range.
    pub atr: AtrView,
}

/// State of a fresh indicator.
pub open spec fn di_init(period: nat) -> DiView {
    DiView { sdm: sdm_init(period), atr: atr_init(period) }
}

/// Output of the negative indicator: `100 * (sdm / atr)`.
pub open spec fn ndi_out(s: DiView, x: int) -> int {
    mul_v(clip(100 * SCALE as int), div_v(sdm_neg_out(s.sdm, x), atr_out(s.atr, x)))
}

/// State of the negative indicator after one input.
pub open spec fn ndi_step(s: DiView, x: int) -> DiView {
    DiView { sdm: sdm_neg_step(s.sdm, x), atr: atr_step(s.atr, x) }
}

/// Output of the positive indicator: `100 * (sdm / atr)`.
pub open spec fn pdi_out(s: DiView, x: int) -> int {
    mul_v(clip(100 * SCALE as int), div_v(sdm_pos_out(s.sdm, x), atr_out(s.atr, x)))
}

/// State of the positive indicator after one input.
pub open spec fn pdi_step(s: DiView, x: int) -> DiView {
    DiView { sdm: sdm_pos_step(s.sdm, x), atr: atr_step(s.atr, x) }
}

/// Negative Directional Indicator (DI-): the smoothed negative directional
/// movement normalised by the average true range.
///
/// # Formula
///
/// DI- = 100 · SDM-<sub>t</sub> / ATR(period)<sub>t</sub>
///
/// # Parameters
///
/// * `period` - Smoothing period (number of samples) of SDM- and ATR
///   (positive integer).
#[derive(Debug)]
pub struct NegativeDirectionalIndicator {
    sndm: SmoothedNegativeDirectionalMovement,
    atr: AverageTrueRange,
}

impl View for NegativeDirectionalIndicator {
    type V = DiView;

    closed spec fn view(&self) -> DiView {
        DiView { sdm: self.sndm@, atr: self.atr@ }
    }
}

impl NegativeDirectionalIndicator {
    /// Build an indicator over the given period; a zero period is refused.
    pub fn new(period: usize) -> (r: Result<Self, TaError>)
        ensures
            match r {
                Ok(s) => 1 <= period < usize::MAX && s@ == di_init(period as nat),
                Err(e) => (period == 0 || period == usize::MAX) && e == TaError::InvalidParameter,
            },
    {
        let sndm = match SmoothedNegativeDirectionalMovement::new(period) {
            Ok(s) => s,
            Err(e) => {
                return Err(e);
            },
        };
        let atr = match AverageTrueRange::new(period) {
            Ok(a) => a,
            Err(e) => {
                return Err(e);
            },
        };
        Ok(NegativeDirectionalIndicator { sndm, atr })
    }
}

impl Period for NegativeDirectionalIndicator {
    fn period(&self) -> (r: usize)
        ensures
            r as nat == self@.sdm.period,
    {
        self.sndm.period()
    }
}

impl Next<Num> for NegativeDirectionalIndicator {
    type Output = Num;

    fn next(&mut self, input: Num) -> (r: Num)
        ensures
            old(self)@.sdm.window.len() >= 1 ==> final(self)@ == ndi_step(old(self)@, input@)
                && r@ == ndi_out(old(self)@, input@),
            final(self)@.sdm.window.len() >= 1,
    {
        let sdm = self.sndm.next(input);
        let atr = self.atr.next(input);
        Num::from_int(100).mul(sdm.div(atr))
    }
}

impl<T: High> Next<&T> for NegativeDirectionalIndicator {
    type Output = Num;

    fn next(&mut self, input: &T) -> (r: Num)
        ensures
            old(self)@.sdm.window.len() >= 1 ==> final(self)@ == ndi_step(
                old(self)@,
                input.high_spec(),
            ) && r@ == ndi_out(old(self)@, input.high_spec()),
            final(self)@.sdm.window.len() >= 1,
    {
        let h = input.high();
        Next::<Num>::next(self, h)
    }
}

impl Reset for NegativeDirectionalIndicator {
    fn reset(&mut self)
        ensures
            final(self)@.sdm == (SdmView {
                period: old(self)@.sdm.period,
                sum: 0,
                window: seq![0],
                dm: crate::indicators::DmView {
                    current: old(self)@.sdm.dm.current,
                    is_new: true,
                },
            }),
            final(self)@.atr == atr_init(old(self)@.atr.ema.period),
    {
        self.sndm.reset();
        self.atr.reset();
    }
}

impl Clone for NegativeDirectionalIndicator {
    /// A clone is an independent, identically behaving instance.
    fn clone(&self) -> (r: Self)
        ensures
            r@ == self@,
    {
        NegativeDirectionalIndicator { sndm: self.sndm.clone(), atr: self.atr.clone() }
    }
}

impl Default for NegativeDirectionalIndicator {
    fn default() -> (r: Self)
        ensures
            r@ == di_init(14),
    {
        NegativeDirectionalIndicator::new(14).unwrap()
    }
}

/// Positive Directional Indicator (DI+): the smoothed positive directional
/// movement normalised by the average true range.
///
/// # Formula
///
/// DI+ = 100 · SDM+<sub>t</sub> / ATR(period)<sub>t</sub>
///
/// # Parameters
///
/// * `period` - Smoothing period (number of samples) of SDM+ and ATR
///   (positive integer).
#[derive(Debug)]
pub struct PositiveDirectionalIndicator {
    spdm: SmoothedPositiveDirectionalMovement,
    atr: AverageTrueRange,
}

impl View for PositiveDirectionalIndicator {
    type V = DiView;

    closed spec fn view(&self) -> DiView {
        DiView { sdm: self.spdm@, atr: self.atr@ }
    }
}

impl PositiveDirectionalIndicator {
    /// Build an indicator over the given period; a zero period is refused.
    pub fn new(period: usize) -> (r: Result<Self, TaError>)
        ensures
            match r {
                Ok(s) => 1 <= period < usize::MAX && s@ == di_init(period as nat),
                Err(e) => (period == 0 || period == usize::MAX) && e == TaError::InvalidParameter,
            },
    {
        let spdm = match SmoothedPositiveDirectionalMovement::new(period) {
            Ok(s) => s,
            Err(e) => {
                return Err(e);
            },
        };
        let atr = match AverageTrueRange::new(period) {
            Ok(a) => a,
            Err(e) => {
                return Err(e);
            },
        };
        Ok(PositiveDirectionalIndicator { spdm, atr })
    }
}

impl Period for PositiveDirectionalIndicator {
    fn period(&self) -> (r: usize)
        ensures
            r as nat == self@.sdm.period,
    {
        self.spdm.period()
    }
}

impl Next<Num> for PositiveDirectionalIndicator {
    type Output = Num;

    fn next(&mut self, input: Num) -> (r: Num)
        ensures
            old(self)@.sdm.window.len() >= 1 ==> final(self)@ == pdi_step(old(self)@, input@)
                && r@ == pdi_out(old(self)@, input@),
            final(self)@.sdm.window.len() >= 1,
    {
        let sdm = self.spdm.next(input);
        let atr = self.atr.next(input);
        Num::from_int(100).mul(sdm.div(atr))
    }
}

impl<T: High> Next<&T> for PositiveDirectionalIndicator {
    type Output = Num;

    fn next(&mut self, input: &T) -> (r: Num)
        ensures
            old(self)@.sdm.window.len() >= 1 ==> final(self)@ == pdi_step(
                old(self)@,
                input.high_spec(),
            ) && r@ == pdi_out(old(self)@, input.high_spec()),
            final(self)@.sdm.window.len() >= 1,
    {
        let h = input.high();
        Next::<Num>::next(self, h)
    }
}

impl Reset for PositiveDirectionalIndicator {
    fn reset(&mut self)
        ensures
            final(self)@.sdm == (SdmView {
                period: old(self)@.sdm.period,
                sum: 0,
                window: seq![0],
                dm: crate::indicators::DmView {
                    current: old(self)@.sdm.dm.current,
                    is_new: true,
                },
            }),
            final(self)@.atr == atr_init(old(self)@.atr.ema.period),
    {
        self.spdm.reset();
        self.atr.reset();
    }
}

impl Clone for PositiveDirectionalIndicator {
    /// A clone is an independent, identically behaving instance.
    fn clone(&self) -> (r: Self)
        ensures
            r@ == self@,
    {
        PositiveDirectionalIndicator { spdm: self.spdm.clone(), atr: self.atr.clone() }
    }
}

impl Default for PositiveDirectionalIndicator {
    fn default() -> (r: Self)
        ensures
            r@ == di_init(14),
    {
        PositiveDirectionalIndicator::new(14).unwrap()
    }
}

impl NegativeDirectionalIndicator {
    /// The canonical display form, derived from the construction
    /// parameters alone.
    pub fn to_string(&self) -> (r: String)
        ensures
            r@ == crate::text::named1("DI-"@, self@.sdm.period),
    {
        crate::text::format_name1("DI-", self.sndm.period())
    }
}

impl PositiveDirectionalIndicator {
    /// The canonical display form, derived from the construction
    /// parameters alone.
    pub fn to_string(&self) -> (r: String)
        ensures
            r@ == crate::text::named1("DI+"@, self@.sdm.period),
    {
        crate::text::format_name1("DI+", self.spdm.period())
    }
}

/// A plain-value snapshot of either directional indicator's full state.
#[derive(Debug, Clone, PartialEq)]
pub struct DiSnapshot {
    /// Snapshot of the owned smoothed directional movement.
    pub sdm: crate::indicators::SdmSnapshot,
    /// Snapshot of the owned average true range.
    pub atr: crate::indicators::AtrSnapshot,
}

/// The abstract state a snapshot holds.
pub open spec fn di_snapshot_view(s: &DiSnapshot) -> DiView {
    DiView {
        sdm: crate::indicators::sdm_snapshot_view(&s.sdm),
        atr: crate::indicators::atr_snapshot_view(&s.atr),
    }
}

/// A snapshot whose fields the indicator can actually hold.
pub open spec fn di_snapshot_valid(s: &DiSnapshot) -> bool {
    &&& crate::indicators::sdm_snapshot_valid(&s.sdm)
    &&& crate::indicators::atr_snapshot_valid(&s.atr)
}

impl NegativeDirectionalIndicator {
    /// Capture the full state.
    pub fn snapshot(&self) -> (s: DiSnapshot)
        ensures
            di_snapshot_view(&s) == self@,
            di_snapshot_valid(&s),
    {
        DiSnapshot { sdm: self.sndm.snapshot(), atr: self.atr.snapshot() }
    }

    /// Rebuild an indicator from a snapshot; inconsistent children are
    /// refused.  Restoring what [`Self::snapshot`] captured gives back
    /// exactly the captured state.
    pub fn restore(s: &DiSnapshot) -> (r: Result<Self, TaError>)
        ensures
            match r {
                Ok(t) => di_snapshot_valid(s) && t@ == di_snapshot_view(s),
                Err(e) => !di_snapshot_valid(s) && e == TaError::InvalidParameter,
            },
    {
        let sndm = match SmoothedNegativeDirectionalMovement::restore(&s.sdm) {
            Ok(t) => t,
            Err(e) => {
                return Err(e);
            },
        };
        let atr = match AverageTrueRange::restore(&s.atr) {
            Ok(t) => t,
            Err(e) => {
                return Err(e);
            },
        };
        Ok(NegativeDirectionalIndicator { sndm, atr })
    }
}

impl PositiveDirectionalIndicator {
    /// Capture the full state.
    pub fn snapshot(&self) -> (s: DiSnapshot)
        ensures
            di_snapshot_view(&s) == self@,
            di_snapshot_valid(&s),
    {
        DiSnapshot { sdm: self.spdm.snapshot(), atr: self.atr.snapshot() }
    }

    /// Rebuild an indicator from a snapshot; inconsistent children are
    /// refused.  Restoring what [`Self::snapshot`] captured gives back
    /// exactly the captured state.
    pub fn restore(s: &DiSnapshot) -> (r: Result<Self, TaError>)
        ensures
            match r {
                Ok(t) => di_snapshot_valid(s) && t@ == di_snapshot_view(s),
                Err(e) => !di_snapshot_valid(s) && e == TaError::InvalidParameter,
            },
    {
        let spdm = match SmoothedPositiveDirectionalMovement::restore(&s.sdm) {
            Ok(t) => t,
            Err(e) => {
                return Err(e);
            },
        };
        let atr = match AverageTrueRange::restore(&s.atr) {
            Ok(t) => t,
            Err(e) => {
                return Err(e);
            },
        };
        Ok(PositiveDirectionalIndicator { spdm, atr })
    }
}

} // verus!
