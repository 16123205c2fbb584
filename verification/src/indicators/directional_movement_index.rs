//! Directional movement index.

use vstd::prelude::*;

use crate::errors::TaError;
use crate::indicators::average_true_range::{atr_init, atr_out, atr_step, AtrView, AverageTrueRange};
use crate::indicators::smoothed_directional_movement::{
    sdm_init, sdm_neg_out, sdm_neg_step, sdm_pos_out, sdm_pos_step, SdmView,
    SmoothedNegativeDirectionalMovement, SmoothedPositiveDirectionalMovement,
};
use crate::num::{abs_v, add_v, clip, div_v, mul_v, sub_v, Num, SCALE};
use crate::traits::{High, Next, Period, Reset};

verus! {

/// Abstract state of a [`DirectionalMovementIndex`].
pub struct DxView {
    /// State of the owned smoothed negative directional movement.
    pub sndm: SdmView,
    /// State of the owned smoothed positive directional movement.
    pub spdm: SdmView,
    /// State of the owned average true range.
    pub atr: AtrView,
}

/// State of a fresh indicator.
pub open spec fn dx_init(period: nat) -> DxView {
    DxView { sndm: sdm_init(period), spdm: sdm_init(period), atr: atr_init(period) }
}

/// Output for one input: `100 * |pdi - ndi| / |pdi + ndi|` over the two
/// normalised directional movements.
pub open spec fn dx_out(s: DxView, x: int) -> int {
    let atr = atr_out(s.atr, x);
    let ndi = div_v(sdm_neg_out(s.sndm, x), atr);
    let pdi = div_v(sdm_pos_out(s.spdm, x), atr);
    mul_v(clip(100 * SCALE as int), div_v(abs_v(sub_v(pdi, ndi)), abs_v(add_v(pdi, ndi))))
}

/// State after one input.
pub open spec fn dx_step(s: DxView, x: int) -> DxView {
    DxView {
        sndm: sdm_neg_step(s.sndm, x),
        spdm: sdm_pos_step(s.spdm, x),
        atr: atr_step(s.atr, x),
    }
}

/// Both queues are nonempty; always true of reachable states.
pub open spec fn dx_ready(s: DxView) -> bool {
    &&& s.sndm.window.len() >= 1
    &&& s.spdm.window.len() >= 1
}

/// Directional Movement Index (DX): the normalised gap between the
/// positive and negative directional indicators.
///
/// # Parameters
///
/// * `period` - Smoothing period (samples) of SDM and ATR (nonzero
///   integer).
#[derive(Debug)]
pub struct DirectionalMovementIndex {
    sndm: SmoothedNegativeDirectionalMovement,
    spdm: SmoothedPositiveDirectionalMovement,
    atr: AverageTrueRange,
}

impl View for DirectionalMovementIndex {
    type V = DxView;

    closed spec fn view(&self) -> DxView {
        DxView { sndm: self.sndm@, spdm: self.spdm@, atr: self.atr@ }
    }
}

impl DirectionalMovementIndex {
    /// Build an indicator over the given period; a zero period is refused.
    pub fn new(period: usize) -> (r: Result<Self, TaError>)
        ensures
            match r {
                Ok(s) => 1 <= period < usize::MAX && s@ == dx_init(period as nat),
                Err(e) => (period == 0 || period == usize::MAX) && e == TaError::InvalidParameter,
            },
    {
        let sndm = match SmoothedNegativeDirectionalMovement::new(period) {
            Ok(s) => s,
            Err(e) => {
                return Err(e);
            },
        };
        let spdm = match SmoothedPositiveDirectionalMovement::new(period) {
            Ok(s) => s,
            Err(e) => {
                return Err(e);
            },
        };
        let atr = match AverageTrueRange::new(period) {
            Ok(a) => a,
            Err(e) => {
                return Err(e);
            },
        };
        Ok(DirectionalMovementIndex { sndm, spdm, atr })
    }
}

impl Period for DirectionalMovementIndex {
    fn period(&self) -> (r: usize)
        ensures
            r as nat == self@.atr.ema.period,
            r >= 1,
    {
        self.atr.period()
    }
}

impl Next<Num> for DirectionalMovementIndex {
    type Output = Num;

    fn next(&mut self, input: Num) -> (r: Num)
        ensures
            dx_ready(old(self)@) ==> final(self)@ == dx_step(old(self)@, input@) && r@ == dx_out(
                old(self)@,
                input@,
            ),
            dx_ready(final(self)@),
    {
        let atr = self.atr.next(input);
        let ndi = self.sndm.next(input).div(atr);
        let pdi = self.spdm.next(input).div(atr);

        Num::from_int(100).mul(pdi.sub(ndi).abs().div(pdi.add(ndi).abs()))
    }
}

impl<T: High> Next<&T> for DirectionalMovementIndex {
    type Output = Num;

    fn next(&mut self, input: &T) -> (r: Num)
        ensures
            dx_ready(old(self)@) ==> final(self)@ == dx_step(old(self)@, input.high_spec()) && r@
                == dx_out(old(self)@, input.high_spec()),
            dx_ready(final(self)@),
    {
        let h = input.high();
        Next::<Num>::next(self, h)
    }
}

impl Reset for DirectionalMovementIndex {
    fn reset(&mut self)
        ensures
            final(self)@.sndm == (SdmView {
                period: old(self)@.sndm.period,
                sum: 0,
                window: seq![0],
                dm: crate::indicators::DmView {
                    current: old(self)@.sndm.dm.current,
                    is_new: true,
                },
            }),
            final(self)@.spdm == (SdmView {
                period: old(self)@.spdm.period,
                sum: 0,
                window: seq![0],
                dm: crate::indicators::DmView {
                    current: old(self)@.spdm.dm.current,
                    is_new: true,
                },
            }),
            final(self)@.atr == atr_init(old(self)@.atr.ema.period),
    {
        self.sndm.reset();
        self.spdm.reset();
        self.atr.reset()
    }
}

impl Clone for DirectionalMovementIndex {
    /// A clone is an independent, identically behaving instance.
    fn clone(&self) -> (r: Self)
        ensures
            r@ == self@,
    {
        DirectionalMovementIndex {
            sndm: self.sndm.clone(),
            spdm: self.spdm.clone(),
            atr: self.atr.clone(),
        }
    }
}

impl Default for DirectionalMovementIndex {
    fn default() -> (r: Self)
        ensures
            r@ == dx_init(14),
    {
        DirectionalMovementIndex::new(14).unwrap()
    }
}

impl DirectionalMovementIndex {
    /// The canonical display form, derived from the construction
    /// parameters alone.
    pub fn to_string(&self) -> (r: String)
        ensures
            r@ == crate::text::named1("DX"@, self@.atr.ema.period),
    {
        crate::text::format_name1("DX", self.atr.period())
    }
}

/// A plain-value snapshot of the indicator's full state.
#[derive(Debug, Clone, PartialEq)]
pub struct DxSnapshot {
    /// Snapshot of the owned smoothed negative directional movement.
    pub sndm: crate::indicators::SdmSnapshot,
    /// Snapshot of the owned smoothed positive directional movement.
    pub spdm: crate::indicators::SdmSnapshot,
    /// Snapshot of the owned average true range.
    pub atr: crate::indicators::AtrSnapshot,
}

/// The abstract state a snapshot holds.
pub open spec fn dx_snapshot_view(s: &DxSnapshot) -> DxView {
    DxView {
        sndm: crate::indicators::sdm_snapshot_view(&s.sndm),
        spdm: crate::indicators::sdm_snapshot_view(&s.spdm),
        atr: crate::indicators::atr_snapshot_view(&s.atr),
    }
}

/// A snapshot whose fields the indicator can actually hold.
pub open spec fn dx_snapshot_valid(s: &DxSnapshot) -> bool {
    &&& crate::indicators::sdm_snapshot_valid(&s.sndm)
    &&& crate::indicators::sdm_snapshot_valid(&s.spdm)
    &&& crate::indicators::atr_snapshot_valid(&s.atr)
}

impl DirectionalMovementIndex {
    /// Capture the full state.
    pub fn snapshot(&self) -> (s: DxSnapshot)
        ensures
            dx_snapshot_view(&s) == self@,
            dx_snapshot_valid(&s),
    {
        DxSnapshot {
            sndm: self.sndm.snapshot(),
            spdm: self.spdm.snapshot(),
            atr: self.atr.snapshot(),
        }
    }

    /// Rebuild an indicator from a snapshot; inconsistent children are
    /// refused.  Restoring what [`Self::snapshot`] captured gives back
    /// exactly the captured state.
    pub fn restore(s: &DxSnapshot) -> (r: Result<Self, TaError>)
        ensures
            match r {
                Ok(t) => dx_snapshot_valid(s) && t@ == dx_snapshot_view(s),
                Err(e) => !dx_snapshot_valid(s) && e == TaError::InvalidParameter,
            },
    {
        let sndm = match SmoothedNegativeDirectionalMovement::restore(&s.sndm) {
            Ok(t) => t,
            Err(e) => {
                return Err(e);
            },
        };
        let spdm = match SmoothedPositiveDirectionalMovement::restore(&s.spdm) {
            Ok(t) => t,
            Err(e) => {
                return Err(e);
            },
        };
        let atr = match AverageTrueRange::restore(&s.atr) {
            Ok(t) => t,
            Err(e) => {
                return Err(e);
            },
        };
        Ok(DirectionalMovementIndex { sndm, spdm, atr })
    }
}

} // verus!
