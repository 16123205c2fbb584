//! Average directional index.

use vstd::prelude::*;

use crate::errors::TaError;
use crate::indicators::directional_movement_index::{
    dx_init, dx_out, dx_ready, dx_step, DirectionalMovementIndex, DxView,
};
use crate::num::{add_v, clip, div_v, mul_v, Num, SCALE};
use crate::traits::{High, Next, Period, Reset};

verus! {

/// Abstract state of an [`AverageDirectionalIndex`].
pub struct AdxView {
    /// The previous index value, as a raw fixed-point value.
    pub previous: int,
    /// State of the owned directional movement index.
    pub dx: DxView,
}

/// State of a fresh indicator.
pub open spec fn adx_init(period: nat) -> AdxView {
    AdxView { previous: 0, dx: dx_init(period) }
}

/// Output for one input: the Wilder average
/// `(previous * (period - 1) + current) / period` over the fresh index
/// value.
pub open spec fn adx_out(s: AdxView, x: int) -> int {
    let current = dx_out(s.dx, x);
    let period = s.dx.atr.ema.period;
    div_v(
        add_v(mul_v(s.previous, clip((period - 1) * SCALE as int)), current),
        clip(period * SCALE as int),
    )
}

/// State after one input.
pub open spec fn adx_step(s: AdxView, x: int) -> AdxView {
    AdxView { previous: dx_out(s.dx, x), dx: dx_step(s.dx, x) }
}

/// Average Directional Index (ADX): a smoothed moving average of the
/// directional movement index.
///
/// # Parameters
///
/// * `period` - Smoothing period (samples) of SDM and ATR (nonzero
///   integer) used in the DIs.
#[derive(Debug)]
pub struct AverageDirectionalIndex {
    previous: Num,
    dx: DirectionalMovementIndex,
}

impl View for AverageDirectionalIndex {
    type V = AdxView;

    closed spec fn view(&self) -> AdxView {
        AdxView { previous: self.previous@, dx: self.dx@ }
    }
}

impl AverageDirectionalIndex {
    /// Build an indicator over the given period; a zero period is refused.
    pub fn new(period: usize) -> (r: Result<Self, TaError>)
        ensures
            match r {
                Ok(s) => 1 <= period < usize::MAX && s@ == adx_init(period as nat),
                Err(e) => (period == 0 || period == usize::MAX) && e == TaError::InvalidParameter,
            },
    {
        match DirectionalMovementIndex::new(period) {
            Ok(dx) => Ok(AverageDirectionalIndex { previous: Num::zero(), dx }),
            Err(e) => Err(e),
        }
    }
}

impl Period for AverageDirectionalIndex {
    fn period(&self) -> (r: usize)
        ensures
            r as nat == self@.dx.atr.ema.period,
    {
        self.dx.period()
    }
}

impl Next<Num> for AverageDirectionalIndex {
    type Output = Num;

    fn next(&mut self, input: Num) -> (r: Num)
        ensures
            dx_ready(old(self)@.dx) ==> final(self)@ == adx_step(old(self)@, input@) && r@
                == adx_out(old(self)@, input@),
            dx_ready(final(self)@.dx),
    {
        let period = self.dx.period();
        let current = self.dx.next(input);
        let adx = self.previous.mul(Num::from_usize(period - 1)).add(current).div(
            Num::from_usize(period),
        );
        self.previous = current;

        adx
    }
}

impl<T: High> Next<&T> for AverageDirectionalIndex {
    type Output = Num;

    fn next(&mut self, input: &T) -> (r: Num)
        ensures
            dx_ready(old(self)@.dx) ==> final(self)@ == adx_step(old(self)@, input.high_spec())
                && r@ == adx_out(old(self)@, input.high_spec()),
            dx_ready(final(self)@.dx),
    {
        let h = input.high();
        Next::<Num>::next(self, h)
    }
}

impl Reset for AverageDirectionalIndex {
    fn reset(&mut self)
        ensures
            final(self)@.previous == 0,
            final(self)@.dx.sndm.window == seq![0int],
            final(self)@.dx.spdm.window == seq![0int],
            final(self)@.dx.sndm.sum == 0,
            final(self)@.dx.spdm.sum == 0,
            final(self)@.dx.sndm.dm.is_new,
            final(self)@.dx.spdm.dm.is_new,
            final(self)@.dx.atr == crate::indicators::atr_init(old(self)@.dx.atr.ema.period),
            final(self)@.dx.sndm.period == old(self)@.dx.sndm.period,
            final(self)@.dx.spdm.period == old(self)@.dx.spdm.period,
    {
        self.previous = Num::zero();
        self.dx.reset()
    }
}

impl Clone for AverageDirectionalIndex {
    /// A clone is an independent, identically behaving instance.
    fn clone(&self) -> (r: Self)
        ensures
            r@ == self@,
    {
        AverageDirectionalIndex { previous: self.previous, dx: self.dx.clone() }
    }
}

impl Default for AverageDirectionalIndex {
    fn default() -> (r: Self)
        ensures
            r@ == adx_init(14),
    {
        AverageDirectionalIndex::new(14).unwrap()
    }
}

impl AverageDirectionalIndex {
    /// The canonical display form, derived from the construction
    /// parameters alone.
    pub fn to_string(&self) -> (r: String)
        ensures
            r@ == crate::text::named1("ADX"@, self@.dx.atr.ema.period),
    {
        crate::text::format_name1("ADX", self.dx.period())
    }
}

/// A plain-value snapshot of the indicator's full state.
#[derive(Debug, Clone, PartialEq)]
pub struct AdxSnapshot {
    /// The previous index value.
    pub previous: Num,
    /// Snapshot of the owned directional movement index.
    pub dx: crate::indicators::DxSnapshot,
}

/// The abstract state a snapshot holds.
pub open spec fn adx_snapshot_view(s: &AdxSnapshot) -> AdxView {
    AdxView { previous: s.previous@, dx: crate::indicators::dx_snapshot_view(&s.dx) }
}

/// A snapshot whose fields the indicator can actually hold.
pub open spec fn adx_snapshot_valid(s: &AdxSnapshot) -> bool {
    crate::indicators::dx_snapshot_valid(&s.dx)
}

impl AverageDirectionalIndex {
    /// Capture the full state.
    pub fn snapshot(&self) -> (s: AdxSnapshot)
        ensures
            adx_snapshot_view(&s) == self@,
            adx_snapshot_valid(&s),
    {
        AdxSnapshot { previous: self.previous, dx: self.dx.snapshot() }
    }

    /// Rebuild an indicator from a snapshot; inconsistent children are
    /// refused.  Restoring what [`Self::snapshot`] captured gives back
    /// exactly the captured state.
    pub fn restore(s: &AdxSnapshot) -> (r: Result<Self, TaError>)
        ensures
            match r {
                Ok(t) => adx_snapshot_valid(s) && t@ == adx_snapshot_view(s),
                Err(e) => !adx_snapshot_valid(s) && e == TaError::InvalidParameter,
            },
    {
        match DirectionalMovementIndex::restore(&s.dx) {
            Ok(dx) => Ok(AverageDirectionalIndex { previous: s.previous, dx }),
            Err(e) => Err(e),
        }
    }
}

} // verus!
