//! Volume weighted average price.

use vstd::prelude::*;

use crate::num::{add_v, clip, div_v, mul_v, sqrt_v, sub_v, Num, SCALE};
use crate::traits::{Close, High, Low, Next, Reset, Volume};

verus! {

/// Which band a [`VolumeWeightedAveragePrice::std_dev`] query asks for.
#[derive(Debug)]
pub enum VolumeWeightedAveragePriceBands {
    /// The average moved up by the queried number of deviations.
    Up,
    /// The average moved down by the queried number of deviations.
    Down,
}

/// Abstract state of a [`VolumeWeightedAveragePrice`].
pub struct VwapView {
    /// Cumulative `typical_price * volume`, as a raw fixed-point value.
    pub cumulative_total: int,
    /// Cumulative volume, as a raw fixed-point value.
    pub cumulative_volume: int,
    /// Cumulative `volume * typical_price^2`, as a raw fixed-point value.
    pub cumulative_v2: int,
    /// The current average, as a raw fixed-point value.
    pub vwap: int,
    /// The current volume-weighted deviation, as a raw fixed-point value.
    pub std_dev: int,
}

/// State of a fresh indicator.
pub open spec fn vwap_init() -> VwapView {
    VwapView { cumulative_total: 0, cumulative_volume: 0, cumulative_v2: 0, vwap: 0, std_dev: 0 }
}

/// State after one bar: the three cumulative sums grow, the average is
/// their quotient, and the deviation is the square root of the (clamped)
/// difference between the volume-weighted mean square and the squared
/// average.
/// The typical price as this indicator computes it: the mean of high, low
/// and close, summed in that order.
pub open spec fn vwap_typical_price(high: int, low: int, close: int) -> int {
    div_v(add_v(add_v(high, low), close), clip(3 * SCALE as int))
}

pub open spec fn vwap_step(s: VwapView, high: int, low: int, close: int, volume: int) -> VwapView {
    let tp = vwap_typical_price(high, low, close);
    let cv = add_v(volume, s.cumulative_volume);
    let ct = add_v(mul_v(tp, volume), s.cumulative_total);
    let vwap = div_v(ct, cv);
    let cv2 = add_v(mul_v(mul_v(volume, tp), tp), s.cumulative_v2);
    let variance = sub_v(div_v(cv2, cv), mul_v(vwap, vwap));
    let dev = sqrt_v(if variance >= 0 {
        variance
    } else {
        0
    });
    VwapView {
        cumulative_total: ct,
        cumulative_volume: cv,
        cumulative_v2: cv2,
        vwap,
        std_dev: dev,
    }
}

/// Output for one bar: the updated average.
pub open spec fn vwap_out(s: VwapView, high: int, low: int, close: int, volume: int) -> int {
    vwap_step(s, high, low, close, volume).vwap
}

/// A band query: the average moved by `offset` deviations.
pub open spec fn vwap_band(s: VwapView, offset: int, up: bool) -> int {
    if up {
        add_v(s.vwap, mul_v(offset, s.std_dev))
    } else {
        sub_v(s.vwap, mul_v(offset, s.std_dev))
    }
}

/// Volume Weighted Average Price (VWAP): the cumulative average of the
/// typical price weighted by volume, with volume-weighted deviation bands.
#[derive(Debug)]
pub struct VolumeWeightedAveragePrice {
    cumulative_total: Num,
    cumulative_volume: Num,
    cumulative_v2: Num,
    vwap: Num,
    std_dev: Num,
}

impl View for VolumeWeightedAveragePrice {
    type V = VwapView;

    closed spec fn view(&self) -> VwapView {
        VwapView {
            cumulative_total: self.cumulative_total@,
            cumulative_volume: self.cumulative_volume@,
            cumulative_v2: self.cumulative_v2@,
            vwap: self.vwap@,
            std_dev: self.std_dev@,
        }
    }
}

impl VolumeWeightedAveragePrice {
    /// A fresh indicator with empty sums.
    pub fn new() -> (r: Self)
        ensures
            r@ == vwap_init(),
    {
        VolumeWeightedAveragePrice {
            cumulative_total: Num::zero(),
            cumulative_volume: Num::zero(),
            cumulative_v2: Num::zero(),
            vwap: Num::zero(),
            std_dev: Num::zero(),
        }
    }

    /// The average moved up or down by `offset` deviations.
    pub fn std_dev(&self, offset: Num, band_direction: VolumeWeightedAveragePriceBands) -> (r:
        Num)
        ensures
            r@ == vwap_band(
                self@,
                offset@,
                band_direction is Up,
            ),
    {
        match band_direction {
            VolumeWeightedAveragePriceBands::Up => self.vwap.add(offset.mul(self.std_dev)),
            VolumeWeightedAveragePriceBands::Down => self.vwap.sub(offset.mul(self.std_dev)),
        }
    }
}

impl<T: High + Low + Close + Volume> Next<&T> for VolumeWeightedAveragePrice {
    type Output = Num;

    fn next(&mut self, d: &T) -> (r: Num)
        ensures
            final(self)@ == vwap_step(
                old(self)@,
                d.high_spec(),
                d.low_spec(),
                d.close_spec(),
                d.volume_spec(),
            ),
            r@ == vwap_out(
                old(self)@,
                d.high_spec(),
                d.low_spec(),
                d.close_spec(),
                d.volume_spec(),
            ),
    {
        let typical_price = d.high().add(d.low()).add(d.close()).div(Num::from_int(3));

        self.cumulative_volume = d.volume().add(self.cumulative_volume);
        self.cumulative_total = typical_price.mul(d.volume()).add(self.cumulative_total);
        self.vwap = self.cumulative_total.div(self.cumulative_volume);
        self.cumulative_v2 = d.volume().mul(typical_price).mul(typical_price).add(
            self.cumulative_v2,
        );

        let val = self.cumulative_v2.div(self.cumulative_volume).sub(self.vwap.mul(self.vwap));
        self.std_dev = val.max(Num::zero()).sqrt();

        self.vwap
    }
}

impl Reset for VolumeWeightedAveragePrice {
    fn reset(&mut self)
        ensures
            final(self)@ == vwap_init(),
    {
        self.cumulative_total = Num::zero();
        self.cumulative_volume = Num::zero();
        self.cumulative_v2 = Num::zero();
        self.vwap = Num::zero();
        self.std_dev = Num::zero();
    }
}

impl Clone for VolumeWeightedAveragePrice {
    /// A clone is an independent, identically behaving instance.
    fn clone(&self) -> (r: Self)
        ensures
            r@ == self@,
    {
        VolumeWeightedAveragePrice {
            cumulative_total: self.cumulative_total,
            cumulative_volume: self.cumulative_volume,
            cumulative_v2: self.cumulative_v2,
            vwap: self.vwap,
            std_dev: self.std_dev,
        }
    }
}

impl Default for VolumeWeightedAveragePrice {
    fn default() -> (r: Self)
        ensures
            r@ == vwap_init(),
    {
        VolumeWeightedAveragePrice::new()
    }
}

impl VolumeWeightedAveragePrice {
    /// The canonical display form, derived from the construction
    /// parameters alone.
    pub fn to_string(&self) -> (r: String)
        ensures
            r@ == crate::text::named0("VWAP"@),
    {
        crate::text::format_name0("VWAP")
    }
}

/// A plain-value snapshot of the indicator's full state.
#[derive(Debug, Clone, PartialEq)]
pub struct VwapSnapshot {
    /// Cumulative `typical_price * volume`.
    pub cumulative_total: Num,
    /// Cumulative volume.
    pub cumulative_volume: Num,
    /// Cumulative `volume * typical_price^2`.
    pub cumulative_v2: Num,
    /// The current average.
    pub vwap: Num,
    /// The current volume-weighted deviation.
    pub std_dev: Num,
}

/// The abstract state a snapshot holds.
pub open spec fn vwap_snapshot_view(s: &VwapSnapshot) -> VwapView {
    VwapView {
        cumulative_total: s.cumulative_total@,
        cumulative_volume: s.cumulative_volume@,
        cumulative_v2: s.cumulative_v2@,
        vwap: s.vwap@,
        std_dev: s.std_dev@,
    }
}

impl VolumeWeightedAveragePrice {
    /// Capture the full state.
    pub fn snapshot(&self) -> (s: VwapSnapshot)
        ensures
            vwap_snapshot_view(&s) == self@,
    {
        VwapSnapshot {
            cumulative_total: self.cumulative_total,
            cumulative_volume: self.cumulative_volume,
            cumulative_v2: self.cumulative_v2,
            vwap: self.vwap,
            std_dev: self.std_dev,
        }
    }

    /// Rebuild an indicator from a snapshot; every snapshot is a state the
    /// indicator can hold, so restoring cannot fail, and restoring what
    /// [`Self::snapshot`] captured gives back exactly the captured state.
    pub fn restore(s: &VwapSnapshot) -> (r: Self)
        ensures
            r@ == vwap_snapshot_view(s),
    {
        VolumeWeightedAveragePrice {
            cumulative_total: s.cumulative_total,
            cumulative_volume: s.cumulative_volume,
            cumulative_v2: s.cumulative_v2,
            vwap: s.vwap,
            std_dev: s.std_dev,
        }
    }
}

} // verus!
