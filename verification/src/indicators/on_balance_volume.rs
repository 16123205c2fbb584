//! On balance volume.

use vstd::prelude::*;

use crate::num::{add_v, sub_v, Num};
use crate::traits::{Close, Next, Reset, Volume};

verus! {

/// Abstract state of an [`OnBalanceVolume`].
pub struct ObvView {
    /// The running balance, as a raw fixed-point value.
    pub obv: int,
    /// The previous close, as a raw fixed-point value.
    pub prev_close: int,
}

/// State of a fresh indicator.
pub open spec fn obv_init() -> ObvView {
    ObvView { obv: 0, prev_close: 0 }
}

/// The balance after one bar: volume is added on up bars, subtracted on
/// down bars, and left alone when the close is unchanged.
pub open spec fn obv_out(s: ObvView, close: int, volume: int) -> int {
    if close > s.prev_close {
        add_v(s.obv, volume)
    } else if close < s.prev_close {
        sub_v(s.obv, volume)
    } else {
        s.obv
    }
}

/// State after one bar.
pub open spec fn obv_step(s: ObvView, close: int, volume: int) -> ObvView {
    ObvView { obv: obv_out(s, close, volume), prev_close: close }
}

/// On Balance Volume (OBV): a cumulative volume total that adds the bar's
/// volume when the close rises and subtracts it when the close falls.
#[derive(Debug)]
pub struct OnBalanceVolume {
    obv: Num,
    prev_close: Num,
}

impl View for OnBalanceVolume {
    type V = ObvView;

    closed spec fn view(&self) -> ObvView {
        ObvView { obv: self.obv@, prev_close: self.prev_close@ }
    }
}

impl OnBalanceVolume {
    /// A fresh indicator with a zero balance.
    pub fn new() -> (r: Self)
        ensures
            r@ == obv_init(),
    {
        OnBalanceVolume { obv: Num::zero(), prev_close: Num::zero() }
    }
}

impl<T: Close + Volume> Next<&T> for OnBalanceVolume {
    type Output = Num;

    fn next(&mut self, input: &T) -> (r: Num)
        ensures
            final(self)@ == obv_step(old(self)@, input.close_spec(), input.volume_spec()),
            r@ == obv_out(old(self)@, input.close_spec(), input.volume_spec()),
    {
        if input.close() > self.prev_close {
            self.obv = self.obv.add(input.volume());
        } else if input.close() < self.prev_close {
            self.obv = self.obv.sub(input.volume());
        }
        self.prev_close = input.close();
        self.obv
    }
}

impl Reset for OnBalanceVolume {
    fn reset(&mut self)
        ensures
            final(self)@ == obv_init(),
    {
        self.obv = Num::zero();
        self.prev_close = Num::zero();
    }
}

impl Clone for OnBalanceVolume {
    /// A clone is an independent, identically behaving instance.
    fn clone(&self) -> (r: Self)
        ensures
            r@ == self@,
    {
        OnBalanceVolume { obv: self.obv, prev_close: self.prev_close }
    }
}

impl Default for OnBalanceVolume {
    fn default() -> (r: Self)
        ensures
            r@ == obv_init(),
    {
        OnBalanceVolume::new()
    }
}

impl OnBalanceVolume {
    /// The canonical display form, derived from the construction
    /// parameters alone.
    pub fn to_string(&self) -> (r: String)
        ensures
            r@ == "OBV"@,
    {
        crate::text::format_bare("OBV")
    }
}

/// A plain-value snapshot of the indicator's full state.
#[derive(Debug, Clone, PartialEq)]
pub struct ObvSnapshot {
    /// The running balance.
    pub obv: Num,
    /// The previous close.
    pub prev_close: Num,
}

/// The abstract state a snapshot holds.
pub open spec fn obv_snapshot_view(s: &ObvSnapshot) -> ObvView {
    ObvView { obv: s.obv@, prev_close: s.prev_close@ }
}

impl OnBalanceVolume {
    /// Capture the full state.
    pub fn snapshot(&self) -> (s: ObvSnapshot)
        ensures
            obv_snapshot_view(&s) == self@,
    {
        ObvSnapshot { obv: self.obv, prev_close: self.prev_close }
    }

    /// Rebuild an indicator from a snapshot; every snapshot is a state the
    /// indicator can hold, so restoring cannot fail, and restoring what
    /// [`Self::snapshot`] captured gives back exactly the captured state.
    pub fn restore(s: &ObvSnapshot) -> (r: Self)
        ensures
            r@ == obv_snapshot_view(s),
    {
        OnBalanceVolume { obv: s.obv, prev_close: s.prev_close }
    }
}

} // verus!
