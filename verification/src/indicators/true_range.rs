//! True range.

use vstd::prelude::*;

use crate::helpers::{max3, max3_v};
use crate::num::{abs_v, sub_v, Num};
use crate::traits::{Close, High, Low, Next, Reset};

verus! {

/// Abstract state of a [`TrueRange`]: the previous close, if any.
pub struct TrView {
    /// Close of the previous period, as a raw fixed-point value.
    pub prev_close: Option<int>,
}

/// State of a fresh indicator.
pub open spec fn tr_init() -> TrView {
    TrView { prev_close: None }
}

/// Output for one bare value: its distance from the previous value, or zero
/// on the first call.
pub open spec fn tr_out(s: TrView, x: int) -> int {
    match s.prev_close {
        Some(prev) => abs_v(sub_v(x, prev)),
        None => 0,
    }
}

/// State after one bare value.
pub open spec fn tr_step(s: TrView, x: int) -> TrView {
    TrView { prev_close: Some(x) }
}

/// Output for one bar: the largest of `high - low`, `|high - prev_close|`
/// and `|low - prev_close|`; just `high - low` on the first call.
pub open spec fn tr_out_bar(s: TrView, high: int, low: int) -> int {
    match s.prev_close {
        Some(prev) => max3_v(
            sub_v(high, low),
            abs_v(sub_v(high, prev)),
            abs_v(sub_v(low, prev)),
        ),
        None => sub_v(high, low),
    }
}

/// State after one bar: the bar's close becomes the previous close.
pub open spec fn tr_step_bar(s: TrView, close: int) -> TrView {
    TrView { prev_close: Some(close) }
}

/// The range of a day's trading is simply _high_ - _low_.  The true range
/// extends it to yesterday's closing price if it was outside of today's
/// range.
///
/// # Formula
///
/// TR = max[(high - low), abs(high - close<sub>prev</sub>), abs(low - close<sub>prev</sub>)]
#[derive(Debug)]
pub struct TrueRange {
    prev_close: Option<Num>,
}

impl View for TrueRange {
    type V = TrView;

    closed spec fn view(&self) -> TrView {
        TrView {
            prev_close: match self.prev_close {
                Some(p) => Some(p@),
                None => None,
            },
        }
    }
}

impl TrueRange {
    /// A fresh indicator with no previous close.
    pub fn new() -> (r: Self)
        ensures
            r@ == tr_init(),
    {
        TrueRange { prev_close: None }
    }
}

impl Next<Num> for TrueRange {
    type Output = Num;

    fn next(&mut self, input: Num) -> (r: Num)
        ensures
            final(self)@ == tr_step(old(self)@, input@),
            r@ == tr_out(old(self)@, input@),
    {
        let distance = match self.prev_close {
            Some(prev) => input.sub(prev).abs(),
            None => Num::zero(),
        };
        self.prev_close = Some(input);
        distance
    }
}

impl<T: High + Low + Close> Next<&T> for TrueRange {
    type Output = Num;

    fn next(&mut self, bar: &T) -> (r: Num)
        ensures
            final(self)@ == tr_step_bar(old(self)@, bar.close_spec()),
            r@ == tr_out_bar(old(self)@, bar.high_spec(), bar.low_spec()),
    {
        let max_dist = match self.prev_close {
            Some(prev_close) => {
                let dist1 = bar.high().sub(bar.low());
                let dist2 = bar.high().sub(prev_close).abs();
                let dist3 = bar.low().sub(prev_close).abs();
                max3(dist1, dist2, dist3)
            },
            None => bar.high().sub(bar.low()),
        };
        self.prev_close = Some(bar.close());
        max_dist
    }
}

impl Reset for TrueRange {
    fn reset(&mut self)
        ensures
            final(self)@ == tr_init(),
    {
        self.prev_close = None;
    }
}

impl Clone for TrueRange {
    /// A clone is an independent, identically behaving instance.
    fn clone(&self) -> (r: Self)
        ensures
            r@ == self@,
    {
        TrueRange { prev_close: self.prev_close }
    }
}

impl Default for TrueRange {
    fn default() -> (r: Self)
        ensures
            r@ == tr_init(),
    {
        TrueRange::new()
    }
}

impl TrueRange {
    /// The canonical display form, derived from the construction
    /// parameters alone.
    pub fn to_string(&self) -> (r: String)
        ensures
            r@ == crate::text::named0("TRUE_RANGE"@),
    {
        crate::text::format_name0("TRUE_RANGE")
    }
}

/// A plain-value snapshot of the indicator's full state.
#[derive(Debug, Clone, PartialEq)]
pub struct TrSnapshot {
    /// Close of the previous period, if any.
    pub prev_close: Option<Num>,
}

/// The abstract state a snapshot holds.
pub open spec fn tr_snapshot_view(s: &TrSnapshot) -> TrView {
    TrView {
        prev_close: match s.prev_close {
            Some(p) => Some(p@),
            None => None,
        },
    }
}

impl TrueRange {
    /// Capture the full state.
    pub fn snapshot(&self) -> (s: TrSnapshot)
        ensures
            tr_snapshot_view(&s) == self@,
    {
        TrSnapshot { prev_close: self.prev_close }
    }

    /// Rebuild an indicator from a snapshot; every snapshot is a state the
    /// indicator can hold, so restoring cannot fail, and restoring what
    /// [`Self::snapshot`] captured gives back exactly the captured state.
    pub fn restore(s: &TrSnapshot) -> (r: Self)
        ensures
            r@ == tr_snapshot_view(s),
    {
        TrueRange { prev_close: s.prev_close }
    }
}

} // verus!
