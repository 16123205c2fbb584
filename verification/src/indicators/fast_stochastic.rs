//! Fast stochastic oscillator.

use vstd::prelude::*;

use crate::errors::TaError;
use crate::indicators::maximum::{max_init, max_out, max_step, MaxView, Maximum};
use crate::indicators::minimum::{min_init, min_out, min_step, MinView, Minimum};
use crate::num::{clip, div_v, mul_v, sub_v, Num, SCALE};
use crate::traits::{Close, High, Low, Next, Period, Reset};

verus! {

/// Abstract state of a [`FastStochastic`].
pub struct FastStochasticView {
    /// The configured period.
    pub length: nat,
    /// State of the owned minimum tracker.
    pub minimum: MinView,
    /// State of the owned maximum tracker.
    pub maximum: MaxView,
}

/// State of a fresh oscillator.
pub open spec fn fast_stochastic_init(length: nat) -> FastStochasticView {
    FastStochasticView { length, minimum: min_init(length), maximum: max_init(length) }
}

/// The oscillator value for a close and the window extrema:
/// `100 * (close - min) / (max - min)`, or the neutral 50 when the window
/// has zero range.
pub open spec fn stochastic_value(close: int, mn: int, mx: int) -> int {
    if mn == mx {
        clip(50 * SCALE as int)
    } else {
        mul_v(div_v(sub_v(close, mn), sub_v(mx, mn)), clip(100 * SCALE as int))
    }
}

/// Output for one bare value, fed to both trackers.
pub open spec fn fast_stochastic_out(s: FastStochasticView, x: int) -> int {
    stochastic_value(x, min_out(s.minimum, x), max_out(s.maximum, x))
}

/// State after one bare value.
pub open spec fn fast_stochastic_step(s: FastStochasticView, x: int) -> FastStochasticView {
    FastStochasticView {
        minimum: min_step(s.minimum, x),
        maximum: max_step(s.maximum, x),
        length: s.length,
    }
}

/// Output for one bar: the high feeds the maximum, the low the minimum,
/// and the close is measured inside that range.
pub open spec fn fast_stochastic_out_bar(
    s: FastStochasticView,
    high: int,
    low: int,
    close: int,
) -> int {
    stochastic_value(close, min_out(s.minimum, low), max_out(s.maximum, high))
}

/// State after one bar.
pub open spec fn fast_stochastic_step_bar(
    s: FastStochasticView,
    high: int,
    low: int,
) -> FastStochasticView {
    FastStochasticView {
        minimum: min_step(s.minimum, low),
        maximum: max_step(s.maximum, high),
        length: s.length,
    }
}

/// Fast stochastic oscillator: the position of the close inside the range
/// of the last _length_ periods, scaled to 0..100; 50 when the range is
/// empty.
///
/// # Parameters
///
/// * _length_ - number of periods (integer greater than 0). Default is 14.
#[derive(Debug)]
pub struct FastStochastic {
    length: usize,
    minimum: Minimum,
    maximum: Maximum,
}

impl View for FastStochastic {
    type V = FastStochasticView;

    closed spec fn view(&self) -> FastStochasticView {
        FastStochasticView {
            length: self.length as nat,
            minimum: self.minimum@,
            maximum: self.maximum@,
        }
    }
}

impl FastStochastic {
    /// Build an oscillator over the given period; a zero period is refused.
    pub fn new(length: usize) -> (r: Result<Self, TaError>)
        ensures
            match r {
                Ok(s) => length >= 1 && s@ == fast_stochastic_init(length as nat),
                Err(e) => length == 0 && e == TaError::InvalidParameter,
            },
    {
        let minimum = match Minimum::new(length) {
            Ok(m) => m,
            Err(e) => {
                return Err(e);
            },
        };
        let maximum = match Maximum::new(length) {
            Ok(m) => m,
            Err(e) => {
                return Err(e);
            },
        };
        Ok(FastStochastic { length, minimum, maximum })
    }

    /// The configured period.
    pub fn length(&self) -> (r: usize)
        ensures
            r as nat == self@.length,
    {
        self.length
    }
}

impl Next<Num> for FastStochastic {
    type Output = Num;

    fn next(&mut self, input: Num) -> (r: Num)
        ensures
            final(self)@ == fast_stochastic_step(old(self)@, input@),
            r@ == fast_stochastic_out(old(self)@, input@),
    {
        let min = self.minimum.next(input);
        let max = self.maximum.next(input);
        proof {
            crate::num::lemma_num_view_injective(min, max);
        }

        if min == max {
            // A window with no range has no position inside it; report the
            // neutral midpoint.
            Num::from_int(50)
        } else {
            input.sub(min).div(max.sub(min)).mul(Num::from_int(100))
        }
    }
}

impl<T: High + Low + Close> Next<&T> for FastStochastic {
    type Output = Num;

    fn next(&mut self, input: &T) -> (r: Num)
        ensures
            final(self)@ == fast_stochastic_step_bar(
                old(self)@,
                input.high_spec(),
                input.low_spec(),
            ),
            r@ == fast_stochastic_out_bar(
                old(self)@,
                input.high_spec(),
                input.low_spec(),
                input.close_spec(),
            ),
    {
        let highest = self.maximum.next(input.high());
        let lowest = self.minimum.next(input.low());
        let close = input.close();
        proof {
            crate::num::lemma_num_view_injective(highest, lowest);
        }

        if highest == lowest {
            Num::from_int(50)
        } else {
            close.sub(lowest).div(highest.sub(lowest)).mul(Num::from_int(100))
        }
    }
}

impl Reset for FastStochastic {
    fn reset(&mut self)
        ensures
            final(self)@.length == old(self)@.length,
            final(self)@.minimum == min_init(old(self)@.minimum.period),
            final(self)@.maximum == max_init(old(self)@.maximum.period),
            old(self)@.minimum.period == old(self)@.length && old(self)@.maximum.period == old(
                self,
            )@.length ==> final(self)@ == fast_stochastic_init(old(self)@.length),
    {
        self.minimum.reset();
        self.maximum.reset();
    }
}

impl Clone for FastStochastic {
    /// A clone is an independent, identically behaving instance.
    fn clone(&self) -> (r: Self)
        ensures
            r@ == self@,
    {
        FastStochastic {
            length: self.length,
            minimum: self.minimum.clone(),
            maximum: self.maximum.clone(),
        }
    }
}

impl Default for FastStochastic {
    fn default() -> (r: Self)
        ensures
            r@ == fast_stochastic_init(14),
    {
        FastStochastic::new(14).unwrap()
    }
}

impl FastStochastic {
    /// The canonical display form, derived from the construction
    /// parameters alone.
    pub fn to_string(&self) -> (r: String)
        ensures
            r@ == crate::text::named1("FAST_STOCH"@, self@.length),
    {
        crate::text::format_name1("FAST_STOCH", self.length)
    }
}

/// A plain-value snapshot of the oscillator's full state.
#[derive(Debug, Clone, PartialEq)]
pub struct FastStochasticSnapshot {
    /// The configured period.
    pub length: usize,
    /// Snapshot of the owned minimum tracker.
    pub minimum: crate::indicators::MinimumSnapshot,
    /// Snapshot of the owned maximum tracker.
    pub maximum: crate::indicators::MaximumSnapshot,
}

/// Does the snapshot hold exactly this abstract state?
pub open spec fn fast_stochastic_snapshot_of(
    s: &FastStochasticSnapshot,
    v: FastStochasticView,
) -> bool {
    &&& s.length as nat == v.length
    &&& crate::indicators::min_snapshot_of(&s.minimum, v.minimum)
    &&& crate::indicators::max_snapshot_of(&s.maximum, v.maximum)
}

/// The abstract state a restored oscillator holds: the extremum caches are
/// recomputed by a rescan.
pub open spec fn fast_stochastic_snapshot_view(s: &FastStochasticSnapshot) -> FastStochasticView {
    FastStochasticView {
        length: s.length as nat,
        minimum: crate::indicators::min_snapshot_view(&s.minimum),
        maximum: crate::indicators::max_snapshot_view(&s.maximum),
    }
}

/// A snapshot whose fields the oscillator can actually hold.
pub open spec fn fast_stochastic_snapshot_valid(s: &FastStochasticSnapshot) -> bool {
    &&& crate::indicators::min_snapshot_valid(&s.minimum)
    &&& crate::indicators::max_snapshot_valid(&s.maximum)
}

impl FastStochastic {
    /// Capture the full state.
    pub fn snapshot(&self) -> (s: FastStochasticSnapshot)
        ensures
            fast_stochastic_snapshot_of(&s, self@),
            fast_stochastic_snapshot_valid(&s),
    {
        FastStochasticSnapshot {
            length: self.length,
            minimum: self.minimum.snapshot(),
            maximum: self.maximum.snapshot(),
        }
    }

    /// Rebuild an oscillator from a snapshot; inconsistent children are
    /// refused.  The extremum caches are recomputed rather than trusted.
    pub fn restore(s: &FastStochasticSnapshot) -> (r: Result<Self, TaError>)
        ensures
            match r {
                Ok(t) => fast_stochastic_snapshot_valid(s) && t@ == fast_stochastic_snapshot_view(
                    s,
                ),
                Err(e) => !fast_stochastic_snapshot_valid(s) && e == TaError::InvalidParameter,
            },
    {
        let minimum = match Minimum::restore(&s.minimum) {
            Ok(t) => t,
            Err(e) => {
                return Err(e);
            },
        };
        let maximum = match Maximum::restore(&s.maximum) {
            Ok(t) => t,
            Err(e) => {
                return Err(e);
            },
        };
        Ok(FastStochastic { length: s.length, minimum, maximum })
    }
}

} // verus!
