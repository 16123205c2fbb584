//! Relative strength index.

use vstd::prelude::*;

use crate::errors::TaError;
use crate::indicators::exponential_moving_average::{
    ema_init, ema_out, ema_step, EmaView, ExponentialMovingAverage,
};
use crate::num::{add_v, clip, div_v, mul_v, sub_v, Num, SCALE};
use crate::traits::{Close, Next, Period, Reset};

verus! {

/// Abstract state of a [`RelativeStrengthIndex`].
pub struct RsiView {
    /// The configured period.
    pub period: nat,
    /// State of the smoother of upward moves.
    pub up_ema: EmaView,
    /// State of the smoother of downward moves.
    pub down_ema: EmaView,
    /// The previous input, as a raw fixed-point value.
    pub prev_val: int,
    /// True until the first input arrives.
    pub is_new: bool,
}

/// A well-formed state: both smoothers configured over the indicator's
/// own period.
pub open spec fn rsi_wf(s: RsiView) -> bool {
    &&& s.up_ema.period == s.period
    &&& s.down_ema.period == s.period
}

/// State of a fresh indicator.
pub open spec fn rsi_init(period: nat) -> RsiView {
    RsiView {
        period,
        up_ema: ema_init(period),
        down_ema: ema_init(period),
        prev_val: 0,
        is_new: true,
    }
}

/// The upward and downward move fed to the two smoothers for one input.
/// The very first input seeds both with the small constant `0.1`, so that
/// the quotient below never divides zero by zero.
pub open spec fn rsi_moves(s: RsiView, x: int) -> (int, int) {
    if s.is_new {
        (100_000_000_000, 100_000_000_000)
    } else if x > s.prev_val {
        (sub_v(x, s.prev_val), 0)
    } else {
        (0, sub_v(s.prev_val, x))
    }
}

/// State after one input.
pub open spec fn rsi_step(s: RsiView, x: int) -> RsiView {
    let moves = rsi_moves(s, x);
    RsiView {
        up_ema: ema_step(s.up_ema, moves.0),
        down_ema: ema_step(s.down_ema, moves.1),
        prev_val: x,
        is_new: false,
        period: s.period,
    }
}

/// Output for one input: `100 * up / (up + down)` over the smoothed moves.
pub open spec fn rsi_out(s: RsiView, x: int) -> int {
    let moves = rsi_moves(s, x);
    let up = ema_out(s.up_ema, moves.0);
    let down = ema_out(s.down_ema, moves.1);
    div_v(mul_v(clip(100 * SCALE as int), up), add_v(up, down))
}

/// State after a whole input sequence.
pub open spec fn rsi_run(s: RsiView, xs: Seq<int>) -> RsiView
    decreases xs.len(),
{
    if xs.len() == 0 {
        s
    } else {
        rsi_run(rsi_step(s, xs[0]), xs.skip(1))
    }
}

/// The relative strength index (RSI).
///
/// A momentum oscillator in the range 0..100 that compares the magnitude of
/// recent gains and losses: exponential moving averages of the upward and
/// downward moves, combined as `100 * up / (up + down)`.
///
/// # Parameters
///
/// * _period_ - number of periods (integer greater than 0). Default value is 14.
#[derive(Debug)]
pub struct RelativeStrengthIndex {
    period: usize,
    up_ema_indicator: ExponentialMovingAverage,
    down_ema_indicator: ExponentialMovingAverage,
    prev_val: Num,
    is_new: bool,
}

impl View for RelativeStrengthIndex {
    type V = RsiView;

    closed spec fn view(&self) -> RsiView {
        RsiView {
            period: self.period as nat,
            up_ema: self.up_ema_indicator@,
            down_ema: self.down_ema_indicator@,
            prev_val: self.prev_val@,
            is_new: self.is_new,
        }
    }
}

impl RelativeStrengthIndex {
    /// Build an indicator over the given period; a zero period is refused.
    pub fn new(period: usize) -> (r: Result<Self, TaError>)
        ensures
            match r {
                Ok(s) => period >= 1 && s@ == rsi_init(period as nat) && rsi_wf(s@),
                Err(e) => period == 0 && e == TaError::InvalidParameter,
            },
    {
        let up = match ExponentialMovingAverage::new(period) {
            Ok(e) => e,
            Err(e) => {
                return Err(e);
            },
        };
        let down = match ExponentialMovingAverage::new(period) {
            Ok(e) => e,
            Err(e) => {
                return Err(e);
            },
        };
        Ok(
            RelativeStrengthIndex {
                period,
                up_ema_indicator: up,
                down_ema_indicator: down,
                prev_val: Num::zero(),
                is_new: true,
            },
        )
    }
}

impl Period for RelativeStrengthIndex {
    fn period(&self) -> (r: usize)
        ensures
            r as nat == self@.period,
    {
        self.period
    }
}

impl Next<Num> for RelativeStrengthIndex {
    type Output = Num;

    fn next(&mut self, input: Num) -> (r: Num)
        ensures
            final(self)@ == rsi_step(old(self)@, input@),
            r@ == rsi_out(old(self)@, input@),
    {
        let mut up = Num::zero();
        let mut down = Num::zero();

        if self.is_new {
            self.is_new = false;
            // Seed both smoothers away from zero so the first quotient is
            // not zero divided by zero.
            up = Num::from_raw(100_000_000_000);
            down = Num::from_raw(100_000_000_000);
        } else if input > self.prev_val {
            up = input.sub(self.prev_val);
        } else {
            down = self.prev_val.sub(input);
        }

        self.prev_val = input;
        let up_ema = self.up_ema_indicator.next(up);
        let down_ema = self.down_ema_indicator.next(down);
        Num::from_int(100).mul(up_ema).div(up_ema.add(down_ema))
    }
}

impl<T: Close> Next<&T> for RelativeStrengthIndex {
    type Output = Num;

    fn next(&mut self, input: &T) -> (r: Num)
        ensures
            final(self)@ == rsi_step(old(self)@, input.close_spec()),
            r@ == rsi_out(old(self)@, input.close_spec()),
    {
        let c = input.close();
        Next::<Num>::next(self, c)
    }
}

impl Reset for RelativeStrengthIndex {
    fn reset(&mut self)
        ensures
            final(self)@ == (RsiView {
                period: old(self)@.period,
                up_ema: ema_init(old(self)@.up_ema.period),
                down_ema: ema_init(old(self)@.down_ema.period),
                prev_val: 0,
                is_new: true,
            }),
            rsi_wf(old(self)@) ==> final(self)@ == rsi_init(old(self)@.period),
    {
        self.is_new = true;
        self.prev_val = Num::zero();
        self.up_ema_indicator.reset();
        self.down_ema_indicator.reset();
    }
}

impl Clone for RelativeStrengthIndex {
    /// A clone is an independent, identically behaving instance.
    fn clone(&self) -> (r: Self)
        ensures
            r@ == self@,
    {
        RelativeStrengthIndex {
            period: self.period,
            up_ema_indicator: self.up_ema_indicator.clone(),
            down_ema_indicator: self.down_ema_indicator.clone(),
            prev_val: self.prev_val,
            is_new: self.is_new,
        }
    }
}

impl Default for RelativeStrengthIndex {
    fn default() -> (r: Self)
        ensures
            r@ == rsi_init(14),
    {
        RelativeStrengthIndex::new(14).unwrap()
    }
}

impl RelativeStrengthIndex {
    /// The canonical display form, derived from the construction
    /// parameters alone.
    pub fn to_string(&self) -> (r: String)
        ensures
            r@ == crate::text::named1("RSI"@, self@.period),
    {
        crate::text::format_name1("RSI", self.period)
    }
}

/// A plain-value snapshot of the indicator's full state.
#[derive(Debug, Clone, Copy, PartialEq, Eq, Structural)]
pub struct RsiSnapshot {
    /// The configured period.
    pub period: usize,
    /// Snapshot of the smoother of upward moves.
    pub up_ema: crate::indicators::EmaSnapshot,
    /// Snapshot of the smoother of downward moves.
    pub down_ema: crate::indicators::EmaSnapshot,
    /// The previous input.
    pub prev_val: Num,
    /// True until the first input arrives.
    pub is_new: bool,
}

/// The abstract state a snapshot holds.
pub open spec fn rsi_snapshot_view(s: &RsiSnapshot) -> RsiView {
    RsiView {
        period: s.period as nat,
        up_ema: crate::indicators::ema_snapshot_view(&s.up_ema),
        down_ema: crate::indicators::ema_snapshot_view(&s.down_ema),
        prev_val: s.prev_val@,
        is_new: s.is_new,
    }
}

/// A snapshot whose fields the indicator can actually hold.
pub open spec fn rsi_snapshot_valid(s: &RsiSnapshot) -> bool {
    &&& crate::indicators::ema_snapshot_valid(&s.up_ema)
    &&& crate::indicators::ema_snapshot_valid(&s.down_ema)
}

impl RelativeStrengthIndex {
    /// Capture the full state.
    pub fn snapshot(&self) -> (s: RsiSnapshot)
        ensures
            rsi_snapshot_view(&s) == self@,
            rsi_snapshot_valid(&s),
    {
        RsiSnapshot {
            period: self.period,
            up_ema: self.up_ema_indicator.snapshot(),
            down_ema: self.down_ema_indicator.snapshot(),
            prev_val: self.prev_val,
            is_new: self.is_new,
        }
    }

    /// Rebuild an indicator from a snapshot; a zero smoother period is
    /// refused.  Restoring what [`Self::snapshot`] captured gives back
    /// exactly the captured state.
    pub fn restore(s: &RsiSnapshot) -> (r: Result<Self, TaError>)
        ensures
            match r {
                Ok(t) => rsi_snapshot_valid(s) && t@ == rsi_snapshot_view(s),
                Err(e) => !rsi_snapshot_valid(s) && e == TaError::InvalidParameter,
            },
    {
        let up = match ExponentialMovingAverage::restore(&s.up_ema) {
            Ok(e) => e,
            Err(e) => {
                return Err(e);
            },
        };
        let down = match ExponentialMovingAverage::restore(&s.down_ema) {
            Ok(e) => e,
            Err(e) => {
                return Err(e);
            },
        };
        Ok(
            RelativeStrengthIndex {
                period: s.period,
                up_ema_indicator: up,
                down_ema_indicator: down,
                prev_val: s.prev_val,
                is_new: s.is_new,
            },
        )
    }
}

} // verus!
