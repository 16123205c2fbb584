//! Rotation factor.

use vstd::prelude::*;

use crate::helpers::views;
use crate::num::{add_v, Num, SCALE};
use crate::traits::{High, Low, Next, Reset};

verus! {

/// Abstract state of a [`RotationFactor`].
pub struct RotationFactorView {
    /// Accumulation history; stays empty, because every push is followed by
    /// dropping the front.
    pub data: Seq<int>,
    /// Running total of the factors, as a raw fixed-point value.
    pub accumulation: int,
    /// The previous high, if any, as a raw fixed-point value.
    pub prev_high: Option<int>,
    /// The previous low, if any, as a raw fixed-point value.
    pub prev_low: Option<int>,
}

/// State of a fresh indicator.
pub open spec fn rotation_factor_init() -> RotationFactorView {
    RotationFactorView { data: Seq::empty(), accumulation: 0, prev_high: None, prev_low: None }
}

/// The rotation factor of one bar against the previous extremes: one point
/// for a higher high, one for a higher low, minus one for each lower one;
/// forced to zero when either extreme fell by exactly one.
pub open spec fn rotation_factor_value(
    prev_high: Option<int>,
    prev_low: Option<int>,
    high: int,
    low: int,
) -> int {
    let h: int = match prev_high {
        Some(ph) => if high > ph {
            SCALE as int
        } else if high < ph {
            -(SCALE as int)
        } else {
            0
        },
        None => 0,
    };
    let l: int = match prev_low {
        Some(pl) => if low > pl {
            add_v(h, SCALE as int)
        } else if low < pl {
            add_v(h, -(SCALE as int))
        } else {
            h
        },
        None => h,
    };
    if prev_high is Some && prev_low is Some && (high == crate::num::sub_v(
        prev_high->0,
        SCALE as int,
    ) || low == crate::num::sub_v(prev_low->0, SCALE as int)) {
        0
    } else {
        l
    }
}

/// Output for one bar.
pub open spec fn rotation_factor_out(s: RotationFactorView, high: int, low: int) -> int {
    rotation_factor_value(s.prev_high, s.prev_low, high, low)
}

/// State after one bar.
pub open spec fn rotation_factor_step(s: RotationFactorView, high: int, low: int)
    -> RotationFactorView {
    let rf = rotation_factor_value(s.prev_high, s.prev_low, high, low);
    RotationFactorView {
        data: s.data.push(add_v(s.accumulation, rf)).skip(1),
        accumulation: add_v(s.accumulation, rf),
        prev_high: Some(high),
        prev_low: Some(low),
    }
}

/// Rotation Factor: measures the buy and sell pressure of the day by
/// scoring each bar's high and low against the previous bar's.
///
/// # Formula
///
/// * H<sub>t</sub> > H<sub>t-1</sub> adds one; H<sub>t</sub> < H<sub>t-1</sub> subtracts one.
/// * L<sub>t</sub> > L<sub>t-1</sub> adds one; L<sub>t</sub> < L<sub>t-1</sub> subtracts one.
/// * The first bar of the day is the baseline and scores zero.
#[derive(Debug)]
pub struct RotationFactor {
    data: Vec<Num>,
    accumulation: Num,
    prev_high: Option<Num>,
    prev_low: Option<Num>,
}

impl View for RotationFactor {
    type V = RotationFactorView;

    closed spec fn view(&self) -> RotationFactorView {
        RotationFactorView {
            data: views(self.data@),
            accumulation: self.accumulation@,
            prev_high: match self.prev_high {
                Some(p) => Some(p@),
                None => None,
            },
            prev_low: match self.prev_low {
                Some(p) => Some(p@),
                None => None,
            },
        }
    }
}

/// Score one bar against the previous extremes.
fn calculate_rotation_factor(
    prev_high: Option<Num>,
    prev_low: Option<Num>,
    high: Num,
    low: Num,
) -> (r: Num)
    ensures
        r@ == rotation_factor_value(
            match prev_high {
                Some(p) => Some(p@),
                None => None,
            },
            match prev_low {
                Some(p) => Some(p@),
                None => None,
            },
            high@,
            low@,
        ),
{
    let mut rf = Num::zero();
    let one = Num::one();

    if let Some(prev_high_val) = prev_high {
        if high > prev_high_val {
            rf = rf.add(one);
        } else if high < prev_high_val {
            rf = rf.sub(one);
        }
    }

    if let Some(prev_low_val) = prev_low {
        if low > prev_low_val {
            rf = rf.add(one);
        } else if low < prev_low_val {
            rf = rf.sub(one);
        }
    }

    if let Some(prev_high_val) = prev_high {
        if let Some(prev_low_val) = prev_low {
            let high_bound = prev_high_val.sub(one);
            let low_bound = prev_low_val.sub(one);
            let high_dropped = high == high_bound;
            let low_dropped = low == low_bound;
            proof {
                crate::num::lemma_num_view_injective(high, high_bound);
                crate::num::lemma_num_view_injective(low, low_bound);
            }
            if high_dropped || low_dropped {
                rf = Num::zero();
            }
        }
    }

    rf
}

impl RotationFactor {
    /// A fresh indicator with no previous extremes.
    pub fn new() -> (r: Self)
        ensures
            r@ == rotation_factor_init(),
    {
        let r = RotationFactor {
            data: Vec::new(),
            accumulation: Num::zero(),
            prev_high: None,
            prev_low: None,
        };
        proof {
            assert(r@.data =~= rotation_factor_init().data);
        }
        r
    }
}

impl Next<Num> for RotationFactor {
    type Output = Num;

    fn next(&mut self, input: Num) -> (r: Num)
        ensures
            final(self)@ == rotation_factor_step(old(self)@, input@, input@),
            r@ == rotation_factor_out(old(self)@, input@, input@),
    {
        let prev_high = self.prev_high;
        let prev_low = self.prev_low;
        let rf = calculate_rotation_factor(prev_high, prev_low, input, input);
        self.prev_high = Some(input);
        self.prev_low = Some(input);
        self.accumulation = self.accumulation.add(rf);
        self.data.push(self.accumulation);
        self.data.remove(0);
        proof {
            assert(final(self)@.data =~= rotation_factor_step(old(self)@, input@, input@).data);
        }
        rf
    }
}

impl<T: High + Low> Next<&T> for RotationFactor {
    type Output = Num;

    fn next(&mut self, input: &T) -> (r: Num)
        ensures
            final(self)@ == rotation_factor_step(old(self)@, input.high_spec(), input.low_spec()),
            r@ == rotation_factor_out(old(self)@, input.high_spec(), input.low_spec()),
    {
        let high = input.high();
        let low = input.low();
        let rf = calculate_rotation_factor(self.prev_high, self.prev_low, high, low);
        self.prev_high = Some(high);
        self.prev_low = Some(low);
        self.accumulation = self.accumulation.add(rf);
        self.data.push(self.accumulation);
        self.data.remove(0);
        proof {
            assert(final(self)@.data =~= rotation_factor_step(
                old(self)@,
                input.high_spec(),
                input.low_spec(),
            ).data);
        }
        rf
    }
}

impl Reset for RotationFactor {
    #[verifier::loop_isolation(false)]
    fn reset(&mut self)
        ensures
            final(self)@.accumulation == 0,
            final(self)@.prev_high is None,
            final(self)@.prev_low is None,
            final(self)@.data.len() == old(self)@.data.len(),
            forall|i: int| 0 <= i < final(self)@.data.len() ==> final(self)@.data[i] == 0,
            old(self)@.data.len() == 0 ==> final(self)@ == rotation_factor_init(),
    {
        let zero = Num::zero();
        let mut i: usize = 0;
        let n = self.data.len();
        while i < n
            invariant
                n == self.data@.len(),
                self.accumulation == old(self).accumulation,
                i <= n,
                forall|j: int| 0 <= j < i ==> self.data@[j]@ == 0,
            decreases n - i,
        {
            self.data[i] = zero;
            i = i + 1;
        }
        self.accumulation = Num::zero();
        self.prev_high = None;
        self.prev_low = None;
        proof {
            if old(self)@.data.len() == 0 {
                assert(final(self)@.data =~= rotation_factor_init().data);
            }
        }
    }
}

impl Clone for RotationFactor {
    /// A clone is an independent, identically behaving instance.
    fn clone(&self) -> (r: Self)
        ensures
            r@ == self@,
    {
        let r = RotationFactor {
            data: self.data.clone(),
            accumulation: self.accumulation,
            prev_high: self.prev_high,
            prev_low: self.prev_low,
        };
        proof {
            assert(r@.data =~= self@.data);
        }
        r
    }
}

impl Default for RotationFactor {
    fn default() -> (r: Self)
        ensures
            r@ == rotation_factor_init(),
    {
        RotationFactor::new()
    }
}

impl RotationFactor {
    /// The canonical display form, derived from the construction
    /// parameters alone.
    pub fn to_string(&self) -> (r: String)
        ensures
            r@ == crate::text::named1("ROTATION_FACTOR"@, self@.data.len()),
    {
        let n = self.data.len();
        crate::text::format_name1("ROTATION_FACTOR", n)
    }
}

/// A plain-value snapshot of the indicator's full state.
#[derive(Debug, Clone, PartialEq)]
pub struct RotationFactorSnapshot {
    /// Accumulation history.
    pub data: Vec<Num>,
    /// Running total of the factors.
    pub accumulation: Num,
    /// The previous high, if any.
    pub prev_high: Option<Num>,
    /// The previous low, if any.
    pub prev_low: Option<Num>,
}

/// The abstract state a snapshot holds.
pub open spec fn rotation_factor_snapshot_view(s: &RotationFactorSnapshot) -> RotationFactorView {
    RotationFactorView {
        data: views(s.data@),
        accumulation: s.accumulation@,
        prev_high: match s.prev_high {
            Some(p) => Some(p@),
            None => None,
        },
        prev_low: match s.prev_low {
            Some(p) => Some(p@),
            None => None,
        },
    }
}

impl RotationFactor {
    /// Capture the full state.
    pub fn snapshot(&self) -> (s: RotationFactorSnapshot)
        ensures
            rotation_factor_snapshot_view(&s) == self@,
    {
        let s = RotationFactorSnapshot {
            data: self.data.clone(),
            accumulation: self.accumulation,
            prev_high: self.prev_high,
            prev_low: self.prev_low,
        };
        proof {
            assert(rotation_factor_snapshot_view(&s).data =~= self@.data);
        }
        s
    }

    /// Rebuild an indicator from a snapshot; every snapshot is a state the
    /// indicator can hold, so restoring cannot fail, and restoring what
    /// [`Self::snapshot`] captured gives back exactly the captured state.
    pub fn restore(s: &RotationFactorSnapshot) -> (r: Self)
        ensures
            r@ == rotation_factor_snapshot_view(s),
    {
        let r = RotationFactor {
            data: s.data.clone(),
            accumulation: s.accumulation,
            prev_high: s.prev_high,
            prev_low: s.prev_low,
        };
        proof {
            assert(r@.data =~= rotation_factor_snapshot_view(s).data);
        }
        r
    }
}

} // verus!
