//! Money flow index.

use vstd::prelude::*;

use crate::errors::TaError;
use crate::helpers::views;
use crate::indicators::keltner_channel::typical_price;
use crate::num::{add_v, clip, div_v, mul_v, sub_v, Num, SCALE};
use crate::traits::{Close, High, Low, Next, Period, Reset, Volume};

verus! {

/// Abstract state of a [`MoneyFlowIndex`].
pub struct MfiView {
    /// The window capacity.
    pub period: nat,
    /// Slot that the next flow overwrites.
    pub index: nat,
    /// How many bars have been seen, capped at `period`.
    pub count: nat,
    /// The previous typical price, as a raw fixed-point value.
    pub previous_typical_price: int,
    /// Sum of the positive flows inside the window.
    pub total_positive_money_flow: int,
    /// Sum of the negative flows inside the window (a nonnegative total).
    pub total_negative_money_flow: int,
    /// The window of signed flows, as raw fixed-point values.
    pub deque: Seq<int>,
}

/// State of a fresh indicator.
pub open spec fn mfi_init(period: nat) -> MfiView {
    MfiView {
        period,
        index: 0,
        count: 0,
        previous_typical_price: 0,
        total_positive_money_flow: 0,
        total_negative_money_flow: 0,
        deque: Seq::new(period, |i: int| 0),
    }
}

/// State after one bar, and whether this was the very first bar.
///
/// The cursor advances first.  Once the window is full the departing
/// signed flow leaves its total.  The incoming raw flow `tp * volume`
/// joins the positive total when the typical price rose, the negative
/// total when it fell, and is recorded as zero when it is unchanged.
pub open spec fn mfi_step(s: MfiView, high: int, low: int, close: int, volume: int) -> MfiView {
    let tp = typical_price(high, low, close);
    let idx: nat = if s.index + 1 < s.period {
        s.index + 1
    } else {
        0
    };
    if s.count == 0 {
        MfiView { index: idx, count: 1, previous_typical_price: tp, ..s }
    } else {
        let c: nat = if s.count < s.period {
            s.count + 1
        } else {
            s.count
        };
        let popped = s.deque[idx as int];
        let pos0 = if s.count < s.period {
            s.total_positive_money_flow
        } else if popped >= 0 {
            sub_v(s.total_positive_money_flow, popped)
        } else {
            s.total_positive_money_flow
        };
        let neg0 = if s.count < s.period {
            s.total_negative_money_flow
        } else if popped >= 0 {
            s.total_negative_money_flow
        } else {
            add_v(s.total_negative_money_flow, popped)
        };
        let raw = mul_v(tp, volume);
        let pos = if tp > s.previous_typical_price {
            add_v(pos0, raw)
        } else {
            pos0
        };
        let neg = if tp < s.previous_typical_price {
            add_v(neg0, raw)
        } else {
            neg0
        };
        let slot = if tp > s.previous_typical_price {
            raw
        } else if tp < s.previous_typical_price {
            -raw
        } else {
            0
        };
        MfiView {
            index: idx,
            count: c,
            previous_typical_price: tp,
            total_positive_money_flow: pos,
            total_negative_money_flow: neg,
            deque: s.deque.update(idx as int, slot),
            period: s.period,
        }
    }
}

/// Output for one bar: `100 * positive / (positive + negative)` over the
/// updated totals, and the neutral 50 for the very first bar.
pub open spec fn mfi_out(s: MfiView, high: int, low: int, close: int, volume: int) -> int {
    if s.count == 0 {
        clip(50 * SCALE as int)
    } else {
        let s2 = mfi_step(s, high, low, close, volume);
        mul_v(
            div_v(
                s2.total_positive_money_flow,
                add_v(s2.total_positive_money_flow, s2.total_negative_money_flow),
            ),
            clip(100 * SCALE as int),
        )
    }
}

/// Money Flow Index (MFI): a volume-weighted oscillator over the flows
/// `typical_price * volume` of the last `period` bars, positive when the
/// typical price rose and negative when it fell.
///
/// # Formula
///
/// MFI = 100 · PMF / (PMF + NMF), seeded at 50 for the first observation.
///
/// # Parameters
///
/// * _period_ - number of periods, integer greater than 0
#[derive(Debug)]
pub struct MoneyFlowIndex {
    period: usize,
    index: usize,
    count: usize,
    previous_typical_price: Num,
    total_positive_money_flow: Num,
    total_negative_money_flow: Num,
    deque: Vec<Num>,
}

impl View for MoneyFlowIndex {
    type V = MfiView;

    closed spec fn view(&self) -> MfiView {
        MfiView {
            period: self.period as nat,
            index: self.index as nat,
            count: self.count as nat,
            previous_typical_price: self.previous_typical_price@,
            total_positive_money_flow: self.total_positive_money_flow@,
            total_negative_money_flow: self.total_negative_money_flow@,
            deque: views(self.deque@),
        }
    }
}

impl MoneyFlowIndex {
    /// The window always has exactly `period` slots, the cursor stays
    /// inside it and the fill count never exceeds it.
    #[verifier::type_invariant]
    closed spec fn inv(self) -> bool {
        &&& self.period >= 1
        &&& self.deque@.len() == self.period
        &&& self.index < self.period
        &&& self.count <= self.period
    }

    /// Build an indicator over the given period; a zero period is refused.
    #[verifier::loop_isolation(false)]
    pub fn new(period: usize) -> (r: Result<Self, TaError>)
        ensures
            match r {
                Ok(s) => period >= 1 && s@ == mfi_init(period as nat),
                Err(e) => period == 0 && e == TaError::InvalidParameter,
            },
    {
        if period == 0 {
            Err(TaError::InvalidParameter)
        } else {
            let mut deque: Vec<Num> = Vec::new();
            let zero = Num::zero();
            while deque.len() < period
                invariant
                    deque@.len() <= period,
                    forall|i: int| 0 <= i < deque@.len() ==> deque@[i]@ == 0,
                decreases period - deque@.len(),
            {
                deque.push(zero);
            }
            let s = MoneyFlowIndex {
                period,
                index: 0,
                count: 0,
                previous_typical_price: Num::zero(),
                total_positive_money_flow: Num::zero(),
                total_negative_money_flow: Num::zero(),
                deque,
            };
            proof {
                assert(s@.deque =~= mfi_init(period as nat).deque);
            }
            Ok(s)
        }
    }
}

impl Period for MoneyFlowIndex {
    fn period(&self) -> (r: usize)
        ensures
            r as nat == self@.period,
    {
        self.period
    }
}

impl<T: High + Low + Close + Volume> Next<&T> for MoneyFlowIndex {
    type Output = Num;

    fn next(&mut self, input: &T) -> (r: Num)
        ensures
            final(self)@ == mfi_step(
                old(self)@,
                input.high_spec(),
                input.low_spec(),
                input.close_spec(),
                input.volume_spec(),
            ),
            r@ == mfi_out(
                old(self)@,
                input.high_spec(),
                input.low_spec(),
                input.close_spec(),
                input.volume_spec(),
            ),
    {
        proof {
            use_type_invariant(&*self);
        }
        let ghost pre = self@;
        let tp = input.close().add(input.high()).add(input.low()).div(Num::from_int(3));

        self.index = if self.index + 1 < self.period {
            self.index + 1
        } else {
            0
        };

        if self.count < self.period {
            self.count = self.count + 1;
            if self.count == 1 {
                self.previous_typical_price = tp;
                proof {
                    assert(final(self)@ == mfi_step(
                        pre,
                        input.high_spec(),
                        input.low_spec(),
                        input.close_spec(),
                        input.volume_spec(),
                    ));
                }
                return Num::from_int(50);
            }
        } else {
            let popped = self.deque[self.index];
            if !popped.is_negative() {
                self.total_positive_money_flow = self.total_positive_money_flow.sub(popped);
            } else {
                self.total_negative_money_flow = self.total_negative_money_flow.add(popped);
            }
        }

        if tp > self.previous_typical_price {
            let raw_money_flow = tp.mul(input.volume());
            self.total_positive_money_flow = self.total_positive_money_flow.add(raw_money_flow);
            self.deque[self.index] = raw_money_flow;
        } else if tp < self.previous_typical_price {
            let raw_money_flow = tp.mul(input.volume());
            self.total_negative_money_flow = self.total_negative_money_flow.add(raw_money_flow);
            self.deque[self.index] = raw_money_flow.neg();
        } else {
            self.deque[self.index] = Num::zero();
        }
        self.previous_typical_price = tp;

        proof {
            let post = mfi_step(
                pre,
                input.high_spec(),
                input.low_spec(),
                input.close_spec(),
                input.volume_spec(),
            );
            assert(final(self)@.deque =~= post.deque);
            assert(final(self)@ == post);
        }

        self.total_positive_money_flow.div(
            self.total_positive_money_flow.add(self.total_negative_money_flow),
        ).mul(Num::from_int(100))
    }
}

impl Reset for MoneyFlowIndex {
    #[verifier::loop_isolation(false)]
    fn reset(&mut self)
        ensures
            final(self)@ == mfi_init(old(self)@.period),
    {
        proof {
            use_type_invariant(&*self);
        }
        self.index = 0;
        self.count = 0;
        self.previous_typical_price = Num::zero();
        self.total_positive_money_flow = Num::zero();
        self.total_negative_money_flow = Num::zero();
        let zero = Num::zero();
        let mut i: usize = 0;
        while i < self.period
            invariant
                self.period == old(self).period,
                self.index == 0,
                self.count == 0,
                self.previous_typical_price@ == 0,
                self.total_positive_money_flow@ == 0,
                self.total_negative_money_flow@ == 0,
                self.deque@.len() == self.period,
                i <= self.period,
                forall|j: int| 0 <= j < i ==> self.deque@[j]@ == 0,
            decreases self.period - i,
        {
            self.deque[i] = zero;
            i = i + 1;
        }
        proof {
            assert(final(self)@.deque =~= mfi_init(old(self)@.period).deque);
        }
    }
}

impl Clone for MoneyFlowIndex {
    /// A clone is an independent, identically behaving instance.
    fn clone(&self) -> (r: Self)
        ensures
            r@ == self@,
    {
        proof {
            use_type_invariant(&*self);
        }
        let r = MoneyFlowIndex {
            period: self.period,
            index: self.index,
            count: self.count,
            previous_typical_price: self.previous_typical_price,
            total_positive_money_flow: self.total_positive_money_flow,
            total_negative_money_flow: self.total_negative_money_flow,
            deque: self.deque.clone(),
        };
        proof {
            assert(r@.deque =~= self@.deque);
        }
        r
    }
}

impl Default for MoneyFlowIndex {
    fn default() -> (r: Self)
        ensures
            r@ == mfi_init(14),
    {
        MoneyFlowIndex::new(14).unwrap()
    }
}

impl MoneyFlowIndex {
    /// The canonical display form, derived from the construction
    /// parameters alone.
    pub fn to_string(&self) -> (r: String)
        ensures
            r@ == crate::text::named1("MFI"@, self@.period),
    {
        crate::text::format_name1("MFI", self.period)
    }
}

/// A plain-value snapshot of the indicator's full state.  Restoring a
/// snapshot and continuing the input stream produces the same outputs as
/// an uninterrupted run.
#[derive(Debug, Clone, PartialEq)]
pub struct MfiSnapshot {
    /// The window capacity.
    pub period: usize,
    /// Slot that the next flow overwrites.
    pub index: usize,
    /// How many bars have been seen.
    pub count: usize,
    /// The previous typical price.
    pub previous_typical_price: Num,
    /// Sum of the positive flows.
    pub total_positive_money_flow: Num,
    /// Sum of the negative flows.
    pub total_negative_money_flow: Num,
    /// The window of signed flows.
    pub deque: Vec<Num>,
}

/// The abstract state a snapshot holds.
pub open spec fn mfi_snapshot_view(s: &MfiSnapshot) -> MfiView {
    MfiView {
        period: s.period as nat,
        index: s.index as nat,
        count: s.count as nat,
        previous_typical_price: s.previous_typical_price@,
        total_positive_money_flow: s.total_positive_money_flow@,
        total_negative_money_flow: s.total_negative_money_flow@,
        deque: crate::helpers::views(s.deque@),
    }
}

/// A snapshot whose fields the indicator can actually hold.
pub open spec fn mfi_snapshot_valid(s: &MfiSnapshot) -> bool {
    &&& s.period >= 1
    &&& s.deque@.len() == s.period
    &&& s.index < s.period
    &&& s.count <= s.period
}

impl MoneyFlowIndex {
    /// Capture the full state.
    pub fn snapshot(&self) -> (s: MfiSnapshot)
        ensures
            mfi_snapshot_view(&s) == self@,
            mfi_snapshot_valid(&s),
    {
        proof {
            use_type_invariant(&*self);
        }
        let s = MfiSnapshot {
            period: self.period,
            index: self.index,
            count: self.count,
            previous_typical_price: self.previous_typical_price,
            total_positive_money_flow: self.total_positive_money_flow,
            total_negative_money_flow: self.total_negative_money_flow,
            deque: self.deque.clone(),
        };
        proof {
            assert(mfi_snapshot_view(&s).deque =~= self@.deque);
        }
        s
    }

    /// Rebuild an indicator from a snapshot; inconsistent snapshots are
    /// refused.  Restoring what [`Self::snapshot`] captured gives back
    /// exactly the captured state, so continuing any input stream yields
    /// the same outputs as an uninterrupted run.
    pub fn restore(s: &MfiSnapshot) -> (r: Result<Self, TaError>)
        ensures
            match r {
                Ok(t) => mfi_snapshot_valid(s) && t@ == mfi_snapshot_view(s),
                Err(e) => !mfi_snapshot_valid(s) && e == TaError::InvalidParameter,
            },
    {
        let valid = s.period >= 1 && s.deque.len() == s.period && s.index < s.period && s.count <= s.period;
        if !valid {
            Err(TaError::InvalidParameter)
        } else {
            let t = MoneyFlowIndex {
                period: s.period,
                index: s.index,
                count: s.count,
                previous_typical_price: s.previous_typical_price,
                total_positive_money_flow: s.total_positive_money_flow,
                total_negative_money_flow: s.total_negative_money_flow,
                deque: s.deque.clone(),
            };
            proof {
                assert(t@.deque =~= mfi_snapshot_view(s).deque);
            }
            Ok(t)
        }
    }
}

} // verus!
