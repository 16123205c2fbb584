//! The smoothed directional movement pair.

use vstd::prelude::*;

use crate::errors::TaError;
use crate::indicators::directional_movement::{
    dm_init, dm_step, ndm_out, pdm_out, DmView, NegativeDirectionalMovement,
    PositiveDirectionalMovement,
};
use crate::num::{add_v, clip, div_v, sub_v, Num, SCALE};
use crate::traits::{High, Next, Period, Reset};

verus! {

/// Abstract state of a smoothed directional movement indicator: the queue
/// of recent movements (front first), their running sum, and the owned
/// movement primitive.
pub struct SdmView {
    /// The configured period.
    pub period: nat,
    /// Running sum of the queued movements, as a raw fixed-point value.
    pub sum: int,
    /// The queued movements, front first, as raw fixed-point values.
    pub window: Seq<int>,
    /// State of the owned movement primitive.
    pub dm: DmView,
}

/// State of a fresh indicator: the queue holds a single zero.
pub open spec fn sdm_init(period: nat) -> SdmView {
    SdmView { period, sum: 0, window: seq![0], dm: dm_init() }
}

/// State after one input of the negative variant: the front of the queue
/// leaves the sum (and, once the queue has grown to the period, the queue
/// itself), then the new movement joins both.
pub open spec fn sdm_neg_step(s: SdmView, x: int) -> SdmView {
    let sum0 = sub_v(s.sum, s.window[0]);
    let w0 = if s.window.len() < s.period {
        s.window
    } else {
        s.window.skip(1)
    };
    let dmv = ndm_out(s.dm, x);
    SdmView {
        sum: add_v(sum0, dmv),
        window: w0.push(dmv),
        dm: dm_step(s.dm, x),
        period: s.period,
    }
}

/// Output of the negative variant: `sum - sum / period - dm` over the
/// updated sum.
pub open spec fn sdm_neg_out(s: SdmView, x: int) -> int {
    let s2 = sdm_neg_step(s, x);
    sub_v(sub_v(s2.sum, div_v(s2.sum, clip(s.period * SCALE as int))), ndm_out(s.dm, x))
}

/// State after one input of the positive variant: the front leaves the
/// queue and the sum only once the queue has outgrown the period, then the
/// new movement joins both.
pub open spec fn sdm_pos_step(s: SdmView, x: int) -> SdmView {
    let popped = s.period < s.window.len();
    let sum0 = if popped {
        sub_v(s.sum, s.window[0])
    } else {
        s.sum
    };
    let w0 = if popped {
        s.window.skip(1)
    } else {
        s.window
    };
    let dmv = pdm_out(s.dm, x);
    SdmView {
        sum: add_v(sum0, dmv),
        window: w0.push(dmv),
        dm: dm_step(s.dm, x),
        period: s.period,
    }
}

/// Output of the positive variant: `sum - sum / period + dm` over the
/// updated sum.
pub open spec fn sdm_pos_out(s: SdmView, x: int) -> int {
    let s2 = sdm_pos_step(s, x);
    add_v(sub_v(s2.sum, div_v(s2.sum, clip(s.period * SCALE as int))), pdm_out(s.dm, x))
}

/// Smoothed Negative Directional Movement (SDM-): a sliding-window
/// smoothing of the negative directional movement, used by the directional
/// indicator family.
///
/// # Parameters
///
/// * _period_ - number of periods (integer greater than 0). Default is 14.
#[derive(Debug)]
pub struct SmoothedNegativeDirectionalMovement {
    period: usize,
    sum: Num,
    // The queue lives in a fixed ring of `period + 1` slots.
    buf: Vec<Num>,
    head: usize,
    len: usize,
    ndm: NegativeDirectionalMovement,
}

/// The queue held by a ring of `cap` slots: `len` values starting at
/// `head`, wrapping around.
pub open spec fn ring_window(buf: Seq<int>, head: nat, len: nat) -> Seq<int> {
    Seq::new(len, |i: int| buf[((head + i) % buf.len() as int) as int])
}

impl View for SmoothedNegativeDirectionalMovement {
    type V = SdmView;

    closed spec fn view(&self) -> SdmView {
        SdmView {
            period: self.period as nat,
            sum: self.sum@,
            window: ring_window(
                crate::helpers::views(self.buf@),
                self.head as nat,
                self.len as nat,
            ),
            dm: self.ndm@,
        }
    }
}

impl SmoothedNegativeDirectionalMovement {
    /// The ring always has exactly `period + 1` slots and the queue stays
    /// inside it.
    #[verifier::type_invariant]
    closed spec fn inv(self) -> bool {
        &&& self.period >= 1
        &&& self.period < usize::MAX
        &&& self.buf@.len() == self.period + 1
        &&& self.head < self.period + 1
        &&& self.len <= self.period + 1
    }

    /// Build an indicator over the given period; a zero period is refused.
    #[verifier::loop_isolation(false)]
    pub fn new(period: usize) -> (r: Result<Self, TaError>)
        ensures
            match r {
                Ok(s) => 1 <= period < usize::MAX && s@ == sdm_init(period as nat),
                Err(e) => (period == 0 || period == usize::MAX) && e == TaError::InvalidParameter,
            },
    {
        if period == 0 || period == usize::MAX {
            // A ring of `period + 1` slots must fit in a vector.
            Err(TaError::InvalidParameter)
        } else {
            let mut buf: Vec<Num> = Vec::new();
            let zero = Num::zero();
            while buf.len() < period + 1
                invariant
                    buf@.len() <= period + 1,
                    forall|i: int| 0 <= i < buf@.len() ==> buf@[i]@ == 0,
                decreases period + 1 - buf@.len(),
            {
                buf.push(zero);
            }
            let ndm = match NegativeDirectionalMovement::new() {
                Ok(n) => n,
                Err(e) => {
                    return Err(e);
                },
            };
            let s = SmoothedNegativeDirectionalMovement {
                period,
                sum: Num::zero(),
                buf,
                head: 0,
                len: 1,
                ndm,
            };
            proof {
                assert(s@.window =~= sdm_init(period as nat).window);
            }
            Ok(s)
        }
    }
}

impl Period for SmoothedNegativeDirectionalMovement {
    fn period(&self) -> (r: usize)
        ensures
            r as nat == self@.period,
    {
        self.period
    }
}

impl Next<Num> for SmoothedNegativeDirectionalMovement {
    type Output = Num;

    fn next(&mut self, input: Num) -> (r: Num)
        ensures
            old(self)@.window.len() >= 1 ==> final(self)@ == sdm_neg_step(old(self)@, input@)
                && r@ == sdm_neg_out(old(self)@, input@),
            final(self)@.window.len() >= 1,
    {
        proof {
            use_type_invariant(&*self);
            lemma_wrap_mod(self.head as int, (self.period + 1) as int);
        }
        let ghost pre = self@;
        // Remove the front of the queue from the sum; drop it from the
        // queue as well once the queue has grown to the period.
        let front = self.buf[self.head];
        self.sum = self.sum.sub(front);
        if self.len >= self.period {
            self.head = if self.head + 1 < self.period + 1 {
                self.head + 1
            } else {
                0
            };
            self.len = self.len - 1;
            proof {
                lemma_ring_pop(
                    crate::helpers::views(self.buf@),
                    old(self).head as nat,
                    old(self).len as nat,
                );
            }
        }
        // Calculate the current movement and append it to queue and sum.
        let mut ndm = self.ndm.clone();
        let dm = ndm.next(input);
        self.ndm = ndm;
        let ghost mid = self@;
        let tail = if self.len >= (self.period + 1) - self.head {
            self.len - ((self.period + 1) - self.head)
        } else {
            self.head + self.len
        };
        let ghost buf_before = crate::helpers::views(self.buf@);
        self.buf[tail] = dm;
        self.len = self.len + 1;
        proof {
            assert(crate::helpers::views(self.buf@) =~= buf_before.update(tail as int, dm@));
            lemma_ring_push(buf_before, self.head as nat, (self.len - 1) as nat, tail as nat, dm@);
        }
        self.sum = self.sum.add(dm);

        self.sum.sub(self.sum.div(Num::from_usize(self.period))).sub(dm)
    }
}

impl<T: High> Next<&T> for SmoothedNegativeDirectionalMovement {
    type Output = Num;

    fn next(&mut self, input: &T) -> (r: Num)
        ensures
            old(self)@.window.len() >= 1 ==> final(self)@ == sdm_neg_step(
                old(self)@,
                input.high_spec(),
            ) && r@ == sdm_neg_out(old(self)@, input.high_spec()),
            final(self)@.window.len() >= 1,
    {
        let h = input.high();
        Next::<Num>::next(self, h)
    }
}

impl Reset for SmoothedNegativeDirectionalMovement {
    fn reset(&mut self)
        ensures
            final(self)@ == (SdmView {
                period: old(self)@.period,
                sum: 0,
                window: seq![0],
                dm: DmView { current: old(self)@.dm.current, is_new: true },
            }),
    {
        proof {
            use_type_invariant(&*self);
        }
        self.sum = Num::zero();
        self.head = 0;
        self.len = 1;
        self.buf[0] = Num::zero();
        let mut ndm = self.ndm.clone();
        ndm.reset();
        self.ndm = ndm;
        proof {
            lemma_wrap_mod(0, (self.period + 1) as int);
            assert(final(self)@.window =~= seq![0int]);
        }
    }
}

impl Clone for SmoothedNegativeDirectionalMovement {
    /// A clone is an independent, identically behaving instance.
    fn clone(&self) -> (r: Self)
        ensures
            r@ == self@,
    {
        proof {
            use_type_invariant(&*self);
        }
        let r = SmoothedNegativeDirectionalMovement {
            period: self.period,
            sum: self.sum,
            buf: self.buf.clone(),
            head: self.head,
            len: self.len,
            ndm: self.ndm.clone(),
        };
        proof {
            assert(r@.window =~= self@.window);
        }
        r
    }
}

impl Default for SmoothedNegativeDirectionalMovement {
    fn default() -> (r: Self)
        ensures
            r@ == sdm_init(14),
    {
        SmoothedNegativeDirectionalMovement::new(14).unwrap()
    }
}

/// Smoothed Positive Directional Movement (SDM+): a sliding-window
/// smoothing of the positive directional movement, used by the directional
/// indicator family.
///
/// # Parameters
///
/// * _period_ - number of periods (integer greater than 0). Default is 14.
#[derive(Debug)]
pub struct SmoothedPositiveDirectionalMovement {
    period: usize,
    sum: Num,
    // The queue lives in a fixed ring of `period + 1` slots.
    buf: Vec<Num>,
    head: usize,
    len: usize,
    pdm: PositiveDirectionalMovement,
}

impl View for SmoothedPositiveDirectionalMovement {
    type V = SdmView;

    closed spec fn view(&self) -> SdmView {
        SdmView {
            period: self.period as nat,
            sum: self.sum@,
            window: ring_window(
                crate::helpers::views(self.buf@),
                self.head as nat,
                self.len as nat,
            ),
            dm: self.pdm@,
        }
    }
}

impl SmoothedPositiveDirectionalMovement {
    /// The ring always has exactly `period + 1` slots and the queue stays
    /// inside it.
    #[verifier::type_invariant]
    closed spec fn inv(self) -> bool {
        &&& self.period >= 1
        &&& self.period < usize::MAX
        &&& self.buf@.len() == self.period + 1
        &&& self.head < self.period + 1
        &&& self.len <= self.period + 1
    }

    /// Build an indicator over the given period; a zero period is refused.
    #[verifier::loop_isolation(false)]
    pub fn new(period: usize) -> (r: Result<Self, TaError>)
        ensures
            match r {
                Ok(s) => 1 <= period < usize::MAX && s@ == sdm_init(period as nat),
                Err(e) => (period == 0 || period == usize::MAX) && e == TaError::InvalidParameter,
            },
    {
        if period == 0 || period == usize::MAX {
            // A ring of `period + 1` slots must fit in a vector.
            Err(TaError::InvalidParameter)
        } else {
            let mut buf: Vec<Num> = Vec::new();
            let zero = Num::zero();
            while buf.len() < period + 1
                invariant
                    buf@.len() <= period + 1,
                    forall|i: int| 0 <= i < buf@.len() ==> buf@[i]@ == 0,
                decreases period + 1 - buf@.len(),
            {
                buf.push(zero);
            }
            let pdm = match PositiveDirectionalMovement::new() {
                Ok(n) => n,
                Err(e) => {
                    return Err(e);
                },
            };
            let s = SmoothedPositiveDirectionalMovement {
                period,
                sum: Num::zero(),
                buf,
                head: 0,
                len: 1,
                pdm,
            };
            proof {
                assert(s@.window =~= sdm_init(period as nat).window);
            }
            Ok(s)
        }
    }
}

impl Period for SmoothedPositiveDirectionalMovement {
    fn period(&self) -> (r: usize)
        ensures
            r as nat == self@.period,
    {
        self.period
    }
}

impl Next<Num> for SmoothedPositiveDirectionalMovement {
    type Output = Num;

    fn next(&mut self, input: Num) -> (r: Num)
        ensures
            old(self)@.window.len() >= 1 ==> final(self)@ == sdm_pos_step(old(self)@, input@)
                && r@ == sdm_pos_out(old(self)@, input@),
            final(self)@.window.len() >= 1,
    {
        proof {
            use_type_invariant(&*self);
            lemma_wrap_mod(self.head as int, (self.period + 1) as int);
        }
        let ghost pre = self@;
        // Once the queue has outgrown the period, drop the front from
        // both the queue and the sum.
        if self.period < self.len {
            let front = self.buf[self.head];
            self.sum = self.sum.sub(front);
            self.head = if self.head + 1 < self.period + 1 {
                self.head + 1
            } else {
                0
            };
            self.len = self.len - 1;
            proof {
                lemma_ring_pop(
                    crate::helpers::views(self.buf@),
                    old(self).head as nat,
                    old(self).len as nat,
                );
            }
        }
        // Calculate the current movement and append it to queue and sum.
        let mut pdm = self.pdm.clone();
        let dm = pdm.next(input);
        self.pdm = pdm;
        let ghost mid = self@;
        let tail = if self.len >= (self.period + 1) - self.head {
            self.len - ((self.period + 1) - self.head)
        } else {
            self.head + self.len
        };
        let ghost buf_before = crate::helpers::views(self.buf@);
        self.buf[tail] = dm;
        self.len = self.len + 1;
        proof {
            assert(crate::helpers::views(self.buf@) =~= buf_before.update(tail as int, dm@));
            lemma_ring_push(buf_before, self.head as nat, (self.len - 1) as nat, tail as nat, dm@);
        }
        self.sum = self.sum.add(dm);

        self.sum.sub(self.sum.div(Num::from_usize(self.period))).add(dm)
    }
}

impl<T: High> Next<&T> for SmoothedPositiveDirectionalMovement {
    type Output = Num;

    fn next(&mut self, input: &T) -> (r: Num)
        ensures
            old(self)@.window.len() >= 1 ==> final(self)@ == sdm_pos_step(
                old(self)@,
                input.high_spec(),
            ) && r@ == sdm_pos_out(old(self)@, input.high_spec()),
            final(self)@.window.len() >= 1,
    {
        let h = input.high();
        Next::<Num>::next(self, h)
    }
}

impl Reset for SmoothedPositiveDirectionalMovement {
    fn reset(&mut self)
        ensures
            final(self)@ == (SdmView {
                period: old(self)@.period,
                sum: 0,
                window: seq![0],
                dm: DmView { current: old(self)@.dm.current, is_new: true },
            }),
    {
        proof {
            use_type_invariant(&*self);
        }
        self.sum = Num::zero();
        self.head = 0;
        self.len = 1;
        self.buf[0] = Num::zero();
        let mut pdm = self.pdm.clone();
        pdm.reset();
        self.pdm = pdm;
        proof {
            lemma_wrap_mod(0, (self.period + 1) as int);
            assert(final(self)@.window =~= seq![0int]);
        }
    }
}

impl Clone for SmoothedPositiveDirectionalMovement {
    /// A clone is an independent, identically behaving instance.
    fn clone(&self) -> (r: Self)
        ensures
            r@ == self@,
    {
        proof {
            use_type_invariant(&*self);
        }
        let r = SmoothedPositiveDirectionalMovement {
            period: self.period,
            sum: self.sum,
            buf: self.buf.clone(),
            head: self.head,
            len: self.len,
            pdm: self.pdm.clone(),
        };
        proof {
            assert(r@.window =~= self@.window);
        }
        r
    }
}

impl Default for SmoothedPositiveDirectionalMovement {
    fn default() -> (r: Self)
        ensures
            r@ == sdm_init(14),
    {
        SmoothedPositiveDirectionalMovement::new(14).unwrap()
    }
}


/// A value below twice the modulus reduces by at most one subtraction.
proof fn lemma_wrap_mod(x: int, cap: int)
    requires
        cap >= 1,
        0 <= x < 2 * cap,
    ensures
        x % cap == if x < cap {
            x
        } else {
            x - cap
        },
{
    if x < cap {
        vstd::arithmetic::div_mod::lemma_fundamental_div_mod_converse_mod(x, cap, 0, x);
    } else {
        vstd::arithmetic::div_mod::lemma_fundamental_div_mod_converse_mod(x, cap, 1, x - cap);
    }
}

/// Advancing the head by one drops the front of the window.
proof fn lemma_ring_pop(buf: Seq<int>, head: nat, len: nat)
    requires
        buf.len() >= 1,
        head < buf.len(),
        1 <= len <= buf.len(),
    ensures
        ring_window(
            buf,
            if head + 1 < buf.len() {
                (head + 1) as nat
            } else {
                0
            },
            (len - 1) as nat,
        ) == ring_window(buf, head, len).skip(1),
{
    let cap = buf.len() as int;
    let h2: nat = if head + 1 < buf.len() {
        (head + 1) as nat
    } else {
        0
    };
    let lhs = ring_window(buf, h2, (len - 1) as nat);
    let rhs = ring_window(buf, head, len).skip(1);
    assert forall|i: int| 0 <= i < len - 1 implies lhs[i] == rhs[i] by {
        lemma_wrap_mod(h2 + i as int, cap);
        lemma_wrap_mod(head as int + 1 + i, cap);
        if head + 1 < buf.len() {
        } else {
            lemma_wrap_mod(i, cap);
        }
    }
    assert(lhs =~= rhs);
}

/// Writing just past the back and growing the length appends to the
/// window.
proof fn lemma_ring_push(buf: Seq<int>, head: nat, len: nat, tail: nat, v: int)
    requires
        buf.len() >= 1,
        head < buf.len(),
        len < buf.len(),
        tail == if len >= buf.len() - head {
            (len - (buf.len() - head)) as nat
        } else {
            head + len
        },
    ensures
        ring_window(buf.update(tail as int, v), head, (len + 1) as nat) == ring_window(
            buf,
            head,
            len,
        ).push(v),
{
    let cap = buf.len() as int;
    lemma_wrap_mod(head + len as int, cap);
    let buf2 = buf.update(tail as int, v);
    let lhs = ring_window(buf2, head, (len + 1) as nat);
    let rhs = ring_window(buf, head, len).push(v);
    assert forall|i: int| 0 <= i < len + 1 implies lhs[i] == rhs[i] by {
        lemma_wrap_mod(head as int + i, cap);
    }
    assert(lhs =~= rhs);
}

impl SmoothedNegativeDirectionalMovement {
    /// The canonical display form, derived from the construction
    /// parameters alone.
    pub fn to_string(&self) -> (r: String)
        ensures
            r@ == crate::text::named1("SDM-"@, self@.period),
    {
        crate::text::format_name1("SDM-", self.period)
    }
}

impl SmoothedPositiveDirectionalMovement {
    /// The canonical display form, derived from the construction
    /// parameters alone.
    pub fn to_string(&self) -> (r: String)
        ensures
            r@ == crate::text::named1("SDM+"@, self@.period),
    {
        crate::text::format_name1("SDM+", self.period)
    }
}

/// A plain-value snapshot of a smoothed directional movement indicator:
/// the queue is captured front first, with the ring layout left behind.
#[derive(Debug, Clone, PartialEq)]
pub struct SdmSnapshot {
    /// The configured period.
    pub period: usize,
    /// Running sum of the queued movements.
    pub sum: Num,
    /// The queued movements, front first.
    pub window: Vec<Num>,
    /// State of the owned movement primitive.
    pub dm: crate::indicators::directional_movement::DmSnapshot,
}

/// The abstract state a snapshot holds.
pub open spec fn sdm_snapshot_view(s: &SdmSnapshot) -> SdmView {
    SdmView {
        period: s.period as nat,
        sum: s.sum@,
        window: crate::helpers::views(s.window@),
        dm: crate::indicators::directional_movement::dm_snapshot_view(&s.dm),
    }
}

/// A snapshot whose fields the indicator can actually hold: the queue must
/// fit the ring of `period + 1` slots.
pub open spec fn sdm_snapshot_valid(s: &SdmSnapshot) -> bool {
    &&& 1 <= s.period < usize::MAX
    &&& s.window@.len() <= s.period + 1
}

impl SmoothedNegativeDirectionalMovement {
    /// Capture the full state, reading the queue out of the ring.
    #[verifier::loop_isolation(false)]
    pub fn snapshot(&self) -> (s: SdmSnapshot)
        ensures
            sdm_snapshot_view(&s) == self@,
            sdm_snapshot_valid(&s),
    {
        proof {
            use_type_invariant(&*self);
        }
        let cap = self.period + 1;
        let mut window: Vec<Num> = Vec::new();
        let mut i: usize = 0;
        while i < self.len
            invariant
                window@.len() == i,
                i <= self.len,
                forall|j: int| 0 <= j < i ==> window@[j]@ == self@.window[j],
            decreases self.len - i,
        {
            let pos = if i >= cap - self.head {
                i - (cap - self.head)
            } else {
                self.head + i
            };
            proof {
                lemma_wrap_mod(self.head as int + i as int, cap as int);
            }
            window.push(self.buf[pos]);
            i = i + 1;
        }
        let s = SdmSnapshot {
            period: self.period,
            sum: self.sum,
            window,
            dm: self.ndm.snapshot(),
        };
        proof {
            assert(sdm_snapshot_view(&s).window =~= self@.window);
        }
        s
    }

    /// Rebuild an indicator from a snapshot; a queue that cannot fit the
    /// ring is refused.  Restoring what [`Self::snapshot`] captured gives
    /// back exactly the captured state, so continuing any input stream
    /// yields the same outputs as an uninterrupted run.
    #[verifier::loop_isolation(false)]
    pub fn restore(s: &SdmSnapshot) -> (r: Result<Self, TaError>)
        ensures
            match r {
                Ok(t) => sdm_snapshot_valid(s) && t@ == sdm_snapshot_view(s),
                Err(e) => !sdm_snapshot_valid(s) && e == TaError::InvalidParameter,
            },
    {
        if !(s.period >= 1 && s.period < usize::MAX && s.window.len() <= s.period + 1) {
            return Err(TaError::InvalidParameter);
        }
        let cap = s.period + 1;
        let mut buf: Vec<Num> = Vec::new();
        let mut i: usize = 0;
        while i < s.window.len()
            invariant
                buf@.len() == i,
                i <= s.window@.len(),
                forall|j: int| 0 <= j < i ==> buf@[j] == s.window@[j],
            decreases s.window@.len() - i,
        {
            buf.push(s.window[i]);
            i = i + 1;
        }
        let zero = Num::zero();
        while buf.len() < cap
            invariant
                s.window@.len() <= buf@.len() <= cap,
                forall|j: int| 0 <= j < s.window@.len() ==> buf@[j] == s.window@[j],
            decreases cap - buf@.len(),
        {
            buf.push(zero);
        }
        let t = SmoothedNegativeDirectionalMovement {
            period: s.period,
            sum: s.sum,
            buf,
            head: 0,
            len: s.window.len(),
            ndm: NegativeDirectionalMovement::restore(&s.dm),
        };
        proof {
            assert forall|j: int| 0 <= j < t@.window.len() implies t@.window[j]
                == sdm_snapshot_view(s).window[j] by {
                lemma_wrap_mod(j, cap as int);
            }
            assert(t@.window =~= sdm_snapshot_view(s).window);
        }
        Ok(t)
    }
}

impl SmoothedPositiveDirectionalMovement {
    /// Capture the full state, reading the queue out of the ring.
    #[verifier::loop_isolation(false)]
    pub fn snapshot(&self) -> (s: SdmSnapshot)
        ensures
            sdm_snapshot_view(&s) == self@,
            sdm_snapshot_valid(&s),
    {
        proof {
            use_type_invariant(&*self);
        }
        let cap = self.period + 1;
        let mut window: Vec<Num> = Vec::new();
        let mut i: usize = 0;
        while i < self.len
            invariant
                window@.len() == i,
                i <= self.len,
                forall|j: int| 0 <= j < i ==> window@[j]@ == self@.window[j],
            decreases self.len - i,
        {
            let pos = if i >= cap - self.head {
                i - (cap - self.head)
            } else {
                self.head + i
            };
            proof {
                lemma_wrap_mod(self.head as int + i as int, cap as int);
            }
            window.push(self.buf[pos]);
            i = i + 1;
        }
        let s = SdmSnapshot {
            period: self.period,
            sum: self.sum,
            window,
            dm: self.pdm.snapshot(),
        };
        proof {
            assert(sdm_snapshot_view(&s).window =~= self@.window);
        }
        s
    }

    /// Rebuild an indicator from a snapshot; a queue that cannot fit the
    /// ring is refused.  Restoring what [`Self::snapshot`] captured gives
    /// back exactly the captured state, so continuing any input stream
    /// yields the same outputs as an uninterrupted run.
    #[verifier::loop_isolation(false)]
    pub fn restore(s: &SdmSnapshot) -> (r: Result<Self, TaError>)
        ensures
            match r {
                Ok(t) => sdm_snapshot_valid(s) && t@ == sdm_snapshot_view(s),
                Err(e) => !sdm_snapshot_valid(s) && e == TaError::InvalidParameter,
            },
    {
        if !(s.period >= 1 && s.period < usize::MAX && s.window.len() <= s.period + 1) {
            return Err(TaError::InvalidParameter);
        }
        let cap = s.period + 1;
        let mut buf: Vec<Num> = Vec::new();
        let mut i: usize = 0;
        while i < s.window.len()
            invariant
                buf@.len() == i,
                i <= s.window@.len(),
                forall|j: int| 0 <= j < i ==> buf@[j] == s.window@[j],
            decreases s.window@.len() - i,
        {
            buf.push(s.window[i]);
            i = i + 1;
        }
        let zero = Num::zero();
        while buf.len() < cap
            invariant
                s.window@.len() <= buf@.len() <= cap,
                forall|j: int| 0 <= j < s.window@.len() ==> buf@[j] == s.window@[j],
            decreases cap - buf@.len(),
        {
            buf.push(zero);
        }
        let t = SmoothedPositiveDirectionalMovement {
            period: s.period,
            sum: s.sum,
            buf,
            head: 0,
            len: s.window.len(),
            pdm: PositiveDirectionalMovement::restore(&s.dm),
        };
        proof {
            assert forall|j: int| 0 <= j < t@.window.len() implies t@.window[j]
                == sdm_snapshot_view(s).window[j] by {
                lemma_wrap_mod(j, cap as int);
            }
            assert(t@.window =~= sdm_snapshot_view(s).window);
        }
        Ok(t)
    }
}

} // verus!
