//! The two bare directional movement primitives.

use vstd::prelude::*;

use crate::errors::TaError;
use crate::num::{sub_v, Num};
use crate::traits::{High, Low, Next, Reset};

verus! {

/// Abstract state of a directional movement primitive: the previous value
/// and the one-shot flag.
pub struct DmView {
    /// The previous input, as a raw fixed-point value.
    pub current: int,
    /// True until the first input arrives.
    pub is_new: bool,
}

/// State of a fresh primitive.
pub open spec fn dm_init() -> DmView {
    DmView { current: 0, is_new: true }
}

/// Output of the negative primitive: the first input itself, then
/// `previous - input`.
pub open spec fn ndm_out(s: DmView, x: int) -> int {
    if s.is_new {
        x
    } else {
        sub_v(s.current, x)
    }
}

/// Output of the positive primitive: the first input itself, then
/// `input - previous`.
pub open spec fn pdm_out(s: DmView, x: int) -> int {
    if s.is_new {
        x
    } else {
        sub_v(x, s.current)
    }
}

/// State after one input, shared by both primitives.
pub open spec fn dm_step(s: DmView, x: int) -> DmView {
    DmView { current: x, is_new: false }
}

/// Negative Directional Movement (DM-): the fall of the low from one
/// period to the next.
///
/// # Formula
///
/// DM-<sub>t</sub> = low<sub>t-1</sub> - low<sub>t</sub>
#[derive(Debug)]
pub struct NegativeDirectionalMovement {
    current: Num,
    is_new: bool,
}

impl View for NegativeDirectionalMovement {
    type V = DmView;

    closed spec fn view(&self) -> DmView {
        DmView { current: self.current@, is_new: self.is_new }
    }
}

impl NegativeDirectionalMovement {
    /// A fresh primitive; construction never fails.
    pub fn new() -> (r: Result<Self, TaError>)
        ensures
            r is Ok && r->Ok_0@ == dm_init(),
    {
        Ok(NegativeDirectionalMovement { current: Num::zero(), is_new: true })
    }
}

impl Next<Num> for NegativeDirectionalMovement {
    type Output = Num;

    fn next(&mut self, input: Num) -> (r: Num)
        ensures
            final(self)@ == dm_step(old(self)@, input@),
            r@ == ndm_out(old(self)@, input@),
    {
        if self.is_new {
            self.is_new = false;
            self.current = input;
            self.current
        } else {
            let next = self.current.sub(input);
            self.current = input;
            next
        }
    }
}

impl<T: Low> Next<&T> for NegativeDirectionalMovement {
    type Output = Num;

    fn next(&mut self, input: &T) -> (r: Num)
        ensures
            final(self)@ == dm_step(old(self)@, input.low_spec()),
            r@ == ndm_out(old(self)@, input.low_spec()),
    {
        let l = input.low();
        Next::<Num>::next(self, l)
    }
}

impl Reset for NegativeDirectionalMovement {
    fn reset(&mut self)
        ensures
            final(self)@.is_new,
            final(self)@.current == old(self)@.current,
    {
        self.is_new = true;
    }
}

impl Clone for NegativeDirectionalMovement {
    /// A clone is an independent, identically behaving instance.
    fn clone(&self) -> (r: Self)
        ensures
            r@ == self@,
    {
        NegativeDirectionalMovement { current: self.current, is_new: self.is_new }
    }
}

impl Default for NegativeDirectionalMovement {
    fn default() -> (r: Self)
        ensures
            r@ == dm_init(),
    {
        NegativeDirectionalMovement::new().unwrap()
    }
}

/// Positive Directional Movement (DM+): the rise of the high from one
/// period to the next.
///
/// # Formula
///
/// DM+<sub>t</sub> = high<sub>t</sub> - high<sub>t-1</sub>
#[derive(Debug)]
pub struct PositiveDirectionalMovement {
    current: Num,
    is_new: bool,
}

impl View for PositiveDirectionalMovement {
    type V = DmView;

    closed spec fn view(&self) -> DmView {
        DmView { current: self.current@, is_new: self.is_new }
    }
}

impl PositiveDirectionalMovement {
    /// A fresh primitive; construction never fails.
    pub fn new() -> (r: Result<Self, TaError>)
        ensures
            r is Ok && r->Ok_0@ == dm_init(),
    {
        Ok(PositiveDirectionalMovement { current: Num::zero(), is_new: true })
    }
}

impl Next<Num> for PositiveDirectionalMovement {
    type Output = Num;

    fn next(&mut self, input: Num) -> (r: Num)
        ensures
            final(self)@ == dm_step(old(self)@, input@),
            r@ == pdm_out(old(self)@, input@),
    {
        if self.is_new {
            self.is_new = false;
            self.current = input;
            self.current
        } else {
            let next = input.sub(self.current);
            self.current = input;
            next
        }
    }
}

impl<T: High> Next<&T> for PositiveDirectionalMovement {
    type Output = Num;

    fn next(&mut self, input: &T) -> (r: Num)
        ensures
            final(self)@ == dm_step(old(self)@, input.high_spec()),
            r@ == pdm_out(old(self)@, input.high_spec()),
    {
        let h = input.high();
        Next::<Num>::next(self, h)
    }
}

impl Reset for PositiveDirectionalMovement {
    fn reset(&mut self)
        ensures
            final(self)@.is_new,
            final(self)@.current == old(self)@.current,
    {
        self.is_new = true;
    }
}

impl Clone for PositiveDirectionalMovement {
    /// A clone is an independent, identically behaving instance.
    fn clone(&self) -> (r: Self)
        ensures
            r@ == self@,
    {
        PositiveDirectionalMovement { current: self.current, is_new: self.is_new }
    }
}

impl Default for PositiveDirectionalMovement {
    fn default() -> (r: Self)
        ensures
            r@ == dm_init(),
    {
        PositiveDirectionalMovement::new().unwrap()
    }
}

impl NegativeDirectionalMovement {
    /// The canonical display form.
    pub fn to_string(&self) -> (r: String)
        ensures
            r@ == "DM-"@,
    {
        crate::text::format_bare("DM-")
    }
}

impl PositiveDirectionalMovement {
    /// The canonical display form.
    pub fn to_string(&self) -> (r: String)
        ensures
            r@ == "DM+"@,
    {
        crate::text::format_bare("DM+")
    }
}

/// A reset primitive behaves exactly like a fresh one: the retained
/// previous value is masked by the one-shot flag, so the first input
/// overwrites it and every later output agrees.
pub proof fn lemma_dm_reset_determinism(c: int, x: int)
    ensures
        ndm_out(DmView { current: c, is_new: true }, x) == ndm_out(dm_init(), x),
        pdm_out(DmView { current: c, is_new: true }, x) == pdm_out(dm_init(), x),
        dm_step(DmView { current: c, is_new: true }, x) == dm_step(dm_init(), x),
{
}

/// A plain-value snapshot of either directional movement primitive.
#[derive(Debug, Clone, Copy, PartialEq, Eq, Structural)]
pub struct DmSnapshot {
    /// The previous input.
    pub current: Num,
    /// True until the first input arrives.
    pub is_new: bool,
}

/// The abstract state a snapshot holds.
pub open spec fn dm_snapshot_view(s: &DmSnapshot) -> DmView {
    DmView { current: s.current@, is_new: s.is_new }
}

impl NegativeDirectionalMovement {
    /// Capture the full state.
    pub fn snapshot(&self) -> (s: DmSnapshot)
        ensures
            dm_snapshot_view(&s) == self@,
    {
        DmSnapshot { current: self.current, is_new: self.is_new }
    }

    /// Rebuild a primitive from a snapshot; every snapshot is a state the
    /// primitive can hold, so restoring cannot fail, and restoring what
    /// [`Self::snapshot`] captured gives back exactly the captured state.
    pub fn restore(s: &DmSnapshot) -> (r: Self)
        ensures
            r@ == dm_snapshot_view(s),
    {
        NegativeDirectionalMovement { current: s.current, is_new: s.is_new }
    }
}

impl PositiveDirectionalMovement {
    /// Capture the full state.
    pub fn snapshot(&self) -> (s: DmSnapshot)
        ensures
            dm_snapshot_view(&s) == self@,
    {
        DmSnapshot { current: self.current, is_new: self.is_new }
    }

    /// Rebuild a primitive from a snapshot; every snapshot is a state the
    /// primitive can hold, so restoring cannot fail, and restoring what
    /// [`Self::snapshot`] captured gives back exactly the captured state.
    pub fn restore(s: &DmSnapshot) -> (r: Self)
        ensures
            r@ == dm_snapshot_view(s),
    {
        PositiveDirectionalMovement { current: s.current, is_new: s.is_new }
    }
}

} // verus!
