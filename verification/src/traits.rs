//! The core indicator contracts and the bar capability contracts.

use vstd::prelude::*;

use crate::num::Num;

verus! {

/// Resets an indicator to the initial state.
pub trait Reset {
    fn reset(&mut self);
}

/// Return the period used by the indicator.
pub trait Period {
    fn period(&self) -> usize;
}

/// Consumes a data item of type `T` and returns `Output`.
///
/// Typically `T` is [`Num`](crate::Num) or a reference to a bar-like value
/// offering the capability subset the indicator needs (see [`Open`],
/// [`High`], [`Low`], [`Close`], [`Volume`]).
pub trait Next<T> {
    type Output;

    fn next(&mut self, input: T) -> Self::Output;
}

/// Open price of a particular period.
pub trait Open {
    /// The open price, as a raw fixed-point value.
    spec fn open_spec(&self) -> int;

    fn open(&self) -> (r: Num)
        ensures
            r@ == self.open_spec(),
    ;
}

/// Highest price of a particular period.
pub trait High {
    /// The high price, as a raw fixed-point value.
    spec fn high_spec(&self) -> int;

    fn high(&self) -> (r: Num)
        ensures
            r@ == self.high_spec(),
    ;
}

/// Lowest price of a particular period.
pub trait Low {
    /// The low price, as a raw fixed-point value.
    spec fn low_spec(&self) -> int;

    fn low(&self) -> (r: Num)
        ensures
            r@ == self.low_spec(),
    ;
}

/// Close price of a particular period.
pub trait Close {
    /// The close price, as a raw fixed-point value.
    spec fn close_spec(&self) -> int;

    fn close(&self) -> (r: Num)
        ensures
            r@ == self.close_spec(),
    ;
}

/// Trading volume of a particular trading period.
pub trait Volume {
    /// The volume, as a raw fixed-point value.
    spec fn volume_spec(&self) -> int;

    fn volume(&self) -> (r: Num)
        ensures
            r@ == self.volume_spec(),
    ;
}

} // verus!
