//! Failure values reported by constructors and builders.
//!
//! Constructors are the only fallible entry points of this crate: once an
//! indicator exists, its `next` and `reset` operations are total.

use vstd::prelude::*;

verus! {

/// A failure reported by this crate.
#[derive(Debug, Clone, Copy, PartialEq, Eq, Structural)]
pub enum TaError {
    /// A constructor was given an invalid parameter: a zero period, or a
    /// multiplier below its required minimum.
    InvalidParameter,
    /// A data item was built before all five fields were supplied.
    DataItemIncomplete,
    /// A data item was built from inconsistent values.
    DataItemInvalid,
}

} // verus!
