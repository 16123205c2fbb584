//! The validated input value object: one open/high/low/close/volume
//! observation whose fields have been checked for consistency.

use vstd::prelude::*;

use crate::errors::TaError;
use crate::num::Num;
use crate::traits::{Close, High, Low, Open, Volume};

verus! {

/// Do the five prices form a consistent observation?  The low must not
/// exceed the open, close or high; the high must not fall below the open
/// or close; and the volume must be nonnegative.
pub open spec fn data_item_valid(
    open: int,
    high: int,
    low: int,
    close: int,
    volume: int,
) -> bool {
    &&& low <= open
    &&& low <= close
    &&& low <= high
    &&& high >= open
    &&& high >= close
    &&& volume >= 0
}

/// Data item is used as an input for indicators.
///
/// Built through [`DataItemBuilder`], which refuses incomplete or
/// inconsistent observations.
#[derive(Debug, Clone, Copy, PartialEq, Eq, Structural)]
pub struct DataItem {
    open: Num,
    high: Num,
    low: Num,
    close: Num,
    volume: Num,
}

impl DataItem {
    /// Start building a data item.
    pub fn builder() -> (b: DataItemBuilder)
        ensures
            b.open_set() is None,
            b.high_set() is None,
            b.low_set() is None,
            b.close_set() is None,
            b.volume_set() is None,
    {
        DataItemBuilder::new()
    }
}

impl Open for DataItem {
    closed spec fn open_spec(&self) -> int {
        self.open@
    }

    fn open(&self) -> (r: Num) {
        self.open
    }
}

impl High for DataItem {
    closed spec fn high_spec(&self) -> int {
        self.high@
    }

    fn high(&self) -> (r: Num) {
        self.high
    }
}

impl Low for DataItem {
    closed spec fn low_spec(&self) -> int {
        self.low@
    }

    fn low(&self) -> (r: Num) {
        self.low
    }
}

impl Close for DataItem {
    closed spec fn close_spec(&self) -> int {
        self.close@
    }

    fn close(&self) -> (r: Num) {
        self.close
    }
}

impl Volume for DataItem {
    closed spec fn volume_spec(&self) -> int {
        self.volume@
    }

    fn volume(&self) -> (r: Num) {
        self.volume
    }
}

/// Collects the five fields of a [`DataItem`] and validates them.
pub struct DataItemBuilder {
    open: Option<Num>,
    high: Option<Num>,
    low: Option<Num>,
    close: Option<Num>,
    volume: Option<Num>,
}

impl DataItemBuilder {
    /// The open value supplied so far, if any.
    pub closed spec fn open_set(&self) -> Option<int> {
        match self.open {
            Some(v) => Some(v@),
            None => None,
        }
    }

    /// The high value supplied so far, if any.
    pub closed spec fn high_set(&self) -> Option<int> {
        match self.high {
            Some(v) => Some(v@),
            None => None,
        }
    }

    /// The low value supplied so far, if any.
    pub closed spec fn low_set(&self) -> Option<int> {
        match self.low {
            Some(v) => Some(v@),
            None => None,
        }
    }

    /// The close value supplied so far, if any.
    pub closed spec fn close_set(&self) -> Option<int> {
        match self.close {
            Some(v) => Some(v@),
            None => None,
        }
    }

    /// The volume value supplied so far, if any.
    pub closed spec fn volume_set(&self) -> Option<int> {
        match self.volume {
            Some(v) => Some(v@),
            None => None,
        }
    }

    /// A builder with no field supplied yet.
    pub fn new() -> (b: DataItemBuilder)
        ensures
            b.open_set() is None,
            b.high_set() is None,
            b.low_set() is None,
            b.close_set() is None,
            b.volume_set() is None,
    {
        DataItemBuilder { open: None, high: None, low: None, close: None, volume: None }
    }

    /// Supply the open price.
    pub fn open(self, val: Num) -> (b: DataItemBuilder)
        ensures
            b.open_set() == Some(val@),
            b.high_set() == self.high_set(),
            b.low_set() == self.low_set(),
            b.close_set() == self.close_set(),
            b.volume_set() == self.volume_set(),
    {
        DataItemBuilder { open: Some(val), ..self }
    }

    /// Supply the high price.
    pub fn high(self, val: Num) -> (b: DataItemBuilder)
        ensures
            b.high_set() == Some(val@),
            b.open_set() == self.open_set(),
            b.low_set() == self.low_set(),
            b.close_set() == self.close_set(),
            b.volume_set() == self.volume_set(),
    {
        DataItemBuilder { high: Some(val), ..self }
    }

    /// Supply the low price.
    pub fn low(self, val: Num) -> (b: DataItemBuilder)
        ensures
            b.low_set() == Some(val@),
            b.open_set() == self.open_set(),
            b.high_set() == self.high_set(),
            b.close_set() == self.close_set(),
            b.volume_set() == self.volume_set(),
    {
        DataItemBuilder { low: Some(val), ..self }
    }

    /// Supply the close price.
    pub fn close(self, val: Num) -> (b: DataItemBuilder)
        ensures
            b.close_set() == Some(val@),
            b.open_set() == self.open_set(),
            b.high_set() == self.high_set(),
            b.low_set() == self.low_set(),
            b.volume_set() == self.volume_set(),
    {
        DataItemBuilder { close: Some(val), ..self }
    }

    /// Supply the volume.
    pub fn volume(self, val: Num) -> (b: DataItemBuilder)
        ensures
            b.volume_set() == Some(val@),
            b.open_set() == self.open_set(),
            b.high_set() == self.high_set(),
            b.low_set() == self.low_set(),
            b.close_set() == self.close_set(),
    {
        DataItemBuilder { volume: Some(val), ..self }
    }

    /// Validate the collected fields and build the data item.
    ///
    /// Fails with `DataItemIncomplete` when any field is missing, and with
    /// `DataItemInvalid` when the five values are inconsistent; succeeds
    /// exactly on complete, consistent observations.
    pub fn build(self) -> (r: Result<DataItem, TaError>)
        ensures
            match r {
                Ok(d) => {
                    &&& self.open_set() == Some(d.open_spec())
                    &&& self.high_set() == Some(d.high_spec())
                    &&& self.low_set() == Some(d.low_spec())
                    &&& self.close_set() == Some(d.close_spec())
                    &&& self.volume_set() == Some(d.volume_spec())
                    &&& data_item_valid(
                        d.open_spec(),
                        d.high_spec(),
                        d.low_spec(),
                        d.close_spec(),
                        d.volume_spec(),
                    )
                },
                Err(TaError::DataItemIncomplete) => {
                    ||| self.open_set() is None
                    ||| self.high_set() is None
                    ||| self.low_set() is None
                    ||| self.close_set() is None
                    ||| self.volume_set() is None
                },
                Err(TaError::DataItemInvalid) => {
                    &&& self.open_set() is Some
                    &&& self.high_set() is Some
                    &&& self.low_set() is Some
                    &&& self.close_set() is Some
                    &&& self.volume_set() is Some
                    &&& !data_item_valid(
                        self.open_set()->0,
                        self.high_set()->0,
                        self.low_set()->0,
                        self.close_set()->0,
                        self.volume_set()->0,
                    )
                },
                Err(TaError::InvalidParameter) => false,
            },
    {
        if let (Some(open), Some(high), Some(low), Some(close), Some(volume)) = (
            self.open,
            self.high,
            self.low,
            self.close,
            self.volume,
        ) {
            let zero = Num::zero();
            if low <= open && low <= close && low <= high && high >= open && high >= close
                && volume >= zero {
                Ok(DataItem { open, high, low, close, volume })
            } else {
                Err(TaError::DataItemInvalid)
            }
        } else {
            Err(TaError::DataItemIncomplete)
        }
    }
}

} // verus!
