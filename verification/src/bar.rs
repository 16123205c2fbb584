//! An unvalidated bar: five prices with builder-style setters.

use vstd::prelude::*;

use crate::num::Num;
use crate::traits::{Close, High, Low, Open, Volume};

verus! {

/// One open/high/low/close/volume observation, without any consistency
/// check between the fields.  See [`DataItem`](crate::DataItem) for the
/// validated counterpart.
#[derive(Debug, Clone, Copy, PartialEq, Eq, Structural)]
pub struct Bar {
    open: Num,
    high: Num,
    low: Num,
    close: Num,
    volume: Num,
}

impl Bar {
    /// A bar with every field zero.
    pub fn new() -> (b: Bar)
        ensures
            b.open_spec() == 0,
            b.high_spec() == 0,
            b.low_spec() == 0,
            b.close_spec() == 0,
            b.volume_spec() == 0,
    {
        Bar {
            open: Num::zero(),
            high: Num::zero(),
            low: Num::zero(),
            close: Num::zero(),
            volume: Num::zero(),
        }
    }

    /// Replace the open price.
    pub fn open(self, val: Num) -> (b: Bar)
        ensures
            b.open_spec() == val@,
            b.high_spec() == self.high_spec(),
            b.low_spec() == self.low_spec(),
            b.close_spec() == self.close_spec(),
            b.volume_spec() == self.volume_spec(),
    {
        Bar { open: val, ..self }
    }

    /// Replace the high price.
    pub fn high(self, val: Num) -> (b: Bar)
        ensures
            b.high_spec() == val@,
            b.open_spec() == self.open_spec(),
            b.low_spec() == self.low_spec(),
            b.close_spec() == self.close_spec(),
            b.volume_spec() == self.volume_spec(),
    {
        Bar { high: val, ..self }
    }

    /// Replace the low price.
    pub fn low(self, val: Num) -> (b: Bar)
        ensures
            b.low_spec() == val@,
            b.open_spec() == self.open_spec(),
            b.high_spec() == self.high_spec(),
            b.close_spec() == self.close_spec(),
            b.volume_spec() == self.volume_spec(),
    {
        Bar { low: val, ..self }
    }

    /// Replace the close price.
    pub fn close(self, val: Num) -> (b: Bar)
        ensures
            b.close_spec() == val@,
            b.open_spec() == self.open_spec(),
            b.high_spec() == self.high_spec(),
            b.low_spec() == self.low_spec(),
            b.volume_spec() == self.volume_spec(),
    {
        Bar { close: val, ..self }
    }

    /// Replace the volume.
    pub fn volume(self, val: Num) -> (b: Bar)
        ensures
            b.volume_spec() == val@,
            b.open_spec() == self.open_spec(),
            b.high_spec() == self.high_spec(),
            b.low_spec() == self.low_spec(),
            b.close_spec() == self.close_spec(),
    {
        Bar { volume: val, ..self }
    }
}

impl Open for Bar {
    closed spec fn open_spec(&self) -> int {
        self.open@
    }

    fn open(&self) -> (r: Num) {
        self.open
    }
}

impl High for Bar {
    closed spec fn high_spec(&self) -> int {
        self.high@
    }

    fn high(&self) -> (r: Num) {
        self.high
    }
}

impl Low for Bar {
    closed spec fn low_spec(&self) -> int {
        self.low@
    }

    fn low(&self) -> (r: Num) {
        self.low
    }
}

impl Close for Bar {
    closed spec fn close_spec(&self) -> int {
        self.close@
    }

    fn close(&self) -> (r: Num) {
        self.close
    }
}

impl Volume for Bar {
    closed spec fn volume_spec(&self) -> int {
        self.volume@
    }

    fn volume(&self) -> (r: Num) {
        self.volume
    }
}

} // verus!
