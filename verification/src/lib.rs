//! Streaming technical-analysis indicators.
//!
//! Every indicator is a small state machine: a validated constructor, a
//! `next` step that consumes one observation and yields one output, and a
//! `reset` that returns the indicator to its just-constructed state.
//!
//! All arithmetic is carried out on [`Num`], a saturating fixed-point
//! decimal number, so that every output is an exactly specified function
//! of the inputs fed so far.
//!
//! Every indicator also exposes its full internal state as a plain
//! snapshot value with a `snapshot`/`restore` pair: resuming from a
//! restored snapshot continues the stream with the same outputs as an
//! uninterrupted run.

pub mod errors;
pub mod indicators;

mod bar;
mod data_item;
mod helpers;
mod num;
mod text;
mod traits;

pub use crate::bar::Bar;
pub use crate::data_item::{DataItem, DataItemBuilder};
pub use crate::helpers::max3;
pub use crate::num::Num;
pub use crate::traits::{Close, High, Low, Next, Open, Period, Reset, Volume};
