//! A swappable source of "the current time": the host clock for production,
//! and a manually set value for deterministic tests.

pub mod clock;

pub use clock::{ManualTimeSource, TimeSource, TimeSourceError, Timestamp, UtcTimeSource};
