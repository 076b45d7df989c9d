//! A deterministic, test-oriented absolute-time value type.
//!
//! The crate turns a civil (year, month, day, hour, minute, second) tuple,
//! read as UTC, into a count of seconds since 1970-01-01T00:00:00Z, wraps
//! that count in a [`time::SystemTime`] value, and computes forward
//! differences between two such values at second resolution.

pub mod calendar;
pub mod duration;
pub mod time;

pub use calendar::epoch_from;
pub use calendar::number_of_days_in_a_month;
pub use calendar::number_of_days_in_a_year;
pub use duration::Duration;
pub use duration::SystemTimeError;
pub use time::SystemTime;
pub use time::unix_epoch;
