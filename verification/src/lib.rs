//! A column codec for elapsed-time durations.
//!
//! A [`duration::Duration`] is a signed span of time held with nanosecond
//! precision. It is persisted in a single signed 64-bit integer column as its
//! total count of nanoseconds. [`codec::ChronoDurationProxy`] wraps a duration
//! and carries the two conversion directions: encoding fails exactly when the
//! count overflows the column type, and decoding turns every stored count back
//! into a duration.

pub mod codec;
pub mod duration;
