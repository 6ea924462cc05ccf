//! Fixed-rate request pacing with per-request latency records.
//!
//! Durations are whole nanoseconds held in `u64`. The library decides which
//! requests are admitted and when each is due, types each outcome, and keeps
//! the records in submission order; the caller performs the waits and sends.
use vstd::prelude::*;

pub mod config;
pub mod dispatch;
pub mod outcome;
pub mod pacing;
pub mod results;

pub use outcome::Elapsed;
