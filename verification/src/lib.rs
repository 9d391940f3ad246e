//! Options that govern how a reconnecting stream retries a lost or failed
//! connection: how long it waits between attempts, whether a failed first
//! attempt is final, and what it runs when it connects, disconnects or fails
//! to connect.
//!
//! Nothing here opens a connection or waits. The stream that owns the
//! connection reads these options and drives them.

pub mod config;
pub mod duration;
pub mod strategy;

pub use config::{Callback, NoOp, ReconnectOptions};
pub use strategy::{
    get_standard_reconnect_strategy, take, DurationIterator, IntoRetrySequence, RetriesGenerator,
    RetrySequence, StandardStrategy,
};
