//! The values a fresh configuration starts with.

use vstd::prelude::*;

verus! {

/// Capacity of the hand-off channel: how many records can wait at one time.
pub const DEFAULT_BUFFER_SIZE: usize = 1024;

/// Number of records at which a batch is flushed.
pub const DEFAULT_BATCH_SIZE: usize = 50;

/// Milliseconds after which a batch is flushed whatever its size.
pub const DEFAULT_BATCH_DURATION_MS: u64 = 50;

/// Pattern of the timestamp, as in `2025-10-23T15:30:45.123Z`.
pub const DEFAULT_TIMESTAMP_FORMAT: &'static str = "%Y-%m-%dT%H:%M:%S%.3fZ";

/// Name of the timestamp member.
pub const DEFAULT_TIMESTAMP_KEY: &'static str = "timestamp";

/// What the caller is told when the channel is saturated.
pub const BUFFER_FULL_WARNING: &'static str =
    "Logger buffer full - consider increasing the buffer_size! This log bypassed batching.";

/// What starts the diagnostic of a value that could not be serialized.
pub const SERIALIZATION_FAILURE: &'static str = "Failed to serialize ";

/// What the caller is told when a logger is built a second time.
pub const ALREADY_INITIALIZED_WARNING: &'static str =
    "WARNING - LOGGER ALREADY INITIALIZED! ANY NEW SETTINGS WILL NOT BE APPLIED.";

} // verus!
