//! Fixed service constants.

use vstd::prelude::*;

verus! {

/// Largest width or height, in pixels, that a resize request may ask for.
pub const MAX_DIM: u32 = 3000;

/// Token-bucket budget: capacity in tokens and refill rate in tokens per second.
pub const REQUESTS_PER_SECOND: u32 = 100;

/// A health snapshot reports `Healthy` only while memory usage is strictly
/// below this percentage.
pub const MEMORY_THRESHOLD_PERCENT: u64 = 90;

/// How long, in milliseconds, a health sample is reused before the host is
/// sampled again.
pub const SAMPLE_INTERVAL_MS: u64 = 1000;

} // verus!
