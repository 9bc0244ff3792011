//! Background sensor polling with staleness-aware caching and streak metrics.
//!
//! A slow, error-prone sensor is sampled on a fixed interval by a background
//! worker. The latest usable reading is cached for concurrent readers, and
//! running streak counters describe recent success/failure behaviour. The
//! cache evicts its value after too many consecutive failures; the metrics
//! keep the last known reading forever and expose it in a text format.

use vstd::prelude::*;

pub mod cache;
pub mod closures;
pub mod exposition;
pub mod metrics;
pub mod observation;
pub mod poller;
pub mod sensors;

verus! {

/// Number of consecutive failures after which a cached reading is discarded
/// as too stale to trust.
pub const EVICTION_THRESHOLD: usize = 10;

} // verus!
