//! Verified core of a pair of output modules for a multi-threaded
//! message-ingestion daemon: a normalizer that turns dispatcher message
//! events into canonical records, the batching policy of the single
//! writer thread that persists those records, a per-worker-thread stats
//! aggregator, and a smoothed throughput estimator.
//!
//! All I/O (the SQLite connection, channel endpoints, thread spawning,
//! terminal rendering) lives outside this crate; the functions here take
//! and return plain values, with wall-clock time handed in as a
//! millisecond count.

use vstd::prelude::*;

pub mod batch;
pub mod channel;
pub mod error;
pub mod printer;
pub mod record;
pub mod sql;
pub mod stats;
pub mod writer;

verus! {

/// Hard ceiling on dispatcher worker threads: per-thread tables are
/// fixed-size arrays of this many slots, sized once at startup.
pub const MAX_THREADS: usize = 256;

/// Names of the output modules that can be linked statically into the
/// host daemon, in the order they are invoked.
pub fn get_features() -> (features: Vec<&'static str>)
    ensures
        features@.len() == 3,
        features@[0]@ == "printer"@,
        features@[1]@ == "stats"@,
        features@[2]@ == "sqlite"@,
{
    let mut features: Vec<&'static str> = Vec::new();
    features.push("printer");
    features.push("stats");
    features.push("sqlite");
    features
}

} // verus!
