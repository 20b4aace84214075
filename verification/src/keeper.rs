//! Configuration of the top-level cache handle.
//!
//! The handle itself — acquiring the process-exclusivity lock, spawning the
//! store workers and the janitor, dispatching operations over queues, and
//! shutting everything down — lives in the embedding program: threads and
//! channels are outside what this crate states. The configuration it starts
//! from is decided here.

use vstd::prelude::*;

verus! {

/// The cleanup sweep interval used when none is given: one hour.
pub const DEFAULT_CLEANUP_INTERVAL_SECS: u64 = 3600;

/// Configuration for a cache instance: the cache root path, the janitor's
/// sweep interval in seconds, and how many store worker threads drain the
/// operation queue (at least one).
#[derive(Debug)]
pub struct KeeperBuilder {
    pub path: String,
    pub cleanup_interval_secs: u64,
    pub store_workers: usize,
}

impl KeeperBuilder {
    /// A configuration for the cache rooted at `path`, with the defaults:
    /// an hourly cleanup sweep and a single store worker.
    pub fn new(path: String) -> (r: KeeperBuilder)
        ensures
            r.path@ == path@,
            r.cleanup_interval_secs == DEFAULT_CLEANUP_INTERVAL_SECS,
            r.store_workers == 1,
    {
        KeeperBuilder { path, cleanup_interval_secs: DEFAULT_CLEANUP_INTERVAL_SECS, store_workers: 1 }
    }

    /// Sets how long the janitor sleeps between sweeps, in seconds.
    pub fn with_cleanup_interval(self, interval_secs: u64) -> (r: KeeperBuilder)
        ensures
            r.path@ == self.path@,
            r.cleanup_interval_secs == interval_secs,
            r.store_workers == self.store_workers,
    {
        KeeperBuilder { cleanup_interval_secs: interval_secs, ..self }
    }

    /// Sets how many store workers to spawn, clamped to at least one.
    pub fn with_store_workers(self, count: usize) -> (r: KeeperBuilder)
        ensures
            r.path@ == self.path@,
            r.cleanup_interval_secs == self.cleanup_interval_secs,
            r.store_workers == if count >= 1 {
                count as int
            } else {
                1
            },
    {
        let workers = if count >= 1 {
            count
        } else {
            1
        };
        KeeperBuilder { store_workers: workers, ..self }
    }
}

} // verus!
