//! Configuration of the watchdog system.

use std::time::Duration;
use vstd::prelude::*;
use crate::clock::{duration_from_secs, duration_of_secs};

verus! {

/// Configuration for the watchdog system.
#[derive(Debug, Clone)]
pub struct WatchdogConfig {
    /// How often fetchers run.
    pub fetch_interval: Duration,
    /// Number of fetches that may run at once.
    pub fetch_worker_threads: usize,
}

impl Default for WatchdogConfig {
    /// One fetch cycle a minute, four fetches at once.
    fn default() -> (c: Self)
        ensures
            c.fetch_interval == duration_of_secs(60),
            c.fetch_worker_threads == 4,
    {
        WatchdogConfig { fetch_interval: duration_from_secs(60), fetch_worker_threads: 4 }
    }
}

} // verus!
