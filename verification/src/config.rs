//! The tunables of the coordinator.

use vstd::prelude::*;
use crate::canonical::DEFAULT_SEARCH_PREFIX;
use crate::geometry::{HostWindowMetrics, Scale};

verus! {

/// Height reserved for the address bar, in logical units.
pub const DEFAULT_CHROME_OFFSET: u32 = 40;

/// Time between two attempts to create the surface, in milliseconds.
pub const DEFAULT_RETRY_PERIOD_MS: u64 = 25;

/// Time between two updates of the surface's bounds, in milliseconds.
pub const DEFAULT_SYNC_PERIOD_MS: u64 = 100;

/// Number of retry ticks after which creation is given up: one minute of
/// them at the default period.
pub const DEFAULT_RETRY_LIMIT: u32 = 2400;

/// The address loaded when the address bar is blank at creation.
pub const DEFAULT_ADDRESS: &'static str = "https://abghim.github.io";

/// The tunables of the coordinator.
#[derive(Debug)]
pub struct Config {
    /// Height reserved for the address bar, in logical units.
    pub chrome_offset: u32,
    /// The address loaded when the address bar is blank at creation.
    pub default_address: String,
    /// The search engine's URL up to the query text.
    pub search_prefix: String,
    /// Time between two attempts to create the surface, in milliseconds.
    pub retry_period_ms: u64,
    /// Time between two updates of the surface's bounds, in milliseconds.
    pub sync_period_ms: u64,
    /// Number of retry ticks after which creation is given up.
    pub retry_limit: u32,
}

impl Config {
    /// The metrics for what the host window reports.
    pub open spec fn spec_metrics(&self, width: u32, height: u32, scale: Scale) -> HostWindowMetrics {
        HostWindowMetrics { width, height, scale, chrome_offset: self.chrome_offset }
    }

    /// The metrics for what the host window reports.
    #[verifier::when_used_as_spec(spec_metrics)]
    pub fn metrics(&self, width: u32, height: u32, scale: Scale) -> (metrics: HostWindowMetrics)
        ensures
            metrics == self.spec_metrics(width, height, scale),
    {
        HostWindowMetrics { width, height, scale, chrome_offset: self.chrome_offset }
    }
}

impl Default for Config {
    fn default() -> (config: Config)
        ensures
            config.chrome_offset == DEFAULT_CHROME_OFFSET,
            config.default_address@ == DEFAULT_ADDRESS@,
            config.search_prefix@ == DEFAULT_SEARCH_PREFIX@,
            config.retry_period_ms == DEFAULT_RETRY_PERIOD_MS,
            config.sync_period_ms == DEFAULT_SYNC_PERIOD_MS,
            config.retry_limit == DEFAULT_RETRY_LIMIT,
    {
        Config {
            chrome_offset: DEFAULT_CHROME_OFFSET,
            default_address: String::from_str(DEFAULT_ADDRESS),
            search_prefix: String::from_str(DEFAULT_SEARCH_PREFIX),
            retry_period_ms: DEFAULT_RETRY_PERIOD_MS,
            sync_period_ms: DEFAULT_SYNC_PERIOD_MS,
            retry_limit: DEFAULT_RETRY_LIMIT,
        }
    }
}

} // verus!
