//! Module configuration switches.

use vstd::prelude::*;

verus! {

/// Switches for the status endpoint, zone tracking and upstream statistics
/// collection.
#[derive(Debug, Clone, Copy, PartialEq, Eq, Structural)]
pub struct VtsConfig {
    /// Enable the status endpoint.
    pub enable_status: bool,
    /// Enable zone-based traffic tracking.
    pub enable_zone: bool,
    /// Enable upstream statistics collection.
    pub enable_upstream_stats: bool,
}

impl VtsConfig {
    /// Default settings: zone tracking on, everything else off.
    pub fn new() -> (r: VtsConfig)
        ensures
            r == (VtsConfig { enable_status: false, enable_zone: true, enable_upstream_stats: false }),
    {
        VtsConfig { enable_status: false, enable_zone: true, enable_upstream_stats: false }
    }
}

impl Default for VtsConfig {
    fn default() -> (r: VtsConfig)
        ensures
            r == (VtsConfig { enable_status: false, enable_zone: true, enable_upstream_stats: false }),
    {
        VtsConfig::new()
    }
}

} // verus!
