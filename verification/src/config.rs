//! Configuration of the Webmention validator and its defaults.

use vstd::prelude::*;

verus! {

/// What a Webmention request must look like to be let through.
#[derive(Debug, Clone)]
pub struct ValidationConfig {
    /// Accepted content types. Compared without regard to case.
    pub require_content_type: Vec<String>,
    /// Whether source and target must be present and be web URLs.
    pub require_source_target: bool,
    /// Whether a source and a target on one registrable domain are refused.
    pub block_self_ping: bool,
}

/// Whether and where metrics are served.
#[derive(Debug, Clone)]
pub struct MetricsConfig {
    /// Whether the metrics endpoint is switched on.
    pub enabled: bool,
    /// Path of the metrics endpoint.
    pub path: String,
}

/// The address the service binds to unless told otherwise.
pub fn default_bind_addr() -> (addr: String)
    ensures
        addr@ == "0.0.0.0:8080"@,
{
    "0.0.0.0:8080".to_owned()
}

/// Requests per minute allowed to one address.
pub fn default_max_rate_rpm() -> (rate: u32)
    ensures
        rate == 60,
{
    60
}

/// Requests per minute allowed to one source URL.
pub fn default_max_rate_per_source() -> (rate: u32)
    ensures
        rate == 10,
{
    10
}

/// Milliseconds an address is shut out after a burst.
pub fn default_cooldown_ms() -> (ms: u64)
    ensures
        ms == 30000,
{
    30000
}

/// Length of the rate window in seconds.
pub fn default_window_secs() -> (secs: u64)
    ensures
        secs == 60,
{
    60
}

/// The one content type accepted by default.
pub fn default_content_types() -> (types: Vec<String>)
    ensures
        types@.len() == 1,
        types@[0]@ == "application/x-www-form-urlencoded"@,
{
    let mut types: Vec<String> = Vec::new();
    types.push("application/x-www-form-urlencoded".to_owned());
    types
}

/// The default of every switch that is on by default.
pub fn default_true() -> (on: bool)
    ensures
        on,
{
    true
}

/// Path of the metrics endpoint unless told otherwise.
pub fn default_metrics_path() -> (path: String)
    ensures
        path@ == "/metrics"@,
{
    "/metrics".to_owned()
}

impl Default for ValidationConfig {
    fn default() -> (config: ValidationConfig)
        ensures
            config.require_content_type@.len() == 1,
            config.require_content_type@[0]@ == "application/x-www-form-urlencoded"@,
            config.require_source_target,
            config.block_self_ping,
    {
        ValidationConfig {
            require_content_type: default_content_types(),
            require_source_target: default_true(),
            block_self_ping: default_true(),
        }
    }
}

impl Default for MetricsConfig {
    fn default() -> (config: MetricsConfig)
        ensures
            config.enabled,
            config.path@ == "/metrics"@,
    {
        MetricsConfig { enabled: default_true(), path: default_metrics_path() }
    }
}

} // verus!
