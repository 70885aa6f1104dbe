//! Configuration of the command-line tool, from `~/.config/wasm/config.toml`:
//! where the meta-registry is and how often to sync from it. A file that is
//! missing gives the defaults.
use vstd::prelude::*;

verus! {

/// Top-level CLI configuration.
#[derive(Debug, Clone)]
pub struct CliConfig {
    /// Meta-registry settings.
    pub registry: RegistryConfig,
}

/// Settings for syncing packages from a meta-registry.
#[derive(Debug, Clone)]
pub struct RegistryConfig {
    /// Base URL of the meta-registry (e.g., `http://localhost:8081`).
    /// When `None`, HTTP sync is disabled.
    pub url: Option<String>,
    /// Minimum interval between automatic syncs, in seconds.
    /// Defaults to 3600 (1 hour).
    pub sync_interval: Option<u64>,
}

impl Default for RegistryConfig {
    fn default() -> (r: Self)
        ensures
            r.url is None,
            r.sync_interval is None,
    {
        RegistryConfig { url: None, sync_interval: None }
    }
}

impl Default for CliConfig {
    fn default() -> (r: Self)
        ensures
            r.registry.url is None,
            r.registry.sync_interval is None,
    {
        CliConfig { registry: RegistryConfig::default() }
    }
}

impl RegistryConfig {
    /// Returns the sync interval, defaulting to 3600 seconds.
    pub fn sync_interval(&self) -> (r: u64)
        ensures
            r == match self.sync_interval {
                Some(s) => s,
                None => 3600,
            },
    {
        match self.sync_interval {
            Some(s) => s,
            None => 3600,
        }
    }
}

} // verus!
