//! Configuration of the meta-registry server: which OCI repositories to
//! index, how often to sync them, and where to serve search results.
use vstd::prelude::*;
use crate::text::to_owned;

verus! {

/// The default sync interval, in seconds: one hour.
pub const DEFAULT_SYNC_INTERVAL: u64 = 3600;

/// The default HTTP bind address.
pub const DEFAULT_BIND: &'static str = "0.0.0.0:8080";

/// Top-level configuration for the meta-registry server.
#[derive(Debug, Clone)]
pub struct Config {
    /// Sync interval in seconds (default: 3600).
    pub sync_interval: u64,
    /// HTTP server bind address (default: "0.0.0.0:8080").
    pub bind: String,
    /// List of OCI packages to index.
    pub packages: Vec<PackageSource>,
}

/// A single OCI package source to index.
#[derive(Debug, Clone)]
pub struct PackageSource {
    /// OCI registry hostname (e.g., "ghcr.io").
    pub registry: String,
    /// OCI repository path (e.g., "webassembly/wasi/clocks").
    pub repository: String,
}

/// Default sync interval: 1 hour.
pub fn default_sync_interval() -> (r: u64)
    ensures
        r == 3600,
{
    DEFAULT_SYNC_INTERVAL
}

/// Default bind address.
pub fn default_bind() -> (r: String)
    ensures
        r@ == DEFAULT_BIND@,
{
    to_owned(DEFAULT_BIND)
}

impl Config {
    /// A configuration from its parsed fields: a field that the file leaves
    /// out takes its default (one hour, `0.0.0.0:8080`, no packages).
    pub fn from_fields(
        sync_interval: Option<u64>,
        bind: Option<String>,
        packages: Option<Vec<PackageSource>>,
    ) -> (r: Self)
        ensures
            r.sync_interval == match sync_interval {
                Some(s) => s,
                None => 3600,
            },
            r.bind@ == match bind {
                Some(b) => b@,
                None => DEFAULT_BIND@,
            },
            r.packages@ == match packages {
                Some(p) => p@,
                None => Seq::<PackageSource>::empty(),
            },
    {
        Config {
            sync_interval: match sync_interval {
                Some(s) => s,
                None => default_sync_interval(),
            },
            bind: match bind {
                Some(b) => b,
                None => default_bind(),
            },
            packages: match packages {
                Some(p) => p,
                None => Vec::new(),
            },
        }
    }
}

} // verus!
