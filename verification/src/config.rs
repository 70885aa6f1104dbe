//! Global configuration of the package manager: per-registry credential
//! helpers, read from `$XDG_CONFIG_HOME/wasm/config.toml`, and the
//! credentials they gave, kept in memory for later lookups.
use vstd::prelude::*;
use crate::credential_helper::{
    json_helper_fails, json_helper_gives, split_helper_fails, split_helper_gives, CredentialError, CredentialField,
    CredentialHelper,
};
use crate::detector::{join_path, joined};
use crate::text::{str_eq, to_owned};

verus! {

/// Default configuration file content with commented examples.
pub const DEFAULT_CONFIG: &'static str = "# wasm(1) configuration file
# https://github.com/yoshuawuyts/wasm

# Per-registry credential helpers allow secure authentication with container registries.
# Credentials are fetched on-demand and never stored to disk.

# Example configurations (uncomment and modify as needed):

# Option 1: Single JSON command (recommended for 1Password)
# The command should output JSON with username and password fields:
# [{\"id\": \"username\", \"value\": \"...\"}, {\"id\": \"password\", \"value\": \"...\"}]
#
# [registries.\"ghcr.io\"]
# credential-helper = \"op item get ghcr --format json --fields username,password\"

# Option 2: Two separate commands (for simple scripts)
#
# [registries.\"my-registry.example.com\"]
# credential-helper.username = \"/path/to/get-user.sh\"
# credential-helper.password = \"/path/to/get-pass.sh\"
";

/// The directory, under the configuration directory, of this tool's files.
pub const CONFIG_SUBDIR: &'static str = "wasm";

/// The name of the configuration file.
pub const CONFIG_FILE: &'static str = "config.toml";

/// The configuration directory used when the platform has none.
pub const FALLBACK_CONFIG_DIR: &'static str = ".config";

/// Configuration for a specific registry.
#[derive(Debug, Clone)]
pub struct RegistryConfig {
    /// Credential helper configuration for this registry.
    pub credential_helper: Option<CredentialHelper>,
}

impl Default for RegistryConfig {
    fn default() -> (r: Self)
        ensures
            r.credential_helper is None,
    {
        RegistryConfig { credential_helper: None }
    }
}

/// The main configuration struct.
#[derive(Debug, Clone)]
pub struct Config {
    /// Per-registry configuration, by registry name.
    pub registries: Vec<(String, RegistryConfig)>,
    /// Credentials already obtained, by registry name.
    credential_cache: Vec<(String, (String, String))>,
}

/// The first entry for `name`, if any.
pub open spec fn lookup<T>(entries: Seq<(String, T)>, name: Seq<char>) -> Option<T>
    decreases entries.len(),
{
    if entries.len() == 0 {
        None
    } else if entries[0].0@ == name {
        Some(entries[0].1)
    } else {
        lookup(entries.drop_first(), name)
    }
}

/// The credential helper configured for `registry`, if any.
pub open spec fn helper_for(registries: Seq<(String, RegistryConfig)>, registry: Seq<char>) -> Option<CredentialHelper> {
    match lookup(registries, registry) {
        Some(c) => c.credential_helper,
        None => None,
    }
}

/// What `h` may give as credentials when `run` runs its commands and
/// `parse` reads JSON output.
pub open spec fn helper_gives<R: Fn(&str) -> Result<String, String>, P: Fn(&str) -> Result<Vec<CredentialField>, String>>(
    h: CredentialHelper,
    run: R,
    parse: P,
    u: Seq<char>,
    p: Seq<char>,
) -> bool {
    match h {
        CredentialHelper::Json(cmd) => json_helper_gives(run, parse, cmd@, u, p),
        CredentialHelper::Split { username, password } => split_helper_gives(run, username@, password@, u, p),
    }
}

/// Why `h` may fail with `e` when `run` runs its commands and `parse` reads
/// JSON output.
pub open spec fn helper_fails<R: Fn(&str) -> Result<String, String>, P: Fn(&str) -> Result<Vec<CredentialField>, String>>(
    h: CredentialHelper,
    run: R,
    parse: P,
    e: CredentialError,
) -> bool {
    match h {
        CredentialHelper::Json(cmd) => json_helper_fails(run, parse, cmd@, e),
        CredentialHelper::Split { username, password } => split_helper_fails(run, username@, password@, e),
    }
}

/// What a credential lookup of `registry` gives, given what was kept for it
/// (`cached`): the kept credentials; else nothing without a helper; else
/// what the helper gives, or why it failed.
pub open spec fn lookup_outcome<R: Fn(&str) -> Result<String, String>, P: Fn(&str) -> Result<Vec<CredentialField>, String>>(
    cached: Option<(Seq<char>, Seq<char>)>,
    registries: Seq<(String, RegistryConfig)>,
    registry: Seq<char>,
    run: R,
    parse: P,
    r: Result<Option<(String, String)>, CredentialError>,
) -> bool {
    match cached {
        Some(c) => r matches Ok(Some((u, p))) && (u@, p@) == c,
        None => match helper_for(registries, registry) {
            None => r matches Ok(None),
            Some(h) => match r {
                Ok(Some((u, p))) => helper_gives(h, run, parse, u@, p@),
                Ok(None) => false,
                Err(e) => helper_fails(h, run, parse, e),
            },
        },
    }
}

/// The path of the configuration file under configuration directory `base`.
pub open spec fn config_file_under(base: Seq<char>) -> Seq<char> {
    joined(joined(base, CONFIG_SUBDIR@), CONFIG_FILE@)
}

/// The path of the configuration file under configuration directory `base`.
pub fn config_file_in(base: &str) -> (r: String)
    ensures
        r@ == config_file_under(base@),
{
    let dir = join_path(base, CONFIG_SUBDIR);
    join_path(dir.as_str(), CONFIG_FILE)
}

/// The configuration directory used when none is given, from what the
/// platform reports: the platform's own, or `.config` when it has none.
pub open spec fn config_base_of(platform_dir: Option<String>) -> Seq<char> {
    match platform_dir {
        Some(d) => d@,
        None => FALLBACK_CONFIG_DIR@,
    }
}

/// The configuration directory used when none is given, from the
/// platform's configuration directory (if it has one).
pub fn config_base(platform_dir: Option<String>) -> (r: String)
    ensures
        r@ == config_base_of(platform_dir),
{
    match platform_dir {
        Some(d) => d,
        None => to_owned(FALLBACK_CONFIG_DIR),
    }
}

/// `dirs::config_dir()`: the platform's configuration directory, if it has
/// one, as text (a directory name that is not valid UTF-8 comes back with
/// its invalid bytes replaced, as `to_string_lossy` does). Where it is
/// depends on the environment, so nothing is stated of it.
#[verifier::external_body]
fn platform_config_dir() -> (r: Option<String>) {
    dirs::config_dir().map(|p| p.to_string_lossy().into_owned())
}

proof fn lemma_lookup_push<T>(s: Seq<(String, T)>, e: (String, T), k: Seq<char>)
    ensures
        lookup(s.push(e), k) == match lookup(s, k) {
            Some(v) => Some(v),
            None => if e.0@ == k {
                Some(e.1)
            } else {
                None
            },
        },
    decreases s.len(),
{
    if s.len() > 0 {
        assert(s.push(e)[0] == s[0]);
        assert(s.push(e).drop_first() =~= s.drop_first().push(e));
        lemma_lookup_push(s.drop_first(), e, k);
        assert(lookup(s.push(e), k) == if s[0].0@ == k {
            Some(s[0].1)
        } else {
            lookup(s.drop_first().push(e), k)
        });
    } else {
        assert(s.push(e)[0] == e);
        assert(s.push(e).drop_first() =~= Seq::<(String, T)>::empty());
        assert(lookup(s.push(e).drop_first(), k) is None);
        assert(lookup(s, k) is None);
    }
}

/// No registry name occurs twice.
pub open spec fn distinct_names(registries: Seq<(String, RegistryConfig)>) -> bool {
    forall|i: int, j: int|
        0 <= i < j < registries.len() ==> (#[trigger] registries[i]).0@ != (#[trigger] registries[j]).0@
}

impl Default for Config {
    fn default() -> (r: Self)
        ensures
            r.registry_entries().len() == 0,
            distinct_names(r.registry_entries()),
            forall|k: Seq<char>| r.cached(k) is None,
    {
        Config { registries: Vec::new(), credential_cache: Vec::new() }
    }
}

impl Config {
    /// The configured registries, by name.
    pub closed spec fn registry_entries(&self) -> Seq<(String, RegistryConfig)> {
        self.registries@
    }

    /// The credentials kept for `registry`, if any.
    pub closed spec fn cached(&self, registry: Seq<char>) -> Option<(Seq<char>, Seq<char>)> {
        match lookup(self.credential_cache@, registry) {
            Some((u, p)) => Some((u@, p@)),
            None => None,
        }
    }

    /// A configuration with these registries and nothing kept. The
    /// registries are keyed by name, so no name occurs twice.
    pub fn with_registries(registries: Vec<(String, RegistryConfig)>) -> (r: Self)
        requires
            distinct_names(registries@),
        ensures
            r.registry_entries() == registries@,
            forall|k: Seq<char>| r.cached(k) is None,
    {
        Config { registries, credential_cache: Vec::new() }
    }

    /// Returns the path to the configuration file: `wasm/config.toml` under
    /// the platform's configuration directory, or under `.config` when the
    /// platform has none.
    pub fn config_path() -> (r: String)
        ensures
            exists|platform_dir: Option<String>| r@ == config_file_under(config_base_of(platform_dir)),
    {
        Self::config_path_from(None)
    }

    /// Returns the path to the configuration file under `config_dir`, or,
    /// without one, under the platform's configuration directory (`.config`
    /// when the platform has none).
    pub fn config_path_from(config_dir: Option<String>) -> (r: String)
        ensures
            match config_dir {
                Some(d) => r@ == config_file_under(d@),
                None => exists|platform_dir: Option<String>| r@ == config_file_under(config_base_of(platform_dir)),
            },
    {
        let base = match config_dir {
            Some(d) => d,
            None => config_base(platform_config_dir()),
        };
        config_file_in(base.as_str())
    }

    /// The configuration of `registry`, if any.
    pub fn registry_config(&self, registry: &str) -> (r: Option<&RegistryConfig>)
        ensures
            match r {
                Some(c) => lookup(self.registry_entries(), registry@) == Some(*c),
                None => lookup(self.registry_entries(), registry@) is None,
            },
    {
        let mut i: usize = 0;
        assert(self.registries@.skip(0) =~= self.registries@);
        while i < self.registries.len()
            invariant
                i <= self.registries.len(),
                lookup(self.registries@, registry@) == lookup(self.registries@.skip(i as int), registry@),
            decreases self.registries.len() - i,
        {
            assert(self.registries@.skip(i as int).drop_first() =~= self.registries@.skip(i + 1));
            if str_eq(self.registries[i].0.as_str(), registry) {
                return Some(&self.registries[i].1);
            }
            i = i + 1;
        }
        None
    }

    fn cached_credentials(&self, registry: &str) -> (r: Option<(String, String)>)
        ensures
            match r {
                Some((u, p)) => self.cached(registry@) == Some((u@, p@)),
                None => self.cached(registry@) is None,
            },
    {
        let mut i: usize = 0;
        assert(self.credential_cache@.skip(0) =~= self.credential_cache@);
        while i < self.credential_cache.len()
            invariant
                i <= self.credential_cache.len(),
                lookup(self.credential_cache@, registry@) == lookup(self.credential_cache@.skip(i as int), registry@),
            decreases self.credential_cache.len() - i,
        {
            assert(self.credential_cache@.skip(i as int).drop_first() =~= self.credential_cache@.skip(i + 1));
            if str_eq(self.credential_cache[i].0.as_str(), registry) {
                let (u, p) = &self.credential_cache[i].1;
                return Some((u.clone(), p.clone()));
            }
            i = i + 1;
        }
        None
    }

    /// Get credentials for a registry using the configured credential helper.
    ///
    /// Gives what was kept for the registry, if anything; otherwise `None`
    /// when no credential helper is configured for it; otherwise runs the
    /// helper (through `run` and `parse_fields`) and keeps what it gave.
    pub fn get_credentials<R, P>(&mut self, registry: &str, run: &R, parse_fields: &P) -> (r: Result<Option<(String, String)>, CredentialError>)
        where
            R: Fn(&str) -> Result<String, String>,
            P: Fn(&str) -> Result<Vec<CredentialField>, String>,
        requires
            forall|c: &str| call_requires(*run, (c,)),
            forall|c: &str| call_requires(*parse_fields, (c,)),
        ensures
            final(self).registry_entries() == old(self).registry_entries(),
            lookup_outcome(old(self).cached(registry@), old(self).registry_entries(), registry@, *run, *parse_fields, r),
            match old(self).cached(registry@) {
                Some(c) => {
                    &&& r matches Ok(Some((u, p))) && (u@, p@) == c
                    &&& forall|k: Seq<char>| final(self).cached(k) == old(self).cached(k)
                },
                None => match helper_for(old(self).registry_entries(), registry@) {
                    None => {
                        &&& r matches Ok(None)
                        &&& forall|k: Seq<char>| final(self).cached(k) == old(self).cached(k)
                    },
                    Some(h) => match r {
                        Ok(Some((u, p))) => {
                            &&& helper_gives(h, *run, *parse_fields, u@, p@)
                            &&& final(self).cached(registry@) == Some((u@, p@))
                            &&& forall|k: Seq<char>| k != registry@ ==> final(self).cached(k) == old(self).cached(k)
                        },
                        Ok(None) => false,
                        Err(_) => forall|k: Seq<char>| final(self).cached(k) == old(self).cached(k),
                    },
                },
            },
    {
        match self.cached_credentials(registry) {
            Some(c) => return Ok(Some(c)),
            None => {},
        }
        let result = match self.registry_config(registry) {
            Some(config) => match &config.credential_helper {
                Some(h) => h.execute(run, parse_fields),
                None => return Ok(None),
            },
            None => return Ok(None),
        };
        let (u, p) = match result {
            Ok(c) => c,
            Err(e) => return Err(e),
        };
        let ghost old_cache = self.credential_cache@;
        let entry = (to_owned(registry), (u.clone(), p.clone()));
        self.credential_cache.push(entry);
        proof {
            assert forall|k: Seq<char>| #![auto] true implies lookup(self.credential_cache@, k) == match lookup(
                old_cache,
                k,
            ) {
                Some(v) => Some(v),
                None => if self.credential_cache@.last().0@ == k {
                    Some(self.credential_cache@.last().1)
                } else {
                    None
                },
            } by {
                assert(self.credential_cache@ == old_cache.push(self.credential_cache@.last()));
                lemma_lookup_push(old_cache, self.credential_cache@.last(), k);
            }
        }
        Ok(Some((u, p)))
    }

    /// Clear the credential cache.
    pub fn clear_credential_cache(&mut self)
        ensures
            final(self).registry_entries() == old(self).registry_entries(),
            forall|k: Seq<char>| final(self).cached(k) is None,
    {
        self.credential_cache.clear();
    }
}

} // verus!

verus! {

/// Cache law: after the cache is cleared, looking up a registry that has a
/// helper runs the helper again: what comes back is what the helper gives,
/// or why it failed, never "no credentials".
pub proof fn lemma_lookup_after_clear<R: Fn(&str) -> Result<String, String>, P: Fn(&str) -> Result<Vec<CredentialField>, String>>(
    c: Config,
    registry: Seq<char>,
    h: CredentialHelper,
    run: R,
    parse: P,
    r: Result<Option<(String, String)>, CredentialError>,
)
    requires
        forall|k: Seq<char>| c.cached(k) is None,
        helper_for(c.registry_entries(), registry) == Some(h),
        lookup_outcome(c.cached(registry), c.registry_entries(), registry, run, parse, r),
    ensures
        r matches Ok(Some((u, p))) ==> helper_gives(h, run, parse, u@, p@),
        !(r matches Ok(None)),
        r matches Err(e) ==> helper_fails(h, run, parse, e),
{
    assert(c.cached(registry) is None);
}

} // verus!

verus! {

/// Cache law: once credentials are kept for a registry, a lookup gives
/// exactly them, whatever the helper would print now (a lookup with kept
/// credentials does not depend on the runner or the parser).
pub proof fn lemma_cached_lookup<R: Fn(&str) -> Result<String, String>, P: Fn(&str) -> Result<Vec<CredentialField>, String>>(
    c: Config,
    registry: Seq<char>,
    creds: (Seq<char>, Seq<char>),
    run: R,
    parse: P,
    r: Result<Option<(String, String)>, CredentialError>,
)
    requires
        c.cached(registry) == Some(creds),
        lookup_outcome(c.cached(registry), c.registry_entries(), registry, run, parse, r),
    ensures
        r matches Ok(Some((u, p))) && (u@, p@) == creds,
{
}

} // verus!
