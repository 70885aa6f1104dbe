//! What the `run` command decides about a Wasm binary and its input: is it
//! a component, does it serve HTTP, where do its bytes come from, and what
//! to suggest when it is not installed.
use vstd::prelude::*;
use crate::component_errors::RunError;
use crate::text::{concat2, concat3, contains_char, ends_with, has_prefix, has_suffix, split_once, split_once_char, starts_with, str_eq, to_owned};

verus! {

/// One payload of a Wasm binary, as far as the run command reads it.
#[derive(Debug, Clone)]
pub enum Payload {
    /// A version header: of a component (`true`) or of a core module.
    Version(bool),
    /// The end of a module or component.
    End,
    /// A component export section: the name of each export, or nothing
    /// where an export could not be read.
    ComponentExports(Vec<Option<String>>),
    /// Any other payload.
    Other,
    /// The binary could not be parsed here; with the parser's message.
    Error(String),
}

/// The payloads that `wasmparser::Parser::new(0).parse_all` gives for
/// `bytes`, in order; parsing stops after the first error.
pub uninterp spec fn wasm_payloads(bytes: Seq<u8>) -> Seq<Payload>;

/// `wasmparser::Parser::new(0).parse_all(bytes)`, each payload read as a
/// [`Payload`]: the version header's encoding, the end, the names of a
/// component export section, or the error's message.
#[verifier::external_body]
fn parse_payloads(bytes: &[u8]) -> (r: Vec<Payload>)
    ensures
        r@ == wasm_payloads(bytes@),
{
    wasmparser::Parser::new(0).parse_all(bytes).map(|p| match p {
        Ok(wasmparser::Payload::Version { encoding: wasmparser::Encoding::Component, .. }) => Payload::Version(true),
        Ok(wasmparser::Payload::Version { encoding: wasmparser::Encoding::Module, .. }) => Payload::Version(false),
        Ok(wasmparser::Payload::End(_)) => Payload::End,
        Ok(wasmparser::Payload::ComponentExportSection(s)) => Payload::ComponentExports(
            s.into_iter().map(|e| e.ok().map(|x| x.name.name.to_string())).collect(),
        ),
        Ok(_) => Payload::Other,
        Err(e) => Payload::Error(e.to_string()),
    }).collect()
}

/// What validation concludes about a binary.
pub enum Verdict {
    /// It is a Wasm Component.
    Component,
    /// It is a core module.
    CoreModule,
    /// It could not be parsed; with the parser's message.
    Invalid(Seq<char>),
    /// It has no version header.
    NoHeader,
}

/// The verdict on a sequence of payloads: the first version header or
/// error decides; without either there is no header.
pub open spec fn verdict(ps: Seq<Payload>) -> Verdict
    decreases ps.len(),
{
    if ps.len() == 0 {
        Verdict::NoHeader
    } else {
        match ps[0] {
            Payload::Version(true) => Verdict::Component,
            Payload::Version(false) => Verdict::CoreModule,
            Payload::Error(e) => Verdict::Invalid(e@),
            _ => verdict(ps.drop_first()),
        }
    }
}

/// The verdict a validation result states.
pub open spec fn verdict_of(r: Result<(), RunError>) -> Verdict {
    match r {
        Ok(()) => Verdict::Component,
        Err(RunError::CoreModule) => Verdict::CoreModule,
        Err(RunError::InvalidBinary { reason }) => Verdict::Invalid(reason@),
        Err(RunError::NoVersionHeader) => Verdict::NoHeader,
    }
}

/// Confirm the payloads are those of a Wasm Component (not a core module
/// or WIT-only package).
pub fn validate_payloads(payloads: &Vec<Payload>) -> (r: Result<(), RunError>)
    ensures
        verdict_of(r) == verdict(payloads@),
{
    let mut i: usize = 0;
    assert(payloads@.skip(0) =~= payloads@);
    while i < payloads.len()
        invariant
            i <= payloads.len(),
            verdict(payloads@) == verdict(payloads@.skip(i as int)),
        decreases payloads.len() - i,
    {
        assert(payloads@.skip(i as int)[0] == payloads@[i as int]);
        assert(payloads@.skip(i as int).drop_first() =~= payloads@.skip(i + 1));
        match &payloads[i] {
            Payload::Version(true) => return Ok(()),
            Payload::Version(false) => return Err(RunError::CoreModule),
            Payload::Error(e) => return Err(RunError::InvalidBinary { reason: e.clone() }),
            _ => {},
        }
        i = i + 1;
    }
    Err(RunError::NoVersionHeader)
}

/// Confirm the bytes are a Wasm Component (not a core module or WIT-only
/// package).
pub fn validate_component(bytes: &[u8]) -> (r: Result<(), RunError>)
    ensures
        verdict_of(r) == verdict(wasm_payloads(bytes@)),
{
    let payloads = parse_payloads(bytes);
    validate_payloads(&payloads)
}

/// The nesting depth before payload `i`: each version header opens a level,
/// each end closes one (never below zero).
pub open spec fn depth_before(ps: Seq<Payload>, i: int) -> int
    decreases i,
{
    if i <= 0 {
        0
    } else {
        let d = depth_before(ps, i - 1);
        match ps[i - 1] {
            Payload::Version(_) => d + 1,
            Payload::End => if d == 0 {
                0
            } else {
                d - 1
            },
            _ => d,
        }
    }
}

/// The name prefix of the HTTP incoming-handler export.
pub open spec fn http_handler_prefix() -> Seq<char> {
    "wasi:http/incoming-handler"@
}

/// Some readable export name starts with the HTTP handler's name.
pub open spec fn exports_handler(names: Seq<Option<String>>) -> bool {
    exists|j: int| 0 <= j < names.len() && (#[trigger] names[j]) is Some && has_prefix(names[j]->0@, http_handler_prefix())
}

/// A top-level component export section (at depth one) exports the HTTP
/// incoming handler.
pub open spec fn serves_http(ps: Seq<Payload>) -> bool {
    exists|i: int|
        0 <= i < ps.len() && depth_before(ps, i) == 1 && (#[trigger] ps[i] matches Payload::ComponentExports(names)
            && exports_handler(names@))
}

fn names_export_handler(names: &Vec<Option<String>>) -> (r: bool)
    ensures
        r == exports_handler(names@),
{
    let mut j: usize = 0;
    while j < names.len()
        invariant
            j <= names.len(),
            forall|k: int|
                0 <= k < j ==> !((#[trigger] names@[k]) is Some && has_prefix(names@[k]->0@, http_handler_prefix())),
        decreases names.len() - j,
    {
        match &names[j] {
            Some(n) => {
                if starts_with(n.as_str(), "wasi:http/incoming-handler") {
                    return true;
                }
            },
            None => {},
        }
        j = j + 1;
    }
    false
}

/// Whether the payloads show a component that exports
/// `wasi:http/incoming-handler` at its top level; nested components are not
/// considered.
pub fn payloads_export_http_handler(payloads: &Vec<Payload>) -> (r: bool)
    ensures
        r == serves_http(payloads@),
{
    let mut depth: u64 = 0;
    let mut i: usize = 0;
    while i < payloads.len()
        invariant
            i <= payloads.len(),
            depth == depth_before(payloads@, i as int),
            depth <= i,
            forall|k: int|
                0 <= k < i ==> !(depth_before(payloads@, k) == 1 && (#[trigger] payloads@[k] matches Payload::ComponentExports(
                    names,
                ) && exports_handler(names@))),
        decreases payloads.len() - i,
    {
        match &payloads[i] {
            Payload::Version(_) => {
                depth = depth + 1;
            },
            Payload::End => {
                if depth > 0 {
                    depth = depth - 1;
                }
            },
            Payload::ComponentExports(names) => {
                if depth == 1 && names_export_handler(names) {
                    return true;
                }
            },
            _ => {},
        }
        i = i + 1;
    }
    false
}

/// Check whether a component exports `wasi:http/incoming-handler`,
/// indicating it targets the `wasi:http/proxy` world rather than
/// `wasi:cli/command`.
pub fn exports_http_incoming_handler(bytes: &[u8]) -> (r: bool)
    ensures
        r == serves_http(wasm_payloads(bytes@)),
{
    let payloads = parse_payloads(bytes);
    payloads_export_http_handler(&payloads)
}

/// `input` has the form `scope:component`, with neither part empty, and
/// holds no `/` and no `.`.
pub open spec fn manifest_key(input: Seq<char>) -> bool {
    match split_once(input, ':') {
        None => false,
        Some((scope, component)) => scope.len() > 0 && component.len() > 0 && !input.contains('/')
            && !input.contains('.'),
    }
}

/// Check whether `input` looks like a manifest key (`scope:component`).
///
/// Manifest keys use `scope:component` syntax (e.g. `wasi:http`,
/// `test:hello`) without dots or slashes, which distinguishes them from OCI
/// references (e.g. `ghcr.io/user/repo:tag`).
pub fn looks_like_manifest_key(input: &str) -> (r: bool)
    ensures
        r == manifest_key(input@),
{
    match split_once_char(input, ':') {
        None => false,
        Some((scope, component)) => scope.unicode_len() > 0 && component.unicode_len() > 0 && !contains_char(
            input,
            '/',
        ) && !contains_char(input, '.'),
    }
}

/// The hint given when a component is found nowhere.
pub open spec fn default_hint(input: Seq<char>) -> Seq<char> {
    "run `wasm install "@ + input + "` to add it to the project before running it."@
}

/// Fallback hint when neither cache nor registry has the component.
pub fn default_install_hint(input: &str) -> (r: String)
    ensures
        r@ == default_hint(input@),
{
    concat3("run `wasm install ", input, "` to add it to the project before running it.")
}

/// The hint for a component that is not installed: run it from the cache
/// when a copy is there, else install it when the registry has it, else
/// the default hint.
pub open spec fn install_hint(input: Seq<char>, in_cache: bool, in_registry: bool) -> Seq<char> {
    if in_cache {
        "a copy of the component is available from the local cache. Call `wasm run -g "@ + input
            + "` to run it."@
    } else if in_registry {
        "a component with the same name is available from the registry. Call `wasm run -i "@ + input
            + "` to install it before running it."@
    } else {
        default_hint(input)
    }
}

/// The most actionable hint for a component that is not installed, given
/// whether the local cache and the known-package index have it.
pub fn build_hint(input: &str, in_cache: bool, in_registry: bool) -> (r: String)
    ensures
        r@ == install_hint(input@, in_cache, in_registry),
{
    if in_cache {
        concat3(
            "a copy of the component is available from the local cache. Call `wasm run -g ",
            input,
            "` to run it.",
        )
    } else if in_registry {
        concat3(
            "a component with the same name is available from the registry. Call `wasm run -i ",
            input,
            "` to install it before running it.",
        )
    } else {
        default_install_hint(input)
    }
}

/// A manifest key with each `:` turned into `/`, the form of a repository
/// path.
pub open spec fn search_pattern_of(input: Seq<char>) -> Seq<char> {
    input.map_values(|c: char| if c == ':' { '/' } else { c })
}

/// The repository path that a manifest key is looked for under:
/// `scope:component` becomes `scope/component`.
pub fn manifest_key_pattern(input: &str) -> (r: String)
    ensures
        r@ == search_pattern_of(input@),
{
    let n = input.unicode_len();
    let mut out = String::new();
    let mut i: usize = 0;
    while i < n
        invariant
            i <= n,
            n == input@.len(),
            out@ == search_pattern_of(input@.take(i as int)),
        decreases n - i,
    {
        let c = input.get_char(i);
        crate::text::string_push(&mut out, if c == ':' { '/' } else { c });
        assert(search_pattern_of(input@.take(i + 1)) =~= search_pattern_of(input@.take(i as int)).push(
            if c == ':' {
                '/'
            } else {
                c
            },
        ));
        i = i + 1;
    }
    assert(input@.take(n as int) =~= input@);
    out
}

/// A cached image's repository matches `pattern`: it is the pattern, or
/// ends with `/` and the pattern.
pub open spec fn repository_matches(repository: Seq<char>, pattern: Seq<char>) -> bool {
    repository == pattern || has_suffix(repository, seq!['/'] + pattern)
}

/// Whether a component matching `pattern` is among the cached images'
/// repositories; matching a whole path segment avoids false positives from
/// substring matching.
pub fn is_in_cache(repositories: &Vec<String>, pattern: &str) -> (r: bool)
    ensures
        r == exists|i: int| 0 <= i < repositories@.len() && repository_matches((#[trigger] repositories@[i])@, pattern@),
{
    proof {
        reveal_strlit("/");
    }
    let suffix = concat2("/", pattern);
    assert(suffix@ =~= seq!['/'] + pattern@);
    let mut i: usize = 0;
    while i < repositories.len()
        invariant
            i <= repositories.len(),
            suffix@ == seq!['/'] + pattern@,
            forall|k: int| 0 <= k < i ==> !repository_matches((#[trigger] repositories@[k])@, pattern@),
        decreases repositories.len() - i,
    {
        let repo = repositories[i].as_str();
        if str_eq(repo, pattern) || ends_with(repo, suffix.as_str()) {
            return true;
        }
        i = i + 1;
    }
    false
}

/// Where the bytes to run come from.
#[derive(Debug, Clone, PartialEq, Eq, Structural)]
pub enum RunSource {
    /// The input is a local file.
    LocalFile,
    /// The input is a manifest key whose vendored file was found.
    Vendored,
    /// The input looks like a manifest key but is not installed.
    NotInstalled,
    /// The input is read as an OCI reference.
    OciReference,
}

/// The source of the bytes to run: local files first, then manifest keys
/// that resolve to a vendored file; an input that looks like a manifest
/// key but resolves to none is not installed; all else is an OCI reference.
pub open spec fn run_source_of(input: Seq<char>, is_local: bool, vendored: bool) -> RunSource {
    if is_local {
        RunSource::LocalFile
    } else if vendored {
        RunSource::Vendored
    } else if manifest_key(input) {
        RunSource::NotInstalled
    } else {
        RunSource::OciReference
    }
}

/// Decide where the bytes to run come from, given whether the input is a
/// local file and whether it resolved to a vendored file.
pub fn run_source(input: &str, is_local: bool, vendored: bool) -> (r: RunSource)
    ensures
        r == run_source_of(input@, is_local, vendored),
{
    if is_local {
        RunSource::LocalFile
    } else if vendored {
        RunSource::Vendored
    } else if looks_like_manifest_key(input) {
        RunSource::NotInstalled
    } else {
        RunSource::OciReference
    }
}

/// An entry of the environment allowed to the guest.
#[derive(Debug, Clone)]
pub enum EnvEntry {
    /// A `KEY=VAL` pair, split at the first `=`.
    Pair(String, String),
    /// A variable name, whose value is looked up on the host.
    Inherit(String),
}

/// How an allowed environment entry is read: split at its first `=`, or,
/// without one, a name to look up on the host.
pub open spec fn env_entry_of(entry: Seq<char>) -> (Seq<char>, Option<Seq<char>>) {
    match split_once(entry, '=') {
        Some((k, v)) => (k, Some(v)),
        None => (entry, None),
    }
}

/// Read an allowed environment entry.
pub fn parse_env_entry(entry: &str) -> (r: EnvEntry)
    ensures
        match r {
            EnvEntry::Pair(k, v) => env_entry_of(entry@) == (k@, Some(v@)),
            EnvEntry::Inherit(name) => env_entry_of(entry@) == (name@, None::<Seq<char>>),
        },
{
    match split_once_char(entry, '=') {
        Some((k, v)) => EnvEntry::Pair(to_owned(k), to_owned(v)),
        None => EnvEntry::Inherit(to_owned(entry)),
    }
}

/// Where a manifest key's vendored component is, from its lockfile entry:
/// the registry path `host/repository` split at its first `/`.
pub open spec fn registry_parts(registry: Seq<char>) -> Option<(Seq<char>, Seq<char>)> {
    split_once(registry, '/')
}

/// Split a lockfile registry path into host and repository; an error when
/// it is not of the form `host/repository`.
pub fn split_registry_path(registry: &str, name: &str) -> (r: Result<(String, String), crate::command_errors::RunError>)
    ensures
        match r {
            Ok((h, p)) => registry_parts(registry@) == Some((h@, p@)),
            Err(e) => {
                &&& registry_parts(registry@) is None
                &&& e matches crate::command_errors::RunError::InvalidRegistryPath { path, name: n }
                &&& path@ == registry@
                &&& n@ == name@
            },
        },
{
    match split_once_char(registry, '/') {
        Some((h, p)) => Ok((to_owned(h), to_owned(p))),
        None => Err(
            crate::command_errors::RunError::InvalidRegistryPath { path: to_owned(registry), name: to_owned(name) },
        ),
    }
}

} // verus!

verus! {

/// Index of the first lockfile entry named `name`, or -1 when none is.
pub open spec fn first_named(packages: Seq<crate::install::Package>, name: Seq<char>) -> int
    decreases packages.len(),
{
    if packages.len() == 0 {
        -1
    } else if packages[0].name@ == name {
        0
    } else {
        let rest = first_named(packages.drop_first(), name);
        if rest < 0 {
            -1
        } else {
            rest + 1
        }
    }
}

/// The lockfile entry of the manifest key `input` among the locked
/// components: the index of the first one with that name, or the error
/// that the component is not in the lockfile.
pub fn locked_component(input: &str, components: &Vec<crate::install::Package>) -> (r: Result<
    usize,
    crate::command_errors::RunError,
>)
    ensures
        match r {
            Ok(i) => i as int == first_named(components@, input@) && i < components@.len()
                && components@[i as int].name@ == input@,
            Err(e) => {
                &&& first_named(components@, input@) == -1
                &&& e matches crate::command_errors::RunError::NotInLockfile { name }
                &&& name@ == input@
            },
        },
{
    let mut i: usize = 0;
    assert(components@.skip(0) =~= components@);
    while i < components.len()
        invariant
            i <= components.len(),
            first_named(components@, input@) == (if first_named(components@.skip(i as int), input@) < 0 {
                -1
            } else {
                first_named(components@.skip(i as int), input@) + i
            }),
        decreases components.len() - i,
    {
        assert(components@.skip(i as int)[0] == components@[i as int]);
        assert(components@.skip(i as int).drop_first() =~= components@.skip(i + 1));
        if str_eq(components[i].name.as_str(), input) {
            return Ok(i);
        }
        i = i + 1;
    }
    assert(components@.skip(components.len() as int) =~= Seq::<crate::install::Package>::empty());
    Err(crate::command_errors::RunError::NotInLockfile { name: to_owned(input) })
}

} // verus!
