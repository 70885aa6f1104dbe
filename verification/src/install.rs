//! Decisions of the `install` command: how inputs are read, what name a
//! package gets in the manifest, how the lockfile is updated, and in what
//! order transitive WIT dependencies are installed.
use vstd::prelude::*;
use crate::command_errors::InstallError;
use crate::image_entry::opt_view;
use crate::permissions::RunPermissions;
use crate::text::{concat3, contains_char, split_once, split_once_char, str_eq, to_owned};

verus! {

/// A WIT dependency of a package: its name and, when resolved, its version.
#[derive(Debug, Clone)]
pub struct DependencyItem {
    /// The WIT package name (e.g. `wasi:io`).
    pub package: String,
    /// The version, when known.
    pub version: Option<String>,
}

/// A dependency entry of a lockfile package.
#[derive(Debug, Clone)]
pub struct PackageDependency {
    /// The dependency's package name.
    pub name: String,
    /// The dependency's version.
    pub version: String,
    /// The dependency's registry path, once resolved.
    pub registry: String,
    /// The dependency's digest, once resolved.
    pub digest: String,
}

/// A package entry of the lockfile.
#[derive(Debug, Clone)]
pub struct Package {
    /// The manifest key of the package.
    pub name: String,
    /// The installed version.
    pub version: String,
    /// `registry/repository` of the package.
    pub registry: String,
    /// The manifest digest.
    pub digest: String,
    /// The package's own dependencies.
    pub dependencies: Vec<PackageDependency>,
}

/// The lockfile: installed components and interfaces.
#[derive(Debug, Clone)]
pub struct Lockfile {
    /// Installed components.
    pub components: Vec<Package>,
    /// Installed interfaces (WIT packages).
    pub interfaces: Vec<Package>,
}

/// What installing one package gave.
#[derive(Debug, Clone)]
pub struct InstallResult {
    /// The registry host.
    pub registry: String,
    /// The repository path.
    pub repository: String,
    /// The tag pulled, if any.
    pub tag: Option<String>,
    /// The manifest digest, if known.
    pub digest: Option<String>,
    /// The WIT package name from the binary's metadata, if any.
    pub package_name: Option<String>,
    /// The OCI title annotation, if any.
    pub oci_title: Option<String>,
    /// The files written to the vendor directory.
    pub vendored_files: Vec<String>,
    /// Whether the package is a component (rather than an interface).
    pub is_component: bool,
    /// The package's WIT dependencies.
    pub dependencies: Vec<DependencyItem>,
}

/// A dependency as the manifest writes it.
#[derive(Debug, Clone)]
pub enum Dependency {
    /// A version or a full OCI reference.
    Compact(String),
    /// Registry, namespace, package and version given apart.
    Explicit {
        /// The registry host.
        registry: String,
        /// The namespace.
        namespace: String,
        /// The package.
        package: String,
        /// The version.
        version: String,
        /// The permissions the component is run with, if recorded.
        permissions: Option<RunPermissions>,
    },
}

/// A part of a WIT-style name: not empty, and holding neither `/` nor `.`.
pub open spec fn wit_part(p: Seq<char>) -> bool {
    p.len() > 0 && !p.contains('/') && !p.contains('.')
}

/// `input` has the form `namespace:package` or `namespace:package@version`,
/// with a version that is not empty and holds no `@`.
pub open spec fn wit_name(input: Seq<char>) -> bool {
    match split_once(input, ':') {
        None => false,
        Some((scope, rest)) => wit_part(scope) && match split_once(rest, '@') {
            Some((component, version)) => version.len() > 0 && !version.contains('@') && wit_part(component),
            None => wit_part(rest),
        },
    }
}

fn is_wit_part(p: &str) -> (r: bool)
    ensures
        r == wit_part(p@),
{
    p.unicode_len() > 0 && !contains_char(p, '/') && !contains_char(p, '.')
}

/// Check whether `input` looks like a WIT-style name (`namespace:package`).
///
/// WIT-style names use `namespace:package` syntax (e.g. `wasi:http`) or
/// `namespace:package@version` (e.g. `wasi:http@0.2.10`) without dots or
/// slashes in the namespace/package part, which distinguishes them from OCI
/// references (e.g. `ghcr.io/user/repo:tag`).
///
/// Inputs with an empty version after `@` (e.g. `wasi:http@`) or multiple
/// `@` signs are rejected.
pub fn looks_like_wit_name(input: &str) -> (r: bool)
    ensures
        r == wit_name(input@),
{
    match split_once_char(input, ':') {
        None => false,
        Some((scope, rest)) => {
            let component_ok = match split_once_char(rest, '@') {
                Some((component, version)) => version.unicode_len() > 0 && !contains_char(version, '@')
                    && is_wit_part(component),
                None => is_wit_part(rest),
            };
            is_wit_part(scope) && component_ok
        },
    }
}

/// A WIT-style name split into package and version: at the first `@` when
/// a version follows it, else the whole name without a version.
pub open spec fn wit_name_parts(input: Seq<char>) -> (Seq<char>, Option<Seq<char>>) {
    match split_once(input, '@') {
        Some((package, version)) => if version.len() > 0 {
            (package, Some(version))
        } else {
            (input, None)
        },
        None => (input, None),
    }
}

/// The dependency item a WIT-style name (`wasi:http` or `wasi:http@0.2.10`)
/// asks for.
pub fn wit_dependency(input: &str) -> (r: DependencyItem)
    ensures
        (r.package@, opt_view(r.version)) == wit_name_parts(input@),
{
    match split_once_char(input, '@') {
        Some((package, version)) => {
            if version.unicode_len() > 0 {
                DependencyItem { package: to_owned(package), version: Some(to_owned(version)) }
            } else {
                DependencyItem { package: to_owned(input), version: None }
            }
        },
        None => DependencyItem { package: to_owned(input), version: None },
    }
}

/// A package name without its `@version` suffix.
pub open spec fn base_name(name: Seq<char>) -> Seq<char> {
    match split_once(name, '@') {
        Some((base, _)) => base,
        None => name,
    }
}

/// `registry/repository`.
pub open spec fn registry_path_of(registry: Seq<char>, repository: Seq<char>) -> Seq<char> {
    registry + seq!['/'] + repository
}

/// The `registry/repository` path of a package.
pub fn registry_path(registry: &str, repository: &str) -> (r: String)
    ensures
        r@ == registry_path_of(registry@, repository@),
{
    proof {
        reveal_strlit("/");
    }
    concat3(registry, "/", repository)
}

/// The name an installed interface gets: its WIT package name without the
/// version, or `registry/repository` when it has none.
pub open spec fn interface_name(package_name: Option<Seq<char>>, registry: Seq<char>, repository: Seq<char>) -> Seq<char> {
    match package_name {
        Some(n) => base_name(n),
        None => registry_path_of(registry, repository),
    }
}

/// The name an installed interface gets in the manifest and lockfile.
pub fn interface_dep_name(package_name: Option<&str>, registry: &str, repository: &str) -> (r: String)
    ensures
        r@ == interface_name(
            match package_name {
                Some(n) => Some(n@),
                None => None,
            },
            registry@,
            repository@,
        ),
{
    match package_name {
        Some(n) => match split_once_char(n, '@') {
            Some((base, _)) => to_owned(base),
            None => to_owned(n),
        },
        None => registry_path(registry, repository),
    }
}

/// The lockfile dependencies of a package: its dependencies that have a
/// version, in order, with registry and digest left to be resolved.
pub open spec fn lock_deps(deps: Seq<DependencyItem>) -> Seq<(Seq<char>, Seq<char>)>
    decreases deps.len(),
{
    if deps.len() == 0 {
        Seq::empty()
    } else {
        let rest = lock_deps(deps.drop_last());
        match deps.last().version {
            Some(v) => rest.push((deps.last().package@, v@)),
            None => rest,
        }
    }
}

/// The name and version of each lockfile dependency, with registry and
/// digest empty.
pub open spec fn lock_dep_views(deps: Seq<PackageDependency>) -> Seq<(Seq<char>, Seq<char>)> {
    deps.map_values(|d: PackageDependency| (d.name@, d.version@))
}

/// Every registry and digest is empty.
pub open spec fn unresolved(deps: Seq<PackageDependency>) -> bool {
    forall|i: int| 0 <= i < deps.len() ==> (#[trigger] deps[i]).registry@.len() == 0 && deps[i].digest@.len() == 0
}

/// The lockfile dependencies of an install result: those with a resolved
/// version, whose registry and digest are filled in later.
pub fn lockfile_dependencies(deps: &Vec<DependencyItem>) -> (r: Vec<PackageDependency>)
    ensures
        lock_dep_views(r@) == lock_deps(deps@),
        unresolved(r@),
{
    let mut out: Vec<PackageDependency> = Vec::new();
    let mut i: usize = 0;
    while i < deps.len()
        invariant
            i <= deps.len(),
            lock_dep_views(out@) == lock_deps(deps@.take(i as int)),
            unresolved(out@),
        decreases deps.len() - i,
    {
        assert(deps@.take(i + 1).drop_last() =~= deps@.take(i as int));
        assert(deps@.take(i + 1).last() == deps@[i as int]);
        let d = &deps[i];
        match &d.version {
            Some(v) => {
                let ghost before = out@;
                out.push(
                    PackageDependency {
                        name: d.package.clone(),
                        version: v.clone(),
                        registry: String::new(),
                        digest: String::new(),
                    },
                );
                assert(lock_dep_views(out@) =~= lock_dep_views(before).push((d.package@, v@)));
            },
            None => {},
        }
        i = i + 1;
    }
    assert(deps@.take(deps.len() as int) =~= deps@);
    out
}

/// The entry has this name and registry.
pub open spec fn entry_is(p: Package, name: Seq<char>, registry: Seq<char>) -> bool {
    p.name@ == name && p.registry@ == registry
}

/// The index of the first entry of `packages` with this name and registry;
/// `-1` when there is none.
pub open spec fn find_entry(packages: Seq<Package>, name: Seq<char>, registry: Seq<char>) -> int
    decreases packages.len(),
{
    if packages.len() == 0 {
        -1
    } else if entry_is(packages[0], name, registry) {
        0
    } else {
        let r = find_entry(packages.drop_first(), name, registry);
        if r < 0 {
            -1
        } else {
            r + 1
        }
    }
}

proof fn lemma_find_entry_props(packages: Seq<Package>, name: Seq<char>, registry: Seq<char>)
    ensures
        ({
            let f = find_entry(packages, name, registry);
            &&& f == -1 <==> forall|j: int| 0 <= j < packages.len() ==> !entry_is(#[trigger] packages[j], name, registry)
            &&& f != -1 ==> {
                &&& 0 <= f < packages.len()
                &&& entry_is(packages[f], name, registry)
                &&& forall|j: int| 0 <= j < f ==> !entry_is(#[trigger] packages[j], name, registry)
            }
        }),
    decreases packages.len(),
{
    if packages.len() > 0 {
        let rest = packages.drop_first();
        lemma_find_entry_props(rest, name, registry);
        if !entry_is(packages[0], name, registry) {
            assert forall|j: int| 0 < j < packages.len() implies packages[j] == rest[j - 1] by {}
            let f = find_entry(packages, name, registry);
            if f == -1 {
                assert forall|j: int| 0 <= j < packages.len() implies !entry_is(#[trigger] packages[j], name, registry) by {
                    if j > 0 {
                        assert(packages[j] == rest[j - 1]);
                    }
                }
            } else {
                assert forall|j: int| 0 <= j < f implies !entry_is(#[trigger] packages[j], name, registry) by {
                    if j > 0 {
                        assert(packages[j] == rest[j - 1]);
                    }
                }
                assert(packages[f] == rest[f - 1]);
            }
            if forall|j: int| 0 <= j < packages.len() ==> !entry_is(#[trigger] packages[j], name, registry) {
                assert forall|j: int| 0 <= j < rest.len() implies !entry_is(#[trigger] rest[j], name, registry) by {
                    assert(rest[j] == packages[j + 1]);
                }
            }
        }
    }
}

proof fn lemma_find_entry_is(packages: Seq<Package>, name: Seq<char>, registry: Seq<char>, i: int)
    requires
        0 <= i < packages.len(),
        entry_is(packages[i], name, registry),
        forall|j: int| 0 <= j < i ==> !entry_is(#[trigger] packages[j], name, registry),
    ensures
        find_entry(packages, name, registry) == i,
{
    lemma_find_entry_props(packages, name, registry);
    let f = find_entry(packages, name, registry);
    if f == -1 {
        assert(!entry_is(packages[i], name, registry));
    }
    if f < i {
        assert(!entry_is(packages[f], name, registry));
    }
    if i < f {
        assert(!entry_is(packages[i], name, registry));
    }
}

/// `packages` with the entry of this name and registry replaced by
/// `package`, or with `package` appended when there is none.
pub open spec fn upserted(packages: Seq<Package>, name: Seq<char>, registry: Seq<char>, package: Package) -> Seq<Package> {
    let i = find_entry(packages, name, registry);
    if i < 0 {
        packages.push(package)
    } else {
        packages.update(i, package)
    }
}

fn find_package(packages: &Vec<Package>, name: &str, registry: &str) -> (r: Option<usize>)
    ensures
        match r {
            Some(i) => i as int == find_entry(packages@, name@, registry@) && i < packages@.len(),
            None => find_entry(packages@, name@, registry@) == -1,
        },
{
    let mut i: usize = 0;
    while i < packages.len()
        invariant
            i <= packages.len(),
            forall|j: int| 0 <= j < i ==> !entry_is(#[trigger] packages@[j], name@, registry@),
        decreases packages.len() - i,
    {
        if str_eq(packages[i].name.as_str(), name) && str_eq(packages[i].registry.as_str(), registry) {
            proof {
                lemma_find_entry_is(packages@, name@, registry@, i as int);
            }
            return Some(i);
        }
        i = i + 1;
    }
    proof {
        lemma_find_entry_props(packages@, name@, registry@);
    }
    None
}

fn upsert_into(packages: &mut Vec<Package>, name: &str, registry: &str, package: Package)
    ensures
        final(packages)@ == upserted(old(packages)@, name@, registry@, package),
{
    match find_package(packages, name, registry) {
        Some(i) => {
            packages.set(i, package);
        },
        None => {
            packages.push(package);
        },
    }
}

/// Upsert a package into the appropriate lockfile section (components or
/// interfaces).
///
/// If a matching entry (same `name` and `registry`) already exists, it is
/// replaced; otherwise the package is appended.
pub fn upsert_lockfile_package(
    lockfile: &mut Lockfile,
    is_component: bool,
    dep_name: &str,
    registry_path: &str,
    package: Package,
)
    ensures
        is_component ==> final(lockfile).components@ == upserted(old(lockfile).components@, dep_name@, registry_path@, package)
            && final(lockfile).interfaces@ == old(lockfile).interfaces@,
        !is_component ==> final(lockfile).interfaces@ == upserted(old(lockfile).interfaces@, dep_name@, registry_path@, package)
            && final(lockfile).components@ == old(lockfile).components@,
{
    if is_component {
        upsert_into(&mut lockfile.components, dep_name, registry_path, package);
    } else {
        upsert_into(&mut lockfile.interfaces, dep_name, registry_path, package);
    }
}

/// `p` is the lockfile entry recorded for an installed package under `name`:
/// the version is the tag pulled (or empty), the registry is
/// `registry/repository`, the digest is the manifest's (or empty), and the
/// dependencies are those with a version, left to be resolved.
pub open spec fn locked_entry(p: Package, result: InstallResult, name: Seq<char>) -> bool {
    &&& p.name@ == name
    &&& p.version@ == text_or_empty(result.tag)
    &&& p.registry@ == registry_path_of(result.registry@, result.repository@)
    &&& p.digest@ == text_or_empty(result.digest)
    &&& lock_dep_views(p.dependencies@) == lock_deps(result.dependencies@)
    &&& unresolved(p.dependencies@)
}

/// The lockfile entry of an installed interface.
pub open spec fn interface_entry(p: Package, result: InstallResult) -> bool {
    locked_entry(p, result, interface_name(opt_view(result.package_name), result.registry@, result.repository@))
}

/// Build the lockfile entry of an installed interface and upsert it into
/// `lockfile.interfaces`.
pub fn upsert_lockfile_type(lockfile: &mut Lockfile, result: &InstallResult)
    ensures
        final(lockfile).components@ == old(lockfile).components@,
        exists|p: Package|
            interface_entry(p, *result) && final(lockfile).interfaces@ == upserted(
                old(lockfile).interfaces@,
                p.name@,
                p.registry@,
                p,
            ),
{
    let pn = match &result.package_name {
        Some(n) => Some(n.as_str()),
        None => None,
    };
    let name = interface_dep_name(pn, result.registry.as_str(), result.repository.as_str());
    let registry = registry_path(result.registry.as_str(), result.repository.as_str());
    let package = locked_package(result, name.as_str());
    let ghost p = package;
    upsert_into(&mut lockfile.interfaces, name.as_str(), registry.as_str(), package);
    assert(interface_entry(p, *result));
}

/// Upserting the same entry twice changes nothing the second time, and
/// the entry stands in the section afterwards.
pub proof fn lemma_upsert_idempotent(packages: Seq<Package>, name: Seq<char>, registry: Seq<char>, package: Package)
    requires
        package.name@ == name,
        package.registry@ == registry,
    ensures
        upserted(upserted(packages, name, registry, package), name, registry, package) == upserted(
            packages,
            name,
            registry,
            package,
        ),
        upserted(packages, name, registry, package).contains(package),
{
    lemma_find_entry_props(packages, name, registry);
    let once = upserted(packages, name, registry, package);
    let i = find_entry(packages, name, registry);
    if i < 0 {
        let n = packages.len() as int;
        assert(once[n] == package);
        assert forall|j: int| 0 <= j < n implies !entry_is(#[trigger] once[j], name, registry) by {
            assert(once[j] == packages[j]);
        }
        lemma_find_entry_is(once, name, registry, n);
        assert(once.update(n, package) =~= once);
    } else {
        assert(once[i] == package);
        assert forall|j: int| 0 <= j < i implies !entry_is(#[trigger] once[j], name, registry) by {
            assert(once[j] == packages[j]);
        }
        lemma_find_entry_is(once, name, registry, i);
        assert(once.update(i, package) =~= once);
    }
}

/// How an input of the install command is read.
#[derive(Debug, Clone, Copy, PartialEq, Eq, Structural)]
pub enum InputKind {
    /// A key of the manifest's components or interfaces.
    ManifestKey,
    /// A WIT-style name, looked up in the known-package index.
    WitName,
    /// An OCI reference.
    OciReference,
}

/// How an input is read: as a manifest key first, then as a WIT-style
/// name, else as an OCI reference.
pub open spec fn input_kind(input: Seq<char>, in_manifest: bool) -> InputKind {
    if in_manifest {
        InputKind::ManifestKey
    } else if wit_name(input) {
        InputKind::WitName
    } else {
        InputKind::OciReference
    }
}

/// Decide how an install input is read; `in_manifest` tells whether the
/// manifest has a dependency with this key.
pub fn classify_install_input(input: &str, in_manifest: bool) -> (r: InputKind)
    ensures
        r == input_kind(input@, in_manifest),
{
    if in_manifest {
        InputKind::ManifestKey
    } else if looks_like_wit_name(input) {
        InputKind::WitName
    } else {
        InputKind::OciReference
    }
}

/// The WIT-style name to look a manifest dependency up by: for a compact
/// dependency without `/` under a WIT-style key, `key@version`.
pub open spec fn manifest_wit_lookup(key: Seq<char>, dep: Dependency) -> Option<Seq<char>> {
    match dep {
        Dependency::Compact(s) => if !s@.contains('/') && wit_name(key) {
            Some(key + seq!['@'] + s@)
        } else {
            None
        },
        _ => None,
    }
}

/// For a manifest dependency that names a version under a WIT-style key,
/// the name to resolve through the known-package index; `None` when the
/// dependency is read as an OCI reference.
pub fn wit_lookup_name(key: &str, dep: &Dependency) -> (r: Option<String>)
    ensures
        match r {
            Some(s) => manifest_wit_lookup(key@, *dep) == Some(s@),
            None => manifest_wit_lookup(key@, *dep) is None,
        },
{
    match dep {
        Dependency::Compact(s) => {
            if !contains_char(s.as_str(), '/') && looks_like_wit_name(key) {
                proof {
                    reveal_strlit("@");
                }
                Some(concat3(key, "@", s.as_str()))
            } else {
                None
            }
        },
        _ => None,
    }
}

/// The OCI reference text of a manifest dependency.
pub open spec fn dependency_reference(dep: Dependency) -> Seq<char> {
    match dep {
        Dependency::Compact(s) => s@,
        Dependency::Explicit { registry, namespace, package, version, .. } => registry@ + seq!['/'] + namespace@
            + seq!['/'] + package@ + seq![':'] + version@,
    }
}

/// The OCI reference text of a manifest dependency: the compact string
/// itself, or `registry/namespace/package:version`.
pub fn reference_text(dep: &Dependency) -> (r: String)
    ensures
        r@ == dependency_reference(*dep),
{
    match dep {
        Dependency::Compact(s) => s.clone(),
        Dependency::Explicit { registry, namespace, package, version, .. } => {
            proof {
                reveal_strlit("/");
                reveal_strlit(":");
            }
            let a = concat3(registry.as_str(), "/", namespace.as_str());
            let b = concat3(a.as_str(), "/", package.as_str());
            concat3(b.as_str(), ":", version.as_str())
        },
    }
}

/// The version to check for conflicts before installing a manifest entry:
/// for a compact dependency without `/` under a WIT-style key, the version
/// without leading `v`s.
pub open spec fn conflict_check(key: Seq<char>, dep: Dependency) -> Option<Seq<char>> {
    match dep {
        Dependency::Compact(s) => if wit_name(key) && !s@.contains('/') {
            Some(without_leading_v(s@))
        } else {
            None
        },
        _ => None,
    }
}

/// `s` without all its leading `v`s.
pub open spec fn without_leading_v(s: Seq<char>) -> Seq<char>
    decreases s.len(),
{
    if s.len() > 0 && s[0] == 'v' {
        without_leading_v(s.skip(1))
    } else {
        s
    }
}

/// The version text to check for dependency conflicts before installing
/// the manifest entry `key`, if it is checked.
pub fn conflict_check_version(key: &str, dep: &Dependency) -> (r: Option<String>)
    ensures
        match r {
            Some(v) => conflict_check(key@, *dep) == Some(v@),
            None => conflict_check(key@, *dep) is None,
        },
{
    match dep {
        Dependency::Compact(s) => {
            if looks_like_wit_name(key) && !contains_char(s.as_str(), '/') {
                let n = s.as_str().unicode_len();
                let mut i: usize = 0;
                assert(s@.skip(0) =~= s@);
                while i < n && s.as_str().get_char(i) == 'v'
                    invariant
                        i <= n,
                        n == s@.len(),
                        without_leading_v(s@) == without_leading_v(s@.skip(i as int)),
                    decreases n - i,
                {
                    assert(s@.skip(i as int).skip(1) =~= s@.skip(i + 1));
                    i = i + 1;
                }
                let rest = crate::text::slice(s.as_str(), i, n);
                assert(rest@ =~= s@.skip(i as int));
                Some(to_owned(rest))
            } else {
                None
            }
        },
        _ => None,
    }
}

/// The order in which transitive WIT dependencies are installed: a queue
/// of dependencies still to look at and the dependencies already looked at.
pub struct TransitiveQueue {
    queue: Vec<DependencyItem>,
    head: usize,
    visited: Vec<(String, Option<String>)>,
}

/// The key a dependency is visited by: its name and version.
pub open spec fn dep_key(d: DependencyItem) -> (Seq<char>, Option<Seq<char>>) {
    (d.package@, opt_view(d.version))
}

/// The lockfile holds an interface with this name.
pub open spec fn has_interface(lockfile: Lockfile, name: Seq<char>) -> bool {
    exists|i: int| 0 <= i < lockfile.interfaces@.len() && (#[trigger] lockfile.interfaces@[i]).name@ == name
}

/// The state of the transitive install queue.
pub struct QueueView {
    /// Dependencies still to look at, in order.
    pub pending: Seq<DependencyItem>,
    /// Keys of the dependencies already looked at.
    pub visited: Seq<(Seq<char>, Option<Seq<char>>)>,
}

impl View for TransitiveQueue {
    type V = QueueView;

    closed spec fn view(&self) -> QueueView {
        QueueView {
            pending: self.queue@.skip(self.head as int),
            visited: self.visited@.map_values(|k: (String, Option<String>)| (k.0@, opt_view(k.1))),
        }
    }
}

/// Taking dependencies off `pending` with the keys `visited` already looked
/// at: how many are taken, the visited keys afterwards, and the dependency
/// handed out. A dependency whose key was visited is skipped; any other one
/// is marked as visited, and handed out unless the lockfile's interfaces
/// already hold its name.
pub open spec fn queue_step(
    pending: Seq<DependencyItem>,
    visited: Seq<(Seq<char>, Option<Seq<char>>)>,
    lockfile: Lockfile,
) -> (nat, Seq<(Seq<char>, Option<Seq<char>>)>, Option<DependencyItem>)
    decreases pending.len(),
{
    if pending.len() == 0 {
        (0, visited, None)
    } else {
        let d = pending[0];
        if visited.contains(dep_key(d)) {
            let rest = queue_step(pending.drop_first(), visited, lockfile);
            (rest.0 + 1, rest.1, rest.2)
        } else if has_interface(lockfile, d.package@) {
            let rest = queue_step(pending.drop_first(), visited.push(dep_key(d)), lockfile);
            (rest.0 + 1, rest.1, rest.2)
        } else {
            (1, visited.push(dep_key(d)), Some(d))
        }
    }
}

/// What a queue step keeps: it takes at most what is pending, all of it when
/// nothing is handed out; the visited keys only grow; a dependency handed
/// out was not visited before, is not locked, and is visited afterwards.
pub proof fn lemma_queue_step(
    pending: Seq<DependencyItem>,
    visited: Seq<(Seq<char>, Option<Seq<char>>)>,
    lockfile: Lockfile,
)
    ensures
        ({
            let (n, v, r) = queue_step(pending, visited, lockfile);
            &&& n <= pending.len()
            &&& (r is None ==> n == pending.len())
            &&& forall|k| visited.contains(k) ==> v.contains(k)
            &&& (r matches Some(d) ==> {
                &&& !visited.contains(dep_key(d))
                &&& !has_interface(lockfile, d.package@)
                &&& v.contains(dep_key(d))
            })
        }),
    decreases pending.len(),
{
    if pending.len() > 0 {
        let d = pending[0];
        let pushed = visited.push(dep_key(d));
        assert forall|k| visited.contains(k) implies pushed.contains(k) by {
            let j = choose|j: int| 0 <= j < visited.len() && visited[j] == k;
            assert(pushed[j] == k);
        }
        assert(pushed[visited.len() as int] == dep_key(d));
        if visited.contains(dep_key(d)) {
            lemma_queue_step(pending.drop_first(), visited, lockfile);
        } else if has_interface(lockfile, d.package@) {
            lemma_queue_step(pending.drop_first(), pushed, lockfile);
            let (n, v, r) = queue_step(pending.drop_first(), pushed, lockfile);
            if let Some(e) = r {
                if visited.contains(dep_key(e)) {
                    assert(pushed.contains(dep_key(e)));
                }
            }
        }
    }
}

impl TransitiveQueue {
    /// Well-formedness: the head stays within the queue.
    pub closed spec fn wf(&self) -> bool {
        self.head <= self.queue@.len()
    }

    /// A queue holding the initial dependencies, nothing visited.
    pub fn new(initial: Vec<DependencyItem>) -> (r: Self)
        ensures
            r.wf(),
            r@.pending == initial@,
            r@.visited.len() == 0,
    {
        let r = TransitiveQueue { queue: initial, head: 0, visited: Vec::new() };
        assert(r.queue@.skip(0) =~= r.queue@);
        assert(r@.visited =~= Seq::empty());
        r
    }

    fn visited_contains(&self, d: &DependencyItem) -> (r: bool)
        ensures
            r == self@.visited.contains(dep_key(*d)),
    {
        let ghost keys = self@.visited;
        let mut i: usize = 0;
        while i < self.visited.len()
            invariant
                i <= self.visited.len(),
                keys == self@.visited,
                forall|j: int| 0 <= j < i ==> keys[j] != dep_key(*d),
            decreases self.visited.len() - i,
        {
            let (p, v) = &self.visited[i];
            let same_version = match (v, &d.version) {
                (Some(a), Some(b)) => str_eq(a.as_str(), b.as_str()),
                (None, None) => true,
                _ => false,
            };
            if str_eq(p.as_str(), d.package.as_str()) && same_version {
                assert(keys[i as int] == dep_key(*d));
                return true;
            }
            i = i + 1;
        }
        false
    }

    /// The next dependency to install: dependencies already looked at, and
    /// those whose name the lockfile's interfaces already hold, are skipped.
    /// Every dependency taken off the queue is marked as looked at.
    pub fn next(&mut self, lockfile: &Lockfile) -> (r: Option<DependencyItem>)
        requires
            old(self).wf(),
        ensures
            final(self).wf(),
            final(self)@.pending == old(self)@.pending.skip(
                queue_step(old(self)@.pending, old(self)@.visited, *lockfile).0 as int,
            ),
            final(self)@.visited == queue_step(old(self)@.pending, old(self)@.visited, *lockfile).1,
            r == queue_step(old(self)@.pending, old(self)@.visited, *lockfile).2,
            match r {
                Some(d) => {
                    &&& !old(self)@.visited.contains(dep_key(d))
                    &&& !has_interface(*lockfile, d.package@)
                    &&& final(self)@.visited.contains(dep_key(d))
                },
                None => final(self)@.pending.len() == 0,
            },
            forall|k| old(self)@.visited.contains(k) ==> final(self)@.visited.contains(k),
            final(self)@.pending.len() <= old(self)@.pending.len(),
    {
        let ghost start_head = self.head as int;
        let ghost q = self.queue@;
        let ghost want = queue_step(old(self)@.pending, old(self)@.visited, *lockfile);
        proof {
            lemma_queue_step(old(self)@.pending, old(self)@.visited, *lockfile);
        }
        while self.head < self.queue.len()
            invariant
                self.wf(),
                self.queue@ == q,
                0 <= start_head <= self.head,
                old(self)@.pending == q.skip(start_head),
                want == queue_step(old(self)@.pending, old(self)@.visited, *lockfile),
                want.0 == (self.head - start_head) + queue_step(self@.pending, self@.visited, *lockfile).0,
                want.1 == queue_step(self@.pending, self@.visited, *lockfile).1,
                want.2 == queue_step(self@.pending, self@.visited, *lockfile).2,
            decreases self.queue.len() - self.head,
        {
            let ghost pend = self@.pending;
            let ghost vis = self@.visited;
            let ghost h = self.head as int;
            assert(start_head <= h < q.len());
            assert(pend[0] == q[self.head as int]);
            assert(pend.drop_first() =~= q.skip(self.head + 1));
            let d = self.queue[self.head].clone_item();
            self.head = self.head + 1;
            if self.visited_contains(&d) {
                continue;
            }
            self.visited.push((d.package.clone(), clone_opt(&d.version)));
            assert(self@.visited =~= vis.push(dep_key(d)));
            if has_interface_named(lockfile, d.package.as_str()) {
                continue;
            }
            assert(queue_step(pend, vis, *lockfile) == (1nat, vis.push(dep_key(d)), Some(d)));
            assert(want.0 == h + 1 - start_head);
            assert(self.head == h + 1);
            assert(self@.pending == q.skip(h + 1));
            assert(q.skip(h + 1) =~= q.skip(start_head).skip(h + 1 - start_head));
            proof {
                lemma_queue_step(old(self)@.pending, old(self)@.visited, *lockfile);
            }
            return Some(d);
        }
        assert(self@.pending.len() == 0);
        assert(self@.pending == self.queue@.skip(self.head as int));
        assert(q.skip(self.head as int) =~= q.skip(start_head).skip(want.0 as int));
        proof {
            lemma_queue_step(old(self)@.pending, old(self)@.visited, *lockfile);
        }
        None
    }

    /// Queue the dependencies of an installed package, after those already
    /// queued.
    pub fn push_all(&mut self, deps: Vec<DependencyItem>)
        requires
            old(self).wf(),
        ensures
            final(self).wf(),
            final(self)@.pending == old(self)@.pending + deps@,
            final(self)@.visited == old(self)@.visited,
    {
        let mut deps = deps;
        let ghost added = deps@;
        let ghost start = self@.pending;
        self.queue.append(&mut deps);
        assert(self@.pending =~= start + added);
    }
}

impl DependencyItem {
    /// A copy of this dependency.
    pub fn clone_item(&self) -> (r: Self)
        ensures
            r == *self,
    {
        DependencyItem { package: self.package.clone(), version: clone_opt(&self.version) }
    }
}

fn clone_opt(s: &Option<String>) -> (r: Option<String>)
    ensures
        r == *s,
{
    match s {
        Some(x) => Some(x.clone()),
        None => None,
    }
}

fn has_interface_named(lockfile: &Lockfile, name: &str) -> (r: bool)
    ensures
        r == has_interface(*lockfile, name@),
{
    let mut i: usize = 0;
    while i < lockfile.interfaces.len()
        invariant
            i <= lockfile.interfaces.len(),
            forall|j: int| 0 <= j < i ==> (#[trigger] lockfile.interfaces@[j]).name@ != name@,
        decreases lockfile.interfaces.len() - i,
    {
        if str_eq(lockfile.interfaces[i].name.as_str(), name) {
            return true;
        }
        i = i + 1;
    }
    false
}

} // verus!

verus! {

/// The name an installed package is recorded under in the manifest and the
/// lockfile: the WIT-style name the user gave, if any; else, for a
/// component, the name derived for it; else the interface's name.
pub open spec fn recorded_name(
    explicit: Option<Seq<char>>,
    result: InstallResult,
    component_name: Seq<char>,
) -> Seq<char> {
    match explicit {
        Some(n) => n,
        None => if result.is_component {
            component_name
        } else {
            interface_name(opt_view(result.package_name), result.registry@, result.repository@)
        },
    }
}

/// The name an installed package is recorded under; `component_name` is the
/// name derived for a component from its metadata and repository.
pub fn dependency_name(result: &InstallResult, explicit: Option<&str>, component_name: &str) -> (r: String)
    ensures
        r@ == recorded_name(
            match explicit {
                Some(n) => Some(n@),
                None => None,
            },
            *result,
            component_name@,
        ),
{
    match explicit {
        Some(n) => to_owned(n),
        None => if result.is_component {
            to_owned(component_name)
        } else {
            let package_name = match &result.package_name {
                Some(n) => Some(n.as_str()),
                None => None,
            };
            interface_dep_name(package_name, result.registry.as_str(), result.repository.as_str())
        },
    }
}

/// The text of an optional string, or the empty text.
pub open spec fn text_or_empty(o: Option<String>) -> Seq<char> {
    match o {
        Some(s) => s@,
        None => Seq::empty(),
    }
}

/// The lockfile entry recorded for an installed package under `name`.
pub fn locked_package(result: &InstallResult, name: &str) -> (r: Package)
    ensures
        locked_entry(r, *result, name@),
{
    let version = match &result.tag {
        Some(t) => t.clone(),
        None => String::new(),
    };
    let digest = match &result.digest {
        Some(d) => d.clone(),
        None => String::new(),
    };
    Package {
        name: to_owned(name),
        version,
        registry: registry_path(result.registry.as_str(), result.repository.as_str()),
        digest,
        dependencies: lockfile_dependencies(&result.dependencies),
    }
}

} // verus!

verus! {

/// One package the install command installs.
#[derive(Debug, Clone)]
pub struct InstallTarget {
    /// What was asked for: a command-line input, or a manifest key.
    pub input: String,
    /// How the input is resolved to a reference.
    pub kind: InputKind,
    /// Whether installing it adds it to the manifest.
    pub update_manifest: bool,
    /// The name it is recorded under, when the input is a WIT-style name.
    pub explicit_name: Option<String>,
}

/// What the install command does, before any package is fetched.
#[derive(Debug, Clone)]
pub struct InstallPlan {
    /// Whether the package index is synced from the meta-registry first.
    pub sync_registry: bool,
    /// Whether the manifest's WIT-style entries are checked for conflicts.
    pub check_conflicts: bool,
    /// Whether the dependencies of installed packages are installed too.
    pub install_transitive: bool,
    /// The packages to install, in order.
    pub targets: Vec<InstallTarget>,
}

/// The content of a target: input, kind, manifest update, recorded name.
pub open spec fn target_view(t: InstallTarget) -> (Seq<char>, InputKind, bool, Option<Seq<char>>) {
    (t.input@, t.kind, t.update_manifest, opt_view(t.explicit_name))
}

/// The target for a command-line input: a manifest key is installed as the
/// manifest has it; a WIT-style name or an OCI reference is added to the
/// manifest, a WIT-style name under the name given.
pub open spec fn input_target(input: Seq<char>, in_manifest: bool) -> (Seq<char>, InputKind, bool, Option<Seq<char>>) {
    let kind = input_kind(input, in_manifest);
    (input, kind, kind != InputKind::ManifestKey, if kind == InputKind::WitName {
        Some(input)
    } else {
        None
    })
}

/// The packages to install: with no inputs, every manifest entry, leaving
/// the manifest as it is; otherwise each input, in order.
pub open spec fn planned_targets(inputs: Seq<String>, in_manifest: Seq<bool>, manifest_keys: Seq<String>) -> Seq<
    (Seq<char>, InputKind, bool, Option<Seq<char>>),
> {
    if inputs.len() == 0 {
        manifest_keys.map_values(|k: String| (k@, InputKind::ManifestKey, false, None::<Seq<char>>))
    } else {
        Seq::new(inputs.len(), |i: int| input_target(inputs[i]@, in_manifest[i]))
    }
}

fn target_for(input: &String, in_manifest: bool) -> (r: InstallTarget)
    ensures
        target_view(r) == input_target(input@, in_manifest),
{
    let kind = classify_install_input(input.as_str(), in_manifest);
    match kind {
        InputKind::ManifestKey => InstallTarget { input: input.clone(), kind, update_manifest: false, explicit_name: None },
        InputKind::WitName => InstallTarget {
            input: input.clone(),
            kind,
            update_manifest: true,
            explicit_name: Some(input.clone()),
        },
        InputKind::OciReference => InstallTarget {
            input: input.clone(),
            kind,
            update_manifest: true,
            explicit_name: None,
        },
    }
}

/// Plan the install command. Without a manifest it fails with
/// `NoManifest`. Otherwise, online it syncs the package index, checks the
/// manifest for conflicts and installs transitive dependencies, and offline
/// it does none of these; the packages to install are the inputs (each one
/// `in_manifest` or not), or every manifest key when there is no input, and
/// only inputs that are not manifest keys change the manifest.
pub fn install_plan(
    manifest_exists: bool,
    offline: bool,
    inputs: &Vec<String>,
    in_manifest: &Vec<bool>,
    manifest_keys: &Vec<String>,
) -> (r: Result<InstallPlan, InstallError>)
    requires
        in_manifest@.len() == inputs@.len(),
    ensures
        !manifest_exists <==> r is Err,
        r matches Err(e) ==> e is NoManifest,
        r matches Ok(p) ==> {
            &&& p.sync_registry == !offline
            &&& p.check_conflicts == !offline
            &&& p.install_transitive == !offline
            &&& p.targets@.map_values(|t: InstallTarget| target_view(t)) == planned_targets(
                inputs@,
                in_manifest@,
                manifest_keys@,
            )
        },
{
    if !manifest_exists {
        return Err(InstallError::NoManifest);
    }
    let mut targets: Vec<InstallTarget> = Vec::new();
    let ghost want = planned_targets(inputs@, in_manifest@, manifest_keys@);
    if inputs.len() == 0 {
        let mut i: usize = 0;
        while i < manifest_keys.len()
            invariant
                i <= manifest_keys.len(),
                inputs@.len() == 0,
                want == planned_targets(inputs@, in_manifest@, manifest_keys@),
                targets@.map_values(|t: InstallTarget| target_view(t)) == want.take(i as int),
            decreases manifest_keys.len() - i,
        {
            let t = InstallTarget {
                input: manifest_keys[i].clone(),
                kind: InputKind::ManifestKey,
                update_manifest: false,
                explicit_name: None,
            };
            let ghost before = targets@.map_values(|t: InstallTarget| target_view(t));
            targets.push(t);
            assert(targets@.map_values(|t: InstallTarget| target_view(t)) =~= before.push(want[i as int]));
            assert(want.take(i + 1) =~= want.take(i as int).push(want[i as int]));
            i = i + 1;
        }
        assert(want.take(manifest_keys.len() as int) =~= want);
    } else {
        let mut i: usize = 0;
        while i < inputs.len()
            invariant
                i <= inputs.len(),
                inputs@.len() > 0,
                in_manifest@.len() == inputs@.len(),
                want == planned_targets(inputs@, in_manifest@, manifest_keys@),
                targets@.map_values(|t: InstallTarget| target_view(t)) == want.take(i as int),
            decreases inputs.len() - i,
        {
            let t = target_for(&inputs[i], in_manifest[i]);
            let ghost before = targets@.map_values(|t: InstallTarget| target_view(t));
            targets.push(t);
            assert(targets@.map_values(|t: InstallTarget| target_view(t)) =~= before.push(want[i as int]));
            assert(want.take(i + 1) =~= want.take(i as int).push(want[i as int]));
            i = i + 1;
        }
        assert(want.take(inputs.len() as int) =~= want);
    }
    Ok(InstallPlan { sync_registry: !offline, check_conflicts: !offline, install_transitive: !offline, targets })
}

/// What an installed package changes: the name it is recorded under, the
/// manifest entry to add (if any), which section it goes to, and its
/// lockfile entry.
#[derive(Debug, Clone)]
pub struct InstallRecord {
    /// The name in the manifest and the lockfile.
    pub name: String,
    /// The compact manifest entry to add, holding the version installed.
    pub manifest_entry: Option<Dependency>,
    /// Whether it goes to the components (rather than the interfaces).
    pub is_component: bool,
    /// The lockfile entry.
    pub package: Package,
}

/// What installing a target changes: the package is recorded under the
/// name given, or the derived component name, or its interface name; the
/// manifest gains a compact entry with the installed version only when the
/// target updates the manifest; the lockfile gets the package's entry.
pub fn install_record(result: &InstallResult, target: &InstallTarget, component_name: &str) -> (r: InstallRecord)
    ensures
        r.name@ == recorded_name(opt_view(target.explicit_name), *result, component_name@),
        r.is_component == result.is_component,
        target.update_manifest <==> r.manifest_entry is Some,
        r.manifest_entry matches Some(d) ==> (d matches Dependency::Compact(v) && v@ == text_or_empty(result.tag)),
        locked_entry(r.package, *result, r.name@),
{
    let explicit = match &target.explicit_name {
        Some(n) => Some(n.as_str()),
        None => None,
    };
    let name = dependency_name(result, explicit, component_name);
    let package = locked_package(result, name.as_str());
    let manifest_entry = if target.update_manifest {
        let version = match &result.tag {
            Some(t) => t.clone(),
            None => String::new(),
        };
        Some(Dependency::Compact(version))
    } else {
        None
    };
    InstallRecord { name, manifest_entry, is_component: result.is_component, package }
}

} // verus!
