//! The host capabilities a component is granted when it runs: the
//! permissions asked for on the command line, and those a manifest records
//! for the component.
use vstd::prelude::*;
use crate::install::Dependency;
use crate::store::texts;
use crate::text::{concat3, str_eq};

verus! {

/// Run permissions as one layer states them: a field that is `None` leaves
/// the decision to the other layers.
#[derive(Debug, Clone)]
pub struct RunPermissions {
    /// Whether all host environment variables are passed on.
    pub inherit_env: Option<bool>,
    /// The `KEY=VAL` variables passed on.
    pub allow_env: Option<Vec<String>>,
    /// The host directories opened to the guest.
    pub allow_dirs: Option<Vec<String>>,
    /// Whether stdin, stdout and stderr are inherited.
    pub inherit_stdio: Option<bool>,
    /// Whether the guest may use the network.
    pub inherit_network: Option<bool>,
}

/// What a layer of run permissions states, over texts.
pub struct PermissionsModel {
    /// Whether all host environment variables are passed on.
    pub inherit_env: Option<bool>,
    /// The variables passed on.
    pub allow_env: Option<Seq<Seq<char>>>,
    /// The directories opened.
    pub allow_dirs: Option<Seq<Seq<char>>>,
    /// Whether the standard streams are inherited.
    pub inherit_stdio: Option<bool>,
    /// Whether the network may be used.
    pub inherit_network: Option<bool>,
}

/// The texts of an optional list.
pub open spec fn opt_texts(o: Option<Vec<String>>) -> Option<Seq<Seq<char>>> {
    match o {
        Some(v) => Some(texts(v@)),
        None => None,
    }
}

impl View for RunPermissions {
    type V = PermissionsModel;

    open spec fn view(&self) -> PermissionsModel {
        PermissionsModel {
            inherit_env: self.inherit_env,
            allow_env: opt_texts(self.allow_env),
            allow_dirs: opt_texts(self.allow_dirs),
            inherit_stdio: self.inherit_stdio,
            inherit_network: self.inherit_network,
        }
    }
}

/// The model of optional permissions.
pub open spec fn opt_model(p: Option<RunPermissions>) -> Option<PermissionsModel> {
    match p {
        Some(p) => Some(p@),
        None => None,
    }
}

fn copy_list(v: &Vec<String>) -> (r: Vec<String>)
    ensures
        texts(r@) == texts(v@),
{
    let r = v.clone();
    assert(texts(r@) =~= texts(v@));
    r
}

fn copy_opt_list(o: &Option<Vec<String>>) -> (r: Option<Vec<String>>)
    ensures
        opt_texts(r) == opt_texts(*o),
{
    match o {
        Some(v) => Some(copy_list(v)),
        None => None,
    }
}

impl RunPermissions {
    /// A layer that states nothing.
    pub fn none() -> (r: Self)
        ensures
            r@ == (PermissionsModel {
                inherit_env: None,
                allow_env: None,
                allow_dirs: None,
                inherit_stdio: None,
                inherit_network: None,
            }),
    {
        RunPermissions {
            inherit_env: None,
            allow_env: None,
            allow_dirs: None,
            inherit_stdio: None,
            inherit_network: None,
        }
    }

    /// A copy of these permissions.
    pub fn duplicate(&self) -> (r: Self)
        ensures
            r@ == self@,
    {
        RunPermissions {
            inherit_env: self.inherit_env,
            allow_env: copy_opt_list(&self.allow_env),
            allow_dirs: copy_opt_list(&self.allow_dirs),
            inherit_stdio: self.inherit_stdio,
            inherit_network: self.inherit_network,
        }
    }
}

/// The permissions the command-line flags state: only the flags given are
/// stated (`--inherit-env`, each `--env`, each `--dir`, `--no-stdio`,
/// `--inherit-network`).
pub open spec fn cli_permissions_of(
    inherit_env: bool,
    envs: Seq<String>,
    dirs: Seq<String>,
    no_stdio: bool,
    inherit_network: bool,
) -> PermissionsModel {
    PermissionsModel {
        inherit_env: if inherit_env {
            Some(true)
        } else {
            None
        },
        allow_env: if envs.len() > 0 {
            Some(texts(envs))
        } else {
            None
        },
        allow_dirs: if dirs.len() > 0 {
            Some(texts(dirs))
        } else {
            None
        },
        inherit_stdio: if no_stdio {
            Some(false)
        } else {
            None
        },
        inherit_network: if inherit_network {
            Some(true)
        } else {
            None
        },
    }
}

/// The permissions stated by the command-line flags.
pub fn cli_permissions(
    inherit_env: bool,
    envs: &Vec<String>,
    dirs: &Vec<String>,
    no_stdio: bool,
    inherit_network: bool,
) -> (r: RunPermissions)
    ensures
        r@ == cli_permissions_of(inherit_env, envs@, dirs@, no_stdio, inherit_network),
{
    let mut perms = RunPermissions::none();
    if inherit_env {
        perms.inherit_env = Some(true);
    }
    if envs.len() > 0 {
        perms.allow_env = Some(copy_list(envs));
    }
    if dirs.len() > 0 {
        perms.allow_dirs = Some(copy_list(dirs));
    }
    if no_stdio {
        perms.inherit_stdio = Some(false);
    }
    if inherit_network {
        perms.inherit_network = Some(true);
    }
    perms
}

/// The permissions a manifest dependency records, when it is an explicit
/// dependency on `registry` and `repository` (its `namespace/package`).
pub open spec fn matched_permissions(dep: Dependency, registry: Seq<char>, repository: Seq<char>) -> Option<
    Option<PermissionsModel>,
> {
    match dep {
        Dependency::Explicit { registry: r, namespace, package, permissions, .. } => {
            if r@ == registry && namespace@ + "/"@ + package@ == repository {
                Some(opt_model(permissions))
            } else {
                None
            }
        },
        Dependency::Compact(_) => None,
    }
}

/// The permissions recorded by the first dependency of `deps` that matches.
pub open spec fn first_match(deps: Seq<(String, Dependency)>, registry: Seq<char>, repository: Seq<char>) -> Option<
    Option<PermissionsModel>,
>
    decreases deps.len(),
{
    if deps.len() == 0 {
        None
    } else {
        match matched_permissions(deps[0].1, registry, repository) {
            Some(p) => Some(p),
            None => first_match(deps.drop_first(), registry, repository),
        }
    }
}

/// Looking through two lists in turn finds the first match of the first
/// list, or else the first match of the second.
pub proof fn lemma_first_match_concat(
    a: Seq<(String, Dependency)>,
    b: Seq<(String, Dependency)>,
    registry: Seq<char>,
    repository: Seq<char>,
)
    ensures
        first_match(a + b, registry, repository) == match first_match(a, registry, repository) {
            Some(p) => Some(p),
            None => first_match(b, registry, repository),
        },
    decreases a.len(),
{
    if a.len() > 0 {
        assert((a + b).drop_first() =~= a.drop_first() + b);
        assert((a + b)[0] == a[0]);
        lemma_first_match_concat(a.drop_first(), b, registry, repository);
    } else {
        assert(a + b =~= b);
    }
}

fn dependency_permissions(dep: &Dependency, registry: &str, repository: &str) -> (r: Option<
    Option<RunPermissions>,
>)
    ensures
        match r {
            Some(p) => matched_permissions(*dep, registry@, repository@) == Some(opt_model(p)),
            None => matched_permissions(*dep, registry@, repository@) is None,
        },
{
    match dep {
        Dependency::Explicit { registry: r, namespace, package, permissions, .. } => {
            let dep_repository = concat3(namespace.as_str(), "/", package.as_str());
            if str_eq(r.as_str(), registry) && str_eq(dep_repository.as_str(), repository) {
                Some(
                    match permissions {
                        Some(p) => Some(p.duplicate()),
                        None => None,
                    },
                )
            } else {
                None
            }
        },
        Dependency::Compact(_) => None,
    }
}

fn scan_dependencies(deps: &Vec<(String, Dependency)>, registry: &str, repository: &str) -> (r: Option<
    Option<RunPermissions>,
>)
    ensures
        match r {
            Some(p) => first_match(deps@, registry@, repository@) == Some(opt_model(p)),
            None => first_match(deps@, registry@, repository@) is None,
        },
{
    let mut i: usize = 0;
    assert(deps@.skip(0) =~= deps@);
    while i < deps.len()
        invariant
            i <= deps.len(),
            first_match(deps@, registry@, repository@) == first_match(deps@.skip(i as int), registry@, repository@),
        decreases deps.len() - i,
    {
        assert(deps@.skip(i as int)[0] == deps@[i as int]);
        assert(deps@.skip(i as int).drop_first() =~= deps@.skip(i + 1));
        match dependency_permissions(&deps[i].1, registry, repository) {
            Some(p) => {
                return Some(p);
            },
            None => {},
        }
        i = i + 1;
    }
    assert(deps@.skip(deps.len() as int) =~= Seq::<(String, Dependency)>::empty());
    None
}

/// The permissions that a manifest records for the component at `registry`
/// and `repository`, looking through its component dependencies and then
/// its interface dependencies, each in the order given: those of the first
/// explicit dependency whose registry and `namespace/package` match. With no
/// reference, or no match, nothing is recorded.
pub fn find_matching_permissions(
    components: &Vec<(String, Dependency)>,
    interfaces: &Vec<(String, Dependency)>,
    reference: Option<(&str, &str)>,
) -> (r: Option<RunPermissions>)
    ensures
        opt_model(r) == match reference {
            None => None,
            Some((registry, repository)) => match first_match(
                components@ + interfaces@,
                registry@,
                repository@,
            ) {
                Some(p) => p,
                None => None,
            },
        },
{
    let (registry, repository) = match reference {
        Some(pair) => pair,
        None => {
            return None;
        },
    };
    proof {
        lemma_first_match_concat(components@, interfaces@, registry@, repository@);
    }
    match scan_dependencies(components, registry, repository) {
        Some(p) => p,
        None => match scan_dependencies(interfaces, registry, repository) {
            Some(p) => p,
            None => None,
        },
    }
}

} // verus!
