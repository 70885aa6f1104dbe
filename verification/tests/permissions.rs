use wasm_tools::command_errors::RunError;
use wasm_tools::component::locked_component;
use wasm_tools::install::{Dependency, Package};
use wasm_tools::permissions::{cli_permissions, find_matching_permissions, RunPermissions};

fn strings(items: &[&str]) -> Vec<String> {
    items.iter().map(|s| s.to_string()).collect()
}

fn explicit(registry: &str, namespace: &str, package: &str, permissions: Option<RunPermissions>) -> Dependency {
    Dependency::Explicit {
        registry: registry.into(),
        namespace: namespace.into(),
        package: package.into(),
        version: "1.0.0".into(),
        permissions,
    }
}

fn network_only() -> RunPermissions {
    let mut p = RunPermissions::none();
    p.inherit_network = Some(true);
    p
}

#[test]
fn cli_flags_state_only_what_is_given() {
    let none = cli_permissions(false, &vec![], &vec![], false, false);
    assert_eq!(none.inherit_env, None);
    assert_eq!(none.allow_env, None);
    assert_eq!(none.allow_dirs, None);
    assert_eq!(none.inherit_stdio, None);
    assert_eq!(none.inherit_network, None);
    let all = cli_permissions(true, &strings(&["A=1"]), &strings(&["/tmp"]), true, true);
    assert_eq!(all.inherit_env, Some(true));
    assert_eq!(all.allow_env, Some(strings(&["A=1"])));
    assert_eq!(all.allow_dirs, Some(strings(&["/tmp"])));
    assert_eq!(all.inherit_stdio, Some(false));
    assert_eq!(all.inherit_network, Some(true));
}

#[test]
fn manifest_permissions_match_registry_and_repository() {
    let components = vec![
        ("a:compact".to_string(), Dependency::Compact("ghcr.io/user/tool:1.0".into())),
        ("user:tool".to_string(), explicit("ghcr.io", "user", "tool", Some(network_only()))),
    ];
    let interfaces = vec![("user:other".to_string(), explicit("ghcr.io", "user", "other", None))];
    let found = find_matching_permissions(&components, &interfaces, Some(("ghcr.io", "user/tool"))).unwrap();
    assert_eq!(found.inherit_network, Some(true));
    assert!(find_matching_permissions(&components, &interfaces, Some(("docker.io", "user/tool"))).is_none());
    assert!(find_matching_permissions(&components, &interfaces, Some(("ghcr.io", "user/other"))).is_none());
    assert!(find_matching_permissions(&components, &interfaces, None).is_none());
    // Compact dependencies record no permissions.
    assert!(find_matching_permissions(&components[..1].to_vec(), &vec![], Some(("ghcr.io", "user/tool"))).is_none());
}

#[test]
fn first_matching_dependency_decides() {
    let components = vec![("first".to_string(), explicit("ghcr.io", "user", "tool", None))];
    let interfaces = vec![("second".to_string(), explicit("ghcr.io", "user", "tool", Some(network_only())))];
    assert!(find_matching_permissions(&components, &interfaces, Some(("ghcr.io", "user/tool"))).is_none());
    let found = find_matching_permissions(&vec![], &interfaces, Some(("ghcr.io", "user/tool"))).unwrap();
    assert_eq!(found.inherit_network, Some(true));
}

fn locked(name: &str) -> Package {
    Package {
        name: name.into(),
        version: "0.1.0".into(),
        registry: "ghcr.io/user/tool".into(),
        digest: "sha256:abc".into(),
        dependencies: vec![],
    }
}

#[test]
fn locked_component_is_found_by_name() {
    let components = vec![locked("user:other"), locked("user:tool"), locked("user:tool")];
    assert_eq!(locked_component("user:tool", &components).unwrap(), 1);
    match locked_component("user:missing", &components) {
        Err(RunError::NotInLockfile { name }) => assert_eq!(name, "user:missing"),
        other => panic!("unexpected {:?}", other.is_ok()),
    }
}
