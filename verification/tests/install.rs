use wasm_tools::install::{
    classify_install_input, conflict_check_version, install_plan, install_record, dependency_name, interface_dep_name, locked_package, lockfile_dependencies, looks_like_wit_name,
    reference_text, registry_path, upsert_lockfile_package, upsert_lockfile_type, wit_dependency, wit_lookup_name,
    Dependency, DependencyItem, InputKind, InstallResult, InstallTarget, Lockfile, Package, TransitiveQueue,
};

#[test]
fn looks_like_wit_name_bare() {
    assert!(looks_like_wit_name("wasi:http"));
    assert!(looks_like_wit_name("wasi:logging"));
}

#[test]
fn looks_like_wit_name_with_version() {
    assert!(looks_like_wit_name("wasi:http@0.2.10"));
    assert!(looks_like_wit_name("wasi:http@0.3.0-preview-2026-02-20"));
}

#[test]
fn looks_like_wit_name_rejects_oci() {
    assert!(!looks_like_wit_name("ghcr.io/user/repo:tag"));
    assert!(!looks_like_wit_name("docker.io/library/nginx:latest"));
}

#[test]
fn looks_like_wit_name_rejects_invalid() {
    assert!(!looks_like_wit_name("no-colon"));
    assert!(!looks_like_wit_name(":missing-scope"));
    assert!(!looks_like_wit_name("missing-component:"));
}

#[test]
fn looks_like_wit_name_rejects_empty_version() {
    assert!(!looks_like_wit_name("wasi:http@"));
}

#[test]
fn looks_like_wit_name_rejects_multiple_at() {
    assert!(!looks_like_wit_name("wasi:http@0.2@extra"));
}

fn dep(package: &str, version: Option<&str>) -> DependencyItem {
    DependencyItem { package: package.to_string(), version: version.map(String::from) }
}

fn package(name: &str, registry: &str, version: &str) -> Package {
    Package {
        name: name.to_string(),
        version: version.to_string(),
        registry: registry.to_string(),
        digest: String::new(),
        dependencies: vec![],
    }
}

#[test]
fn wit_dependency_splits_the_version() {
    let d = wit_dependency("wasi:http@0.2.10");
    assert_eq!(d.package, "wasi:http");
    assert_eq!(d.version.as_deref(), Some("0.2.10"));
    let d = wit_dependency("wasi:http");
    assert_eq!(d.package, "wasi:http");
    assert_eq!(d.version, None);
    let d = wit_dependency("wasi:http@");
    assert_eq!(d.package, "wasi:http@");
    assert_eq!(d.version, None);
}

#[test]
fn interface_names_drop_the_version_or_use_the_path() {
    assert_eq!(interface_dep_name(Some("wasi:io@0.2.0"), "ghcr.io", "webassembly/wasi/io"), "wasi:io");
    assert_eq!(interface_dep_name(None, "ghcr.io", "webassembly/wasi/io"), "ghcr.io/webassembly/wasi/io");
    assert_eq!(registry_path("ghcr.io", "user/repo"), "ghcr.io/user/repo");
}

#[test]
fn lockfile_dependencies_keep_versioned_ones() {
    let deps = vec![dep("wasi:io", Some("0.2.0")), dep("wasi:clocks", None), dep("wasi:cli", Some("0.2.1"))];
    let out = lockfile_dependencies(&deps);
    assert_eq!(out.len(), 2);
    assert_eq!(out[0].name, "wasi:io");
    assert_eq!(out[0].version, "0.2.0");
    assert_eq!(out[1].name, "wasi:cli");
    assert!(out.iter().all(|d| d.registry.is_empty() && d.digest.is_empty()));
}

#[test]
fn upsert_replaces_matching_entry() {
    let mut lockfile = Lockfile { components: vec![package("a:b", "ghcr.io/a/b", "1.0.0")], interfaces: vec![] };
    upsert_lockfile_package(&mut lockfile, true, "a:b", "ghcr.io/a/b", package("a:b", "ghcr.io/a/b", "2.0.0"));
    assert_eq!(lockfile.components.len(), 1);
    assert_eq!(lockfile.components[0].version, "2.0.0");
    upsert_lockfile_package(&mut lockfile, true, "c:d", "ghcr.io/c/d", package("c:d", "ghcr.io/c/d", "1.0.0"));
    assert_eq!(lockfile.components.len(), 2);
    assert!(lockfile.interfaces.is_empty());
}

#[test]
fn upsert_twice_is_the_same_as_once() {
    let mut lockfile = Lockfile { components: vec![], interfaces: vec![package("x:y", "r/x", "0.1.0")] };
    upsert_lockfile_package(&mut lockfile, false, "a:b", "r/a", package("a:b", "r/a", "1.0.0"));
    upsert_lockfile_package(&mut lockfile, false, "a:b", "r/a", package("a:b", "r/a", "1.0.0"));
    assert_eq!(lockfile.interfaces.len(), 2);
    assert_eq!(lockfile.interfaces[1].name, "a:b");
}

#[test]
fn upsert_lockfile_type_builds_the_interface_entry() {
    let mut lockfile = Lockfile { components: vec![], interfaces: vec![] };
    let result = InstallResult {
        registry: "ghcr.io".into(),
        repository: "webassembly/wasi/io".into(),
        tag: Some("0.2.0".into()),
        digest: Some("sha256:abc".into()),
        package_name: Some("wasi:io@0.2.0".into()),
        oci_title: None,
        vendored_files: vec![],
        is_component: false,
        dependencies: vec![dep("wasi:clocks", Some("0.2.0")), dep("wasi:random", None)],
    };
    upsert_lockfile_type(&mut lockfile, &result);
    assert_eq!(lockfile.interfaces.len(), 1);
    let p = &lockfile.interfaces[0];
    assert_eq!(p.name, "wasi:io");
    assert_eq!(p.version, "0.2.0");
    assert_eq!(p.registry, "ghcr.io/webassembly/wasi/io");
    assert_eq!(p.digest, "sha256:abc");
    assert_eq!(p.dependencies.len(), 1);
}

#[test]
fn inputs_are_read_in_order_of_preference() {
    assert_eq!(classify_install_input("wasi:logging", true), InputKind::ManifestKey);
    assert_eq!(classify_install_input("wasi:http", false), InputKind::WitName);
    assert_eq!(classify_install_input("ghcr.io/user/repo:tag", false), InputKind::OciReference);
}

#[test]
fn manifest_dependencies_resolve_by_name_or_reference() {
    let version = Dependency::Compact("0.1.6".into());
    assert_eq!(wit_lookup_name("ba:sample-wasi-http-rust", &version).as_deref(), Some("ba:sample-wasi-http-rust@0.1.6"));
    let oci = Dependency::Compact("ghcr.io/webassembly/wasi-logging:1.0.0".into());
    assert_eq!(wit_lookup_name("wasi:logging", &oci), None);
    assert_eq!(reference_text(&oci), "ghcr.io/webassembly/wasi-logging:1.0.0");
    let explicit = Dependency::Explicit {
        registry: "ghcr.io".into(),
        namespace: "webassembly".into(),
        package: "wasi-logging".into(),
        version: "1.0.0".into(),
        permissions: None,
    };
    assert_eq!(reference_text(&explicit), "ghcr.io/webassembly/wasi-logging:1.0.0");
}

#[test]
fn conflict_check_takes_versions_of_wit_keys() {
    assert_eq!(conflict_check_version("wasi:http", &Dependency::Compact("v0.2.0".into())).as_deref(), Some("0.2.0"));
    assert_eq!(conflict_check_version("wasi:http", &Dependency::Compact("vv1".into())).as_deref(), Some("1"));
    assert_eq!(conflict_check_version("wasi:http", &Dependency::Compact("ghcr.io/a/b:1".into())), None);
    assert_eq!(conflict_check_version("ghcr.io/a", &Dependency::Compact("1.0".into())), None);
}

#[test]
fn transitive_queue_visits_each_dependency_once() {
    let lockfile = Lockfile { components: vec![], interfaces: vec![package("wasi:io", "ghcr.io/wasi/io", "0.2.0")] };
    let mut queue = TransitiveQueue::new(vec![
        dep("wasi:clocks", Some("0.2.0")),
        dep("wasi:io", Some("0.2.0")),
        dep("wasi:clocks", Some("0.2.0")),
    ]);
    let first = queue.next(&lockfile).unwrap();
    assert_eq!(first.package, "wasi:clocks");
    queue.push_all(vec![dep("wasi:clocks", Some("0.2.0")), dep("wasi:random", None)]);
    let second = queue.next(&lockfile).unwrap();
    assert_eq!(second.package, "wasi:random");
    assert!(queue.next(&lockfile).is_none());
}

fn component_result(tag: Option<&str>, digest: Option<&str>) -> InstallResult {
    InstallResult {
        registry: "ghcr.io".into(),
        repository: "user/tool".into(),
        tag: tag.map(String::from),
        digest: digest.map(String::from),
        package_name: Some("root:component".into()),
        oci_title: None,
        vendored_files: vec![],
        is_component: true,
        dependencies: vec![dep("wasi:cli", Some("0.2.0")), dep("wasi:io", None)],
    }
}

#[test]
fn recorded_names_prefer_the_given_name() {
    let component = component_result(Some("1.0.0"), None);
    assert_eq!(dependency_name(&component, Some("ba:tool"), "tool"), "ba:tool");
    assert_eq!(dependency_name(&component, None, "tool"), "tool");
    let mut interface = component_result(None, None);
    interface.is_component = false;
    interface.package_name = Some("wasi:http@0.2.0".into());
    assert_eq!(dependency_name(&interface, None, "unused"), "wasi:http");
    interface.package_name = None;
    assert_eq!(dependency_name(&interface, None, "unused"), "ghcr.io/user/tool");
}

#[test]
fn locked_package_records_install_result() {
    let p = locked_package(&component_result(Some("1.0.0"), Some("sha256:abc")), "user:tool");
    assert_eq!(p.name, "user:tool");
    assert_eq!(p.version, "1.0.0");
    assert_eq!(p.registry, "ghcr.io/user/tool");
    assert_eq!(p.digest, "sha256:abc");
    assert_eq!(p.dependencies.len(), 1);
    assert_eq!(p.dependencies[0].name, "wasi:cli");
    assert_eq!(p.dependencies[0].version, "0.2.0");
    assert_eq!(p.dependencies[0].registry, "");
    let q = locked_package(&component_result(None, None), "x");
    assert_eq!(q.version, "");
    assert_eq!(q.digest, "");
}

#[test]
fn queue_skips_locked_and_visited_in_order() {
    let lockfile = Lockfile { components: vec![], interfaces: vec![package("wasi:io", "ghcr.io/webassembly/wasi/io", "0.2.0")] };
    let mut queue = TransitiveQueue::new(vec![
        dep("wasi:io", Some("0.2.0")),
        dep("wasi:cli", Some("0.2.0")),
        dep("wasi:http", None),
    ]);
    assert_eq!(queue.next(&lockfile).unwrap().package, "wasi:cli");
    queue.push_all(vec![dep("wasi:io", Some("0.3.0"))]);
    assert_eq!(queue.next(&lockfile).unwrap().package, "wasi:http");
    assert!(queue.next(&lockfile).is_none());
    assert!(queue.next(&lockfile).is_none());
}

#[test]
fn install_plan_needs_a_manifest() {
    match install_plan(false, false, &vec![], &vec![], &vec![]) {
        Err(wasm_tools::command_errors::InstallError::NoManifest) => {}
        _ => panic!("expected NoManifest"),
    }
}

#[test]
fn install_plan_targets() {
    let keys = vec!["wasi:logging".to_string(), "ba:sample".to_string()];
    let plan = install_plan(true, false, &vec![], &vec![], &keys).unwrap();
    assert!(plan.sync_registry && plan.check_conflicts && plan.install_transitive);
    assert_eq!(plan.targets.len(), 2);
    assert_eq!(plan.targets[1].input, "ba:sample");
    assert_eq!(plan.targets[1].kind, InputKind::ManifestKey);
    assert!(!plan.targets[1].update_manifest);

    let inputs = vec!["wasi:logging".to_string(), "wasi:http".to_string(), "ghcr.io/a/b:1".to_string()];
    let plan = install_plan(true, true, &inputs, &vec![true, false, false], &keys).unwrap();
    assert!(!plan.sync_registry && !plan.check_conflicts && !plan.install_transitive);
    assert_eq!(plan.targets[0].kind, InputKind::ManifestKey);
    assert!(!plan.targets[0].update_manifest);
    assert_eq!(plan.targets[1].kind, InputKind::WitName);
    assert_eq!(plan.targets[1].explicit_name.as_deref(), Some("wasi:http"));
    assert!(plan.targets[1].update_manifest);
    assert_eq!(plan.targets[2].kind, InputKind::OciReference);
    assert_eq!(plan.targets[2].explicit_name, None);
    assert!(plan.targets[2].update_manifest);
}

#[test]
fn install_record_updates_manifest_only_for_explicit_inputs() {
    let result = component_result(Some("1.0.0"), Some("sha256:abc"));
    let target = InstallTarget { input: "ghcr.io/user/tool:1.0.0".into(), kind: InputKind::OciReference, update_manifest: true, explicit_name: None };
    let record = install_record(&result, &target, "tool");
    assert_eq!(record.name, "tool");
    assert!(record.is_component);
    assert!(matches!(record.manifest_entry, Some(Dependency::Compact(ref v)) if v == "1.0.0"));
    assert_eq!(record.package.registry, "ghcr.io/user/tool");
    let keyed = InstallTarget { input: "user:tool".into(), kind: InputKind::ManifestKey, update_manifest: false, explicit_name: None };
    assert!(install_record(&result, &keyed, "tool").manifest_entry.is_none());
}
