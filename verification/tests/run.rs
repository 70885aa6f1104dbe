use wasm_tools::component::{
    build_hint, default_install_hint, exports_http_incoming_handler, is_in_cache, looks_like_manifest_key,
    manifest_key_pattern, parse_env_entry, payloads_export_http_handler, run_source, split_registry_path,
    validate_component, validate_payloads, EnvEntry, Payload, RunSource,
};
use wasm_tools::component_errors::RunError;

const CORE_MODULE: &[u8] = b"\0asm\x01\0\0\0";
const MINIMAL_COMPONENT: &[u8] = b"\0asm\x0d\0\x01\0";

/// A component whose only section exports `wasi:http/incoming-handler@0.2.0`.
fn http_component() -> Vec<u8> {
    let name = b"wasi:http/incoming-handler@0.2.0";
    let mut body = vec![0x01, 0x00, name.len() as u8];
    body.extend_from_slice(name);
    body.extend_from_slice(&[0x05, 0x00, 0x00]);
    let mut bytes = MINIMAL_COMPONENT.to_vec();
    bytes.push(0x0b);
    bytes.push(body.len() as u8);
    bytes.extend_from_slice(&body);
    bytes
}

#[test]
fn detect_http_world_in_http_component() {
    let bytes = http_component();
    assert!(exports_http_incoming_handler(&bytes), "should detect wasi:http/incoming-handler export");
}

#[test]
fn detect_cli_world_in_minimal_component() {
    assert!(!exports_http_incoming_handler(MINIMAL_COMPONENT), "minimal component should not be detected as HTTP");
}

#[test]
fn detect_cli_world_in_core_module() {
    assert!(!exports_http_incoming_handler(CORE_MODULE), "core module should not be detected as HTTP");
}

#[test]
fn validate_accepts_components() {
    assert!(validate_component(MINIMAL_COMPONENT).is_ok());
    assert!(validate_component(&http_component()).is_ok());
}

#[test]
fn test_run_core_module_rejected() {
    assert!(matches!(validate_component(CORE_MODULE), Err(RunError::CoreModule)));
}

#[test]
fn validate_rejects_garbage() {
    assert!(matches!(validate_component(b"not wasm at all"), Err(RunError::InvalidBinary { .. })));
}

#[test]
fn validate_without_header_or_error() {
    let payloads = vec![Payload::Other, Payload::End];
    assert!(matches!(validate_payloads(&payloads), Err(RunError::NoVersionHeader)));
    let payloads = vec![Payload::Other, Payload::Error("boom".into()), Payload::Version(true)];
    match validate_payloads(&payloads) {
        Err(RunError::InvalidBinary { reason }) => assert_eq!(reason, "boom"),
        other => panic!("unexpected: {other:?}"),
    }
}

#[test]
fn nested_component_exports_are_not_considered() {
    let handler = Payload::ComponentExports(vec![Some("wasi:http/incoming-handler@0.2.0".into())]);
    let nested = vec![Payload::Version(true), Payload::Version(true), handler.clone(), Payload::End, Payload::End];
    assert!(!payloads_export_http_handler(&nested));
    let after_nested = vec![Payload::Version(true), Payload::Version(true), Payload::End, handler];
    assert!(payloads_export_http_handler(&after_nested));
    let unreadable = vec![Payload::Version(true), Payload::ComponentExports(vec![None])];
    assert!(!payloads_export_http_handler(&unreadable));
}

#[test]
fn manifest_keys_have_no_dots_or_slashes() {
    assert!(looks_like_manifest_key("wasi:http"));
    assert!(looks_like_manifest_key("test:hello"));
    assert!(!looks_like_manifest_key("ghcr.io/user/repo:tag"));
    assert!(!looks_like_manifest_key("wasi:"));
    assert!(!looks_like_manifest_key(":http"));
    assert!(!looks_like_manifest_key("hello.wasm"));
}

#[test]
fn hints_prefer_cache_then_registry() {
    assert_eq!(
        default_install_hint("wasi:http"),
        "run `wasm install wasi:http` to add it to the project before running it."
    );
    assert_eq!(
        build_hint("a:b", true, true),
        "a copy of the component is available from the local cache. Call `wasm run -g a:b` to run it."
    );
    assert_eq!(
        build_hint("a:b", false, true),
        "a component with the same name is available from the registry. Call `wasm run -i a:b` to install it before running it."
    );
    assert_eq!(build_hint("a:b", false, false), default_install_hint("a:b"));
}

#[test]
fn cache_matches_whole_segments() {
    let repos = vec!["webassembly/wasi-logging".to_string(), "user/xtest/hello".to_string()];
    assert_eq!(manifest_key_pattern("test:hello"), "test/hello");
    assert!(!is_in_cache(&repos, "test/hello"));
    assert!(is_in_cache(&repos, "wasi-logging"));
    assert!(is_in_cache(&repos, "webassembly/wasi-logging"));
}

#[test]
fn run_sources_in_priority_order() {
    assert_eq!(run_source("app.wasm", true, false), RunSource::LocalFile);
    assert_eq!(run_source("test:hello", false, true), RunSource::Vendored);
    assert_eq!(run_source("test:hello", false, false), RunSource::NotInstalled);
    assert_eq!(run_source("ghcr.io/user/repo:1.0", false, false), RunSource::OciReference);
}

#[test]
fn env_entries_split_at_the_first_equals() {
    match parse_env_entry("KEY=a=b") {
        EnvEntry::Pair(k, v) => {
            assert_eq!(k, "KEY");
            assert_eq!(v, "a=b");
        }
        other => panic!("unexpected: {other:?}"),
    }
    assert!(matches!(parse_env_entry("HOME"), EnvEntry::Inherit(n) if n == "HOME"));
}

#[test]
fn registry_paths_split_at_the_first_slash() {
    let (host, repo) = split_registry_path("ghcr.io/user/repo", "a:b").unwrap();
    assert_eq!(host, "ghcr.io");
    assert_eq!(repo, "user/repo");
    let err = split_registry_path("ghcr.io", "a:b").unwrap_err();
    assert_eq!(err.code(), "wasm::run::invalid_registry_path");
}
