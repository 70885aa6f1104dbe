use wasm_tools::command_errors::{ComposeError, InspectError, InstallError, RunError as CommandRunError, SyncError};
use wasm_tools::component_errors::RunError;

#[test]
fn errors_test_all_variants_have_error_codes() {
    let variants = vec![
        RunError::CoreModule,
        RunError::InvalidBinary { reason: "test".to_string() },
        RunError::NoVersionHeader,
    ];
    let expected_codes = ["wasm::run::core_module", "wasm::run::invalid_binary", "wasm::run::no_version_header"];
    for (variant, expected_code) in variants.iter().zip(expected_codes.iter()) {
        assert_eq!(variant.code(), *expected_code);
        assert!(!variant.help().is_empty(), "{expected_code} must have a help message");
    }
}

#[test]
fn run_errors_test_all_variants_have_error_codes() {
    let variants = vec![
        CommandRunError::CoreModule,
        CommandRunError::InvalidBinary { reason: "test".to_string() },
        CommandRunError::NoVersionHeader,
        CommandRunError::NoManifest,
        CommandRunError::NoWasmLayer,
        CommandRunError::NotInLockfile { name: "test".to_string() },
        CommandRunError::InvalidRegistryPath { path: "test".to_string(), name: "test".to_string() },
        CommandRunError::VendoredFileMissing { path: "test".to_string(), name: "test".to_string() },
    ];
    let expected_codes = [
        "wasm::run::core_module",
        "wasm::run::invalid_binary",
        "wasm::run::no_version_header",
        "wasm::run::no_manifest",
        "wasm::run::no_wasm_layer",
        "wasm::run::not_in_lockfile",
        "wasm::run::invalid_registry_path",
        "wasm::run::vendored_file_missing",
    ];
    for (variant, expected_code) in variants.iter().zip(expected_codes.iter()) {
        assert_eq!(variant.code(), *expected_code);
        assert!(!variant.help().is_empty(), "{expected_code} must have a help message");
    }
}

#[test]
fn install_errors_test_all_variants_have_error_codes() {
    let no_manifest = InstallError::NoManifest;
    assert_eq!(no_manifest.code(), "wasm::install::no_manifest");
    assert!(!no_manifest.help().is_empty(), "NoManifest must have a help message");

    let invalid_input = InstallError::InvalidInput { input: "not-a-ref".to_string() };
    assert_eq!(invalid_input.code(), "wasm::install::invalid_input");
    assert!(!invalid_input.help().is_empty(), "InvalidInput must have a help message");

    let invalid_ref = InstallError::InvalidReference { reason: "bad format".to_string() };
    assert_eq!(invalid_ref.code(), "wasm::install::invalid_reference");
    assert!(!invalid_ref.help().is_empty(), "InvalidReference must have a help message");

    let unknown_pkg = InstallError::UnknownPackage { input: "wasi:http".to_string() };
    assert_eq!(unknown_pkg.code(), "wasm::install::unknown_package");
    assert!(!unknown_pkg.help().is_empty(), "UnknownPackage must have a help message");
}

#[test]
fn compose_errors_test_all_variants_have_error_codes() {
    let no_wac = ComposeError::NoWacFiles;
    assert_eq!(no_wac.code(), "wasm::compose::no_wac_files");
    assert!(!no_wac.help().is_empty(), "NoWacFiles must have a help message");

    let invalid_name = ComposeError::InvalidName { name: "foo/bar".to_string() };
    assert_eq!(invalid_name.code(), "wasm::compose::invalid_name");
    assert!(!invalid_name.help().is_empty(), "InvalidName must have a help message");

    let not_found = ComposeError::WacNotFound {
        name: "test".to_string(),
        hint: "no .wac files exist in `seams/`".to_string(),
    };
    assert_eq!(not_found.code(), "wasm::compose::wac_not_found");
    assert!(!not_found.help().is_empty(), "WacNotFound must have a help message");
}

#[test]
fn registry_errors_test_all_variants_have_error_codes() {
    let no_manifest = InspectError::NoManifest { reference: "ghcr.io/example/comp:1.0".to_string() };
    assert_eq!(no_manifest.code(), "wasm::registry::inspect_no_manifest");
    assert!(!no_manifest.help().is_empty(), "NoManifest must have a help message");

    let no_wasm = InspectError::NoWasmLayer { reference: "ghcr.io/example/comp:1.0".to_string() };
    assert_eq!(no_wasm.code(), "wasm::registry::inspect_no_wasm_layer");
    assert!(!no_wasm.help().is_empty(), "NoWasmLayer must have a help message");

    let degraded = SyncError::Degraded { reason: "connection refused".to_string() };
    assert_eq!(degraded.code(), "wasm::registry::sync_failed");
    assert!(!degraded.help().is_empty(), "Degraded must have a help message");
}

#[test]
fn error_messages_fill_in_their_fields() {
    assert_eq!(
        RunError::InvalidBinary { reason: "bad magic".into() }.message(),
        "invalid Wasm binary: bad magic"
    );
    assert_eq!(
        RunError::InvalidBinary { reason: "bad magic".into() }.help(),
        "bad magic; ensure the file is a valid WebAssembly binary"
    );
    assert_eq!(
        CommandRunError::InvalidRegistryPath { path: "ghcr.io".into(), name: "a:b".into() }.message(),
        "invalid registry path 'ghcr.io' in lockfile for 'a:b'"
    );
    assert_eq!(
        InstallError::NoManifest.help(),
        "call `wasm init` to create a `wasm.toml` manifest locally\ncall `wasm registry fetch <component>` to fetch the package without affecting the local manifest"
    );
    assert_eq!(
        ComposeError::WacNotFound { name: "foo".into(), hint: "try bar".into() }.help(),
        "'seams/foo.wac' not found; try bar"
    );
    assert_eq!(SyncError::Degraded { reason: "timeout".into() }.message(), "sync failed: timeout");
    assert_eq!(InspectError::NoWasmLayer { reference: "r".into() }.message(), "no wasm layers found for 'r'");
}
