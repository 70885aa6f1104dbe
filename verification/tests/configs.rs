use wasm_tools::cli_config::{CliConfig, RegistryConfig};
use wasm_tools::config::{config_base, config_file_in, Config, DEFAULT_CONFIG};
use wasm_tools::meta_registry::{default_bind, default_sync_interval, Config as MetaConfig, PackageSource};

#[test]
fn test_default_config() {
    let config = CliConfig::default();
    assert!(config.registry.url.is_none());
    assert_eq!(config.registry.sync_interval(), 3600);
}

/// Reads the `[registry]` table of a configuration text into a `CliConfig`.
fn parse_cli_config(text: &str) -> CliConfig {
    let table: toml::Table = text.parse().unwrap();
    let registry = table.get("registry").and_then(|v| v.as_table());
    let url = registry.and_then(|r| r.get("url")).and_then(|v| v.as_str()).map(String::from);
    let sync_interval = registry
        .and_then(|r| r.get("sync_interval"))
        .and_then(|v| v.as_integer())
        .map(|n| n as u64);
    CliConfig { registry: RegistryConfig { url, sync_interval } }
}

#[test]
fn config_test_parse_full_config() {
    let toml_str = r#"
[registry]
url = "http://localhost:8081"
sync_interval = 1800
"#;
    let config = parse_cli_config(toml_str);
    assert_eq!(config.registry.url, Some("http://localhost:8081".to_string()));
    assert_eq!(config.registry.sync_interval(), 1800);
}

#[test]
fn config_test_parse_minimal_config() {
    let config = parse_cli_config("");
    assert!(config.registry.url.is_none());
    assert_eq!(config.registry.sync_interval(), 3600);
}

#[test]
fn test_parse_partial_registry_config() {
    let toml_str = r#"
[registry]
url = "https://example.com"
"#;
    let config = parse_cli_config(toml_str);
    assert_eq!(config.registry.url, Some("https://example.com".to_string()));
    assert_eq!(config.registry.sync_interval(), 3600);
}

#[test]
fn meta_registry_defaults() {
    assert_eq!(default_sync_interval(), 3600);
    assert_eq!(default_bind(), "0.0.0.0:8080");
    let config = MetaConfig::from_fields(None, None, None);
    assert_eq!(config.sync_interval, 3600);
    assert_eq!(config.bind, "0.0.0.0:8080");
    assert!(config.packages.is_empty());
    let config = MetaConfig::from_fields(
        Some(1800),
        Some("127.0.0.1:9090".into()),
        Some(vec![PackageSource { registry: "ghcr.io".into(), repository: "user/repo".into() }]),
    );
    assert_eq!(config.sync_interval, 1800);
    assert_eq!(config.bind, "127.0.0.1:9090");
    assert_eq!(config.packages[0].repository, "user/repo");
}

#[test]
fn config_file_lives_under_wasm() {
    assert_eq!(config_file_in("/home/u/.config"), "/home/u/.config/wasm/config.toml");
    assert_eq!(Config::config_path_from(Some("/etc".to_string())), "/etc/wasm/config.toml");
    assert!(Config::config_path().ends_with("wasm/config.toml"));
    assert!(DEFAULT_CONFIG.contains("credential-helper"));
}

#[test]
fn config_base_falls_back_to_dot_config() {
    assert_eq!(config_base(None), ".config");
    assert_eq!(config_base(Some("/home/u/.config".into())), "/home/u/.config");
    assert_eq!(config_file_in(&config_base(None)), ".config/wasm/config.toml");
}
