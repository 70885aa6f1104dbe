use wasm_tools::config::{Config, RegistryConfig};
use wasm_tools::credential_helper::{
    credentials_from_fields, execute_json_helper, execute_split_helper, output_preview, CredentialError,
    CredentialField, CredentialHelper,
};

/// Stands in for the shell on the commands these tests use: `echo WORDS`
/// prints the words and a newline, `printf '%s' 'TEXT'` prints the text.
fn shell(cmd: &str) -> Result<String, String> {
    if let Some(words) = cmd.strip_prefix("echo ") {
        return Ok(format!("{words}\n"));
    }
    if let Some(rest) = cmd.strip_prefix("printf '%s' '") {
        return rest.strip_suffix('\'').map(String::from).ok_or_else(|| "unterminated quote".to_string());
    }
    Err(format!("sh: 1: {cmd}: not found"))
}

/// Reads a JSON list of `{"id": .., "value": ..}` objects.
fn parse_fields(text: &str) -> Result<Vec<CredentialField>, String> {
    let value: serde_json::Value = serde_json::from_str(text).map_err(|e| e.to_string())?;
    let items = value.as_array().ok_or_else(|| "expected a list".to_string())?;
    let mut fields = Vec::new();
    for item in items {
        let id = item.get("id").and_then(|v| v.as_str()).ok_or_else(|| "missing id".to_string())?;
        let value = item.get("value").and_then(|v| v.as_str()).ok_or_else(|| "missing value".to_string())?;
        fields.push(CredentialField { id: id.to_string(), value: value.to_string() });
    }
    Ok(fields)
}

fn field(id: &str, value: &str) -> CredentialField {
    CredentialField { id: id.to_string(), value: value.to_string() }
}

#[test]
fn test_execute_split_helper() {
    let (username, password) = execute_split_helper("echo testuser", "echo testpass", &shell).unwrap();
    assert_eq!(username, "testuser");
    assert_eq!(password, "testpass");
}

#[test]
fn test_credential_helper_split_execute() {
    let helper = CredentialHelper::Split {
        username: "echo splituser".to_string(),
        password: "echo splitpass".to_string(),
    };
    let (username, password) = helper.execute(&shell, &parse_fields).unwrap();
    assert_eq!(username, "splituser");
    assert_eq!(password, "splitpass");
}

#[test]
fn test_execute_json_helper() {
    let json = r#"[{"id": "username", "value": "testuser"}, {"id": "password", "value": "testpass"}]"#;
    let cmd = format!("printf '%s' '{json}'");
    let (username, password) = execute_json_helper(&cmd, &shell, &parse_fields).unwrap();
    assert_eq!(username, "testuser");
    assert_eq!(password, "testpass");
}

#[test]
fn test_credential_helper_json_execute() {
    let json = r#"[{"id": "username", "value": "user1"}, {"id": "password", "value": "pass1"}]"#;
    let helper = CredentialHelper::Json(format!("printf '%s' '{json}'"));
    let (username, password) = helper.execute(&shell, &parse_fields).unwrap();
    assert_eq!(username, "user1");
    assert_eq!(password, "pass1");
}

#[test]
fn test_credential_helper_debug_never_prints_credentials() {
    let json_helper = CredentialHelper::Json("op item get secret --format json".to_string());
    let debug_output = format!("{:?}", json_helper);
    assert!(debug_output.contains("op item get secret"));

    let split_helper = CredentialHelper::Split {
        username: "/path/to/get-user.sh".to_string(),
        password: "/path/to/get-pass.sh".to_string(),
    };
    let debug_output = format!("{:?}", split_helper);
    assert!(debug_output.contains("/path/to/get-user.sh"));
    assert!(debug_output.contains("/path/to/get-pass.sh"));
}

#[test]
fn test_credential_helper_display_never_leaks_credentials() {
    let helper = CredentialHelper::Json("my-credential-tool --get creds".to_string());
    let debug_output = format!("{:?}", helper);
    assert!(debug_output.contains("my-credential-tool"), "Debug output should show the command");

    let split = CredentialHelper::Split {
        username: "get-user-cmd".to_string(),
        password: "get-pass-cmd".to_string(),
    };
    let debug_output = format!("{:?}", split);
    assert!(debug_output.contains("get-user-cmd"), "Debug output should show the username command");
    assert!(debug_output.contains("get-pass-cmd"), "Debug output should show the password command");
}

#[test]
fn test_get_credentials_no_helper() {
    let mut config = Config::default();
    let creds = config.get_credentials("unknown.io", &shell, &parse_fields).unwrap();
    assert!(creds.is_none());
}

#[test]
fn test_config_default() {
    let config = Config::default();
    assert!(config.registries.is_empty());
}

#[test]
fn test_credential_cache() {
    let json = r#"[{"id": "username", "value": "user"}, {"id": "password", "value": "pass"}]"#;
    let cmd = format!("printf '%s' '{json}'");
    let registries = vec![(
        "test.io".to_string(),
        RegistryConfig { credential_helper: Some(CredentialHelper::Json(cmd)) },
    )];
    let mut config = Config::with_registries(registries);

    let creds = config.get_credentials("test.io", &shell, &parse_fields).unwrap();
    assert_eq!(creds, Some(("user".to_string(), "pass".to_string())));

    config.clear_credential_cache();

    // After clearing, the helper runs again: a runner that always fails now
    // gives an error instead of the kept credentials.
    let failing = |_: &str| -> Result<String, String> { Err("not run".to_string()) };
    assert!(config.get_credentials("test.io", &failing, &parse_fields).is_err());
}

#[test]
fn credentials_are_kept_after_the_first_lookup() {
    let registries = vec![(
        "kept.io".to_string(),
        RegistryConfig {
            credential_helper: Some(CredentialHelper::Split {
                username: "echo u".to_string(),
                password: "echo p".to_string(),
            }),
        },
    )];
    let mut config = Config::with_registries(registries);
    let first = config.get_credentials("kept.io", &shell, &parse_fields).unwrap();
    assert_eq!(first, Some(("u".to_string(), "p".to_string())));
    // The second lookup answers from memory: the runner is never asked.
    let failing = |_: &str| -> Result<String, String> { Err("not run".to_string()) };
    let second = config.get_credentials("kept.io", &failing, &parse_fields).unwrap();
    assert_eq!(second, first);
}

#[test]
fn registry_without_helper_gives_none() {
    let registries = vec![("plain.io".to_string(), RegistryConfig { credential_helper: None })];
    let mut config = Config::with_registries(registries);
    assert_eq!(config.get_credentials("plain.io", &shell, &parse_fields).unwrap(), None);
}

#[test]
fn split_helper_failure_is_a_command_error() {
    let failing = |_: &str| -> Result<String, String> { Err("boom".to_string()) };
    let err = execute_split_helper("get-user", "get-pass", &failing).unwrap_err();
    assert_eq!(err.message(), "Failed to execute username credential helper: get-user: boom");
}

#[test]
fn fields_pick_last_username_and_password() {
    let fields = vec![
        field("username", "first"),
        field("other", "x"),
        field("password", "secret"),
        field("username", "second"),
    ];
    let (u, p) = credentials_from_fields(&fields).unwrap();
    assert_eq!(u, "second");
    assert_eq!(p, "secret");
}

#[test]
fn fields_missing_username_or_password() {
    let only_password = vec![field("password", "p")];
    assert!(matches!(credentials_from_fields(&only_password), Err(CredentialError::MissingUsername)));
    let only_username = vec![field("username", "u")];
    assert!(matches!(credentials_from_fields(&only_username), Err(CredentialError::MissingPassword)));
    assert_eq!(
        CredentialError::MissingPassword.message(),
        "Credential helper output missing 'password' field"
    );
}

#[test]
fn invalid_json_error_shows_a_short_preview() {
    let long = "x".repeat(150);
    let cmd = format!("printf '%s' '{long}'");
    let err = execute_json_helper(&cmd, &shell, &parse_fields).unwrap_err();
    match &err {
        CredentialError::InvalidJson { preview, .. } => {
            assert_eq!(preview, &format!("{}...", "x".repeat(100)));
        }
        other => panic!("unexpected error: {other:?}"),
    }
    assert_eq!(output_preview("short"), "short");
}

#[test]
fn preview_counts_bytes_and_stops_at_a_character_boundary() {
    // Exactly a hundred bytes: shown in full.
    assert_eq!(output_preview(&"é".repeat(50)), "é".repeat(50));
    // Over a hundred bytes: the first hundred bytes.
    assert_eq!(output_preview(&"é".repeat(51)), format!("{}...", "é".repeat(50)));
    // Byte 100 falls inside a character: cut at the boundary before it.
    let text = format!("a{}", "é".repeat(50));
    assert_eq!(output_preview(&text), format!("a{}...", "é".repeat(49)));
    assert_eq!(output_preview(&"x".repeat(101)), format!("{}...", "x".repeat(100)));
}
