use wasm_tools::command_errors::ComposeError;
use wasm_tools::compose::{
    available_wac_stems, is_plain_name, list_available_wac_files, output_path, select_wac_files,
    wac_files_to_compose, wac_not_found_message, wac_path_for,
};
use wasm_tools::image_entry::InsertResult;
use wasm_tools::known_package::KnownPackage;
use wasm_tools::listing::{already_stored_warning, config_report, registry_status_line, state_report, tags_report};
use wasm_tools::tui_text::StateSummary;
use wasm_tools::migration::Migrations;
use wasm_tools::search::{no_results_message, render_search_table, render_search_table_at, search_rows, search_table_cells};
use wasm_tools::sort::{sort_texts, text_le_exec};
use wasm_tools::store::{
    image_digest, layer_store_keys, package_type, pull_refusal, size_on_disk, tags_to_record,
};
use wasm_tools::tags::{partition_tag_rows, rescan_tag_types, TagType};

fn strings(items: &[&str]) -> Vec<String> {
    items.iter().map(|s| s.to_string()).collect()
}

fn package(repository: &str, description: Option<&str>, tags: &[&str]) -> KnownPackage {
    KnownPackage::new_for_testing(
        "ghcr.io".into(),
        repository.into(),
        description.map(String::from),
        strings(tags),
        vec![],
        vec![],
        "2025-01-01 00:00:00".into(),
        "2025-01-01 00:00:00".into(),
    )
}

#[test]
fn test_render_search_table_with_results() {
    let packages = vec![
        package("example/http-server", Some("A simple HTTP server component"), &["0.1.0", "0.2.0"]),
        package("example/logger", None, &[]),
    ];

    let output = render_search_table(&packages);

    assert!(output.contains("PACKAGE"));
    assert!(output.contains("DESCRIPTION"));
    assert!(output.contains("TAGS"));

    assert!(output.contains("ghcr.io/example/http-server"));
    assert!(output.contains("A simple HTTP server component"));
    assert!(output.contains("0.1.0, 0.2.0"));

    assert!(output.contains("ghcr.io/example/logger"));
}

#[test]
fn test_render_search_table_empty() {
    let output = render_search_table(&vec![]);
    assert!(output.contains("PACKAGE"));
    assert!(!output.contains("ghcr.io"));
}

#[test]
fn search_rows_use_dashes_for_missing_cells() {
    let rows = search_rows(&vec![
        package("example/http-server", Some("server"), &["0.1.0", "0.2.0"]),
        package("example/logger", None, &[]),
    ]);
    assert_eq!(
        rows,
        vec![
            ("ghcr.io/example/http-server".to_string(), "server".to_string(), "0.1.0, 0.2.0".to_string()),
            ("ghcr.io/example/logger".to_string(), "-".to_string(), "-".to_string()),
        ]
    );
}

#[test]
fn no_results_message_quotes_query() {
    assert_eq!(no_results_message("http"), "No packages found matching 'http'");
}

#[test]
fn plain_composition_names() {
    assert!(is_plain_name("foo"));
    assert!(!is_plain_name("a/b"));
    assert!(!is_plain_name("a\\b"));
    assert!(!is_plain_name(".."));
    assert_eq!(wac_path_for("foo").unwrap(), "seams/foo.wac");
    match wac_path_for("../etc") {
        Err(ComposeError::InvalidName { name }) => assert_eq!(name, "../etc"),
        other => panic!("unexpected {:?}", other),
    }
}

#[test]
fn wac_files_are_selected_and_sorted() {
    let entries = strings(&["seams/zeta.wac", "seams/readme.md", "seams/alpha.wac", "seams/noext"]);
    assert_eq!(select_wac_files(&entries), strings(&["seams/zeta.wac", "seams/alpha.wac"]));
    assert_eq!(available_wac_stems(&entries), strings(&["zeta", "alpha"]));
    assert_eq!(wac_files_to_compose(&entries), strings(&["seams/alpha.wac", "seams/zeta.wac"]));
    assert_eq!(list_available_wac_files(&entries), strings(&["alpha", "zeta"]));
    assert!(list_available_wac_files(&strings(&["seams/a.txt"])).is_empty());
}

#[test]
fn wac_not_found_lists_available_files() {
    assert_eq!(
        wac_not_found_message("foo", &vec![]),
        "WAC file 'seams/foo.wac' not found and no .wac files exist in `seams/`"
    );
    assert_eq!(
        wac_not_found_message("foo", &strings(&["alpha", "zeta"])),
        "WAC file 'seams/foo.wac' not found. Available WAC files:\n  - alpha\n  - zeta"
    );
}

#[test]
fn composed_output_path() {
    assert_eq!(output_path("build", Some("app")), "build/app.wasm");
    assert_eq!(output_path("build/", None), "build/composed.wasm");
}

#[test]
fn text_order_is_by_characters() {
    assert!(text_le_exec("abc", "abd"));
    assert!(text_le_exec("ab", "abc"));
    assert!(!text_le_exec("b", "abc"));
    assert!(text_le_exec("", ""));
    assert_eq!(sort_texts(strings(&["b", "a", "c", "a"])), strings(&["a", "a", "b", "c"]));
}

#[test]
fn stored_image_digest_and_size() {
    assert_eq!(image_digest(Some("sha256:aa"), Some("sha256:bb".into())), Some("sha256:aa".to_string()));
    assert_eq!(image_digest(None, Some("sha256:bb".into())), Some("sha256:bb".to_string()));
    assert_eq!(image_digest(None, None), None);
    assert_eq!(size_on_disk(&vec![100, 250, 0]), 350);
    assert_eq!(size_on_disk(&vec![]), 0);
}

#[test]
fn layer_keys_follow_manifest() {
    let digests = strings(&["sha256:1", "sha256:2"]);
    assert_eq!(
        layer_store_keys(InsertResult::Inserted, Some(&digests), 3, "ghcr.io/a/b:1"),
        strings(&["sha256:1", "sha256:2", "ghcr.io/a/b:1"])
    );
    assert!(layer_store_keys(InsertResult::AlreadyExists, Some(&digests), 2, "r").is_empty());
    assert!(layer_store_keys(InsertResult::Inserted, None, 2, "r").is_empty());
}

#[test]
fn recorded_package_facts() {
    assert_eq!(package_type(true), "interface");
    assert_eq!(package_type(false), "component");
    assert_eq!(pull_refusal(true), Some("cannot pull packages in offline mode".to_string()));
    assert_eq!(pull_refusal(false), None);
    assert_eq!(
        tags_to_record(Some("1.0"), strings(&["1.0", "2.0"])),
        vec![Some("1.0".to_string()), Some("1.0".to_string()), Some("2.0".to_string())]
    );
    assert_eq!(tags_to_record(None, vec![]), vec![None]);
}

#[test]
fn tags_report_lines() {
    assert_eq!(
        tags_report("ghcr.io/a/b", &strings(&["1.0", "2.0"]), false),
        strings(&["Tags for 'ghcr.io/a/b':", "  1.0", "  2.0"])
    );
    assert_eq!(
        tags_report("ghcr.io/a/b", &vec![], true),
        strings(&["No cached tags found for 'ghcr.io/a/b' (offline mode)"])
    );
    assert_eq!(tags_report("x", &vec![], false), strings(&["No tags found for 'x'"]));
    assert_eq!(tags_report("x", &strings(&["v1"]), true), strings(&["Cached tags for 'x' (offline mode):", "  v1"]));
}

#[test]
fn registry_lines() {
    assert_eq!(registry_status_line("ghcr.io", true), "  - ghcr.io: credential-helper configured");
    assert_eq!(registry_status_line("docker.io", false), "  - docker.io: no credential-helper");
    assert_eq!(already_stored_warning("ghcr.io/a/b:1"), "package 'ghcr.io/a/b:1' already exists in the local store");
}

#[test]
fn stored_tag_rows_partition_into_three_groups() {
    let rows = vec![
        ("1.0".to_string(), "release".to_string()),
        ("sha256-a.sig".to_string(), "signature".to_string()),
        ("sha256-a.att".to_string(), "attestation".to_string()),
        ("2.0".to_string(), "other".to_string()),
    ];
    let (release, sig, att) = partition_tag_rows(&rows);
    assert_eq!(release, strings(&["1.0", "2.0"]));
    assert_eq!(sig, strings(&["sha256-a.sig"]));
    assert_eq!(att, strings(&["sha256-a.att"]));
    assert_eq!(release.len() + sig.len() + att.len(), rows.len());
}

#[test]
fn rescan_updates_only_stale_rows_and_then_nothing() {
    let rows = vec![
        (1, "1.0".to_string(), "release".to_string()),
        (1, "sha256-a.sig".to_string(), "release".to_string()),
        (2, "sha256-b.att".to_string(), "attestation".to_string()),
    ];
    let updates = rescan_tag_types(&rows);
    assert_eq!(updates.len(), 1);
    assert_eq!(updates[0].package_id, 1);
    assert_eq!(updates[0].tag, "sha256-a.sig");
    assert_eq!(updates[0].tag_type, TagType::Signature);
    let fixed: Vec<(i64, String, String)> = rows
        .iter()
        .map(|(id, tag, _)| (*id, tag.clone(), TagType::from_tag(tag).as_str().to_string()))
        .collect();
    assert!(rescan_tag_types(&fixed).is_empty());
}

#[test]
fn migrations_pending_then_done() {
    let versions = vec![1, 2, 3];
    assert_eq!(Migrations::pending(&versions, 0), vec![1, 2, 3]);
    assert_eq!(Migrations::pending(&versions, 2), vec![3]);
    assert!(Migrations::pending(&versions, 3).is_empty());
    let info = Migrations::from_versions(1, &versions);
    assert_eq!((info.current, info.total), (1, 3));
    assert_eq!(Migrations::from_versions(0, &vec![]).total, 0);
}

#[test]
fn self_state_lines() {
    let s = StateSummary {
        migration_current: 2,
        migration_total: 5,
        config_file: String::new(),
        config_exists: false,
        local_config_file: String::new(),
        local_config_exists: false,
        executable: "/usr/bin/wasm".into(),
        data_dir: "/data".into(),
        store_dir: "/data/store".into(),
        metadata_file: "/data/db".into(),
        store_size: "1 KB".into(),
        metadata_size: "2 KB".into(),
    };
    assert_eq!(
        state_report(&s, "/logs", "/logs/wasm.log"),
        strings(&[
            "[Migrations]",
            "Current: \t2/5",
            "",
            "[Storage]",
            "Executable: \t/usr/bin/wasm",
            "Data storage: \t/data",
            "Content store: \t/data/store (1 KB)",
            "Image metadata: /data/db (2 KB)",
            "",
            "[Logging]",
            "Log directory: \t/logs",
            "Log file: \t/logs/wasm.log",
        ])
    );
}

#[test]
fn self_config_lines() {
    let lines = config_report(
        "/home/u/.config/wasm/config.toml",
        Some("/home/u/.config/wasm"),
        false,
        "wasm.toml",
        true,
        &vec![("ghcr.io".to_string(), true), ("docker.io".to_string(), false)],
        ".env",
        Some(3),
    );
    assert_eq!(
        lines,
        strings(&[
            "[Configuration]",
            "Global config:\t/home/u/.config/wasm/config.toml",
            "Status:\t\tnot created (will use defaults)",
            "",
            "To create a default config file with examples, run:",
            "  mkdir -p /home/u/.config/wasm",
            "  touch /home/u/.config/wasm/config.toml",
            "",
            "Local config:\twasm.toml",
            "Status:\t\texists",
            "",
            "[Registries]",
            "  - ghcr.io: credential-helper configured",
            "  - docker.io: no credential-helper",
            "",
            "[Environment]",
            "Dotenv file:\t.env",
            "Status:\t\texists (3 variable(s) defined in file)",
        ])
    );
    let lines = config_report("/c", None, true, "l", false, &vec![], ".env", None);
    assert_eq!(
        lines,
        strings(&[
            "[Configuration]",
            "Global config:\t/c",
            "Status:\t\texists",
            "",
            "Local config:\tl",
            "Status:\t\tnot created (will use global config)",
            "",
            "[Registries]",
            "(none configured)",
            "",
            "[Environment]",
            "Dotenv file:\t.env",
            "Status:\t\tnot found",
        ])
    );
}

#[test]
fn search_table_cells_fix_header_and_rows() {
    let (header, rows) = search_table_cells(&vec![
        package("example/http-server", Some("server"), &["0.1.0", "0.2.0"]),
        package("example/logger", None, &[]),
    ]);
    assert_eq!(header, strings(&["PACKAGE", "DESCRIPTION", "TAGS"]));
    assert_eq!(
        rows,
        vec![
            strings(&["ghcr.io/example/http-server", "server", "0.1.0, 0.2.0"]),
            strings(&["ghcr.io/example/logger", "-", "-"]),
        ]
    );
    let (header, rows) = search_table_cells(&vec![]);
    assert_eq!(header.len(), 3);
    assert!(rows.is_empty());
}

#[test]
fn search_table_fits_the_given_width() {
    let packages = vec![
        package("example/http-server", Some("A simple HTTP server component"), &["0.1.0", "0.2.0"]),
        package("example/logger", None, &[]),
    ];
    let wide = render_search_table_at(&packages, None);
    assert!(wide.contains("ghcr.io/example/http-server"));
    assert!(wide.contains("A simple HTTP server component"));
    assert!(wide.contains("0.1.0, 0.2.0"));
    assert!(wide.lines().next().unwrap().starts_with('+'));
    let narrow = render_search_table_at(&packages, Some(40));
    assert!(narrow.contains("PACKAGE"));
    for line in narrow.lines() {
        assert!(line.chars().count() <= 40, "line too wide: {line:?}");
    }
    assert_eq!(render_search_table_at(&packages, Some(40)), narrow);
}
