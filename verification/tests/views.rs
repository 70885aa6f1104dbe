use wasm_tools::image_entry::ImageEntry;
use wasm_tools::known_package::KnownPackage;
use wasm_tools::tui_app::ManagerState;
use wasm_tools::tui_text::{
    clamp_detail_scroll, classify_wit_line, decimal, filter_box_text, image_detail, interface_row,
    known_package_detail, log_title, log_window, no_packages_message, package_row, pull_prompt_area,
    pull_prompt_input, pull_prompt_title, settings_view, split_lines, tab_bar_title,
    wit_detail_header, wit_detail_lines, with_forward_slashes, ManifestSummary, StateSummary,
    WitLineKind,
};

fn strings(items: &[&str]) -> Vec<String> {
    items.iter().map(|s| s.to_string()).collect()
}

#[test]
fn decimal_notation() {
    assert_eq!(decimal(0), "0");
    assert_eq!(decimal(7), "7");
    assert_eq!(decimal(10), "10");
    assert_eq!(decimal(1234567890), "1234567890");
    assert_eq!(decimal(u64::MAX), u64::MAX.to_string());
}

#[test]
fn lines_split_like_str_lines() {
    for text in ["", "a", "a\n", "a\nb", "a\r\nb\r\n", "\n\n", "x\r", "one\ntwo\n\nthree"] {
        let expected: Vec<String> = text.lines().map(String::from).collect();
        assert_eq!(split_lines(text), expected, "text {:?}", text);
    }
}

#[test]
fn wit_lines_are_classified() {
    assert_eq!(classify_wit_line("  // a comment"), WitLineKind::Comment);
    assert_eq!(classify_wit_line("/// doc"), WitLineKind::Comment);
    assert_eq!(classify_wit_line("package wasi:http@0.2.0;"), WitLineKind::Declaration);
    assert_eq!(classify_wit_line("world proxy {"), WitLineKind::Declaration);
    assert_eq!(classify_wit_line("  import wasi:io/streams;"), WitLineKind::Import);
    assert_eq!(classify_wit_line("  export handler;"), WitLineKind::Export);
    assert_eq!(classify_wit_line("  handle: func (x: u32);"), WitLineKind::Function);
    // Only "func " with a space counts.
    assert_eq!(classify_wit_line("  handle: func(x: u32);"), WitLineKind::Plain);
    assert_eq!(classify_wit_line("  resource fields {"), WitLineKind::Function);
    assert_eq!(classify_wit_line("  record point {"), WitLineKind::TypeDefinition);
    assert_eq!(classify_wit_line("  flags perms {"), WitLineKind::TypeDefinition);
    assert_eq!(classify_wit_line("  x: u32,"), WitLineKind::Plain);
}

#[test]
fn wit_detail_numbers_lines() {
    let lines = wit_detail_lines(Some("package a:b;\n// note\nx"));
    assert_eq!(
        lines,
        vec![
            ("   1 │ package a:b;".to_string(), WitLineKind::Declaration),
            ("   2 │ // note".to_string(), WitLineKind::Comment),
            ("   3 │ x".to_string(), WitLineKind::Plain),
        ]
    );
    assert_eq!(wit_detail_lines(None), vec![("   1 │ <no WIT text>".to_string(), WitLineKind::Plain)]);
    let many: String = (0..12345).map(|_| "x\n").collect();
    let shown = wit_detail_lines(Some(&many));
    assert_eq!(shown[12344].0, "12345 │ x");
    assert_eq!(wit_detail_header("wasi:http", Some("0.2.0")), "Package: wasi:http  │  Version: 0.2.0");
    assert_eq!(wit_detail_header("a:b", None), "Package: a:b  │  Version: -");
    assert_eq!(
        interface_row("a:b", None, "ghcr.io/x/y:1"),
        ("a:b".to_string(), "-".to_string(), "ghcr.io/x/y:1".to_string())
    );
}

#[test]
fn detail_scroll_is_clamped() {
    // 10 lines in a 7-row area: 5 rows visible, so at most 5 lines scrolled.
    assert_eq!(clamp_detail_scroll(9, 10, 7), (5, true));
    assert_eq!(clamp_detail_scroll(3, 10, 7), (3, true));
    assert_eq!(clamp_detail_scroll(4, 3, 7), (0, false));
    assert_eq!(clamp_detail_scroll(0, 0, 0), (0, false));
}

#[test]
fn log_window_stays_full() {
    assert_eq!(log_window(100, 0, 10), (0, 10));
    assert_eq!(log_window(100, 95, 10), (90, 100));
    assert_eq!(log_window(5, 3, 10), (0, 5));
    assert_eq!(log_window(0, 0, 10), (0, 0));
    assert_eq!(log_title(42), "42 log line(s)");
}

#[test]
fn packages_view_texts() {
    assert_eq!(filter_box_text(true, "wasi"), "wasi_");
    assert_eq!(filter_box_text(false, ""), "Press / to filter...");
    assert_eq!(filter_box_text(false, "wasi"), "wasi");
    assert_eq!(no_packages_message(""), "No packages stored.");
    assert_eq!(no_packages_message("x"), "No packages found matching your filter.");
    let e = ImageEntry::new_for_testing(
        "ghcr.io".into(),
        "bytecode-alliance/wasmtime".into(),
        Some("v1.0.0".into()),
        Some("sha256:abc123def456".into()),
        5 * 1024 * 1024,
    );
    assert_eq!(
        package_row(&e, "5 MB"),
        strings(&["bytecode-alliance/wasmtime", "ghcr.io", "v1.0.0", "5 MB", "abc123def456"])
    );
    let e = ImageEntry::new_for_testing("docker.io".into(), "example/hello".into(), None, None, 0);
    assert_eq!(package_row(&e, "0 B"), strings(&["example/hello", "docker.io", "-", "0 B", "-"]));
}

#[test]
fn known_package_detail_lines() {
    let p = KnownPackage::new_for_testing(
        "ghcr.io".into(),
        "user/pkg".into(),
        Some("A package".into()),
        strings(&["1.0", "2.0"]),
        strings(&["sha256-a.sig"]),
        vec![],
        "2025-01-02".into(),
        "2025-01-01".into(),
    );
    let (header, lines) = known_package_detail(&p);
    assert_eq!(header, "ghcr.io/user/pkg");
    assert_eq!(
        lines,
        strings(&[
            "Registry: ghcr.io",
            "Repository: user/pkg",
            "Description: A package",
            "",
            "Tags: 2 tag(s)",
            "  • 1.0",
            "  • 2.0",
            "",
            "Signature Tags: 1 tag(s)",
            "  • sha256-a.sig",
            "",
            "Last Seen: 2025-01-02",
            "Created At: 2025-01-01",
        ])
    );
}

#[test]
fn image_detail_lines() {
    let e = ImageEntry::new_for_testing("ghcr.io".into(), "a/b".into(), Some("1.0".into()), None, 10);
    let m = ManifestSummary {
        schema_version: 2,
        media_type: None,
        config_media_type: "application/vnd.wasm.config.v0+json".into(),
        layer_media_types: strings(&["application/wasm", "application/wasm"]),
    };
    let (header, lines) = image_detail(&e, &m, "10 B", "1 B", &strings(&["4 B", "6 B"]));
    assert_eq!(header, "ghcr.io/a/b");
    assert_eq!(
        lines,
        strings(&[
            "Registry: ghcr.io",
            "Repository: a/b",
            "Tag: 1.0",
            "Size: 10 B",
            "",
            "Manifest:",
            "  Schema Version: 2",
            "  Config Media Type: application/vnd.wasm.config.v0+json",
            "  Config Size: 1 B",
            "",
            "Layers: 2 layer(s)",
            "  [1] application/wasm (4 B)",
            "  [2] application/wasm (6 B)",
            "",
        ])
    );
}

#[test]
fn settings_view_texts() {
    let s = StateSummary {
        migration_current: 3,
        migration_total: 4,
        config_file: "C:\\Users\\me\\wasm\\config.toml".into(),
        config_exists: true,
        local_config_file: "wasm.toml".into(),
        local_config_exists: false,
        executable: "/usr/bin/wasm".into(),
        data_dir: "/home/me/.local/share/wasm".into(),
        store_dir: "/home/me/.local/share/wasm/store".into(),
        metadata_file: "/home/me/.local/share/wasm/db/metadata.db3".into(),
        store_size: "12 MB".into(),
        metadata_size: "".into(),
    };
    let (lines, rows, widths) = settings_view(&s);
    assert_eq!(
        lines,
        strings(&[
            "Migrations",
            "  Current:  3/4",
            "Configuration",
            "  Global config: C:/Users/me/wasm/config.toml (exists)",
            "  Local config:  wasm.toml (not found)",
            "Storage",
        ])
    );
    assert_eq!(rows[0], ("Executable".to_string(), "/usr/bin/wasm".to_string(), "-".to_string()));
    assert_eq!(rows[3].0, "Image metadata");
    assert_eq!(rows[2].2, "12 MB");
    assert_eq!(widths, (14, "/home/me/.local/share/wasm/db/metadata.db3".len(), 5));
    assert_eq!(with_forward_slashes("a\\b\\c"), "a/b/c");
    assert_eq!(with_forward_slashes("é\\x").len(), "é/x".len());
}

#[test]
fn frame_texts() {
    assert_eq!(tab_bar_title(ManagerState::Ready, false), "wasm(1) - ready");
    assert_eq!(tab_bar_title(ManagerState::Loading, false), "wasm(1) - loading...");
    assert_eq!(tab_bar_title(ManagerState::Ready, true), "wasm(1) - offline");
    assert_eq!(pull_prompt_area(100, 30, false), (20, 12, 60, 5));
    assert_eq!(pull_prompt_area(40, 10, true), (2, 1, 36, 7));
    assert_eq!(pull_prompt_area(2, 3, false), (1, 0, 0, 5));
    assert_eq!(pull_prompt_title(true), " Pull Package (pulling...) ");
    assert_eq!(pull_prompt_title(false), " Pull Package ");
    assert_eq!(pull_prompt_input("ghcr.io/a"), "ghcr.io/a_");
}
