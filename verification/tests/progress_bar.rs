use std::collections::HashMap;
use wasm_tools::progress::{BarUpdate, ProgressAggregate, ProgressEvent};
use wasm_tools::progress_tree::{
    build_prefix, oci_repo_display_name, package_display_parts, tree_glyph, BarId, ProgressTree, DONE_TEMPLATE,
    INITIAL_TEMPLATE, PROGRESS_TEMPLATE, TREE_GLYPH_END, TREE_GLYPH_MID,
};

#[test]
fn tree_glyph_mid_for_non_last() {
    assert_eq!(tree_glyph(false), "├──");
}

#[test]
fn tree_glyph_end_for_last() {
    assert_eq!(tree_glyph(true), "└──");
}

#[test]
fn display_parts_wit_name_with_version() {
    let (name, version) = package_display_parts(Some("wasi:http@0.2.0"), Some("v0.2.0"));
    assert_eq!(name, "wasi:http");
    assert_eq!(version.as_deref(), Some("0.2.0"));
}

#[test]
fn display_parts_wit_name_without_version() {
    let (name, version) = package_display_parts(Some("wasi:http"), Some("v0.2.10"));
    assert_eq!(name, "wasi:http");
    assert_eq!(version.as_deref(), Some("0.2.10"));
}

#[test]
fn display_parts_wit_name_strips_v_prefix() {
    let (name, version) = package_display_parts(Some("wasi:http"), Some("v1.0.0"));
    assert_eq!(name, "wasi:http");
    assert_eq!(version.as_deref(), Some("1.0.0"));
}

#[test]
fn display_parts_no_tag() {
    let (name, version) = package_display_parts(Some("wasi:http"), None);
    assert_eq!(name, "wasi:http");
    assert_eq!(version, None);
}

#[test]
fn display_parts_tag_without_v_prefix() {
    let (name, version) = package_display_parts(Some("ba:sample"), Some("0.12.2"));
    assert_eq!(name, "ba:sample");
    assert_eq!(version.as_deref(), Some("0.12.2"));
}

#[test]
fn display_parts_without_name_keeps_only_the_version() {
    let (name, version) = package_display_parts(None, Some("v3.1.4"));
    assert_eq!(name, "");
    assert_eq!(version.as_deref(), Some("3.1.4"));
}

#[test]
fn oci_repo_three_segments() {
    assert_eq!(oci_repo_display_name("ghcr.io/webassembly/wasi-logging"), "webassembly:wasi-logging");
}

#[test]
fn oci_repo_two_segments() {
    assert_eq!(oci_repo_display_name("webassembly/wasi-logging"), "webassembly:wasi-logging");
}

#[test]
fn oci_repo_single_segment() {
    assert_eq!(oci_repo_display_name("wasi-logging"), "wasi-logging");
}

#[test]
fn oci_repo_deep_path() {
    assert_eq!(oci_repo_display_name("ghcr.io/org/sub/package"), "sub:package");
}

#[test]
fn oci_repo_empty_segment_keeps_the_path() {
    assert_eq!(oci_repo_display_name("org/"), "org/");
    assert_eq!(oci_repo_display_name("/pkg"), "/pkg");
}

#[test]
fn prefix_not_indented() {
    let prefix = build_prefix("├──", "wasi:http", Some("0.2.0"), false);
    let plain = console::strip_ansi_codes(&prefix);
    assert!(plain.starts_with("├──"), "prefix must start with tree glyph, got: {plain}");
}

#[test]
fn prefix_contains_name_while_downloading() {
    let prefix = build_prefix("├──", "wasi:http", Some("0.2.0"), false);
    let plain = console::strip_ansi_codes(&prefix);
    assert!(plain.contains("wasi:http"), "prefix must contain package name: {plain}");
}

#[test]
fn prefix_contains_name_when_complete() {
    let prefix = build_prefix("├──", "wasi:http", Some("0.2.0"), true);
    let plain = console::strip_ansi_codes(&prefix);
    assert!(plain.contains("wasi:http"), "prefix must contain package name: {plain}");
}

#[test]
fn prefix_contains_version() {
    let prefix = build_prefix("├──", "wasi:http", Some("0.2.0"), false);
    let plain = console::strip_ansi_codes(&prefix);
    assert!(plain.contains("@0.2.0"), "prefix must contain @version: {plain}");
}

#[test]
fn prefix_no_version_when_none() {
    let prefix = build_prefix("├──", "wasi:http", None, false);
    let plain = console::strip_ansi_codes(&prefix);
    assert!(!plain.contains('@'), "prefix must not contain @ when no version: {plain}");
}

#[test]
fn prefix_plain_text_is_glyph_name_and_version() {
    let prefix = build_prefix("└──", "wasi:io", Some("0.2.0"), true);
    assert_eq!(console::strip_ansi_codes(&prefix), "└── wasi:io@0.2.0");
}

/// The prefix each bar shows after the tree's changes are applied.
fn apply(shown: &mut HashMap<usize, String>, changes: Vec<(BarId, wasm_tools::progress_tree::PrefixParts)>) {
    for (id, parts) in changes {
        shown.insert(id.0, console::strip_ansi_codes(&parts.render()).to_string());
    }
}

#[test]
fn progress_tree_demotes_last_bar() {
    let mut tree = ProgressTree::new();
    let mut shown = HashMap::new();

    let (id1, changes) = tree.add_bar("wasi:http", Some("0.2.0"));
    apply(&mut shown, changes);
    assert!(shown[&id1.0].starts_with(TREE_GLYPH_END), "first bar should start as └──");

    let (id2, changes) = tree.add_bar("wasi:io", Some("0.2.0"));
    apply(&mut shown, changes);
    assert!(shown[&id1.0].starts_with(TREE_GLYPH_MID), "first bar should be demoted to ├──");
    assert!(shown[&id2.0].starts_with(TREE_GLYPH_END), "second bar should be └──");
}

#[test]
fn progress_tree_finish_preserves_glyph() {
    let mut tree = ProgressTree::new();
    let mut shown = HashMap::new();

    let (id1, changes) = tree.add_bar("wasi:http", Some("0.2.0"));
    apply(&mut shown, changes);
    let (id2, changes) = tree.add_bar("wasi:io", Some("0.2.0"));
    apply(&mut shown, changes);

    let parts = tree.finish_bar(id1);
    apply(&mut shown, vec![(id1, parts)]);
    assert!(shown[&id1.0].starts_with(TREE_GLYPH_MID), "finished non-last bar should be ├──");

    let parts = tree.finish_bar(id2);
    apply(&mut shown, vec![(id2, parts)]);
    assert!(shown[&id2.0].starts_with(TREE_GLYPH_END), "finished last bar should be └──");
}

#[test]
fn progress_tree_new_bar_after_finished_demotes() {
    let mut tree = ProgressTree::new();
    let mut shown = HashMap::new();

    let (id1, changes) = tree.add_bar("wasi:http", Some("0.2.0"));
    apply(&mut shown, changes);
    let parts = tree.finish_bar(id1);
    apply(&mut shown, vec![(id1, parts)]);

    let (id2, changes) = tree.add_bar("wasi:io", Some("0.2.0"));
    apply(&mut shown, changes);

    assert!(shown[&id1.0].starts_with(TREE_GLYPH_MID), "finished bar should be demoted to ├── when new bar is added");
    assert!(shown[&id2.0].starts_with(TREE_GLYPH_END), "new bar should be └──");
}

#[test]
fn progress_tree_unknown_bar_shows_empty_end_line() {
    let mut tree = ProgressTree::new();
    let (_id, _changes) = tree.add_bar("wasi:http", None);
    let parts = tree.finish_bar(BarId(42));
    assert!(parts.is_last);
    assert_eq!(parts.name, "");
    assert!(parts.is_complete);
}

#[test]
fn done_style_template_has_no_bar() {
    assert!(!DONE_TEMPLATE.contains("{bar"), "done style must not contain a bar: {DONE_TEMPLATE}");
}

#[test]
fn progress_style_template_uses_yellow() {
    assert!(PROGRESS_TEMPLATE.contains(".yellow"), "progress style must use yellow for the bar: {PROGRESS_TEMPLATE}");
}

#[test]
fn progress_style_template_uses_dim_for_size() {
    assert!(
        PROGRESS_TEMPLATE.contains("binary_bytes:.dim"),
        "progress style must use dim for size: {PROGRESS_TEMPLATE}"
    );
}

#[test]
fn progress_style_template_uses_dim_for_eta() {
    assert!(PROGRESS_TEMPLATE.contains("eta:.dim"), "progress style must use dim for ETA: {PROGRESS_TEMPLATE}");
}

#[test]
fn initial_template_shows_only_bytes() {
    assert!(!INITIAL_TEMPLATE.contains("{bar"), "initial style must not contain a bar: {INITIAL_TEMPLATE}");
    assert!(
        !INITIAL_TEMPLATE.contains("binary_total_bytes"),
        "initial style must not show total bytes: {INITIAL_TEMPLATE}"
    );
    assert!(!INITIAL_TEMPLATE.contains("eta"), "initial style must not show ETA: {INITIAL_TEMPLATE}");
    assert!(INITIAL_TEMPLATE.contains("binary_bytes"), "initial style must show downloaded bytes: {INITIAL_TEMPLATE}");
}

/// The bar as the updates leave it: length, position, and whether the full
/// style was switched to (and how often).
struct Bar {
    length: u64,
    position: u64,
    switches: usize,
}

fn feed(events: Vec<ProgressEvent>) -> Bar {
    let mut agg = ProgressAggregate::new();
    let mut bar = Bar { length: 0, position: 0, switches: 0 };
    for e in events {
        assert!(agg.accepts(&e));
        for u in agg.apply(e) {
            match u {
                BarUpdate::SetLength(n) => bar.length = n,
                BarUpdate::SetPosition(n) => bar.position = n,
                BarUpdate::UseProgressStyle => bar.switches += 1,
            }
        }
    }
    bar
}

fn started(index: usize, total: Option<u64>) -> ProgressEvent {
    ProgressEvent::LayerStarted { index, digest: format!("sha256:layer{index}"), total_bytes: total }
}

#[test]
fn aggregate_layers_sums_progress() {
    let bar = feed(vec![
        ProgressEvent::ManifestFetched { layer_count: 2 },
        started(0, Some(1000)),
        started(1, Some(500)),
        ProgressEvent::LayerProgress { index: 0, bytes_downloaded: 600 },
        ProgressEvent::LayerProgress { index: 1, bytes_downloaded: 300 },
        ProgressEvent::InstallComplete,
    ]);
    assert_eq!(bar.length, 1500, "total should be sum of layer sizes");
    assert_eq!(bar.position, 900, "position should be sum of layer progress");
}

#[test]
fn aggregate_layers_handles_unknown_sizes() {
    let bar = feed(vec![
        ProgressEvent::ManifestFetched { layer_count: 1 },
        started(0, None),
        ProgressEvent::LayerProgress { index: 0, bytes_downloaded: 500 },
    ]);
    assert_eq!(bar.length, 0);
    assert_eq!(bar.position, 500);
    assert_eq!(bar.switches, 0);
}

#[test]
fn aggregate_layers_switches_to_bar_on_known_total() {
    let bar = feed(vec![ProgressEvent::ManifestFetched { layer_count: 1 }]);
    assert_eq!(bar.length, 0);
    let bar = feed(vec![
        ProgressEvent::ManifestFetched { layer_count: 1 },
        started(0, Some(2000)),
        ProgressEvent::LayerProgress { index: 0, bytes_downloaded: 1000 },
    ]);
    assert_eq!(bar.length, 2000);
    assert_eq!(bar.position, 1000);
    assert_eq!(bar.switches, 1);
}

#[test]
fn aggregate_switches_style_once_for_many_sizes() {
    let bar = feed(vec![
        ProgressEvent::ManifestFetched { layer_count: 3 },
        started(0, Some(10)),
        started(1, None),
        started(2, Some(20)),
    ]);
    assert_eq!(bar.length, 30);
    assert_eq!(bar.switches, 1);
}

#[test]
fn aggregate_ignores_progress_for_unknown_layers() {
    let bar = feed(vec![
        ProgressEvent::ManifestFetched { layer_count: 1 },
        ProgressEvent::LayerProgress { index: 0, bytes_downloaded: 7 },
        ProgressEvent::LayerProgress { index: 5, bytes_downloaded: 1000 },
    ]);
    assert_eq!(bar.position, 7);
}

#[test]
fn aggregate_refuses_overflowing_sizes() {
    let mut agg = ProgressAggregate::new();
    let first = started(0, Some(u64::MAX));
    assert!(agg.accepts(&first));
    agg.apply(first);
    assert!(!agg.accepts(&started(1, Some(1))));
}

#[test]
fn a_new_tree_has_room_for_bars() {
    let mut tree = ProgressTree::new();
    assert!(tree.has_room());
    let (first, _) = tree.add_bar("a", None);
    let (second, _) = tree.add_bar("b", None);
    assert_ne!(first.0, second.0);
    assert!(tree.has_room());
}
