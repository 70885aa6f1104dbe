use wasm_tools::detector::{is_wasm_file, join_path, DirEntryInfo, WalkEntry, WasmDetector, WasmEntry};

#[test]
fn entry_file_name() {
    let entry = WasmEntry::new("pkg/hello.wasm".to_string());
    assert_eq!(entry.file_name(), Some("hello.wasm"));
    let entry = WasmEntry::new("dist/app.wasm".to_string());
    assert_eq!(entry.path(), "dist/app.wasm");
    assert_eq!(entry.file_name(), Some("app.wasm"));
    let entry = WasmEntry::new("pkg/lib.wasm".to_string());
    assert_eq!(entry.into_path(), "pkg/lib.wasm");
}

#[test]
fn file_names_follow_path_rules() {
    assert_eq!(WasmEntry::new("a/b/".to_string()).file_name(), Some("b"));
    assert_eq!(WasmEntry::new("a/.".to_string()).file_name(), Some("a"));
    assert_eq!(WasmEntry::new("a/..".to_string()).file_name(), None);
    assert_eq!(WasmEntry::new("/".to_string()).file_name(), None);
    assert_eq!(WasmEntry::new("".to_string()).file_name(), None);
}

#[test]
fn wasm_files_are_recognised_by_extension() {
    assert!(is_wasm_file("target/wasm32-wasip2/release/app.wasm"));
    assert!(!is_wasm_file("src/lib.rs"));
    assert!(!is_wasm_file(".wasm"));
    assert!(!is_wasm_file("pkg/app.wasm.map"));
}

#[test]
fn paths_join_like_path_join() {
    assert_eq!(join_path(".", "pkg"), "./pkg");
    assert_eq!(join_path("root/", "pkg"), "root/pkg");
    assert_eq!(join_path("", "pkg"), "pkg");
}

#[test]
fn builder_sets_flags() {
    let d = WasmDetector::new("repo").include_hidden(true).follow_symlinks(true);
    assert_eq!(d.root(), "repo");
    assert!(d.hidden_included());
    assert!(d.symlinks_followed());
    let d = WasmDetector::new("repo");
    assert!(!d.hidden_included());
    assert!(!d.symlinks_followed());
}

#[test]
fn well_known_dirs_are_pkg_dist_and_wasm_targets() {
    let d = WasmDetector::new(".");
    let (pkg, dist, target) = d.well_known_candidates();
    assert_eq!(pkg, "./pkg");
    assert_eq!(dist, "./dist");
    assert_eq!(target, "./target");
    let entries = vec![
        DirEntryInfo { path: "./target/debug".into(), is_dir: true },
        DirEntryInfo { path: "./target/wasm32-wasip2".into(), is_dir: true },
        DirEntryInfo { path: "./target/wasm32-notes.txt".into(), is_dir: false },
    ];
    assert_eq!(
        d.find_well_known_dirs(true, false, &entries),
        vec!["./pkg".to_string(), "./target/wasm32-wasip2".to_string()]
    );
}

fn found(path: &str, is_file: bool) -> WalkEntry {
    WalkEntry::Found { path: path.to_string(), is_file }
}

#[test]
fn detect_merges_walks_without_duplicates() {
    let d = WasmDetector::new(".");
    let main = vec![found("./src", false), found("./a.wasm", true), found("./notes.txt", true)];
    let well_known = vec![
        vec![found("./pkg/b.wasm", true), found("./a.wasm", true)],
        vec![found("./pkg/b.wasm", true), found("./target/wasm32-wasip2/c.wasm", true)],
    ];
    let files: Vec<String> = d.detect(main, well_known).unwrap().into_iter().map(|e| e.into_path()).collect();
    assert_eq!(files, vec!["./a.wasm", "./pkg/b.wasm", "./target/wasm32-wasip2/c.wasm"]);
}

#[test]
fn detect_on_empty_dir() {
    let d = WasmDetector::new(".");
    assert!(d.detect(vec![], vec![]).unwrap().is_empty());
}

#[test]
fn detect_stops_at_the_first_failure() {
    let d = WasmDetector::new(".");
    let err = ignore::Error::from(std::io::Error::other("walk failed"));
    let main = vec![found("./a.wasm", true), WalkEntry::Failed(err)];
    assert!(d.detect(main, vec![]).is_err());
}
