use wasm_tools::image_entry::{layers_to_remove, ImageEntry, ImageRef};
use wasm_tools::known_package::{list_cached_tags, search_pattern, KnownPackage};
use wasm_tools::migration::Migrations;
use wasm_tools::oci::{
    annotation_slot, partition_annotations, well_known_annotation_column, well_known_annotation_key, OciManifest,
    WELL_KNOWN_ANNOTATION_COUNT,
};
use wasm_tools::tags::{filter_tags, partition_tag_rows, rescan_tag_types, TagType};
use wasm_tools::wit_interface::WitInterface;

#[test]
fn test_tag_type_from_tag_release() {
    assert_eq!(TagType::from_tag("latest"), TagType::Release);
    assert_eq!(TagType::from_tag("v1.0.0"), TagType::Release);
    assert_eq!(TagType::from_tag("1.2.3"), TagType::Release);
    assert_eq!(TagType::from_tag("main"), TagType::Release);
}

#[test]
fn test_tag_type_from_tag_signature() {
    assert_eq!(TagType::from_tag("v1.0.0.sig"), TagType::Signature);
    assert_eq!(TagType::from_tag("latest.sig"), TagType::Signature);
    assert_eq!(TagType::from_tag(".sig"), TagType::Signature);
}

#[test]
fn test_tag_type_from_tag_attestation() {
    assert_eq!(TagType::from_tag("v1.0.0.att"), TagType::Attestation);
    assert_eq!(TagType::from_tag("latest.att"), TagType::Attestation);
    assert_eq!(TagType::from_tag(".att"), TagType::Attestation);
}

#[test]
fn tag_type_names_round_trip() {
    assert_eq!(TagType::Release.as_str(), "release");
    assert_eq!(TagType::Signature.as_str(), "signature");
    assert_eq!(TagType::Attestation.as_str(), "attestation");
}

fn known(tags: Vec<&str>) -> KnownPackage {
    KnownPackage::new_for_testing(
        "ghcr.io".to_string(),
        "user/repo".to_string(),
        None,
        tags.into_iter().map(String::from).collect(),
        vec![],
        vec![],
        "2024-01-01".to_string(),
        "2024-01-01".to_string(),
    )
}

#[test]
fn test_known_package_reference() {
    assert_eq!(known(vec![]).reference(), "ghcr.io/user/repo");
}

#[test]
fn test_known_package_reference_with_tag() {
    assert_eq!(known(vec![]).reference_with_tag(), "ghcr.io/user/repo:latest");
    assert_eq!(known(vec!["v1.0.0"]).reference_with_tag(), "ghcr.io/user/repo:v1.0.0");
}

#[test]
fn test_known_package_tag_types_separated() {
    let rows = vec![
        ("v1.0.0".to_string(), "release".to_string()),
        ("v1.0.0.sig".to_string(), "signature".to_string()),
        ("v1.0.0.att".to_string(), "attestation".to_string()),
    ];
    let (release, sig, att) = partition_tag_rows(&rows);
    assert_eq!(release, vec!["v1.0.0".to_string()]);
    assert_eq!(sig, vec!["v1.0.0.sig".to_string()]);
    assert_eq!(att, vec!["v1.0.0.att".to_string()]);
    let p = KnownPackage::from_row(
        100,
        "ghcr.io".into(),
        "user/repo".into(),
        None,
        &rows,
        "now".into(),
        "then".into(),
    );
    assert_eq!(p.tags.len(), 1);
    assert_eq!(p.signature_tags.len(), 1);
    assert_eq!(p.attestation_tags.len(), 1);
}

fn image(tag: Option<&str>, digest: Option<&str>) -> ImageEntry {
    ImageEntry::new_for_testing(
        "ghcr.io".to_string(),
        "user/repo".to_string(),
        tag.map(String::from),
        digest.map(String::from),
        1024,
    )
}

#[test]
fn test_image_entry_reference_with_tag() {
    assert_eq!(image(Some("v1.0.0"), None).reference(), "ghcr.io/user/repo:v1.0.0");
}

#[test]
fn test_image_entry_reference_with_digest() {
    assert_eq!(image(None, Some("sha256:abc123")).reference(), "ghcr.io/user/repo@sha256:abc123");
}

#[test]
fn test_image_entry_reference_plain() {
    assert_eq!(image(None, None).reference(), "ghcr.io/user/repo");
}

#[test]
fn tag_wins_over_digest_in_references() {
    assert_eq!(image(Some("v1"), Some("sha256:abc")).reference(), "ghcr.io/user/repo:v1");
}

#[test]
fn search_patterns_match_anywhere() {
    assert_eq!(search_pattern("wasi"), "%wasi%");
}

#[test]
fn filter_tags_hides_signatures_and_attestations_unless_asked() {
    let tags: Vec<String> = vec!["1.0".into(), "1.0.sig".into(), "1.0.att".into()];
    assert_eq!(filter_tags(&tags, false, false), vec!["1.0".to_string()]);
    assert_eq!(filter_tags(&tags, true, true).len(), 3);
    assert_eq!(filter_tags(&tags, true, false), vec!["1.0".to_string(), "1.0.sig".to_string()]);
}

#[test]
fn rescan_reports_only_stale_rows() {
    let rows = vec![
        (1, "v1.sig".to_string(), "release".to_string()),
        (1, "v1".to_string(), "release".to_string()),
        (2, "v2.att".to_string(), "attestation".to_string()),
    ];
    let updates = rescan_tag_types(&rows);
    assert_eq!(updates.len(), 1);
    assert_eq!(updates[0].tag, "v1.sig");
    assert_eq!(updates[0].tag_type, TagType::Signature);
    assert!(rescan_tag_types(&vec![]).is_empty());
}

#[test]
fn cached_tags_are_those_of_the_repository() {
    let mut other = known(vec!["x"]);
    other.repository = "other/repo".into();
    let packages = vec![known(vec!["v1", "v2"]), other];
    assert_eq!(list_cached_tags(&packages, "ghcr.io", "user/repo"), vec!["v1".to_string(), "v2".to_string()]);
}

#[test]
fn deleting_an_image_keeps_shared_layers() {
    let mut a = image(Some("v1"), None);
    a.layer_digests = vec!["sha256:shared".into(), "sha256:only-a".into()];
    let mut b = image(Some("v2"), None);
    b.layer_digests = vec!["sha256:shared".into()];
    let entries = vec![a, b];
    let r = ImageRef { registry: "ghcr.io", repository: "user/repo", tag: Some("v1"), digest: None };
    assert_eq!(layers_to_remove(&entries, &r), vec!["sha256:only-a".to_string()]);
    let missing = ImageRef { registry: "ghcr.io", repository: "user/repo", tag: Some("v9"), digest: None };
    assert!(layers_to_remove(&entries, &missing).is_empty());
}

#[test]
fn migrations_pending_are_the_newer_ones() {
    let versions = vec![1, 2, 3];
    let m = Migrations::from_versions(1, &versions);
    assert_eq!(m.current, 1);
    assert_eq!(m.total, 3);
    assert_eq!(Migrations::pending(&versions, 1), vec![2, 3]);
    assert!(Migrations::pending(&versions, 3).is_empty());
}

#[test]
fn annotations_split_into_columns_and_extras() {
    assert_eq!(well_known_annotation_key(0), "org.opencontainers.image.created");
    assert_eq!(annotation_slot("org.opencontainers.image.created"), Some(0));
    assert_eq!(annotation_slot("com.example.custom"), None);
    let anns = vec![
        ("org.opencontainers.image.created".to_string(), "2024".to_string()),
        ("com.example.custom".to_string(), "x".to_string()),
        ("org.opencontainers.image.created".to_string(), "2025".to_string()),
    ];
    let parts = partition_annotations(&anns);
    assert_eq!(parts.columns[0].as_deref(), Some("2025"));
    assert_eq!(parts.extra, vec![("com.example.custom".to_string(), "x".to_string())]);
}

#[test]
fn model_ids_are_exposed() {
    let m = OciManifest::new_for_testing(7, "sha256:abc".into());
    assert_eq!(m.id(), 0);
    let w = WitInterface::new_for_testing(
        5,
        Some("a:b".into()),
        "package a:b;".into(),
        None,
        1,
        2,
        "now".into(),
    );
    assert_eq!(w.id(), 5);
}

#[test]
fn well_known_annotations_have_columns() {
    assert_eq!(WELL_KNOWN_ANNOTATION_COUNT, 14);
    assert_eq!(well_known_annotation_key(0), "org.opencontainers.image.created");
    assert_eq!(well_known_annotation_column(0), "oci_created");
    assert_eq!(well_known_annotation_column(10), "oci_title");
    assert_eq!(well_known_annotation_column(13), "oci_base_name");
    for i in 0..WELL_KNOWN_ANNOTATION_COUNT {
        assert!(well_known_annotation_column(i).starts_with("oci_"));
    }
}
