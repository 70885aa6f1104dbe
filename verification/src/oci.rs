//! OCI repositories, manifests, tags, layers and referrers as stored locally.
use vstd::prelude::*;
use crate::text::str_eq;

verus! {

/// Result of an insert operation.
#[derive(Debug, Clone, Copy, PartialEq, Eq, Structural)]
pub enum InsertResult {
    /// The entry was inserted successfully.
    Inserted,
    /// The entry already existed in the database.
    AlreadyExists,
}

/// An OCI registry/repository pair.
#[derive(Debug, Clone)]
pub struct OciRepository {
    /// Primary key.
    pub id: i64,
    /// Registry hostname (e.g. "ghcr.io").
    pub registry: String,
    /// Repository path (e.g. "user/repo").
    pub repository: String,
    /// When the row was created.
    pub created_at: String,
    /// When the row was last updated.
    pub updated_at: String,
}

impl OciRepository {
    /// Returns the primary key.
    pub fn id(&self) -> (r: i64)
        ensures
            r == self.id,
    {
        self.id
    }

    /// Creates a new `OciRepository` for testing purposes.
    pub fn new_for_testing(
        registry: String,
        repository: String,
        created_at: String,
        updated_at: String,
    ) -> (r: Self)
        ensures
            r.id == 0,
            r.registry == registry,
            r.repository == repository,
            r.created_at == created_at,
            r.updated_at == updated_at,
    {
        OciRepository { id: 0, registry, repository, created_at, updated_at }
    }
}

/// An OCI image manifest stored in the database.
#[derive(Debug, Clone)]
pub struct OciManifest {
    /// Primary key.
    pub id: i64,
    /// Foreign key to `oci_repository`.
    pub oci_repository_id: i64,
    /// Content-addressable digest.
    pub digest: String,
    /// MIME type of the manifest.
    pub media_type: Option<String>,
    /// Raw JSON body.
    pub raw_json: Option<String>,
    /// Total size in bytes.
    pub size_bytes: Option<i64>,
    /// When the row was created.
    pub created_at: String,
    /// Artifact type, if present.
    pub artifact_type: Option<String>,
    /// Config descriptor media type.
    pub config_media_type: Option<String>,
    /// Config descriptor digest.
    pub config_digest: Option<String>,
    /// `org.opencontainers.image.created`
    pub oci_created: Option<String>,
    /// `org.opencontainers.image.authors`
    pub oci_authors: Option<String>,
    /// `org.opencontainers.image.url`
    pub oci_url: Option<String>,
    /// `org.opencontainers.image.documentation`
    pub oci_documentation: Option<String>,
    /// `org.opencontainers.image.source`
    pub oci_source: Option<String>,
    /// `org.opencontainers.image.version`
    pub oci_version: Option<String>,
    /// `org.opencontainers.image.revision`
    pub oci_revision: Option<String>,
    /// `org.opencontainers.image.vendor`
    pub oci_vendor: Option<String>,
    /// `org.opencontainers.image.licenses`
    pub oci_licenses: Option<String>,
    /// `org.opencontainers.image.ref.name`
    pub oci_ref_name: Option<String>,
    /// `org.opencontainers.image.title`
    pub oci_title: Option<String>,
    /// `org.opencontainers.image.description`
    pub oci_description: Option<String>,
    /// `org.opencontainers.image.base.digest`
    pub oci_base_digest: Option<String>,
    /// `org.opencontainers.image.base.name`
    pub oci_base_name: Option<String>,
}

impl OciManifest {
    /// Returns the primary key.
    pub fn id(&self) -> (r: i64)
        ensures
            r == self.id,
    {
        self.id
    }

    /// Creates a new `OciManifest` for testing purposes.
    pub fn new_for_testing(oci_repository_id: i64, digest: String) -> (r: Self)
        ensures
            r.id == 0,
            r.oci_repository_id == oci_repository_id,
            r.digest == digest,
            r.media_type is None,
            r.raw_json is None,
            r.size_bytes is None,
            r.created_at@ == Seq::<char>::empty(),
            r.artifact_type is None,
            r.config_media_type is None,
            r.config_digest is None,
            r.oci_created is None,
            r.oci_authors is None,
            r.oci_url is None,
            r.oci_documentation is None,
            r.oci_source is None,
            r.oci_version is None,
            r.oci_revision is None,
            r.oci_vendor is None,
            r.oci_licenses is None,
            r.oci_ref_name is None,
            r.oci_title is None,
            r.oci_description is None,
            r.oci_base_digest is None,
            r.oci_base_name is None,
    {
        OciManifest {
            id: 0,
            oci_repository_id,
            digest,
            media_type: None,
            raw_json: None,
            size_bytes: None,
            created_at: String::new(),
            artifact_type: None,
            config_media_type: None,
            config_digest: None,
            oci_created: None,
            oci_authors: None,
            oci_url: None,
            oci_documentation: None,
            oci_source: None,
            oci_version: None,
            oci_revision: None,
            oci_vendor: None,
            oci_licenses: None,
            oci_ref_name: None,
            oci_title: None,
            oci_description: None,
            oci_base_digest: None,
            oci_base_name: None,
        }
    }
}

/// Number of well-known OCI annotation keys that have a dedicated column.
pub const WELL_KNOWN_ANNOTATION_COUNT: usize = 14;

/// The well-known annotation key of column slot `i`.
pub open spec fn spec_well_known_key(i: int) -> Seq<char> {
    if i == 0 {
        "org.opencontainers.image.created"@
    } else if i == 1 {
        "org.opencontainers.image.authors"@
    } else if i == 2 {
        "org.opencontainers.image.url"@
    } else if i == 3 {
        "org.opencontainers.image.documentation"@
    } else if i == 4 {
        "org.opencontainers.image.source"@
    } else if i == 5 {
        "org.opencontainers.image.version"@
    } else if i == 6 {
        "org.opencontainers.image.revision"@
    } else if i == 7 {
        "org.opencontainers.image.vendor"@
    } else if i == 8 {
        "org.opencontainers.image.licenses"@
    } else if i == 9 {
        "org.opencontainers.image.ref.name"@
    } else if i == 10 {
        "org.opencontainers.image.title"@
    } else if i == 11 {
        "org.opencontainers.image.description"@
    } else if i == 12 {
        "org.opencontainers.image.base.digest"@
    } else {
        "org.opencontainers.image.base.name"@
    }
}

/// The well-known annotation key stored in column slot `i`.
pub fn well_known_annotation_key(i: usize) -> (r: &'static str)
    requires
        i < WELL_KNOWN_ANNOTATION_COUNT,
    ensures
        r@ == spec_well_known_key(i as int),
{
    if i == 0 {
        "org.opencontainers.image.created"
    } else if i == 1 {
        "org.opencontainers.image.authors"
    } else if i == 2 {
        "org.opencontainers.image.url"
    } else if i == 3 {
        "org.opencontainers.image.documentation"
    } else if i == 4 {
        "org.opencontainers.image.source"
    } else if i == 5 {
        "org.opencontainers.image.version"
    } else if i == 6 {
        "org.opencontainers.image.revision"
    } else if i == 7 {
        "org.opencontainers.image.vendor"
    } else if i == 8 {
        "org.opencontainers.image.licenses"
    } else if i == 9 {
        "org.opencontainers.image.ref.name"
    } else if i == 10 {
        "org.opencontainers.image.title"
    } else if i == 11 {
        "org.opencontainers.image.description"
    } else if i == 12 {
        "org.opencontainers.image.base.digest"
    } else {
        "org.opencontainers.image.base.name"
    }
}

/// The database column of column slot `i`.
pub open spec fn spec_well_known_column(i: int) -> Seq<char> {
    if i == 0 {
        "oci_created"@
    } else if i == 1 {
        "oci_authors"@
    } else if i == 2 {
        "oci_url"@
    } else if i == 3 {
        "oci_documentation"@
    } else if i == 4 {
        "oci_source"@
    } else if i == 5 {
        "oci_version"@
    } else if i == 6 {
        "oci_revision"@
    } else if i == 7 {
        "oci_vendor"@
    } else if i == 8 {
        "oci_licenses"@
    } else if i == 9 {
        "oci_ref_name"@
    } else if i == 10 {
        "oci_title"@
    } else if i == 11 {
        "oci_description"@
    } else if i == 12 {
        "oci_base_digest"@
    } else {
        "oci_base_name"@
    }
}

/// The database column that holds the annotation of slot `i`.
pub fn well_known_annotation_column(i: usize) -> (r: &'static str)
    requires
        i < WELL_KNOWN_ANNOTATION_COUNT,
    ensures
        r@ == spec_well_known_column(i as int),
{
    if i == 0 {
        "oci_created"
    } else if i == 1 {
        "oci_authors"
    } else if i == 2 {
        "oci_url"
    } else if i == 3 {
        "oci_documentation"
    } else if i == 4 {
        "oci_source"
    } else if i == 5 {
        "oci_version"
    } else if i == 6 {
        "oci_revision"
    } else if i == 7 {
        "oci_vendor"
    } else if i == 8 {
        "oci_licenses"
    } else if i == 9 {
        "oci_ref_name"
    } else if i == 10 {
        "oci_title"
    } else if i == 11 {
        "oci_description"
    } else if i == 12 {
        "oci_base_digest"
    } else {
        "oci_base_name"
    }
}

/// The first column slot whose well-known key is `k`, if any.
pub open spec fn spec_slot_of(k: Seq<char>) -> Option<int> {
    if exists|i: int| 0 <= i < 14 && spec_well_known_key(i) == k {
        Some(
            choose|i: int|
                0 <= i < 14 && spec_well_known_key(i) == k && forall|j: int|
                    0 <= j < i ==> spec_well_known_key(j) != k,
        )
    } else {
        None
    }
}

/// The column slot of an annotation key, if it is a well-known one.
pub fn annotation_slot(key: &str) -> (r: Option<usize>)
    ensures
        match r {
            Some(i) => spec_slot_of(key@) == Some(i as int) && i < WELL_KNOWN_ANNOTATION_COUNT,
            None => spec_slot_of(key@) is None,
        },
{
    let mut i: usize = 0;
    while i < WELL_KNOWN_ANNOTATION_COUNT
        invariant
            i <= WELL_KNOWN_ANNOTATION_COUNT,
            forall|j: int| 0 <= j < i ==> spec_well_known_key(j) != key@,
        decreases WELL_KNOWN_ANNOTATION_COUNT - i,
    {
        if str_eq(key, well_known_annotation_key(i)) {
            proof {
                let k = choose|t: int|
                    0 <= t < 14 && spec_well_known_key(t) == key@ && forall|j: int|
                        0 <= j < t ==> spec_well_known_key(j) != key@;
                assert(spec_well_known_key(i as int) == key@);
                if k < i {
                    assert(spec_well_known_key(k) != key@);
                }
                if i < k {
                    assert(spec_well_known_key(i as int) != key@);
                }
            }
            return Some(i);
        }
        i = i + 1;
    }
    None
}

/// Manifest annotations split into the well-known ones, one per column slot,
/// and the remaining ones.
#[derive(Debug, Clone)]
pub struct ManifestAnnotations {
    /// One value per well-known key, in column-slot order.
    pub columns: Vec<Option<String>>,
    /// Annotations whose key is not well-known, in their original order.
    pub extra: Vec<(String, String)>,
}

/// The value given to column slot `i` by `anns`: the last annotation whose key
/// belongs to that slot.
pub open spec fn slot_value(anns: Seq<(String, String)>, i: int) -> Option<String>
    decreases anns.len(),
{
    if anns.len() == 0 {
        None
    } else if spec_slot_of(anns.last().0@) == Some(i) {
        Some(anns.last().1)
    } else {
        slot_value(anns.drop_last(), i)
    }
}

/// The annotations of `anns` whose key is not well-known, in order.
pub open spec fn extra_annotations(anns: Seq<(String, String)>) -> Seq<(String, String)>
    decreases anns.len(),
{
    if anns.len() == 0 {
        Seq::empty()
    } else if spec_slot_of(anns.last().0@) is None {
        extra_annotations(anns.drop_last()).push(anns.last())
    } else {
        extra_annotations(anns.drop_last())
    }
}

/// Partition manifest annotations into well-known keys, extracted into their
/// dedicated columns, and the remaining annotations.
pub fn partition_annotations(anns: &Vec<(String, String)>) -> (r: ManifestAnnotations)
    ensures
        r.columns.len() == WELL_KNOWN_ANNOTATION_COUNT,
        forall|i: int| 0 <= i < 14 ==> #[trigger] r.columns@[i] == slot_value(anns@, i),
        r.extra@ == extra_annotations(anns@),
{
    let mut columns: Vec<Option<String>> = Vec::new();
    let mut k: usize = 0;
    while k < WELL_KNOWN_ANNOTATION_COUNT
        invariant
            k <= WELL_KNOWN_ANNOTATION_COUNT,
            columns.len() == k,
            forall|i: int| 0 <= i < k ==> #[trigger] columns@[i] is None,
        decreases WELL_KNOWN_ANNOTATION_COUNT - k,
    {
        columns.push(None);
        k = k + 1;
    }
    let mut extra: Vec<(String, String)> = Vec::new();
    let mut n: usize = 0;
    while n < anns.len()
        invariant
            n <= anns.len(),
            columns.len() == WELL_KNOWN_ANNOTATION_COUNT,
            forall|i: int| 0 <= i < 14 ==> #[trigger] columns@[i] == slot_value(anns@.take(n as int), i),
            extra@ == extra_annotations(anns@.take(n as int)),
        decreases anns.len() - n,
    {
        let pair = &anns[n];
        assert(anns@.take(n + 1).drop_last() =~= anns@.take(n as int));
        assert(anns@.take(n + 1).last() == anns@[n as int]);
        match annotation_slot(pair.0.as_str()) {
            Some(slot) => {
                columns.set(slot, Some(pair.1.clone()));
            },
            None => {
                extra.push((pair.0.clone(), pair.1.clone()));
            },
        }
        n = n + 1;
    }
    assert(anns@.take(anns.len() as int) =~= anns@);
    ManifestAnnotations { columns, extra }
}

/// A tag pointing at a manifest within a repository.
#[derive(Debug, Clone)]
pub struct OciTag {
    /// Primary key.
    pub id: i64,
    /// Foreign key to `oci_repository`.
    pub oci_repository_id: i64,
    /// Digest of the manifest this tag references.
    pub manifest_digest: String,
    /// The tag string (e.g. "latest", "v1.0.0").
    pub tag: String,
    /// When the row was created.
    pub created_at: String,
    /// When the row was last updated.
    pub updated_at: String,
}

impl OciTag {
    /// Creates a new `OciTag` for testing purposes.
    pub fn new_for_testing(oci_repository_id: i64, tag: String, manifest_digest: String) -> (r: Self)
        ensures
            r.id == 0,
            r.oci_repository_id == oci_repository_id,
            r.manifest_digest == manifest_digest,
            r.tag == tag,
            r.created_at@ == Seq::<char>::empty(),
            r.updated_at@ == Seq::<char>::empty(),
    {
        OciTag {
            id: 0,
            oci_repository_id,
            manifest_digest,
            tag,
            created_at: String::new(),
            updated_at: String::new(),
        }
    }
}

/// A layer (blob) within an OCI manifest.
#[derive(Debug, Clone)]
pub struct OciLayer {
    /// Primary key.
    pub id: i64,
    /// Foreign key to `oci_manifest`.
    pub oci_manifest_id: i64,
    /// Content-addressable digest.
    pub digest: String,
    /// MIME type of the layer.
    pub media_type: Option<String>,
    /// Size in bytes.
    pub size_bytes: Option<i64>,
    /// Ordinal position within the manifest.
    pub position: i32,
}

impl OciLayer {
    /// Creates a new `OciLayer` for testing purposes.
    pub fn new_for_testing(
        oci_manifest_id: i64,
        digest: String,
        media_type: Option<String>,
        size_bytes: Option<i64>,
        position: i32,
    ) -> (r: Self)
        ensures
            r.id == 0,
            r.oci_manifest_id == oci_manifest_id,
            r.digest == digest,
            r.media_type == media_type,
            r.size_bytes == size_bytes,
            r.position == position,
    {
        OciLayer { id: 0, oci_manifest_id, digest, media_type, size_bytes, position }
    }
}

/// A referrer relationship between two manifests.
#[derive(Debug, Clone)]
pub struct OciReferrer {
    /// Primary key.
    pub id: i64,
    /// The manifest that is being referred to.
    pub subject_manifest_id: i64,
    /// The manifest doing the referring.
    pub referrer_manifest_id: i64,
    /// The artifact type of the referrer.
    pub artifact_type: String,
    /// When the row was created.
    pub created_at: String,
}

impl OciReferrer {
    /// Creates a new `OciReferrer` for testing purposes.
    pub fn new_for_testing(
        subject_manifest_id: i64,
        referrer_manifest_id: i64,
        artifact_type: String,
    ) -> (r: Self)
        ensures
            r.id == 0,
            r.subject_manifest_id == subject_manifest_id,
            r.referrer_manifest_id == referrer_manifest_id,
            r.artifact_type == artifact_type,
            r.created_at@ == Seq::<char>::empty(),
    {
        OciReferrer {
            id: 0,
            subject_manifest_id,
            referrer_manifest_id,
            artifact_type,
            created_at: String::new(),
        }
    }
}

} // verus!
