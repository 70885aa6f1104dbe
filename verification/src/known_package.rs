//! Packages the user has seen or searched for.
use vstd::prelude::*;
use crate::tags::{partition_tag_rows, release_tags_of, spec_tag_type_name, tags_named, TagType};
use crate::text::concat3;

verus! {

/// A known package that persists in the database even after local deletion.
/// This is used to track packages the user has seen or searched for.
#[derive(Debug, Clone)]
pub struct KnownPackage {
    /// Row id in the local store (0 for packages not read from the store).
    pub id: i64,
    /// Registry hostname
    pub registry: String,
    /// Repository path
    pub repository: String,
    /// Optional package description
    pub description: Option<String>,
    /// Release tags (regular version tags like "1.0.0", "latest")
    pub tags: Vec<String>,
    /// Signature tags (tags ending in ".sig")
    pub signature_tags: Vec<String>,
    /// Attestation tags (tags ending in ".att")
    pub attestation_tags: Vec<String>,
    /// Timestamp of last seen
    pub last_seen_at: String,
    /// Timestamp of creation
    pub created_at: String,
}

/// `registry/repository`.
pub open spec fn spec_reference(registry: Seq<char>, repository: Seq<char>) -> Seq<char> {
    registry + seq!['/'] + repository
}

/// `registry/repository:tag`, where the tag is the first release tag or `latest`.
pub open spec fn spec_reference_with_tag(
    registry: Seq<char>,
    repository: Seq<char>,
    tags: Seq<String>,
) -> Seq<char> {
    let tag = if tags.len() > 0 {
        tags[0]@
    } else {
        seq!['l', 'a', 't', 'e', 's', 't']
    };
    spec_reference(registry, repository) + seq![':'] + tag
}

/// The `LIKE` pattern that matches any text containing `query`.
pub open spec fn spec_search_pattern(query: Seq<char>) -> Seq<char> {
    seq!['%'] + query + seq!['%']
}

impl KnownPackage {
    /// Returns the full reference string for this package (e.g., "ghcr.io/user/repo").
    pub fn reference(&self) -> (r: String)
        ensures
            r@ == spec_reference(self.registry@, self.repository@),
    {
        proof {
            reveal_strlit("/");
        }
        assert("/"@ =~= seq!['/']);
        concat3(self.registry.as_str(), "/", self.repository.as_str())
    }

    /// Returns the full reference string with the most recent tag.
    pub fn reference_with_tag(&self) -> (r: String)
        ensures
            r@ == spec_reference_with_tag(self.registry@, self.repository@, self.tags@),
    {
        proof {
            reveal_strlit(":");
            reveal_strlit("latest");
        }
        assert(":"@ =~= seq![':']);
        assert("latest"@ =~= seq!['l', 'a', 't', 'e', 's', 't']);
        let base = self.reference();
        if self.tags.len() > 0 {
            concat3(base.as_str(), ":", self.tags[0].as_str())
        } else {
            concat3(base.as_str(), ":", "latest")
        }
    }

    /// Build a package from its stored row and its `(tag, tag_type)` rows,
    /// which are separated into release, signature and attestation tags.
    pub fn from_row(
        id: i64,
        registry: String,
        repository: String,
        description: Option<String>,
        tag_rows: &Vec<(String, String)>,
        last_seen_at: String,
        created_at: String,
    ) -> (r: Self)
        ensures
            r.id == id,
            r.registry == registry,
            r.repository == repository,
            r.description == description,
            r.tags@ == release_tags_of(tag_rows@),
            r.signature_tags@ == tags_named(tag_rows@, spec_tag_type_name(TagType::Signature)),
            r.attestation_tags@ == tags_named(tag_rows@, spec_tag_type_name(TagType::Attestation)),
            r.last_seen_at == last_seen_at,
            r.created_at == created_at,
    {
        let (tags, signature_tags, attestation_tags) = partition_tag_rows(tag_rows);
        KnownPackage {
            id,
            registry,
            repository,
            description,
            tags,
            signature_tags,
            attestation_tags,
            last_seen_at,
            created_at,
        }
    }

    /// Creates a new KnownPackage for testing purposes.
    pub fn new_for_testing(
        registry: String,
        repository: String,
        description: Option<String>,
        tags: Vec<String>,
        signature_tags: Vec<String>,
        attestation_tags: Vec<String>,
        last_seen_at: String,
        created_at: String,
    ) -> (r: Self)
        ensures
            r.id == 0,
            r.registry == registry,
            r.repository == repository,
            r.description == description,
            r.tags == tags,
            r.signature_tags == signature_tags,
            r.attestation_tags == attestation_tags,
            r.last_seen_at == last_seen_at,
            r.created_at == created_at,
    {
        KnownPackage {
            id: 0,
            registry,
            repository,
            description,
            tags,
            signature_tags,
            attestation_tags,
            last_seen_at,
            created_at,
        }
    }
}

/// The `LIKE` pattern used to search registry and repository names for `query`.
pub fn search_pattern(query: &str) -> (r: String)
    ensures
        r@ == spec_search_pattern(query@),
{
    proof {
        reveal_strlit("%");
    }
    assert("%"@ =~= seq!['%']);
    concat3("%", query, "%")
}

/// All tags of the packages stored for `registry`/`repository`: for each
/// matching package in order, its release, then signature, then attestation tags.
pub open spec fn cached_tags_of(
    packages: Seq<KnownPackage>,
    registry: Seq<char>,
    repository: Seq<char>,
) -> Seq<String>
    decreases packages.len(),
{
    if packages.len() == 0 {
        Seq::empty()
    } else {
        let rest = cached_tags_of(packages.drop_last(), registry, repository);
        let p = packages.last();
        if p.registry@ == registry && p.repository@ == repository {
            rest + p.tags@ + p.signature_tags@ + p.attestation_tags@
        } else {
            rest
        }
    }
}

fn append_all(out: &mut Vec<String>, more: &Vec<String>)
    ensures
        final(out)@ == old(out)@ + more@,
{
    let mut i: usize = 0;
    let ghost start = out@;
    while i < more.len()
        invariant
            i <= more.len(),
            out@ == start + more@.take(i as int),
        decreases more.len() - i,
    {
        out.push(more[i].clone());
        assert(more@.take(i + 1) =~= more@.take(i as int).push(more@[i as int]));
        i = i + 1;
    }
    assert(more@.take(more.len() as int) =~= more@);
}

/// The tags known locally for `registry`/`repository`, used when listing tags
/// without network access.
pub fn list_cached_tags(packages: &Vec<KnownPackage>, registry: &str, repository: &str) -> (r: Vec<String>)
    ensures
        r@ == cached_tags_of(packages@, registry@, repository@),
{
    let mut out: Vec<String> = Vec::new();
    let mut i: usize = 0;
    while i < packages.len()
        invariant
            i <= packages.len(),
            out@ == cached_tags_of(packages@.take(i as int), registry@, repository@),
        decreases packages.len() - i,
    {
        let p = &packages[i];
        assert(packages@.take(i + 1).drop_last() =~= packages@.take(i as int));
        assert(packages@.take(i + 1).last() == packages@[i as int]);
        if crate::text::str_eq(p.registry.as_str(), registry) && crate::text::str_eq(
            p.repository.as_str(),
            repository,
        ) {
            append_all(&mut out, &p.tags);
            append_all(&mut out, &p.signature_tags);
            append_all(&mut out, &p.attestation_tags);
        }
        i = i + 1;
    }
    assert(packages@.take(packages.len() as int) =~= packages@);
    out
}

} // verus!

verus! {

/// Reference law: the reference to pull for a known package names its
/// registry and repository, then `:` and its first (most recent) tag, or
/// `:latest` when it has none.
pub proof fn lemma_reference_with_tag(registry: Seq<char>, repository: Seq<char>, tags: Seq<String>)
    ensures
        ({
            let r = spec_reference_with_tag(registry, repository, tags);
            let base = registry + seq!['/'] + repository;
            let tail = if tags.len() > 0 {
                tags[0]@
            } else {
                "latest"@
            };
            &&& r.len() == base.len() + 1 + tail.len()
            &&& r.take(base.len() as int) == base
            &&& r[base.len() as int] == ':'
            &&& r.skip(base.len() as int + 1) == tail
        }),
{
    let r = spec_reference_with_tag(registry, repository, tags);
    let base = registry + seq!['/'] + repository;
    let tail = if tags.len() > 0 {
        tags[0]@
    } else {
        "latest"@
    };
    reveal_strlit("latest");
    assert("latest"@ =~= seq!['l', 'a', 't', 'e', 's', 't']);
    assert(r =~= base + seq![':'] + tail);
    assert(r.take(base.len() as int) =~= base);
    assert(r.skip(base.len() as int + 1) =~= tail);
}

/// `t` is a release, signature or attestation tag of a known package
/// stored for `registry`/`repository`.
pub open spec fn tag_of_stored(packages: Seq<KnownPackage>, registry: Seq<char>, repository: Seq<char>, t: String) -> bool {
    exists|i: int|
        0 <= i < packages.len() && (#[trigger] packages[i]).registry@ == registry && packages[i].repository@
            == repository && (packages[i].tags@.contains(t) || packages[i].signature_tags@.contains(t)
            || packages[i].attestation_tags@.contains(t))
}

/// Offline tag law: the cached tags for a registry and repository hold
/// every release, signature and attestation tag of every known package
/// stored for them, and nothing else: each cached tag is one of the tags
/// of such a package.
pub proof fn lemma_cached_tags(packages: Seq<KnownPackage>, registry: Seq<char>, repository: Seq<char>)
    ensures
        forall|i: int, j: int|
            0 <= i < packages.len() && packages[i].registry@ == registry && packages[i].repository@ == repository
                && 0 <= j < packages[i].tags@.len() ==> cached_tags_of(packages, registry, repository).contains(
                #[trigger] packages[i].tags@[j],
            ),
        forall|i: int, j: int|
            0 <= i < packages.len() && packages[i].registry@ == registry && packages[i].repository@ == repository
                && 0 <= j < packages[i].signature_tags@.len() ==> cached_tags_of(packages, registry, repository).contains(
                #[trigger] packages[i].signature_tags@[j],
            ),
        forall|i: int, j: int|
            0 <= i < packages.len() && packages[i].registry@ == registry && packages[i].repository@ == repository
                && 0 <= j < packages[i].attestation_tags@.len() ==> cached_tags_of(packages, registry, repository).contains(
                #[trigger] packages[i].attestation_tags@[j],
            ),
        forall|k: int|
            0 <= k < cached_tags_of(packages, registry, repository).len() ==> #[trigger] tag_of_stored(
                packages,
                registry,
                repository,
                cached_tags_of(packages, registry, repository)[k],
            ),
    decreases packages.len(),
{
    if packages.len() > 0 {
        let init = packages.drop_last();
        lemma_cached_tags(init, registry, repository);
        let rest = cached_tags_of(init, registry, repository);
        let p = packages.last();
        let r = cached_tags_of(packages, registry, repository);
        let n = packages.len() - 1;
        let matching = p.registry@ == registry && p.repository@ == repository;
        assert(p == packages[n]);
        assert forall|i: int| 0 <= i < init.len() implies #[trigger] init[i] == packages[i] by {}
        assert forall|t: String| tag_of_stored(init, registry, repository, t) implies tag_of_stored(
            packages,
            registry,
            repository,
            t,
        ) by {
            let i = choose|i: int|
                0 <= i < init.len() && (#[trigger] init[i]).registry@ == registry && init[i].repository@
                    == repository && (init[i].tags@.contains(t) || init[i].signature_tags@.contains(t)
                    || init[i].attestation_tags@.contains(t));
            assert(packages[i] == init[i]);
        }
        let a = rest.len() as int;
        let b = a + p.tags@.len();
        let c = b + p.signature_tags@.len();
        assert forall|k: int| 0 <= k < a implies r[k] == rest[k] by {}
        assert forall|k: int| 0 <= k < r.len() implies #[trigger] tag_of_stored(packages, registry, repository, r[k]) by {
            if k < a {
                assert(tag_of_stored(init, registry, repository, rest[k]));
            } else if k < b {
                assert(p.tags@[k - a] == r[k]);
                assert(packages[n].tags@.contains(r[k]));
            } else if k < c {
                assert(p.signature_tags@[k - b] == r[k]);
                assert(packages[n].signature_tags@.contains(r[k]));
            } else {
                assert(p.attestation_tags@[k - c] == r[k]);
                assert(packages[n].attestation_tags@.contains(r[k]));
            }
        }
        assert forall|i: int, j: int|
            0 <= i < packages.len() && packages[i].registry@ == registry && packages[i].repository@ == repository
                && 0 <= j < packages[i].tags@.len() implies r.contains(#[trigger] packages[i].tags@[j]) by {
            if i < n {
                assert(init[i] == packages[i]);
                assert(rest.contains(init[i].tags@[j]));
                let k = choose|k: int| 0 <= k < rest.len() && rest[k] == init[i].tags@[j];
                assert(r[k] == rest[k]);
            } else {
                assert(r[a + j] == p.tags@[j]);
            }
        }
        assert forall|i: int, j: int|
            0 <= i < packages.len() && packages[i].registry@ == registry && packages[i].repository@ == repository
                && 0 <= j < packages[i].signature_tags@.len() implies r.contains(
            #[trigger] packages[i].signature_tags@[j],
        ) by {
            if i < n {
                assert(init[i] == packages[i]);
                assert(rest.contains(init[i].signature_tags@[j]));
                let k = choose|k: int| 0 <= k < rest.len() && rest[k] == init[i].signature_tags@[j];
                assert(r[k] == rest[k]);
            } else {
                assert(r[b + j] == p.signature_tags@[j]);
            }
        }
        assert forall|i: int, j: int|
            0 <= i < packages.len() && packages[i].registry@ == registry && packages[i].repository@ == repository
                && 0 <= j < packages[i].attestation_tags@.len() implies r.contains(
            #[trigger] packages[i].attestation_tags@[j],
        ) by {
            if i < n {
                assert(init[i] == packages[i]);
                assert(rest.contains(init[i].attestation_tags@[j]));
                let k = choose|k: int| 0 <= k < rest.len() && rest[k] == init[i].attestation_tags@[j];
                assert(r[k] == rest[k]);
            } else {
                assert(r[c + j] == p.attestation_tags@[j]);
            }
        }
    }
}

} // verus!
