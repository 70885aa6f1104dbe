//! Locally stored OCI images and the layers they reference.
use vstd::prelude::*;
use crate::text::{concat3, str_eq, to_owned};

verus! {

/// Result of an insert operation.
#[derive(Debug, Clone, Copy, PartialEq, Eq, Structural)]
pub enum InsertResult {
    /// The entry was inserted successfully.
    Inserted,
    /// The entry already existed in the database.
    AlreadyExists,
}

/// Metadata for a stored OCI image. The image's manifest is represented by the
/// digests of its layers, in manifest order.
#[derive(Debug, Clone)]
pub struct ImageEntry {
    /// Row id in the local store.
    pub id: i64,
    /// Registry hostname
    pub ref_registry: String,
    /// Repository path
    pub ref_repository: String,
    /// Optional mirror registry hostname
    pub ref_mirror_registry: Option<String>,
    /// Optional tag
    pub ref_tag: Option<String>,
    /// Optional digest
    pub ref_digest: Option<String>,
    /// Digests of the manifest's layers, in order
    pub layer_digests: Vec<String>,
    /// Size of the image on disk in bytes
    pub size_on_disk: u64,
}

/// The view of an optional string.
pub open spec fn opt_view(o: Option<String>) -> Option<Seq<char>> {
    match o {
        Some(s) => Some(s@),
        None => None,
    }
}

/// `registry/repository`, then `:tag` if there is a tag, else `@digest` if there is a digest.
pub open spec fn spec_image_reference(
    registry: Seq<char>,
    repository: Seq<char>,
    tag: Option<Seq<char>>,
    digest: Option<Seq<char>>,
) -> Seq<char> {
    let base = registry + seq!['/'] + repository;
    match tag {
        Some(t) => base + seq![':'] + t,
        None => match digest {
            Some(d) => base + seq!['@'] + d,
            None => base,
        },
    }
}

impl ImageEntry {
    /// Returns the full reference string for this image (e.g., "ghcr.io/user/repo:tag").
    pub fn reference(&self) -> (r: String)
        ensures
            r@ == spec_image_reference(
                self.ref_registry@,
                self.ref_repository@,
                opt_view(self.ref_tag),
                opt_view(self.ref_digest),
            ),
    {
        proof {
            reveal_strlit("/");
            reveal_strlit(":");
            reveal_strlit("@");
        }
        assert("/"@ =~= seq!['/']);
        assert(":"@ =~= seq![':']);
        assert("@"@ =~= seq!['@']);
        let base = concat3(self.ref_registry.as_str(), "/", self.ref_repository.as_str());
        match &self.ref_tag {
            Some(tag) => concat3(base.as_str(), ":", tag.as_str()),
            None => match &self.ref_digest {
                Some(digest) => concat3(base.as_str(), "@", digest.as_str()),
                None => base,
            },
        }
    }

    /// Creates a new ImageEntry for testing purposes, whose manifest has a
    /// single WebAssembly layer with digest `sha256:def456`.
    pub fn new_for_testing(
        ref_registry: String,
        ref_repository: String,
        ref_tag: Option<String>,
        ref_digest: Option<String>,
        size_on_disk: u64,
    ) -> (r: Self)
        ensures
            r.id == 0,
            r.ref_registry == ref_registry,
            r.ref_repository == ref_repository,
            r.ref_mirror_registry is None,
            r.ref_tag == ref_tag,
            r.ref_digest == ref_digest,
            r.layer_digests@.len() == 1,
            r.layer_digests@[0]@ == "sha256:def456"@,
            r.size_on_disk == size_on_disk,
    {
        let mut layer_digests: Vec<String> = Vec::new();
        layer_digests.push(to_owned("sha256:def456"));
        ImageEntry {
            id: 0,
            ref_registry,
            ref_repository,
            ref_mirror_registry: None,
            ref_tag,
            ref_digest,
            layer_digests,
            size_on_disk,
        }
    }
}

/// A reference as the store sees it: registry, repository, optional tag and digest.
pub struct ImageRef<'a> {
    /// Registry hostname.
    pub registry: &'a str,
    /// Repository path.
    pub repository: &'a str,
    /// Optional tag.
    pub tag: Option<&'a str>,
    /// Optional digest.
    pub digest: Option<&'a str>,
}

/// The view of an optional string slice.
pub open spec fn opt_str_view(o: Option<&str>) -> Option<Seq<char>> {
    match o {
        Some(s) => Some(s@),
        None => None,
    }
}

/// `e` is the image that `r` names: same registry, repository, tag and digest.
pub open spec fn entry_matches(e: ImageEntry, r: ImageRef) -> bool {
    &&& e.ref_registry@ == r.registry@
    &&& e.ref_repository@ == r.repository@
    &&& opt_view(e.ref_tag) == opt_str_view(r.tag)
    &&& opt_view(e.ref_digest) == opt_str_view(r.digest)
}

/// Some string of `v` has the characters `d`.
pub open spec fn in_strings(v: Seq<String>, d: Seq<char>) -> bool {
    exists|k: int| 0 <= k < v.len() && #[trigger] v[k]@ == d
}

proof fn lemma_in_strings_push(v: Seq<String>, x: String, d: Seq<char>)
    ensures
        in_strings(v.push(x), d) <==> (in_strings(v, d) || x@ == d),
{
    if in_strings(v.push(x), d) {
        let k = choose|k: int| 0 <= k < v.push(x).len() && #[trigger] v.push(x)[k]@ == d;
        if k < v.len() {
            assert(v[k]@ == d);
        }
    }
    if in_strings(v, d) {
        let k = choose|k: int| 0 <= k < v.len() && #[trigger] v[k]@ == d;
        assert(v.push(x)[k]@ == d);
    }
    if x@ == d {
        assert(v.push(x)[v.len() as int]@ == d);
    }
}

proof fn lemma_in_strings_take(v: Seq<String>, k: int, d: Seq<char>)
    requires
        0 <= k < v.len(),
    ensures
        in_strings(v.take(k + 1), d) <==> (in_strings(v.take(k), d) || v[k]@ == d),
{
    assert(v.take(k + 1) =~= v.take(k).push(v[k]));
    lemma_in_strings_push(v.take(k), v[k], d);
}

/// `d` is the digest of one of the layers of `e`.
pub open spec fn has_layer(e: ImageEntry, d: Seq<char>) -> bool {
    in_strings(e.layer_digests@, d)
}

/// Some image that `r` does not name uses the layer `d`.
pub open spec fn layer_used_elsewhere(entries: Seq<ImageEntry>, r: ImageRef, d: Seq<char>) -> bool {
    exists|j: int| 0 <= j < entries.len() && !entry_matches(entries[j], r) && #[trigger] has_layer(entries[j], d)
}

/// The first image of `entries` that `r` names, if any.
pub open spec fn first_match(entries: Seq<ImageEntry>, r: ImageRef) -> Option<int> {
    if exists|i: int| 0 <= i < entries.len() && entry_matches(entries[i], r) {
        Some(choose|i: int| 0 <= i < entries.len() && entry_matches(entries[i], r) && forall|j: int| 0 <= j < i ==> !entry_matches(entries[j], r))
    } else {
        None
    }
}

fn opt_eq(a: &Option<String>, b: Option<&str>) -> (r: bool)
    ensures
        r == (opt_view(*a) == opt_str_view(b)),
{
    match (a, b) {
        (Some(x), Some(y)) => str_eq(x.as_str(), y),
        (None, None) => true,
        _ => false,
    }
}

fn matches_ref(e: &ImageEntry, r: &ImageRef) -> (b: bool)
    ensures
        b == entry_matches(*e, *r),
{
    str_eq(e.ref_registry.as_str(), r.registry) && str_eq(e.ref_repository.as_str(), r.repository)
        && opt_eq(&e.ref_tag, r.tag) && opt_eq(&e.ref_digest, r.digest)
}

fn entry_has_layer(e: &ImageEntry, d: &str) -> (b: bool)
    ensures
        b == has_layer(*e, d@),
{
    let mut k: usize = 0;
    while k < e.layer_digests.len()
        invariant
            k <= e.layer_digests.len(),
            forall|t: int| 0 <= t < k ==> e.layer_digests@[t]@ != d@,
        decreases e.layer_digests.len() - k,
    {
        if str_eq(e.layer_digests[k].as_str(), d) {
            return true;
        }
        k = k + 1;
    }
    false
}

fn used_elsewhere(entries: &Vec<ImageEntry>, r: &ImageRef, d: &str) -> (b: bool)
    ensures
        b == layer_used_elsewhere(entries@, *r, d@),
{
    let mut j: usize = 0;
    while j < entries.len()
        invariant
            j <= entries.len(),
            forall|t: int| 0 <= t < j ==> !(!entry_matches(entries@[t], *r) && #[trigger] has_layer(entries@[t], d@)),
        decreases entries.len() - j,
    {
        if !matches_ref(&entries[j], r) && entry_has_layer(&entries[j], d) {
            return true;
        }
        j = j + 1;
    }
    false
}

fn contains_string(v: &Vec<String>, d: &str) -> (b: bool)
    ensures
        b == exists|k: int| 0 <= k < v@.len() && #[trigger] v@[k]@ == d@,
{
    let mut k: usize = 0;
    while k < v.len()
        invariant
            k <= v.len(),
            forall|t: int| 0 <= t < k ==> v@[t]@ != d@,
        decreases v.len() - k,
    {
        if str_eq(v[k].as_str(), d) {
            return true;
        }
        k = k + 1;
    }
    false
}

/// The cached layers to remove when deleting the image that `r` names: the
/// layers of the first image that `r` names which no image other than the
/// ones `r` names still uses. Each digest appears once; the order is that of
/// the deleted image's manifest. Nothing is removed when no image matches.
pub fn layers_to_remove(entries: &Vec<ImageEntry>, r: &ImageRef) -> (out: Vec<String>)
    ensures
        first_match(entries@, *r) is None ==> out@.len() == 0,
        match first_match(entries@, *r) {
            Some(i) => forall|d: Seq<char>|
                #[trigger] in_strings(out@, d) <==> (has_layer(entries@[i], d)
                    && !layer_used_elsewhere(entries@, *r, d)),
            None => true,
        },
        forall|a: int, b: int| 0 <= a < b < out@.len() ==> out@[a]@ != out@[b]@,
{
    let mut out: Vec<String> = Vec::new();
    let mut i: usize = 0;
    while i < entries.len() && !matches_ref(&entries[i], r)
        invariant
            i <= entries.len(),
            forall|j: int| 0 <= j < i ==> !entry_matches(entries@[j], *r),
        decreases entries.len() - i,
    {
        i = i + 1;
    }
    if i == entries.len() {
        assert(!exists|t: int| 0 <= t < entries@.len() && entry_matches(entries@[t], *r));
        return out;
    }
    proof {
        assert(entry_matches(entries@[i as int], *r));
        let k = first_match(entries@, *r)->0;
        if k < i {
            assert(!entry_matches(entries@[k], *r));
        }
        if (i as int) < k {
            assert(!entry_matches(entries@[i as int], *r));
        }
        assert(k == i);
    }
    let target = &entries[i];
    let mut k: usize = 0;
    while k < target.layer_digests.len()
        invariant
            i < entries.len(),
            target == entries@[i as int],
            first_match(entries@, *r) == Some(i as int),
            k <= target.layer_digests.len(),
            forall|a: int, b: int| 0 <= a < b < out@.len() ==> out@[a]@ != out@[b]@,
            forall|d: Seq<char>|
                #[trigger] in_strings(out@, d) <==> (in_strings(target.layer_digests@.take(k as int), d)
                    && !layer_used_elsewhere(entries@, *r, d)),
        decreases target.layer_digests.len() - k,
    {
        let d = &target.layer_digests[k];
        let ghost old_out = out@;
        let used = used_elsewhere(entries, r, d.as_str());
        let seen = contains_string(&out, d.as_str());
        if !used && !seen {
            out.push(d.clone());
        }
        proof {
            assert forall|e: Seq<char>|
                #[trigger] in_strings(out@, e) <==> (in_strings(target.layer_digests@.take(k + 1), e)
                    && !layer_used_elsewhere(entries@, *r, e)) by {
                lemma_in_strings_take(target.layer_digests@, k as int, e);
                assert(in_strings(old_out, e) <==> (in_strings(target.layer_digests@.take(k as int), e)
                    && !layer_used_elsewhere(entries@, *r, e)));
                if !used && !seen {
                    assert(out@ == old_out.push(*d));
                    lemma_in_strings_push(old_out, *d, e);
                } else {
                    assert(out@ == old_out);
                    if seen && d@ == e {
                        assert(in_strings(old_out, e));
                    }
                }
            }
            if !used && !seen {
                assert forall|a: int, b: int| 0 <= a < b < out@.len() implies out@[a]@ != out@[b]@ by {
                    if b == out@.len() - 1 {
                        assert(old_out[a]@ != d@);
                    }
                }
            }
        }
        k = k + 1;
    }
    assert(target.layer_digests@.take(target.layer_digests.len() as int) =~= target.layer_digests@);
    out
}

} // verus!
