//! Classification of OCI tags into release, signature and attestation tags.
use vstd::prelude::*;
use crate::text::{ends_with, has_suffix, str_eq};

verus! {

/// The type of a tag, used to distinguish release tags from signatures and attestations.
#[derive(Debug, Clone, Copy, PartialEq, Eq, Structural)]
pub enum TagType {
    /// A regular release tag (e.g., "1.0.0", "latest")
    Release,
    /// A signature tag (ending in ".sig")
    Signature,
    /// An attestation tag (ending in ".att")
    Attestation,
}

/// The suffix that marks signature tags.
pub open spec fn sig_suffix() -> Seq<char> {
    seq!['.', 's', 'i', 'g']
}

/// The suffix that marks attestation tags.
pub open spec fn att_suffix() -> Seq<char> {
    seq!['.', 'a', 't', 't']
}

/// The type of the tag `t`: signature tags end in `.sig`, attestation tags in
/// `.att`, and every other tag is a release tag.
pub open spec fn spec_tag_type(t: Seq<char>) -> TagType {
    if has_suffix(t, sig_suffix()) {
        TagType::Signature
    } else if has_suffix(t, att_suffix()) {
        TagType::Attestation
    } else {
        TagType::Release
    }
}

/// The database spelling of a tag type.
pub open spec fn spec_tag_type_name(t: TagType) -> Seq<char> {
    match t {
        TagType::Release => seq!['r', 'e', 'l', 'e', 'a', 's', 'e'],
        TagType::Signature => seq!['s', 'i', 'g', 'n', 'a', 't', 'u', 'r', 'e'],
        TagType::Attestation => seq!['a', 't', 't', 'e', 's', 't', 'a', 't', 'i', 'o', 'n'],
    }
}

impl TagType {
    /// Determine the tag type from a tag string.
    pub fn from_tag(tag: &str) -> (r: TagType)
        ensures
            r == spec_tag_type(tag@),
    {
        proof {
            reveal_strlit(".sig");
            reveal_strlit(".att");
        }
        if ends_with(tag, ".sig") {
            assert(".sig"@ =~= sig_suffix());
            TagType::Signature
        } else if ends_with(tag, ".att") {
            assert(".sig"@ =~= sig_suffix());
            assert(".att"@ =~= att_suffix());
            TagType::Attestation
        } else {
            assert(".sig"@ =~= sig_suffix());
            assert(".att"@ =~= att_suffix());
            TagType::Release
        }
    }

    /// Convert to the database string representation.
    pub fn as_str(&self) -> (r: &'static str)
        ensures
            r@ == spec_tag_type_name(*self),
    {
        match self {
            TagType::Release => {
                proof {
                    reveal_strlit("release");
                }
                assert("release"@ =~= spec_tag_type_name(TagType::Release));
                "release"
            },
            TagType::Signature => {
                proof {
                    reveal_strlit("signature");
                }
                assert("signature"@ =~= spec_tag_type_name(TagType::Signature));
                "signature"
            },
            TagType::Attestation => {
                proof {
                    reveal_strlit("attestation");
                }
                assert("attestation"@ =~= spec_tag_type_name(TagType::Attestation));
                "attestation"
            },
        }
    }
}

/// Whether a tag is listed, given whether signature and attestation tags are wanted:
/// release tags always are.
pub open spec fn tag_listed(t: Seq<char>, signatures: bool, attestations: bool) -> bool {
    match spec_tag_type(t) {
        TagType::Signature => signatures,
        TagType::Attestation => attestations,
        TagType::Release => true,
    }
}

/// The tags of `tags` that are listed, in their original order.
pub open spec fn listed_tags(tags: Seq<String>, signatures: bool, attestations: bool) -> Seq<String>
    decreases tags.len(),
{
    if tags.len() == 0 {
        Seq::empty()
    } else {
        let rest = listed_tags(tags.drop_last(), signatures, attestations);
        if tag_listed(tags.last()@, signatures, attestations) {
            rest.push(tags.last())
        } else {
            rest
        }
    }
}

/// Keep release tags, and signature and attestation tags only when asked for.
pub fn filter_tags(tags: &Vec<String>, signatures: bool, attestations: bool) -> (r: Vec<String>)
    ensures
        r@ == listed_tags(tags@, signatures, attestations),
{
    let mut out: Vec<String> = Vec::new();
    let mut i: usize = 0;
    while i < tags.len()
        invariant
            i <= tags.len(),
            out@ == listed_tags(tags@.take(i as int), signatures, attestations),
        decreases tags.len() - i,
    {
        let t = &tags[i];
        let ty = TagType::from_tag(t.as_str());
        let keep = match ty {
            TagType::Signature => signatures,
            TagType::Attestation => attestations,
            TagType::Release => true,
        };
        assert(tags@.take(i + 1).drop_last() =~= tags@.take(i as int));
        if keep {
            out.push(t.clone());
        }
        i = i + 1;
    }
    assert(tags@.take(tags.len() as int) =~= tags@);
    out
}

/// The tags of `rows` whose recorded type name is `name`, in order.
pub open spec fn tags_named(rows: Seq<(String, String)>, name: Seq<char>) -> Seq<String>
    decreases rows.len(),
{
    if rows.len() == 0 {
        Seq::empty()
    } else {
        let rest = tags_named(rows.drop_last(), name);
        if rows.last().1@ == name {
            rest.push(rows.last().0)
        } else {
            rest
        }
    }
}

/// The tags of `rows` whose recorded type name is neither `signature` nor `attestation`.
pub open spec fn release_tags_of(rows: Seq<(String, String)>) -> Seq<String>
    decreases rows.len(),
{
    if rows.len() == 0 {
        Seq::empty()
    } else {
        let rest = release_tags_of(rows.drop_last());
        let n = rows.last().1@;
        if n != spec_tag_type_name(TagType::Signature) && n != spec_tag_type_name(
            TagType::Attestation,
        ) {
            rest.push(rows.last().0)
        } else {
            rest
        }
    }
}

/// Separate stored `(tag, tag_type)` rows into release, signature and
/// attestation tags, keeping the rows' order within each group. A row whose
/// type is neither `signature` nor `attestation` counts as a release tag.
pub fn partition_tag_rows(rows: &Vec<(String, String)>) -> (r: (Vec<String>, Vec<String>, Vec<String>))
    ensures
        r.0@ == release_tags_of(rows@),
        r.1@ == tags_named(rows@, spec_tag_type_name(TagType::Signature)),
        r.2@ == tags_named(rows@, spec_tag_type_name(TagType::Attestation)),
{
    let mut release: Vec<String> = Vec::new();
    let mut sig: Vec<String> = Vec::new();
    let mut att: Vec<String> = Vec::new();
    let s_name = TagType::Signature.as_str();
    let a_name = TagType::Attestation.as_str();
    let mut i: usize = 0;
    while i < rows.len()
        invariant
            i <= rows.len(),
            s_name@ == spec_tag_type_name(TagType::Signature),
            a_name@ == spec_tag_type_name(TagType::Attestation),
            release@ == release_tags_of(rows@.take(i as int)),
            sig@ == tags_named(rows@.take(i as int), spec_tag_type_name(TagType::Signature)),
            att@ == tags_named(rows@.take(i as int), spec_tag_type_name(TagType::Attestation)),
        decreases rows.len() - i,
    {
        let row = &rows[i];
        assert(rows@.take(i + 1).drop_last() =~= rows@.take(i as int));
        assert(rows@.take(i + 1).last() == rows@[i as int]);
        if str_eq(row.1.as_str(), s_name) {
            sig.push(row.0.clone());
        } else if str_eq(row.1.as_str(), a_name) {
            att.push(row.0.clone());
        } else {
            release.push(row.0.clone());
        }
        i = i + 1;
    }
    assert(rows@.take(rows.len() as int) =~= rows@);
    (release, sig, att)
}

/// A stored tag whose recorded type is out of date, with the type it should have.
#[derive(Debug, Clone)]
pub struct TagTypeUpdate {
    /// The package the tag belongs to.
    pub package_id: i64,
    /// The tag.
    pub tag: String,
    /// The type the tag should be recorded with.
    pub tag_type: TagType,
}

/// The rows whose stored type name differs from the type their tag implies.
pub open spec fn stale_rows(rows: Seq<(i64, String, String)>) -> Seq<TagTypeUpdate>
    decreases rows.len(),
{
    if rows.len() == 0 {
        Seq::empty()
    } else {
        let rest = stale_rows(rows.drop_last());
        let row = rows.last();
        let ty = spec_tag_type(row.1@);
        if row.2@ != spec_tag_type_name(ty) {
            rest.push(TagTypeUpdate { package_id: row.0, tag: row.1, tag_type: ty })
        } else {
            rest
        }
    }
}

/// Re-classify stored `(package_id, tag, tag_type)` rows: returns, in order,
/// one update for each row whose recorded type is not the one its tag implies.
/// The number of updates is the number of tags that a re-scan changes.
pub fn rescan_tag_types(rows: &Vec<(i64, String, String)>) -> (r: Vec<TagTypeUpdate>)
    ensures
        r@ == stale_rows(rows@),
{
    let mut out: Vec<TagTypeUpdate> = Vec::new();
    let mut i: usize = 0;
    while i < rows.len()
        invariant
            i <= rows.len(),
            out@ == stale_rows(rows@.take(i as int)),
        decreases rows.len() - i,
    {
        let row = &rows[i];
        assert(rows@.take(i + 1).drop_last() =~= rows@.take(i as int));
        assert(rows@.take(i + 1).last() == rows@[i as int]);
        let ty = TagType::from_tag(row.1.as_str());
        let name = ty.as_str();
        if !str_eq(row.2.as_str(), name) {
            out.push(TagTypeUpdate { package_id: row.0, tag: row.1.clone(), tag_type: ty });
        }
        i = i + 1;
    }
    assert(rows@.take(rows.len() as int) =~= rows@);
    out
}

} // verus!

verus! {

/// Every stored row lands in exactly one of the three groups of
/// `partition_tag_rows`: the group sizes add up to the number of rows.
pub proof fn lemma_partition_counts(rows: Seq<(String, String)>)
    ensures
        release_tags_of(rows).len() + tags_named(rows, spec_tag_type_name(TagType::Signature)).len()
            + tags_named(rows, spec_tag_type_name(TagType::Attestation)).len() == rows.len(),
    decreases rows.len(),
{
    if rows.len() > 0 {
        lemma_partition_counts(rows.drop_last());
        assert(spec_tag_type_name(TagType::Signature).len() != spec_tag_type_name(
            TagType::Attestation,
        ).len());
    }
}

/// With signature and attestation tags both asked for, `filter_tags` keeps
/// every tag, in order.
pub proof fn lemma_filter_keeps_all(tags: Seq<String>)
    ensures
        listed_tags(tags, true, true) == tags,
    decreases tags.len(),
{
    if tags.len() > 0 {
        lemma_filter_keeps_all(tags.drop_last());
        assert(tags.drop_last().push(tags.last()) =~= tags);
    }
}

/// Whether a stored `(package_id, tag, tag_type)` row records the type its tag implies.
pub open spec fn row_current(row: (i64, String, String)) -> bool {
    row.2@ == spec_tag_type_name(spec_tag_type(row.1@))
}

/// A re-scan finds nothing to update exactly when every row's recorded type
/// is the one its tag implies.
pub proof fn lemma_rescan_empty_iff_current(rows: Seq<(i64, String, String)>)
    ensures
        stale_rows(rows).len() == 0 <==> (forall|i: int|
            0 <= i < rows.len() ==> #[trigger] row_current(rows[i])),
    decreases rows.len(),
{
    if rows.len() > 0 {
        let init = rows.drop_last();
        lemma_rescan_empty_iff_current(init);
        assert forall|i: int| 0 <= i < init.len() implies #[trigger] init[i] == rows[i] by {}
        if stale_rows(rows).len() == 0 {
            assert(stale_rows(init).len() == 0);
            assert(row_current(rows.last()));
            assert forall|i: int| 0 <= i < rows.len() implies #[trigger] row_current(rows[i]) by {
                if i < init.len() {
                    assert(init[i] == rows[i]);
                    assert(row_current(init[i]));
                }
            }
        } else if stale_rows(init).len() > 0 {
            let i = choose|i: int| 0 <= i < init.len() && !#[trigger] row_current(init[i]);
            assert(rows[i] == init[i]);
        } else {
            assert(!row_current(rows.last()));
            let j = rows.len() - 1;
            assert(rows[j] == rows.last());
        }
    }
}

} // verus!
