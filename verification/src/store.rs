//! What the store and the package manager compute around their disk and
//! network work: the digest and size recorded for a pulled image, the keys
//! its layers are stored under, and the tags recorded as known packages.
use vstd::prelude::*;
use crate::image_entry::{opt_view, InsertResult};
use crate::progress::{byte_sum, sum_all};
use crate::text::to_owned;

verus! {

/// The digest recorded for a pulled image: the reference's own digest, or
/// else the one the registry reported.
pub fn image_digest(reference_digest: Option<&str>, reported: Option<String>) -> (r: Option<String>)
    ensures
        opt_view(r) == match reference_digest {
            Some(d) => Some(d@),
            None => opt_view(reported),
        },
{
    match reference_digest {
        Some(d) => Some(to_owned(d)),
        None => reported,
    }
}

/// The size on disk of an image: the sum of its layers' sizes.
pub fn size_on_disk(layer_sizes: &Vec<u64>) -> (r: u64)
    requires
        byte_sum(layer_sizes@) <= u64::MAX,
    ensures
        r == byte_sum(layer_sizes@),
{
    sum_all(layer_sizes)
}

/// The keys the layers of a pulled image are stored under: nothing unless
/// the image was newly inserted and has a manifest; otherwise, for each
/// layer, the digest the manifest gives at its position, or the whole
/// reference where the manifest has fewer layers.
pub open spec fn store_keys_of(
    result: InsertResult,
    manifest_digests: Option<Seq<Seq<char>>>,
    layer_count: nat,
    fallback: Seq<char>,
) -> Seq<Seq<char>> {
    match manifest_digests {
        Some(ds) => if result == InsertResult::Inserted {
            Seq::new(layer_count, |i: int| if i < ds.len() { ds[i] } else { fallback })
        } else {
            Seq::empty()
        },
        None => Seq::empty(),
    }
}

/// The views of a list of texts.
pub open spec fn texts(v: Seq<String>) -> Seq<Seq<char>> {
    v.map_values(|s: String| s@)
}

/// The keys under which the layers of a pulled image are stored.
pub fn layer_store_keys(
    result: InsertResult,
    manifest_digests: Option<&Vec<String>>,
    layer_count: usize,
    fallback: &str,
) -> (r: Vec<String>)
    ensures
        texts(r@) == store_keys_of(
            result,
            match manifest_digests {
                Some(ds) => Some(texts(ds@)),
                None => None,
            },
            layer_count as nat,
            fallback@,
        ),
{
    let mut out: Vec<String> = Vec::new();
    match manifest_digests {
        None => {
            assert(texts(out@) =~= Seq::<Seq<char>>::empty());
            out
        },
        Some(ds) => {
            if result != InsertResult::Inserted {
                assert(texts(out@) =~= Seq::<Seq<char>>::empty());
                return out;
            }
            let ghost want = store_keys_of(result, Some(texts(ds@)), layer_count as nat, fallback@);
            let mut i: usize = 0;
            while i < layer_count
                invariant
                    i <= layer_count,
                    want.len() == layer_count,
                    want == store_keys_of(result, Some(texts(ds@)), layer_count as nat, fallback@),
                    result == InsertResult::Inserted,
                    texts(out@) == want.take(i as int),
                decreases layer_count - i,
            {
                let key = if i < ds.len() {
                    ds[i].clone()
                } else {
                    to_owned(fallback)
                };
                let ghost before = texts(out@);
                out.push(key);
                assert(texts(out@) =~= before.push(key@));
                assert(want.take(i + 1) =~= want.take(i as int).push(want[i as int]));
                i = i + 1;
            }
            assert(want.take(layer_count as int) =~= want);
            out
        },
    }
}

/// The package type recorded for a stored image: an interface when its
/// binary is a WIT package, a component otherwise.
pub fn package_type(is_wit_package: bool) -> (r: &'static str)
    ensures
        r@ == (if is_wit_package {
            "interface"@
        } else {
            "component"@
        }),
{
    if is_wit_package {
        "interface"
    } else {
        "component"
    }
}

/// Why pulling is refused, if it is: in offline mode nothing is pulled.
pub fn pull_refusal(offline: bool) -> (r: Option<String>)
    ensures
        offline ==> (r matches Some(m) && m@ == "cannot pull packages in offline mode"@),
        !offline ==> r is None,
{
    if offline {
        Some(to_owned("cannot pull packages in offline mode"))
    } else {
        None
    }
}

/// The tags recorded as known packages after a pull: the reference's own
/// tag (or none), then every tag the registry listed, in order.
pub open spec fn recorded_tags(tag: Option<Seq<char>>, listed: Seq<String>) -> Seq<Option<Seq<char>>> {
    seq![tag] + listed.map_values(|t: String| Some(t@))
}

/// The tags to record as known packages after pulling a reference with
/// this tag, given the tags the registry listed (none when listing failed).
pub fn tags_to_record(tag: Option<&str>, listed: Vec<String>) -> (r: Vec<Option<String>>)
    ensures
        r@.map_values(|t: Option<String>| opt_view(t)) == recorded_tags(
            match tag {
                Some(t) => Some(t@),
                None => None,
            },
            listed@,
        ),
{
    let mut out: Vec<Option<String>> = Vec::new();
    out.push(
        match tag {
            Some(t) => Some(to_owned(t)),
            None => None,
        },
    );
    let ghost first = out@.map_values(|t: Option<String>| opt_view(t));
    let mut i: usize = 0;
    while i < listed.len()
        invariant
            i <= listed.len(),
            first.len() == 1,
            out@.map_values(|t: Option<String>| opt_view(t)) == first + listed@.take(i as int).map_values(
                |t: String| Some(t@),
            ),
        decreases listed.len() - i,
    {
        let ghost before = out@.map_values(|t: Option<String>| opt_view(t));
        out.push(Some(listed[i].clone()));
        assert(out@.map_values(|t: Option<String>| opt_view(t)) =~= before.push(Some(listed@[i as int]@)));
        assert(listed@.take(i + 1).map_values(|t: String| Some(t@)) =~= listed@.take(i as int).map_values(
            |t: String| Some(t@),
        ).push(Some(listed@[i as int]@)));
        i = i + 1;
    }
    assert(listed@.take(listed.len() as int) =~= listed@);
    out
}

} // verus!
