//! Decisions of the `compose` command: which `.wac` files under `seams/`
//! to compose, how a composition name is checked, and where the composed
//! component is written.
use vstd::prelude::*;
use crate::command_errors::ComposeError;
use crate::sort::{sort_texts, sorted_texts};
use crate::detector::{extension_of, file_name_of, join_path, joined};
use crate::text::{concat2, concat3, contains_char, contains_seq, contains_str, last_pos, rfind_char, slice, str_eq, to_owned};

verus! {

/// The directory that holds the `.wac` files.
pub const SEAMS_DIR: &'static str = "seams";

/// A composition name is plain: it holds no `/`, no `\` and no `..`.
pub open spec fn plain_name(name: Seq<char>) -> bool {
    !name.contains('/') && !name.contains('\\') && !contains_seq(name, seq!['.', '.'])
}

/// Whether a composition name is plain (no path separators or traversal).
pub fn is_plain_name(name: &str) -> (r: bool)
    ensures
        r == plain_name(name@),
{
    proof {
        reveal_strlit("..");
        assert(".."@ =~= seq!['.', '.']);
    }
    !contains_char(name, '/') && !contains_char(name, '\\') && !contains_str(name, "..")
}

/// The `.wac` file a composition name refers to: `seams/NAME.wac`.
pub open spec fn wac_path_of(name: Seq<char>) -> Seq<char> {
    joined(SEAMS_DIR@, name + ".wac"@)
}

/// The `.wac` file a composition name refers to, or the error for a name
/// that is not plain.
pub fn wac_path_for(name: &str) -> (r: Result<String, ComposeError>)
    ensures
        match r {
            Ok(p) => plain_name(name@) && p@ == wac_path_of(name@),
            Err(e) => {
                &&& !plain_name(name@)
                &&& e matches ComposeError::InvalidName { name: n }
                &&& n@ == name@
            },
        },
{
    if !is_plain_name(name) {
        return Err(ComposeError::InvalidName { name: to_owned(name) });
    }
    let file = concat2(name, ".wac");
    Ok(join_path(SEAMS_DIR, file.as_str()))
}

/// The stem of a file name with an extension: what precedes its last `.`.
pub open spec fn stem_of(name: Seq<char>) -> Seq<char> {
    name.take(last_pos(name, '.'))
}

/// The path names a `.wac` file.
pub open spec fn is_wac_path(path: Seq<char>) -> bool {
    match file_name_of(path) {
        Some(n) => extension_of(n) == Some(seq!['w', 'a', 'c']),
        None => false,
    }
}

/// The stem of a `.wac` path: its file name without the extension.
pub open spec fn wac_stem(path: Seq<char>) -> Seq<char> {
    stem_of(file_name_of(path)->0)
}

/// The stems of the `.wac` files among `paths`, in order.
pub open spec fn wac_stems(paths: Seq<String>) -> Seq<Seq<char>>
    decreases paths.len(),
{
    if paths.len() == 0 {
        Seq::empty()
    } else {
        let rest = wac_stems(paths.drop_last());
        if is_wac_path(paths.last()@) {
            rest.push(wac_stem(paths.last()@))
        } else {
            rest
        }
    }
}

/// The `.wac` files among `paths`, in order.
pub open spec fn wac_files(paths: Seq<String>) -> Seq<Seq<char>>
    decreases paths.len(),
{
    if paths.len() == 0 {
        Seq::empty()
    } else {
        let rest = wac_files(paths.drop_last());
        if is_wac_path(paths.last()@) {
            rest.push(paths.last()@)
        } else {
            rest
        }
    }
}

fn is_wac(path: &str) -> (r: bool)
    ensures
        r == is_wac_path(path@),
{
    proof {
        reveal_strlit("wac");
        assert("wac"@ =~= seq!['w', 'a', 'c']);
    }
    match crate::detector::file_name_and_extension(path) {
        Some((_, Some(e))) => str_eq(e, "wac"),
        _ => false,
    }
}

fn stem(path: &str) -> (r: String)
    requires
        is_wac_path(path@),
    ensures
        r@ == wac_stem(path@),
{
    match crate::detector::file_name_and_extension(path) {
        Some((n, _)) => {
            let i = rfind_char(n, '.');
            match i {
                Some(k) => to_owned(slice(n, 0, k)),
                None => to_owned(n),
            }
        },
        None => String::new(),
    }
}

/// The `.wac` files among the entries of `seams/`, in the order given.
pub fn select_wac_files(paths: &Vec<String>) -> (r: Vec<String>)
    ensures
        r@.map_values(|s: String| s@) == wac_files(paths@),
{
    let mut out: Vec<String> = Vec::new();
    let mut i: usize = 0;
    while i < paths.len()
        invariant
            i <= paths.len(),
            out@.map_values(|s: String| s@) == wac_files(paths@.take(i as int)),
        decreases paths.len() - i,
    {
        assert(paths@.take(i + 1).drop_last() =~= paths@.take(i as int));
        let ghost before = out@.map_values(|s: String| s@);
        if is_wac(paths[i].as_str()) {
            out.push(paths[i].clone());
            assert(out@.map_values(|s: String| s@) =~= before.push(paths@[i as int]@));
        }
        i = i + 1;
    }
    assert(paths@.take(paths.len() as int) =~= paths@);
    out
}

/// The stems of the `.wac` files among the entries of `seams/`, in the
/// order given.
pub fn available_wac_stems(paths: &Vec<String>) -> (r: Vec<String>)
    ensures
        r@.map_values(|s: String| s@) == wac_stems(paths@),
{
    let mut out: Vec<String> = Vec::new();
    let mut i: usize = 0;
    while i < paths.len()
        invariant
            i <= paths.len(),
            out@.map_values(|s: String| s@) == wac_stems(paths@.take(i as int)),
        decreases paths.len() - i,
    {
        assert(paths@.take(i + 1).drop_last() =~= paths@.take(i as int));
        let ghost before = out@.map_values(|s: String| s@);
        if is_wac(paths[i].as_str()) {
            let s = stem(paths[i].as_str());
            out.push(s);
            assert(out@.map_values(|s: String| s@) =~= before.push(wac_stem(paths@[i as int]@)));
        }
        i = i + 1;
    }
    assert(paths@.take(paths.len() as int) =~= paths@);
    out
}

/// The `.wac` files to compose when no name is given: those among the
/// entries of `seams/`, sorted.
pub fn wac_files_to_compose(paths: &Vec<String>) -> (r: Vec<String>)
    ensures
        sorted_texts(r@),
        exists|u: Seq<String>| #[trigger] u.to_multiset() == r@.to_multiset() && u.map_values(|s: String| s@) == wac_files(paths@),
{
    let files = select_wac_files(paths);
    let ghost u = files@;
    let r = sort_texts(files);
    assert(u.to_multiset() == r@.to_multiset() && u.map_values(|s: String| s@) == wac_files(paths@));
    r
}

/// The names of the available `.wac` files (their stems), sorted.
pub fn list_available_wac_files(paths: &Vec<String>) -> (r: Vec<String>)
    ensures
        sorted_texts(r@),
        exists|u: Seq<String>| #[trigger] u.to_multiset() == r@.to_multiset() && u.map_values(|s: String| s@) == wac_stems(paths@),
{
    let stems = available_wac_stems(paths);
    let ghost u = stems@;
    let r = sort_texts(stems);
    assert(u.to_multiset() == r@.to_multiset() && u.map_values(|s: String| s@) == wac_stems(paths@));
    r
}

/// The lines listing the available files: `  - NAME` each, joined by newlines.
pub open spec fn listing(names: Seq<String>) -> Seq<char>
    decreases names.len(),
{
    if names.len() == 0 {
        Seq::empty()
    } else if names.len() == 1 {
        "  - "@ + names[0]@
    } else {
        listing(names.drop_last()) + "\n"@ + "  - "@ + names.last()@
    }
}

/// The message for a composition name whose `.wac` file does not exist,
/// listing the available ones.
pub open spec fn not_found_message(name: Seq<char>, available: Seq<String>) -> Seq<char> {
    if available.len() == 0 {
        "WAC file 'seams/"@ + name + ".wac' not found and no .wac files exist in `seams/`"@
    } else {
        "WAC file 'seams/"@ + name + ".wac' not found. Available WAC files:\n"@ + listing(available)
    }
}

/// The message for a composition name whose `.wac` file does not exist.
pub fn wac_not_found_message(name: &str, available: &Vec<String>) -> (r: String)
    ensures
        r@ == not_found_message(name@, available@),
{
    if available.len() == 0 {
        return concat3("WAC file 'seams/", name, ".wac' not found and no .wac files exist in `seams/`");
    }
    let mut list = String::new();
    let mut i: usize = 0;
    while i < available.len()
        invariant
            0 < available.len(),
            i <= available.len(),
            list@ == listing(available@.take(i as int)),
        decreases available.len() - i,
    {
        assert(available@.take(i + 1).drop_last() =~= available@.take(i as int));
        assert(available@.take(i + 1).last() == available@[i as int]);
        if i == 0 {
            list = concat2("  - ", available[i].as_str());
        } else {
            let with_break = concat2(list.as_str(), "\n");
            let item = concat2("  - ", available[i].as_str());
            list = concat2(with_break.as_str(), item.as_str());
        }
        i = i + 1;
    }
    assert(available@.take(available.len() as int) =~= available@);
    let head = concat3("WAC file 'seams/", name, ".wac' not found. Available WAC files:\n");
    concat2(head.as_str(), list.as_str())
}

/// Where the component composed from a `.wac` file is written:
/// `OUTPUT/STEM.wasm`, with `composed` as the stem when the file has none.
pub open spec fn output_path_of(output: Seq<char>, stem: Option<Seq<char>>) -> Seq<char> {
    joined(
        output,
        match stem {
            Some(s) => s,
            None => "composed"@,
        } + ".wasm"@,
    )
}

/// The path the composed component is written to.
pub fn output_path(output: &str, stem: Option<&str>) -> (r: String)
    ensures
        r@ == output_path_of(
            output@,
            match stem {
                Some(s) => Some(s@),
                None => None,
            },
        ),
{
    let file = match stem {
        Some(s) => concat2(s, ".wasm"),
        None => concat2("composed", ".wasm"),
    };
    join_path(output, file.as_str())
}

} // verus!
