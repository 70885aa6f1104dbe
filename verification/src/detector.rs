//! Detection of local `.wasm` files in a repository: a main walk that
//! respects `.gitignore`, merged with walks of the well-known output
//! directories that are usually ignored (`pkg/`, `dist/`, `target/wasm32-*`).
//!
//! Walking the disk is left to the caller; this module decides which
//! directories to walk, which walked entries are WebAssembly files, and how
//! the walks merge.
use vstd::prelude::*;
use crate::text::{concat2, concat3, has_prefix, rfind_char, rsplit_once, rsplit_once_char, slice, starts_with, str_eq, to_owned, last_pos};

verus! {

/// Declares `ignore::Error`, the error of a directory walk.
#[verifier::external_type_specification]
#[verifier::external_body]
pub struct ExIgnoreError(ignore::Error);

/// The directory a well-known output directory name is looked for in.
pub const PKG_DIR: &'static str = "pkg";

/// The JavaScript/jco output directory.
pub const DIST_DIR: &'static str = "dist";

/// The Rust build directory, scanned for `wasm32-*` subdirectories.
pub const TARGET_DIR: &'static str = "target";

/// The prefix of the Rust target directories that hold wasm output.
pub const TARGET_WASM_PREFIX: &'static str = "wasm32-";

/// The last component of a path that is neither empty nor `.`, if any.
pub open spec fn last_component(s: Seq<char>) -> Option<Seq<char>>
    decreases s.len(),
{
    match rsplit_once(s, '/') {
        None => if s.len() == 0 || s == seq!['.'] {
            None
        } else {
            Some(s)
        },
        Some((before, last)) => if last.len() == 0 || last == seq!['.'] {
            if before.len() < s.len() {
                last_component(before)
            } else {
                None
            }
        } else {
            Some(last)
        },
    }
}

/// The file name of a path, as `Path::file_name` gives it: its last normal
/// component; none when the path ends in `..` or has no component.
pub open spec fn file_name_of(s: Seq<char>) -> Option<Seq<char>> {
    match last_component(s) {
        Some(c) => if c == seq!['.', '.'] {
            None
        } else {
            Some(c)
        },
        None => None,
    }
}

/// The extension of a file name, as `Path::extension` gives it: what follows
/// its last `.`, unless that `.` is its first character.
pub open spec fn extension_of(name: Seq<char>) -> Option<Seq<char>> {
    if name == seq!['.', '.'] || !name.contains('.') || last_pos(name, '.') == 0 {
        None
    } else {
        Some(name.skip(last_pos(name, '.') + 1))
    }
}

/// The path names a `.wasm` file.
pub open spec fn is_wasm_path(path: Seq<char>) -> bool {
    match file_name_of(path) {
        Some(n) => extension_of(n) == Some(seq!['w', 'a', 's', 'm']),
        None => false,
    }
}

/// `name` under `root`, as `Path::join` gives it for a relative `name`.
pub open spec fn joined(root: Seq<char>, name: Seq<char>) -> Seq<char> {
    if root.len() == 0 {
        name
    } else if root.last() == '/' {
        root + name
    } else {
        root + seq!['/'] + name
    }
}

fn file_name_str(path: &str) -> (r: Option<&str>)
    ensures
        match r {
            Some(n) => file_name_of(path@) == Some(n@),
            None => file_name_of(path@) is None,
        },
{
    let mut cur = path;
    loop
        invariant
            last_component(cur@) == last_component(path@),
        decreases cur@.len(),
    {
        match rsplit_once_char(cur, '/') {
            None => {
                proof {
                    reveal_strlit(".");
                    assert("."@ =~= seq!['.']);
                }
                let n = cur.unicode_len();
                if n == 0 || str_eq(cur, ".") {
                    return None;
                }
                return finish_name(cur, path);
            },
            Some((before, last)) => {
                proof {
                    reveal_strlit(".");
                    assert("."@ =~= seq!['.']);
                }
                if last.unicode_len() == 0 || str_eq(last, ".") {
                    if before.unicode_len() < cur.unicode_len() {
                        cur = before;
                    } else {
                        return None;
                    }
                } else {
                    return finish_name(last, path);
                }
            },
        }
    }
}

fn finish_name<'a>(c: &'a str, path: &str) -> (r: Option<&'a str>)
    requires
        last_component(path@) == Some(c@),
    ensures
        match r {
            Some(n) => file_name_of(path@) == Some(n@),
            None => file_name_of(path@) is None,
        },
{
    proof {
        reveal_strlit("..");
        assert(".."@ =~= seq!['.', '.']);
    }
    if str_eq(c, "..") {
        None
    } else {
        Some(c)
    }
}

fn extension_str(name: &str) -> (r: Option<&str>)
    ensures
        match r {
            Some(e) => extension_of(name@) == Some(e@),
            None => extension_of(name@) is None,
        },
{
    proof {
        reveal_strlit("..");
        assert(".."@ =~= seq!['.', '.']);
    }
    if str_eq(name, "..") {
        return None;
    }
    let n = name.unicode_len();
    match rfind_char(name, '.') {
        None => None,
        Some(0) => None,
        Some(i) => {
            let e = slice(name, i + 1, n);
            assert(e@ =~= name@.skip(i + 1));
            Some(e)
        },
    }
}

/// The file name of `path` and the file name's extension, if it has a
/// file name.
pub fn file_name_and_extension(path: &str) -> (r: Option<(&str, Option<&str>)>)
    ensures
        match r {
            Some((n, e)) => file_name_of(path@) == Some(n@) && match e {
                Some(x) => extension_of(n@) == Some(x@),
                None => extension_of(n@) is None,
            },
            None => file_name_of(path@) is None,
        },
{
    match file_name_str(path) {
        Some(n) => Some((n, extension_str(n))),
        None => None,
    }
}

/// Whether `path` names a `.wasm` file.
pub fn is_wasm_file(path: &str) -> (r: bool)
    ensures
        r == is_wasm_path(path@),
{
    proof {
        reveal_strlit("wasm");
        assert("wasm"@ =~= seq!['w', 'a', 's', 'm']);
    }
    match file_name_str(path) {
        Some(n) => match extension_str(n) {
            Some(e) => str_eq(e, "wasm"),
            None => false,
        },
        None => false,
    }
}

/// `name` under `root`.
pub fn join_path(root: &str, name: &str) -> (r: String)
    ensures
        r@ == joined(root@, name@),
{
    proof {
        reveal_strlit("/");
    }
    let n = root.unicode_len();
    if n == 0 {
        to_owned(name)
    } else if root.get_char(n - 1) == '/' {
        concat2(root, name)
    } else {
        concat3(root, "/", name)
    }
}

/// A discovered WebAssembly file entry.
#[derive(Debug, Clone)]
pub struct WasmEntry {
    path: String,
}

impl View for WasmEntry {
    type V = Seq<char>;

    closed spec fn view(&self) -> Seq<char> {
        self.path@
    }
}

impl WasmEntry {
    /// Create a new WasmEntry from a path.
    pub fn new(path: String) -> (r: Self)
        ensures
            r@ == path@,
    {
        WasmEntry { path }
    }

    /// Returns the path to the `.wasm` file.
    pub fn path(&self) -> (r: &str)
        ensures
            r@ == self@,
    {
        self.path.as_str()
    }

    /// Returns the file name of the `.wasm` file.
    pub fn file_name(&self) -> (r: Option<&str>)
        ensures
            match r {
                Some(n) => file_name_of(self@) == Some(n@),
                None => file_name_of(self@) is None,
            },
    {
        file_name_str(self.path.as_str())
    }

    /// Consumes the entry and returns the underlying path.
    pub fn into_path(self) -> (r: String)
        ensures
            r@ == self@,
    {
        self.path
    }
}

/// One entry that a directory walk yielded.
#[derive(Debug)]
pub enum WalkEntry {
    /// A path, and whether it is a regular file.
    Found {
        /// The path walked to.
        path: String,
        /// Whether the path is a regular file.
        is_file: bool,
    },
    /// The walk failed here.
    Failed(ignore::Error),
}

/// An entry of the `target` directory, and whether it is a directory.
#[derive(Debug, Clone)]
pub struct DirEntryInfo {
    /// The entry's path.
    pub path: String,
    /// Whether it is a directory.
    pub is_dir: bool,
}

/// A detector that finds `.wasm` files in a directory tree.
///
/// The detector:
/// - Respects `.gitignore` rules by default
/// - Automatically includes well-known `.wasm` locations that are typically ignored
#[derive(Debug, Clone)]
pub struct WasmDetector {
    root: String,
    include_hidden: bool,
    follow_symlinks: bool,
}

/// The settings of a detector.
pub struct DetectorView {
    /// The directory searched from.
    pub root: Seq<char>,
    /// Whether hidden files and directories are included.
    pub include_hidden: bool,
    /// Whether symbolic links are followed.
    pub follow_symlinks: bool,
}

impl View for WasmDetector {
    type V = DetectorView;

    closed spec fn view(&self) -> DetectorView {
        DetectorView {
            root: self.root@,
            include_hidden: self.include_hidden,
            follow_symlinks: self.follow_symlinks,
        }
    }
}

/// The paths of the walked entries that are `.wasm` files, in walk order.
pub open spec fn wasm_files(items: Seq<WalkEntry>) -> Seq<Seq<char>>
    decreases items.len(),
{
    if items.len() == 0 {
        Seq::empty()
    } else {
        let rest = wasm_files(items.drop_last());
        match items.last() {
            WalkEntry::Found { path, is_file } => if is_file && is_wasm_path(path@) {
                rest.push(path@)
            } else {
                rest
            },
            WalkEntry::Failed(_) => rest,
        }
    }
}

/// The first failure among the walked entries, if any.
pub open spec fn first_failure(items: Seq<WalkEntry>) -> Option<ignore::Error>
    decreases items.len(),
{
    if items.len() == 0 {
        None
    } else {
        match items[0] {
            WalkEntry::Failed(e) => Some(e),
            _ => first_failure(items.drop_first()),
        }
    }
}

/// The first failure of the walks, taken in order.
pub open spec fn first_walk_failure(walks: Seq<Vec<WalkEntry>>) -> Option<ignore::Error>
    decreases walks.len(),
{
    if walks.len() == 0 {
        None
    } else {
        match first_failure(walks[0]@) {
            Some(e) => Some(e),
            None => first_walk_failure(walks.drop_first()),
        }
    }
}

/// The `.wasm` files of the walks, taken in order.
pub open spec fn walks_files(walks: Seq<Vec<WalkEntry>>) -> Seq<Seq<char>>
    decreases walks.len(),
{
    if walks.len() == 0 {
        Seq::empty()
    } else {
        walks_files(walks.drop_last()) + wasm_files(walks.last()@)
    }
}

/// `new` with what `seen` or an earlier entry of `new` already holds left out.
pub open spec fn unseen(seen: Seq<Seq<char>>, new: Seq<Seq<char>>) -> Seq<Seq<char>>
    decreases new.len(),
{
    if new.len() == 0 {
        Seq::empty()
    } else {
        let kept = unseen(seen, new.drop_last());
        if seen.contains(new.last()) || kept.contains(new.last()) {
            kept
        } else {
            kept.push(new.last())
        }
    }
}

/// What detection gives: the first walk failure, or the `.wasm` files of
/// the main walk followed by those of the well-known walks not found before.
pub open spec fn detected(main: Seq<WalkEntry>, well_known: Seq<Vec<WalkEntry>>) -> Result<Seq<Seq<char>>, ignore::Error> {
    match first_failure(main) {
        Some(e) => Err(e),
        None => match first_walk_failure(well_known) {
            Some(e) => Err(e),
            None => Ok(wasm_files(main) + unseen(wasm_files(main), walks_files(well_known))),
        },
    }
}

proof fn lemma_first_failure_at(items: Seq<WalkEntry>, i: int)
    requires
        0 <= i <= items.len(),
        forall|k: int| 0 <= k < i ==> !(#[trigger] items[k] is Failed),
    ensures
        first_failure(items) == first_failure(items.skip(i)),
    decreases i,
{
    if i > 0 {
        assert(items.skip(1) =~= items.drop_first());
        lemma_first_failure_at(items.drop_first(), i - 1);
        assert(items.drop_first().skip(i - 1) =~= items.skip(i));
    } else {
        assert(items.skip(0) =~= items);
    }
}

proof fn lemma_first_walk_failure_at(walks: Seq<Vec<WalkEntry>>, j: int)
    requires
        0 <= j <= walks.len(),
        forall|k: int| 0 <= k < j ==> first_failure((#[trigger] walks[k])@) is None,
    ensures
        first_walk_failure(walks) == first_walk_failure(walks.skip(j)),
    decreases j,
{
    if j > 0 {
        lemma_first_walk_failure_at(walks.drop_first(), j - 1);
        assert(walks.drop_first().skip(j - 1) =~= walks.skip(j));
    } else {
        assert(walks.skip(0) =~= walks);
    }
}

fn first_failed_index(items: &Vec<WalkEntry>) -> (r: Option<usize>)
    ensures
        match r {
            Some(i) => i < items@.len() && items@[i as int] is Failed && first_failure(items@) == Some(
                items@[i as int]->Failed_0,
            ),
            None => first_failure(items@) is None,
        },
{
    let mut i: usize = 0;
    while i < items.len()
        invariant
            i <= items.len(),
            forall|k: int| 0 <= k < i ==> !(#[trigger] items@[k] is Failed),
        decreases items.len() - i,
    {
        match &items[i] {
            WalkEntry::Failed(_) => {
                proof {
                    lemma_first_failure_at(items@, i as int);
                    assert(items@.skip(i as int)[0] == items@[i as int]);
                }
                return Some(i);
            },
            _ => {},
        }
        i = i + 1;
    }
    proof {
        lemma_first_failure_at(items@, i as int);
    }
    None
}

fn contains_path(v: &Vec<WasmEntry>, p: &str) -> (r: bool)
    ensures
        r == entry_paths(v@).contains(p@),
{
    let ghost paths = entry_paths(v@);
    let mut i: usize = 0;
    while i < v.len()
        invariant
            i <= v.len(),
            paths == entry_paths(v@),
            forall|k: int| 0 <= k < i ==> paths[k] != p@,
        decreases v.len() - i,
    {
        if str_eq(v[i].path(), p) {
            assert(paths[i as int] == p@);
            return true;
        }
        i = i + 1;
    }
    false
}

/// The paths of the entries.
pub open spec fn entry_paths(v: Seq<WasmEntry>) -> Seq<Seq<char>> {
    v.map_values(|e: WasmEntry| e@)
}

proof fn lemma_contains_concat(a: Seq<Seq<char>>, b: Seq<Seq<char>>, x: Seq<char>)
    ensures
        (a + b).contains(x) == (a.contains(x) || b.contains(x)),
{
    if (a + b).contains(x) {
        let i = choose|i: int| 0 <= i < (a + b).len() && (a + b)[i] == x;
        if i < a.len() {
            assert(a[i] == x);
        } else {
            assert(b[i - a.len()] == x);
        }
    }
    if a.contains(x) {
        let i = choose|i: int| 0 <= i < a.len() && a[i] == x;
        assert((a + b)[i] == x);
    }
    if b.contains(x) {
        let i = choose|i: int| 0 <= i < b.len() && b[i] == x;
        assert((a + b)[a.len() + i] == x);
    }
}

/// The `.wasm` file an entry names, if it names one.
pub open spec fn entry_file(e: WalkEntry) -> Seq<Seq<char>> {
    match e {
        WalkEntry::Found { path, is_file } => if is_file && is_wasm_path(path@) {
            seq![path@]
        } else {
            Seq::empty()
        },
        WalkEntry::Failed(_) => Seq::empty(),
    }
}

proof fn lemma_wasm_files_step(items: Seq<WalkEntry>, k: int)
    requires
        0 <= k < items.len(),
    ensures
        wasm_files(items.take(k + 1)) == wasm_files(items.take(k)) + entry_file(items[k]),
{
    assert(items.take(k + 1).drop_last() =~= items.take(k));
    assert(items.take(k + 1).last() == items[k]);
    assert(wasm_files(items.take(k)) + Seq::<Seq<char>>::empty() =~= wasm_files(items.take(k)));
}

/// Appends the file `e` names to `out` unless `out` already holds it.
fn add_entry_file(e: &WalkEntry, out: &mut Vec<WasmEntry>, m: Ghost<Seq<Seq<char>>>, before: Ghost<Seq<Seq<char>>>)
    requires
        entry_paths(old(out)@) == m@ + unseen(m@, before@),
    ensures
        entry_paths(final(out)@) == m@ + unseen(m@, before@ + entry_file(*e)),
{
    match e {
        WalkEntry::Found { path, is_file } => {
            if *is_file && is_wasm_file(path.as_str()) {
                let ghost now = before@ + entry_file(*e);
                assert(now =~= before@.push(path@));
                assert(now.drop_last() =~= before@);
                proof {
                    lemma_contains_concat(m@, unseen(m@, before@), path@);
                }
                if !contains_path(out, path.as_str()) {
                    let ghost old_paths = entry_paths(out@);
                    out.push(WasmEntry::new(path.clone()));
                    assert(entry_paths(out@) =~= old_paths.push(path@));
                    assert(entry_paths(out@) =~= m@ + unseen(m@, before@).push(path@));
                }
            } else {
                assert(before@ + entry_file(*e) =~= before@);
            }
        },
        WalkEntry::Failed(_) => {
            assert(before@ + entry_file(*e) =~= before@);
        },
    }
}

/// Appends the `.wasm` files of one well-known walk to `out`, each only when
/// `out` does not hold it yet.
fn add_walk_files(items: &Vec<WalkEntry>, out: &mut Vec<WasmEntry>, m: Ghost<Seq<Seq<char>>>, prior: Ghost<Seq<Seq<char>>>)
    requires
        entry_paths(old(out)@) == m@ + unseen(m@, prior@),
    ensures
        entry_paths(final(out)@) == m@ + unseen(m@, prior@ + wasm_files(items@)),
{
    let mut k: usize = 0;
    assert(prior@ + wasm_files(items@.take(0)) =~= prior@);
    while k < items.len()
        invariant
            k <= items.len(),
            entry_paths(out@) == m@ + unseen(m@, prior@ + wasm_files(items@.take(k as int))),
        decreases items.len() - k,
    {
        proof {
            lemma_wasm_files_step(items@, k as int);
            assert(prior@ + wasm_files(items@.take(k + 1)) =~= (prior@ + wasm_files(items@.take(k as int)))
                + entry_file(items@[k as int]));
        }
        add_entry_file(&items[k], out, m, Ghost(prior@ + wasm_files(items@.take(k as int))));
        k = k + 1;
    }
    assert(items@.take(items.len() as int) =~= items@);
}

/// The position of the first failure of the walks, taken in order.
fn first_failed_walk(walks: &Vec<Vec<WalkEntry>>) -> (r: Option<(usize, usize)>)
    ensures
        match r {
            Some((j, k)) => j < walks@.len() && k < walks@[j as int]@.len() && walks@[j as int]@[k as int] is Failed
                && first_walk_failure(walks@) == Some(walks@[j as int]@[k as int]->Failed_0),
            None => first_walk_failure(walks@) is None,
        },
{
    let mut j: usize = 0;
    while j < walks.len()
        invariant
            j <= walks.len(),
            forall|k: int| 0 <= k < j ==> first_failure((#[trigger] walks@[k])@) is None,
        decreases walks.len() - j,
    {
        match first_failed_index(&walks[j]) {
            Some(k) => {
                proof {
                    lemma_first_walk_failure_at(walks@, j as int);
                    assert(walks@.skip(j as int)[0] == walks@[j as int]);
                }
                return Some((j, k));
            },
            None => {},
        }
        j = j + 1;
    }
    proof {
        lemma_first_walk_failure_at(walks@, j as int);
    }
    None
}

/// The `.wasm` files of the main walk.
fn main_files(items: &Vec<WalkEntry>) -> (out: Vec<WasmEntry>)
    ensures
        entry_paths(out@) == wasm_files(items@),
{
    let mut out: Vec<WasmEntry> = Vec::new();
    let mut k: usize = 0;
    while k < items.len()
        invariant
            k <= items.len(),
            entry_paths(out@) == wasm_files(items@.take(k as int)),
        decreases items.len() - k,
    {
        assert(items@.take(k + 1).drop_last() =~= items@.take(k as int));
        match &items[k] {
            WalkEntry::Found { path, is_file } => {
                if *is_file && is_wasm_file(path.as_str()) {
                    let ghost old_paths = entry_paths(out@);
                    out.push(WasmEntry::new(path.clone()));
                    assert(entry_paths(out@) =~= old_paths.push(path@));
                    assert(entry_paths(out@) =~= wasm_files(items@.take(k + 1)));
                }
            },
            WalkEntry::Failed(_) => {},
        }
        k = k + 1;
    }
    assert(items@.take(items.len() as int) =~= items@);
    out
}

/// The `.wasm` files of the main walk, then those of the well-known walks
/// not found before.
fn collect_files(main: &Vec<WalkEntry>, well_known: &Vec<Vec<WalkEntry>>) -> (out: Vec<WasmEntry>)
    ensures
        entry_paths(out@) == wasm_files(main@) + unseen(wasm_files(main@), walks_files(well_known@)),
{
    let mut out = main_files(main);
    let ghost m = wasm_files(main@);
    assert(entry_paths(out@) =~= m + unseen(m, Seq::empty()));
    let mut j: usize = 0;
    while j < well_known.len()
        invariant
            j <= well_known.len(),
            m == wasm_files(main@),
            entry_paths(out@) == m + unseen(m, walks_files(well_known@.take(j as int))),
        decreases well_known.len() - j,
    {
        assert(well_known@.take(j + 1).drop_last() =~= well_known@.take(j as int));
        add_walk_files(&well_known[j], &mut out, Ghost(m), Ghost(walks_files(well_known@.take(j as int))));
        j = j + 1;
    }
    assert(well_known@.take(well_known.len() as int) =~= well_known@);
    out
}

impl WasmDetector {
    /// Create a new detector that will search from the given root directory.
    pub fn new(root: &str) -> (r: Self)
        ensures
            r@.root == root@,
            !r@.include_hidden,
            !r@.follow_symlinks,
    {
        WasmDetector { root: to_owned(root), include_hidden: false, follow_symlinks: false }
    }

    /// Set whether to include hidden files and directories.
    ///
    /// By default, hidden files are excluded.
    pub fn include_hidden(self, enabled: bool) -> (r: Self)
        ensures
            r@ == (DetectorView { include_hidden: enabled, ..self@ }),
    {
        WasmDetector { include_hidden: enabled, ..self }
    }

    /// Set whether to follow symbolic links.
    ///
    /// By default, symbolic links are not followed.
    pub fn follow_symlinks(self, follow: bool) -> (r: Self)
        ensures
            r@ == (DetectorView { follow_symlinks: follow, ..self@ }),
    {
        WasmDetector { follow_symlinks: follow, ..self }
    }

    /// The directory searched from.
    pub fn root(&self) -> (r: &str)
        ensures
            r@ == self@.root,
    {
        self.root.as_str()
    }

    /// Whether hidden files and directories are walked.
    pub fn hidden_included(&self) -> (r: bool)
        ensures
            r == self@.include_hidden,
    {
        self.include_hidden
    }

    /// Whether symbolic links are followed.
    pub fn symlinks_followed(&self) -> (r: bool)
        ensures
            r == self@.follow_symlinks,
    {
        self.follow_symlinks
    }

    /// The paths of `pkg/`, `dist/` and `target/` under the root, in that order.
    pub fn well_known_candidates(&self) -> (r: (String, String, String))
        ensures
            r.0@ == joined(self@.root, PKG_DIR@),
            r.1@ == joined(self@.root, DIST_DIR@),
            r.2@ == joined(self@.root, TARGET_DIR@),
    {
        (
            join_path(self.root.as_str(), PKG_DIR),
            join_path(self.root.as_str(), DIST_DIR),
            join_path(self.root.as_str(), TARGET_DIR),
        )
    }

    /// The well-known directories to walk: `pkg/` and `dist/` under the root
    /// where they are directories, then the directories of `target/` whose
    /// name starts with `wasm32-`, in the order `target_entries` lists them.
    pub fn find_well_known_dirs(
        &self,
        pkg_is_dir: bool,
        dist_is_dir: bool,
        target_entries: &Vec<DirEntryInfo>,
    ) -> (r: Vec<String>)
        ensures
            r@.map_values(|s: String| s@) == well_known_dirs(self@.root, pkg_is_dir, dist_is_dir, target_entries@),
    {
        let mut dirs: Vec<String> = Vec::new();
        if pkg_is_dir {
            dirs.push(join_path(self.root.as_str(), PKG_DIR));
        }
        if dist_is_dir {
            dirs.push(join_path(self.root.as_str(), DIST_DIR));
        }
        let ghost head = dirs@.map_values(|s: String| s@);
        let mut i: usize = 0;
        while i < target_entries.len()
            invariant
                i <= target_entries.len(),
                dirs@.map_values(|s: String| s@) == head + wasm_target_dirs(target_entries@.take(i as int)),
            decreases target_entries.len() - i,
        {
            let e = &target_entries[i];
            assert(target_entries@.take(i + 1).drop_last() =~= target_entries@.take(i as int));
            let ghost old_dirs = dirs@.map_values(|s: String| s@);
            if e.is_dir && is_wasm_target_dir(e.path.as_str()) {
                dirs.push(e.path.clone());
                assert(dirs@.map_values(|s: String| s@) =~= old_dirs.push(e.path@));
            } else {
                assert(dirs@.map_values(|s: String| s@) =~= old_dirs);
            }
            proof {
                assert(dirs@.map_values(|s: String| s@) =~= head + wasm_target_dirs(target_entries@.take(i + 1)));
            }
            i = i + 1;
        }
        assert(target_entries@.take(target_entries.len() as int) =~= target_entries@);
        proof {
            let want = well_known_dirs(self@.root, pkg_is_dir, dist_is_dir, target_entries@);
            assert(dirs@.map_values(|s: String| s@) =~= want);
        }
        dirs
    }

    /// Detect `.wasm` files from the results of the walks: `main` from the
    /// root, respecting `.gitignore`, and one walk per well-known directory,
    /// not respecting it. Gives the first walk failure, or the files.
    pub fn detect(&self, main: Vec<WalkEntry>, well_known: Vec<Vec<WalkEntry>>) -> (r: Result<Vec<WasmEntry>, ignore::Error>)
        ensures
            match r {
                Ok(v) => detected(main@, well_known@) == Ok::<Seq<Seq<char>>, ignore::Error>(entry_paths(v@)),
                Err(e) => detected(main@, well_known@) == Err::<Seq<Seq<char>>, ignore::Error>(e),
            },
    {
        match first_failed_index(&main) {
            Some(i) => {
                let mut m = main;
                match m.remove(i) {
                    WalkEntry::Failed(e) => {
                        return Err(e);
                    },
                    _ => {
                        return Ok(Vec::new());
                    },
                }
            },
            None => {},
        }
        match first_failed_walk(&well_known) {
            Some((j, k)) => {
                let mut w = well_known;
                let mut walk = w.remove(j);
                match walk.remove(k) {
                    WalkEntry::Failed(e) => {
                        return Err(e);
                    },
                    _ => {
                        return Ok(Vec::new());
                    },
                }
            },
            None => {},
        }
        Ok(collect_files(&main, &well_known))
    }
}

/// The `wasm32-*` directories among the entries of `target/`.
pub open spec fn wasm_target_dirs(entries: Seq<DirEntryInfo>) -> Seq<Seq<char>>
    decreases entries.len(),
{
    if entries.len() == 0 {
        Seq::empty()
    } else {
        let rest = wasm_target_dirs(entries.drop_last());
        let e = entries.last();
        if e.is_dir && is_wasm_target_name(e.path@) {
            rest.push(e.path@)
        } else {
            rest
        }
    }
}

/// The path's file name starts with `wasm32-`.
pub open spec fn is_wasm_target_name(path: Seq<char>) -> bool {
    match file_name_of(path) {
        Some(n) => has_prefix(n, TARGET_WASM_PREFIX@),
        None => false,
    }
}

fn is_wasm_target_dir(path: &str) -> (r: bool)
    ensures
        r == is_wasm_target_name(path@),
{
    match file_name_str(path) {
        Some(n) => starts_with(n, TARGET_WASM_PREFIX),
        None => false,
    }
}

/// The well-known directories to walk.
pub open spec fn well_known_dirs(root: Seq<char>, pkg: bool, dist: bool, target: Seq<DirEntryInfo>) -> Seq<Seq<char>> {
    (if pkg {
        seq![joined(root, PKG_DIR@)]
    } else {
        Seq::empty()
    }) + (if dist {
        seq![joined(root, DIST_DIR@)]
    } else {
        Seq::empty()
    }) + wasm_target_dirs(target)
}

proof fn lemma_unseen(seen: Seq<Seq<char>>, new: Seq<Seq<char>>)
    ensures
        forall|i: int| 0 <= i < unseen(seen, new).len() ==> new.contains(#[trigger] unseen(seen, new)[i]) && !seen.contains(unseen(seen, new)[i]),
        forall|i: int, j: int| 0 <= i < j < unseen(seen, new).len() ==> unseen(seen, new)[i] != unseen(seen, new)[j],
        forall|x: Seq<char>| #[trigger] new.contains(x) ==> seen.contains(x) || unseen(seen, new).contains(x),
    decreases new.len(),
{
    if new.len() > 0 {
        let prev = new.drop_last();
        lemma_unseen(seen, prev);
        let kept = unseen(seen, prev);
        assert forall|x: Seq<char>| #[trigger] prev.contains(x) implies new.contains(x) by {
            let i = choose|i: int| 0 <= i < prev.len() && prev[i] == x;
            assert(new[i] == x);
        }
        assert forall|x: Seq<char>| #[trigger] new.contains(x) implies seen.contains(x) || unseen(seen, new).contains(x) by {
            let i = choose|i: int| 0 <= i < new.len() && new[i] == x;
            if i < new.len() - 1 {
                assert(prev[i] == x);
                assert(prev.contains(x));
                if kept.contains(x) {
                    let k = choose|k: int| 0 <= k < kept.len() && kept[k] == x;
                    assert(unseen(seen, new)[k] == x);
                }
            } else {
                if !seen.contains(x) && !kept.contains(x) {
                    assert(unseen(seen, new)[kept.len() as int] == x);
                }
            }
        }
        assert(new.contains(new.last()) ) by {
            assert(new[new.len() - 1] == new.last());
        }
    }
}

proof fn lemma_wasm_files_are_wasm(items: Seq<WalkEntry>)
    ensures
        forall|i: int| 0 <= i < wasm_files(items).len() ==> is_wasm_path(#[trigger] wasm_files(items)[i]),
    decreases items.len(),
{
    if items.len() > 0 {
        let rest = wasm_files(items.drop_last());
        lemma_wasm_files_are_wasm(items.drop_last());
        assert forall|i: int| 0 <= i < wasm_files(items).len() implies is_wasm_path(#[trigger] wasm_files(items)[i]) by {
            if i < rest.len() {
                assert(wasm_files(items)[i] == rest[i]);
            }
        }
    }
}

proof fn lemma_walks_files_are_wasm(walks: Seq<Vec<WalkEntry>>)
    ensures
        forall|i: int| 0 <= i < walks_files(walks).len() ==> is_wasm_path(#[trigger] walks_files(walks)[i]),
    decreases walks.len(),
{
    if walks.len() > 0 {
        lemma_walks_files_are_wasm(walks.drop_last());
        lemma_wasm_files_are_wasm(walks.last()@);
        let a = walks_files(walks.drop_last());
        let b = wasm_files(walks.last()@);
        assert forall|i: int| 0 <= i < walks_files(walks).len() implies is_wasm_path(#[trigger] walks_files(walks)[i]) by {
            if i < a.len() {
                assert(walks_files(walks)[i] == a[i]);
            } else {
                assert(walks_files(walks)[i] == b[i - a.len()]);
            }
        }
    }
}

/// Detection law: when detection succeeds, every file it gives is a `.wasm`
/// file; every `.wasm` file of the main walk and of the well-known walks is
/// given; and the files of the well-known walks are given once each and
/// never repeat one of the main walk, so that the whole result repeats no
/// path when the main walk repeats none.
pub proof fn lemma_detected(main: Seq<WalkEntry>, well_known: Seq<Vec<WalkEntry>>)
    requires
        detected(main, well_known) is Ok,
    ensures
        ({
            let r = detected(main, well_known)->Ok_0;
            &&& forall|i: int| 0 <= i < r.len() ==> is_wasm_path(#[trigger] r[i])
            &&& forall|x: Seq<char>| #[trigger] wasm_files(main).contains(x) ==> r.contains(x)
            &&& forall|x: Seq<char>| #[trigger] walks_files(well_known).contains(x) ==> r.contains(x)
            &&& (forall|i: int, j: int|
                0 <= i < j < wasm_files(main).len() ==> wasm_files(main)[i] != wasm_files(main)[j])
                ==> forall|i: int, j: int| 0 <= i < j < r.len() ==> r[i] != r[j]
        }),
{
    let m = wasm_files(main);
    let w = walks_files(well_known);
    let u = unseen(m, w);
    let r = m + u;
    lemma_unseen(m, w);
    lemma_wasm_files_are_wasm(main);
    lemma_walks_files_are_wasm(well_known);
    assert forall|i: int| 0 <= i < r.len() implies is_wasm_path(#[trigger] r[i]) by {
        if i < m.len() {
            assert(r[i] == m[i]);
        } else {
            assert(r[i] == u[i - m.len()]);
            let x = u[i - m.len()];
            assert(w.contains(x));
            let k = choose|k: int| 0 <= k < w.len() && w[k] == x;
            assert(is_wasm_path(w[k]));
        }
    }
    assert forall|x: Seq<char>| #[trigger] m.contains(x) implies r.contains(x) by {
        lemma_contains_concat(m, u, x);
    }
    assert forall|x: Seq<char>| #[trigger] w.contains(x) implies r.contains(x) by {
        lemma_contains_concat(m, u, x);
    }
    if forall|i: int, j: int| 0 <= i < j < m.len() ==> m[i] != m[j] {
        assert forall|i: int, j: int| 0 <= i < j < r.len() implies r[i] != r[j] by {
            if j < m.len() {
                assert(r[i] == m[i] && r[j] == m[j]);
            } else if i < m.len() {
                assert(r[j] == u[j - m.len()]);
                assert(!m.contains(u[j - m.len()]));
                assert(r[i] == m[i]);
            } else {
                assert(r[i] == u[i - m.len()] && r[j] == u[j - m.len()]);
            }
        }
    }
}

} // verus!

verus! {

/// `path` is the path of an entry of `target/` that is a directory named
/// `wasm32-*`.
pub open spec fn listed_target_dir(entries: Seq<DirEntryInfo>, path: Seq<char>) -> bool {
    exists|i: int|
        0 <= i < entries.len() && (#[trigger] entries[i]).is_dir && is_wasm_target_name(entries[i].path@)
            && entries[i].path@ == path
}

/// The `wasm32-*` directories among the entries of `target/` are exactly
/// the entries that are directories named `wasm32-*`.
proof fn lemma_wasm_target_dirs(entries: Seq<DirEntryInfo>)
    ensures
        forall|i: int|
            0 <= i < entries.len() && entries[i].is_dir && is_wasm_target_name(entries[i].path@) ==> wasm_target_dirs(
                entries,
            ).contains(#[trigger] entries[i].path@),
        forall|k: int|
            0 <= k < wasm_target_dirs(entries).len() ==> #[trigger] listed_target_dir(
                entries,
                wasm_target_dirs(entries)[k],
            ),
    decreases entries.len(),
{
    if entries.len() > 0 {
        let init = entries.drop_last();
        lemma_wasm_target_dirs(init);
        let rest = wasm_target_dirs(init);
        let r = wasm_target_dirs(entries);
        let n = entries.len() - 1;
        assert forall|i: int| 0 <= i < init.len() implies #[trigger] init[i] == entries[i] by {}
        assert forall|k: int| 0 <= k < rest.len() implies r[k] == rest[k] by {}
        assert forall|i: int|
            0 <= i < entries.len() && entries[i].is_dir && is_wasm_target_name(entries[i].path@) implies r.contains(
            #[trigger] entries[i].path@,
        ) by {
            if i < n {
                assert(init[i] == entries[i]);
                assert(rest.contains(init[i].path@));
                let k = choose|k: int| 0 <= k < rest.len() && rest[k] == init[i].path@;
                assert(r[k] == rest[k]);
            } else {
                assert(r[rest.len() as int] == entries[n].path@);
            }
        }
        assert forall|k: int| 0 <= k < r.len() implies #[trigger] listed_target_dir(entries, r[k]) by {
            if k < rest.len() {
                assert(listed_target_dir(init, rest[k]));
                let i = choose|i: int|
                    0 <= i < init.len() && (#[trigger] init[i]).is_dir && is_wasm_target_name(init[i].path@)
                        && init[i].path@ == rest[k];
                assert(entries[i] == init[i]);
            } else {
                assert(entries[n].path@ == r[k]);
            }
        }
    }
}

/// Well-known directories law: `pkg/` comes first when it is a directory,
/// `dist/` next when it is one (whatever `pkg/` is), and then exactly the
/// `target/wasm32-*` directories: each entry of `target/` that is a
/// directory named `wasm32-*` is walked, and nothing else is.
pub proof fn lemma_well_known_dirs(root: Seq<char>, pkg: bool, dist: bool, target: Seq<DirEntryInfo>)
    ensures
        ({
            let r = well_known_dirs(root, pkg, dist, target);
            let k: int = (if pkg {
                1int
            } else {
                0int
            }) + (if dist {
                1int
            } else {
                0int
            });
            &&& k <= r.len()
            &&& pkg ==> r[0] == joined(root, "pkg"@)
            &&& dist ==> r[k - 1] == joined(root, "dist"@)
            &&& dist ==> r.contains(joined(root, "dist"@))
            &&& pkg ==> r.contains(joined(root, "pkg"@))
            &&& forall|i: int|
                0 <= i < target.len() && target[i].is_dir && is_wasm_target_name(target[i].path@) ==> r.contains(
                    #[trigger] target[i].path@,
                )
            &&& forall|m: int| k <= m < r.len() ==> #[trigger] listed_target_dir(target, r[m])
        }),
{
    lemma_wasm_target_dirs(target);
    assert(PKG_DIR@ == "pkg"@);
    assert(DIST_DIR@ == "dist"@);
    let r = well_known_dirs(root, pkg, dist, target);
    let t = wasm_target_dirs(target);
    let k: int = (if pkg {
        1int
    } else {
        0int
    }) + (if dist {
        1int
    } else {
        0int
    });
    assert forall|m: int| 0 <= m < t.len() implies r[k + m] == t[m] by {}
    if pkg {
        assert(r[0] == joined(root, "pkg"@));
    }
    if dist {
        assert(r[k - 1] == joined(root, "dist"@));
    }
    assert forall|i: int|
        0 <= i < target.len() && target[i].is_dir && is_wasm_target_name(target[i].path@) implies r.contains(
        #[trigger] target[i].path@,
    ) by {
        assert(t.contains(target[i].path@));
        let m = choose|m: int| 0 <= m < t.len() && t[m] == target[i].path@;
        assert(r[k + m] == t[m]);
    }
    assert forall|m: int| k <= m < r.len() implies #[trigger] listed_target_dir(target, r[m]) by {
        assert(r[m] == t[m - k]);
    }
}

} // verus!
