//! The install command's progress display: one bar per package, drawn as a
//! flat tree whose last line carries `└──` and every other line `├──`.
use vstd::prelude::*;
use crate::image_entry::opt_view;
use crate::text::{
    concat2, concat3, rsplit_once, rsplit_once_char, split_once, split_once_char, strip_leading,
    strip_leading_char, to_owned,
};

verus! {

/// Tree glyph for non-last items in the tree.
pub const TREE_GLYPH_MID: &'static str = "├──";

/// Tree glyph for the last item in the tree.
pub const TREE_GLYPH_END: &'static str = "└──";

/// Template for the initial state before layer sizes are known: just bytes
/// downloaded, no bar or total.
pub const INITIAL_TEMPLATE: &'static str = "{prefix} {binary_bytes:.dim}";

/// Template for in-progress downloads: yellow bar, dim size and ETA.
pub const PROGRESS_TEMPLATE: &'static str = "{prefix} {bar:12.yellow} {binary_bytes:.dim}/{binary_total_bytes:.dim} {eta:.dim}";

/// Template for completed downloads: no bar, just dim total size.
pub const DONE_TEMPLATE: &'static str = "{prefix} {binary_total_bytes:.dim}";

/// The glyph of a line: `└──` for the last line, `├──` otherwise.
pub open spec fn glyph_of(is_last: bool) -> Seq<char> {
    if is_last {
        TREE_GLYPH_END@
    } else {
        TREE_GLYPH_MID@
    }
}

/// Return the appropriate tree glyph for a position in a list.
pub fn tree_glyph(is_last: bool) -> (r: &'static str)
    ensures
        r@ == glyph_of(is_last),
{
    if is_last {
        TREE_GLYPH_END
    } else {
        TREE_GLYPH_MID
    }
}

/// `t` without a leading `v`.
pub open spec fn version_of_tag(t: Seq<char>) -> Seq<char> {
    strip_leading(t, 'v')
}

/// The display name and version of a package: a name of the form
/// `name@version` is split at its first `@`; otherwise the version is the
/// tag without a leading `v`. Without a name the name is empty.
pub open spec fn display_parts(name: Option<Seq<char>>, tag: Option<Seq<char>>) -> (Seq<char>, Option<Seq<char>>) {
    let version = match tag {
        Some(t) => Some(version_of_tag(t)),
        None => None,
    };
    match name {
        Some(n) => match split_once(n, '@') {
            Some((a, b)) => (a, Some(b)),
            None => (n, version),
        },
        None => (Seq::empty(), version),
    }
}

/// Extract the display name and version from a package reference.
///
/// For WIT-style names like `wasi:http@0.2.0`, the name is `wasi:http` and
/// version is `0.2.0`. For WIT-style names without version like `wasi:http`,
/// the version is taken from the OCI reference tag (stripping a leading `v`).
///
/// When `explicit_name` is `None`, the returned name is empty and the caller
/// must provide a fallback (e.g. from the reference's repository).
pub fn package_display_parts(explicit_name: Option<&str>, tag: Option<&str>) -> (r: (String, Option<String>))
    ensures
        r.0@ == display_parts(opt_str(explicit_name), opt_str(tag)).0,
        opt_view(r.1) == display_parts(opt_str(explicit_name), opt_str(tag)).1,
{
    let version = match tag {
        Some(t) => Some(to_owned(strip_leading_char(t, 'v'))),
        None => None,
    };
    match explicit_name {
        Some(name) => match split_once_char(name, '@') {
            Some((n, v)) => (to_owned(n), Some(to_owned(v))),
            None => (to_owned(name), version),
        },
        None => (String::new(), version),
    }
}

/// The view of an optional string slice.
pub open spec fn opt_str(s: Option<&str>) -> Option<Seq<char>> {
    match s {
        Some(x) => Some(x@),
        None => None,
    }
}

/// The `namespace:name` display of a repository path: its last two
/// `/`-separated segments joined by `:`, or the whole path when it has fewer
/// than two segments or one of the two is empty.
pub open spec fn repo_display_name(repo: Seq<char>) -> Seq<char> {
    match rsplit_once(repo, '/') {
        None => repo,
        Some((before, last)) => {
            let namespace = match rsplit_once(before, '/') {
                Some((_, ns)) => ns,
                None => before,
            };
            if namespace.len() > 0 && last.len() > 0 {
                namespace + seq![':'] + last
            } else {
                repo
            }
        },
    }
}

/// Derive a `namespace:name` display string from an OCI repository path.
///
/// OCI repository paths typically look like `ghcr.io/webassembly/wasi-logging`.
/// This function takes the last two `/`-separated segments and joins them with
/// `:` so that the display matches the `namespace:name` format used elsewhere
/// in the tree output.  When fewer than two segments are available, the full
/// repository path is returned as-is.
pub fn oci_repo_display_name(repo: &str) -> (r: String)
    ensures
        r@ == repo_display_name(repo@),
{
    match rsplit_once_char(repo, '/') {
        None => to_owned(repo),
        Some((before, last)) => {
            let namespace = match rsplit_once_char(before, '/') {
                Some((_, ns)) => ns,
                None => before,
            };
            if namespace.unicode_len() > 0 && last.unicode_len() > 0 {
                proof {
                    reveal_strlit(":");
                }
                concat3(namespace, ":", last)
            } else {
                to_owned(repo)
            }
        },
    }
}

/// A terminal colour of the progress display.
#[derive(Debug, Clone, Copy, PartialEq, Eq, Structural)]
pub enum Color {
    /// Green.
    Green,
    /// Yellow.
    Yellow,
    /// White.
    White,
}

/// The escape sequence that starts a colour on an ANSI terminal.
pub open spec fn ansi_start(c: Color) -> Seq<char> {
    match c {
        Color::Green => "\x1b[32m"@,
        Color::Yellow => "\x1b[33m"@,
        Color::White => "\x1b[37m"@,
    }
}

/// The escape sequence that resets the colour.
pub open spec fn ansi_reset() -> Seq<char> {
    "\x1b[0m"@
}

/// `s` as it is shown in colour `c`: unchanged, or between the colour's
/// escape sequence and the reset.
pub open spec fn styled_as(r: Seq<char>, s: Seq<char>, c: Color) -> bool {
    r == s || r == ansi_start(c) + s + ansi_reset()
}

/// `console::style(s).green().to_string()`: `s` in green. Whether the
/// escape sequences are written depends on whether the terminal takes
/// colours, which console decides from the environment; the contract states
/// both outcomes.
#[verifier::external_body]
fn styled_green(s: &str) -> (r: String)
    ensures
        styled_as(r@, s@, Color::Green),
{
    console::style(s).green().to_string()
}

/// `console::style(s).yellow().to_string()`: `s` in yellow, or unchanged
/// when the terminal takes no colours.
#[verifier::external_body]
fn styled_yellow(s: &str) -> (r: String)
    ensures
        styled_as(r@, s@, Color::Yellow),
{
    console::style(s).yellow().to_string()
}

/// `console::style(s).white().to_string()`: `s` in white, or unchanged
/// when the terminal takes no colours.
#[verifier::external_body]
fn styled_white(s: &str) -> (r: String)
    ensures
        styled_as(r@, s@, Color::White),
{
    console::style(s).white().to_string()
}

/// The prefix of a line: the glyph, a space, the name in its colour (green
/// when complete, yellow while downloading) and, when there is a version,
/// `@version` in white.
pub open spec fn prefix_as(r: Seq<char>, glyph: Seq<char>, name: Seq<char>, version: Option<Seq<char>>, complete: bool) -> bool {
    exists|styled_name: Seq<char>, styled_version: Seq<char>|
        {
            &&& styled_as(styled_name, name, if complete { Color::Green } else { Color::Yellow })
            &&& match version {
                Some(v) => styled_as(styled_version, seq!['@'] + v, Color::White),
                None => styled_version.len() == 0,
            }
            &&& r == glyph + seq![' '] + styled_name + styled_version
        }
}

/// Build the colored prefix string for a progress bar line.
///
/// During download the name is yellow; when complete it is green.
/// The `@version` suffix is always white.
pub fn build_prefix(glyph: &str, name: &str, version: Option<&str>, is_complete: bool) -> (r: String)
    ensures
        prefix_as(r@, glyph@, name@, opt_str(version), is_complete),
{
    let styled_name = if is_complete {
        styled_green(name)
    } else {
        styled_yellow(name)
    };
    proof {
        reveal_strlit(" ");
        reveal_strlit("@");
    }
    let head = concat3(glyph, " ", styled_name.as_str());
    match version {
        Some(v) => {
            let at_v = concat2("@", v);
            let styled_version = styled_white(at_v.as_str());
            let r = concat2(head.as_str(), styled_version.as_str());
            assert(at_v@ == seq!['@'] + v@);
            assert(r@ == glyph@ + seq![' '] + styled_name@ + styled_version@);
            assert(styled_as(styled_version@, seq!['@'] + v@, Color::White));
            assert(styled_as(
                styled_name@,
                name@,
                if is_complete {
                    Color::Green
                } else {
                    Color::Yellow
                },
            ));
            r
        },
        None => {
            assert(head@ == glyph@ + seq![' '] + styled_name@ + Seq::<char>::empty());
            head
        },
    }
}

/// Identifies one bar of a [`ProgressTree`], so that two installs with the
/// same display name are never confused.
#[derive(Clone, Copy, Debug, PartialEq, Eq, Structural)]
pub struct BarId(pub usize);

/// What a tree line shows: its glyph, name, version and whether it is done.
pub struct PrefixParts {
    /// Whether the line carries the `└──` glyph.
    pub is_last: bool,
    /// The package name.
    pub name: String,
    /// The package version.
    pub version: Option<String>,
    /// Whether the download is complete.
    pub is_complete: bool,
}

impl PrefixParts {
    /// The prefix string of these parts.
    pub fn render(&self) -> (r: String)
        ensures
            prefix_as(r@, glyph_of(self.is_last), self.name@, opt_view(self.version), self.is_complete),
    {
        let v = match &self.version {
            Some(v) => Some(v.as_str()),
            None => None,
        };
        build_prefix(tree_glyph(self.is_last), self.name.as_str(), v, self.is_complete)
    }
}

/// One line of the tree.
pub struct TreeEntry {
    /// The bar's identity.
    pub id: BarId,
    /// The package name.
    pub name: String,
    /// The package version.
    pub version: Option<String>,
    /// Whether the download is complete.
    pub is_complete: bool,
}

/// The content of a line: name, version and completion.
pub struct EntryView {
    /// The bar's identity.
    pub id: usize,
    /// The package name.
    pub name: Seq<char>,
    /// The package version.
    pub version: Option<Seq<char>>,
    /// Whether the download is complete.
    pub complete: bool,
}

/// The content of a line.
pub open spec fn entry_view(e: TreeEntry) -> EntryView {
    EntryView { id: e.id.0, name: e.name@, version: opt_view(e.version), complete: e.is_complete }
}

/// The prefix that a line shows: its glyph, name, version and completion.
pub struct PrefixView {
    /// Whether the line carries the `└──` glyph.
    pub is_last: bool,
    /// The package name.
    pub name: Seq<char>,
    /// The package version.
    pub version: Option<Seq<char>>,
    /// Whether the download is complete.
    pub complete: bool,
}

/// The content of prefix parts.
pub open spec fn parts_view(p: PrefixParts) -> PrefixView {
    PrefixView { is_last: p.is_last, name: p.name@, version: opt_view(p.version), complete: p.is_complete }
}

/// The lines of a tree and the next identity to hand out.
pub struct TreeView {
    /// The lines, in insertion order.
    pub entries: Seq<EntryView>,
    /// The identity of the next bar.
    pub next_id: usize,
}

/// The line with identity `id`, if any.
pub open spec fn index_of_id(entries: Seq<EntryView>, id: usize) -> int {
    if exists|i: int| 0 <= i < entries.len() && entries[i].id == id {
        choose|i: int|
            0 <= i < entries.len() && entries[i].id == id && forall|j: int| 0 <= j < i ==> entries[j].id != id
    } else {
        -1
    }
}

/// The tree after adding a bar, and the prefix changes to show: the previous
/// last line (if any) demoted to `├──`, then the new line with `└──`.
pub open spec fn tree_add(t: TreeView, name: Seq<char>, version: Option<Seq<char>>) -> (TreeView, Seq<(usize, PrefixView)>) {
    let entry = EntryView { id: t.next_id, name, version, complete: false };
    let new_line = (t.next_id, PrefixView { is_last: true, name, version, complete: false });
    let changes = if t.entries.len() == 0 {
        seq![new_line]
    } else {
        let last = t.entries.last();
        seq![
            (last.id, PrefixView { is_last: false, name: last.name, version: last.version, complete: last.complete }),
            new_line,
        ]
    };
    (TreeView { entries: t.entries.push(entry), next_id: (t.next_id + 1) as usize }, changes)
}

/// The tree after finishing bar `id`, and the prefix to show on it: its
/// name and version, complete, with `└──` when it is the last line. An
/// unknown identity changes nothing and shows an empty name with `└──`.
pub open spec fn tree_finish(t: TreeView, id: usize) -> (TreeView, PrefixView) {
    let i = index_of_id(t.entries, id);
    if i < 0 {
        (t, PrefixView { is_last: true, name: Seq::empty(), version: None, complete: true })
    } else {
        let e = t.entries[i];
        (
            TreeView { entries: t.entries.update(i, EntryView { complete: true, ..e }), ..t },
            PrefixView { is_last: i == t.entries.len() - 1, name: e.name, version: e.version, complete: true },
        )
    }
}

/// Manages a list of progress bars rendered as a flat tree.
///
/// The last bar always shows `└──`; when a new bar is added, the
/// previously-last bar is demoted to `├──`.
pub struct ProgressTree {
    entries: Vec<TreeEntry>,
    next_id: usize,
}

impl View for ProgressTree {
    type V = TreeView;

    closed spec fn view(&self) -> TreeView {
        TreeView { entries: self.entries@.map_values(|e: TreeEntry| entry_view(e)), next_id: self.next_id }
    }
}

fn clone_opt(s: &Option<String>) -> (r: Option<String>)
    ensures
        opt_view(r) == opt_view(*s),
{
    match s {
        Some(x) => Some(x.clone()),
        None => None,
    }
}

impl ProgressTree {
    /// An empty tree.
    pub fn new() -> (r: Self)
        ensures
            r@.entries.len() == 0,
            r@.next_id == 0,
    {
        let r = ProgressTree { entries: Vec::new(), next_id: 0 };
        assert(r@.entries =~= Seq::<EntryView>::empty());
        r
    }

    /// Whether another bar can be added: identities have not run out.
    pub fn has_room(&self) -> (r: bool)
        ensures
            r == (self@.next_id < usize::MAX),
    {
        self.next_id < usize::MAX
    }

    /// Add a new in-progress package bar. The bar becomes the new "last"
    /// entry (`└──`), and the previously-last bar (if any) is demoted to
    /// `├──`. Returns the new bar's identity and the prefixes to show, by
    /// bar, in order.
    pub fn add_bar(&mut self, name: &str, version: Option<&str>) -> (r: (BarId, Vec<(BarId, PrefixParts)>))
        requires
            old(self)@.next_id < usize::MAX,
        ensures
            r.0.0 == old(self)@.next_id,
            final(self)@ == tree_add(old(self)@, name@, opt_str(version)).0,
            r.1@.map_values(|c: (BarId, PrefixParts)| (c.0.0, parts_view(c.1))) == tree_add(
                old(self)@,
                name@,
                opt_str(version),
            ).1,
    {
        let mut changes: Vec<(BarId, PrefixParts)> = Vec::new();
        let n = self.entries.len();
        if n > 0 {
            let last = &self.entries[n - 1];
            changes.push(
                (
                    last.id,
                    PrefixParts {
                        is_last: false,
                        name: last.name.clone(),
                        version: clone_opt(&last.version),
                        is_complete: last.is_complete,
                    },
                ),
            );
        }
        let id = BarId(self.next_id);
        let version_owned = match version {
            Some(v) => Some(to_owned(v)),
            None => None,
        };
        changes.push(
            (
                id,
                PrefixParts {
                    is_last: true,
                    name: to_owned(name),
                    version: clone_opt(&version_owned),
                    is_complete: false,
                },
            ),
        );
        self.next_id = self.next_id + 1;
        self.entries.push(TreeEntry { id, name: to_owned(name), version: version_owned, is_complete: false });
        proof {
            let t = tree_add(old(self)@, name@, opt_str(version));
            assert(self@.entries =~= t.0.entries);
            assert(changes@.map_values(|c: (BarId, PrefixParts)| (c.0.0, parts_view(c.1))) =~= t.1);
        }
        (id, changes)
    }

    /// Mark a bar as complete: its name turns green and its bar is hidden.
    /// Returns the prefix to show on it.
    pub fn finish_bar(&mut self, bar_id: BarId) -> (r: PrefixParts)
        ensures
            final(self)@ == tree_finish(old(self)@, bar_id.0).0,
            parts_view(r) == tree_finish(old(self)@, bar_id.0).1,
    {
        let ghost es = self@.entries;
        let mut i: usize = 0;
        while i < self.entries.len() && self.entries[i].id != bar_id
            invariant
                i <= self.entries.len(),
                es == self@.entries,
                forall|j: int| 0 <= j < i ==> es[j].id != bar_id.0,
            decreases self.entries.len() - i,
        {
            i = i + 1;
        }
        if i == self.entries.len() {
            proof {
                assert(!exists|j: int| 0 <= j < es.len() && es[j].id == bar_id.0);
            }
            return PrefixParts { is_last: true, name: String::new(), version: None, is_complete: true };
        }
        proof {
            let f = index_of_id(es, bar_id.0);
            assert(es[i as int].id == bar_id.0);
            if f < i {
                assert(es[f].id != bar_id.0);
            }
            if (i as int) < f {
                assert(es[i as int].id != bar_id.0);
            }
        }
        let n = self.entries.len();
        let parts = PrefixParts {
            is_last: i == n - 1,
            name: self.entries[i].name.clone(),
            version: clone_opt(&self.entries[i].version),
            is_complete: true,
        };
        let old_entry = self.entries.remove(i);
        self.entries.insert(
            i,
            TreeEntry {
                id: old_entry.id,
                name: old_entry.name,
                version: old_entry.version,
                is_complete: true,
            },
        );
        proof {
            assert(self@.entries =~= tree_finish(old(self)@, bar_id.0).0.entries);
        }
        parts
    }
}

/// Display law: if each bar showed `└──` exactly when it was the last line,
/// then after adding a bar and showing the returned prefixes, each bar
/// still shows `└──` exactly when it is the last line; bars other than the
/// previous last one keep their prefix.
pub proof fn lemma_add_keeps_last_glyph(
    t: TreeView,
    shown: Map<usize, bool>,
    name: Seq<char>,
    version: Option<Seq<char>>,
)
    requires
        forall|i: int| 0 <= i < t.entries.len() ==> t.entries[i].id < t.next_id,
        forall|i: int, j: int| 0 <= i < j < t.entries.len() ==> t.entries[i].id != t.entries[j].id,
        forall|i: int|
            0 <= i < t.entries.len() ==> shown.contains_key(#[trigger] t.entries[i].id) && shown[t.entries[i].id]
                == (i == t.entries.len() - 1),
    ensures
        ({
            let (t2, changes) = tree_add(t, name, version);
            let shown2 = apply_glyphs(shown, changes);
            forall|i: int|
                0 <= i < t2.entries.len() ==> shown2.contains_key(#[trigger] t2.entries[i].id) && shown2[t2.entries[i].id]
                    == (i == t2.entries.len() - 1)
        }),
{
    let (t2, changes) = tree_add(t, name, version);
    let shown2 = apply_glyphs(shown, changes);
    reveal_with_fuel(apply_glyphs, 3);
    if t.entries.len() == 0 {
        assert(shown2 == shown.insert(t.next_id, true));
    } else {
        let last = t.entries.last();
        assert(shown2 == shown.insert(last.id, false).insert(t.next_id, true));
    }
    assert forall|i: int| 0 <= i < t2.entries.len() implies shown2.contains_key(#[trigger] t2.entries[i].id)
        && shown2[t2.entries[i].id] == (i == t2.entries.len() - 1) by {
        if i < t.entries.len() {
            assert(t2.entries[i] == t.entries[i]);
            assert(t.entries[i].id != t.next_id);
            if i < t.entries.len() - 1 {
                assert(t.entries[i].id != t.entries.last().id);
            }
        }
    }
}

/// The glyph each bar shows after showing the prefixes `changes` in order.
pub open spec fn apply_glyphs(shown: Map<usize, bool>, changes: Seq<(usize, PrefixView)>) -> Map<usize, bool>
    decreases changes.len(),
{
    if changes.len() == 0 {
        shown
    } else {
        apply_glyphs(shown.insert(changes[0].0, changes[0].1.is_last), changes.drop_first())
    }
}

/// Finishing law: finishing a bar keeps its glyph, since the prefix shown
/// carries `└──` exactly when the bar is the last line, and keeps the
/// order and identity of every line.
pub proof fn lemma_finish_keeps_glyph(t: TreeView, id: usize, i: int)
    requires
        0 <= i < t.entries.len(),
        t.entries[i].id == id,
        forall|a: int, b: int| 0 <= a < b < t.entries.len() ==> t.entries[a].id != t.entries[b].id,
    ensures
        tree_finish(t, id).1.is_last == (i == t.entries.len() - 1),
        tree_finish(t, id).1.complete,
        tree_finish(t, id).0.entries.len() == t.entries.len(),
        forall|k: int| 0 <= k < t.entries.len() ==> (#[trigger] tree_finish(t, id).0.entries[k]).id == t.entries[k].id,
        tree_finish(t, id).0.entries[i].complete,
{
    let f = index_of_id(t.entries, id);
    assert(0 <= f < t.entries.len() && t.entries[f].id == id);
    if f != i {
        if f < i {
            assert(t.entries[f].id != t.entries[i].id);
        } else {
            assert(t.entries[i].id != t.entries[f].id);
        }
    }
}

} // verus!

verus! {

/// The identities of a tree's lines are below the next one and distinct.
pub open spec fn ids_fresh(t: TreeView) -> bool {
    &&& forall|i: int| 0 <= i < t.entries.len() ==> (#[trigger] t.entries[i]).id < t.next_id
    &&& forall|i: int, j: int|
        0 <= i < j < t.entries.len() ==> (#[trigger] t.entries[i]).id != (#[trigger] t.entries[j]).id
}

/// Identity law: adding a bar hands out an identity that no earlier bar
/// has, keeps the identities fresh, shows the new bar with `└──`, its name
/// and its version, and shows the previously last bar with `├──`.
pub proof fn lemma_add_fresh_id(t: TreeView, name: Seq<char>, version: Option<Seq<char>>)
    requires
        ids_fresh(t),
        t.next_id < usize::MAX,
    ensures
        ({
            let (t2, changes) = tree_add(t, name, version);
            &&& ids_fresh(t2)
            &&& forall|i: int| 0 <= i < t.entries.len() ==> (#[trigger] t.entries[i]).id != t.next_id
            &&& changes.last() == (t.next_id, PrefixView { is_last: true, name, version, complete: false })
            &&& t.entries.len() > 0 ==> changes[0].0 == t.entries.last().id && !changes[0].1.is_last
        }),
{
    let (t2, changes) = tree_add(t, name, version);
    assert forall|i: int| 0 <= i < t2.entries.len() implies (#[trigger] t2.entries[i]).id < t2.next_id by {
        if i < t.entries.len() {
            assert(t2.entries[i] == t.entries[i]);
        }
    }
    assert forall|i: int, j: int| 0 <= i < j < t2.entries.len() implies (#[trigger] t2.entries[i]).id
        != (#[trigger] t2.entries[j]).id by {
        assert(t2.entries[i] == t.entries[i]);
        if j < t.entries.len() {
            assert(t2.entries[j] == t.entries[j]);
        }
    }
}

} // verus!

verus! {

/// An empty tree's identities are fresh.
pub proof fn lemma_empty_fresh(t: TreeView)
    requires
        t.entries.len() == 0,
    ensures
        ids_fresh(t),
{
}

/// Finishing a bar keeps the identities fresh.
pub proof fn lemma_finish_keeps_fresh(t: TreeView, id: usize)
    requires
        ids_fresh(t),
    ensures
        ids_fresh(tree_finish(t, id).0),
{
    let t2 = tree_finish(t, id).0;
    assert forall|i: int| 0 <= i < t2.entries.len() implies (#[trigger] t2.entries[i]).id == t.entries[i].id by {}
}

/// A change to a progress tree: a bar added, or a bar finished.
pub enum TreeOp {
    /// Add a bar with this name and version.
    Add(Seq<char>, Option<Seq<char>>),
    /// Finish the bar with this identity.
    Finish(usize),
}

/// The tree after a run of changes.
pub open spec fn tree_run(t: TreeView, ops: Seq<TreeOp>) -> TreeView
    decreases ops.len(),
{
    if ops.len() == 0 {
        t
    } else {
        let next = match ops[0] {
            TreeOp::Add(name, version) => tree_add(t, name, version).0,
            TreeOp::Finish(id) => tree_finish(t, id).0,
        };
        tree_run(next, ops.drop_first())
    }
}

/// Identity law over a run: starting from fresh identities, every change
/// keeps them fresh, so each bar added gets an identity no other bar has,
/// as long as the identities do not run out.
pub proof fn lemma_run_keeps_fresh(t: TreeView, ops: Seq<TreeOp>)
    requires
        ids_fresh(t),
        t.next_id + ops.len() < usize::MAX,
    ensures
        ids_fresh(tree_run(t, ops)),
    decreases ops.len(),
{
    if ops.len() > 0 {
        let next = match ops[0] {
            TreeOp::Add(name, version) => {
                lemma_add_fresh_id(t, name, version);
                tree_add(t, name, version).0
            },
            TreeOp::Finish(id) => {
                lemma_finish_keeps_fresh(t, id);
                tree_finish(t, id).0
            },
        };
        assert(next.next_id <= t.next_id + 1);
        lemma_run_keeps_fresh(next, ops.drop_first());
    }
}

} // verus!

verus! {

/// The add-bar law in one statement: on a tree with fresh identities whose
/// shown glyphs mark the last line, adding a bar gives it an identity that
/// no earlier bar has, shows it with `└──`, its name and its version,
/// shows the previously last bar with `├──`, and afterwards exactly the
/// last line shows `└──` while the identities stay fresh.
pub proof fn lemma_add_bar(t: TreeView, shown: Map<usize, bool>, name: Seq<char>, version: Option<Seq<char>>)
    requires
        ids_fresh(t),
        t.next_id < usize::MAX,
        forall|i: int|
            0 <= i < t.entries.len() ==> shown.contains_key(#[trigger] t.entries[i].id) && shown[t.entries[i].id]
                == (i == t.entries.len() - 1),
    ensures
        ({
            let (t2, changes) = tree_add(t, name, version);
            let shown2 = apply_glyphs(shown, changes);
            &&& ids_fresh(t2)
            &&& forall|i: int| 0 <= i < t.entries.len() ==> (#[trigger] t.entries[i]).id != t.next_id
            &&& changes.last() == (t.next_id, PrefixView { is_last: true, name, version, complete: false })
            &&& t.entries.len() > 0 ==> changes[0].0 == t.entries.last().id && !changes[0].1.is_last
            &&& forall|i: int|
                0 <= i < t2.entries.len() ==> shown2.contains_key(#[trigger] t2.entries[i].id)
                    && shown2[t2.entries[i].id] == (i == t2.entries.len() - 1)
        }),
{
    lemma_add_fresh_id(t, name, version);
    lemma_add_keeps_last_glyph(t, shown, name, version);
}

} // verus!
