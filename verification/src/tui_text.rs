//! What the terminal views show, as text: the lines of the detail views, the
//! cells of the tables, the numbered and classified lines of a WIT document,
//! and which part of a long text is in view. Drawing them is left to the
//! terminal front end.
use vstd::prelude::*;
use crate::image_entry::ImageEntry;
use crate::known_package::{spec_reference, KnownPackage};
use crate::store::texts;
use crate::tui_app::ManagerState;
use crate::text::{concat2, concat3, contains_str, contains_seq, has_prefix, starts_with, string_push, to_owned, trim, trimmed};

verus! {

/// The decimal digit for `d < 10`.
pub open spec fn digit_char(d: nat) -> char {
    if d == 0 {
        '0'
    } else if d == 1 {
        '1'
    } else if d == 2 {
        '2'
    } else if d == 3 {
        '3'
    } else if d == 4 {
        '4'
    } else if d == 5 {
        '5'
    } else if d == 6 {
        '6'
    } else if d == 7 {
        '7'
    } else if d == 8 {
        '8'
    } else {
        '9'
    }
}

/// The decimal notation of `n`, without leading zeros.
pub open spec fn decimal_text(n: nat) -> Seq<char>
    decreases n,
{
    if n < 10 {
        seq![digit_char(n)]
    } else {
        decimal_text(n / 10).push(digit_char(n % 10))
    }
}

fn digit(d: u64) -> (c: char)
    requires
        d < 10,
    ensures
        c == digit_char(d as nat),
{
    if d == 0 {
        '0'
    } else if d == 1 {
        '1'
    } else if d == 2 {
        '2'
    } else if d == 3 {
        '3'
    } else if d == 4 {
        '4'
    } else if d == 5 {
        '5'
    } else if d == 6 {
        '6'
    } else if d == 7 {
        '7'
    } else if d == 8 {
        '8'
    } else {
        '9'
    }
}

/// The decimal notation of `n`.
pub fn decimal(n: u64) -> (r: String)
    ensures
        r@ == decimal_text(n as nat),
    decreases n,
{
    if n < 10 {
        let mut s = String::new();
        string_push(&mut s, digit(n));
        assert(s@ =~= seq![digit_char(n as nat)]);
        s
    } else {
        let mut s = decimal(n / 10);
        string_push(&mut s, digit(n % 10));
        s
    }
}

/// `s` padded on the left with spaces to at least `width` characters, as
/// `format!("{:width$}", n)` right-aligns a number.
pub open spec fn pad_left(s: Seq<char>, width: nat) -> Seq<char> {
    if s.len() >= width {
        s
    } else {
        Seq::new((width - s.len()) as nat, |i: int| ' ') + s
    }
}

fn pad_left_exec(s: String, width: usize) -> (r: String)
    ensures
        r@ == pad_left(s@, width as nat),
{
    if s.unicode_len() >= width {
        return s;
    }
    let pad_len: usize = width - s.unicode_len();
    let mut out = String::new();
    let mut i: usize = 0;
    while i < pad_len
        invariant
            i <= pad_len,
            out@ == Seq::new(i as nat, |k: int| ' '),
        decreases pad_len - i,
    {
        string_push(&mut out, ' ');
        assert(out@ =~= Seq::new((i + 1) as nat, |k: int| ' '));
        i = i + 1;
    }
    concat2(out.as_str(), s.as_str())
}

/// `line` without one final carriage return.
pub open spec fn without_cr(line: Seq<char>) -> Seq<char> {
    if line.len() > 0 && line.last() == '\r' {
        line.drop_last()
    } else {
        line
    }
}

/// Reading `s` from the start: the lines already ended by `\n` (each without
/// a final `\r`), and the characters of the line not yet ended.
pub open spec fn line_scan(s: Seq<char>) -> (Seq<Seq<char>>, Seq<char>)
    decreases s.len(),
{
    if s.len() == 0 {
        (Seq::empty(), Seq::empty())
    } else {
        let (done, cur) = line_scan(s.drop_last());
        if s.last() == '\n' {
            (done.push(without_cr(cur)), Seq::empty())
        } else {
            (done, cur.push(s.last()))
        }
    }
}

/// The lines of `s` as `str::lines` gives them: split at each `\n`, a `\r`
/// just before it dropped, and no empty line after a final `\n`.
pub open spec fn text_lines(s: Seq<char>) -> Seq<Seq<char>> {
    let (done, cur) = line_scan(s);
    if cur.len() == 0 {
        done
    } else {
        done.push(cur)
    }
}

fn strip_cr(line: String) -> (r: String)
    ensures
        r@ == without_cr(line@),
{
    let n = line.unicode_len();
    if n > 0 && line.as_str().get_char(n - 1) == '\r' {
        to_owned(line.as_str().substring_char(0, n - 1))
    } else {
        line
    }
}

/// The lines of `s`.
pub fn split_lines(s: &str) -> (r: Vec<String>)
    ensures
        r@.map_values(|l: String| l@) == text_lines(s@),
{
    let n = s.unicode_len();
    let mut done: Vec<String> = Vec::new();
    let mut cur = String::new();
    let mut i: usize = 0;
    while i < n
        invariant
            n == s@.len(),
            i <= n,
            (done@.map_values(|l: String| l@), cur@) == line_scan(s@.take(i as int)),
        decreases n - i,
    {
        let c = s.get_char(i);
        assert(s@.take(i + 1).drop_last() =~= s@.take(i as int));
        assert(s@.take(i + 1).last() == c);
        if c == '\n' {
            let line = strip_cr(cur);
            let ghost before = done@.map_values(|l: String| l@);
            done.push(line);
            assert(done@.map_values(|l: String| l@) =~= before.push(line@));
            cur = String::new();
            assert(cur@ =~= Seq::<char>::empty());
        } else {
            string_push(&mut cur, c);
        }
        i = i + 1;
    }
    assert(s@.take(n as int) =~= s@);
    if cur.unicode_len() > 0 {
        let ghost before = done@.map_values(|l: String| l@);
        let ghost last = cur@;
        done.push(cur);
        assert(done@.map_values(|l: String| l@) =~= before.push(last));
    }
    done
}

} // verus!

verus! {

/// How a line of a WIT document is highlighted.
#[derive(Debug, Clone, Copy, PartialEq, Eq, Structural)]
pub enum WitLineKind {
    /// A comment: the trimmed line starts with `//`.
    Comment,
    /// A `package`, `world` or `interface` line.
    Declaration,
    /// An `import` line.
    Import,
    /// An `export` line.
    Export,
    /// A `func` or `resource` line.
    Function,
    /// A `record`, `enum`, `variant` or `flags` line.
    TypeDefinition,
    /// Any other line.
    Plain,
}

/// The highlighting of a WIT line; the first rule that applies wins.
#[verifier::opaque]
pub open spec fn wit_line_kind(line: Seq<char>) -> WitLineKind {
    if has_prefix(trimmed(line), "//"@) {
        WitLineKind::Comment
    } else if contains_seq(line, "package "@) || contains_seq(line, "world "@) || contains_seq(
        line,
        "interface "@,
    ) {
        WitLineKind::Declaration
    } else if contains_seq(line, "import "@) {
        WitLineKind::Import
    } else if contains_seq(line, "export "@) {
        WitLineKind::Export
    } else if contains_seq(line, "func "@) || contains_seq(line, "resource "@) {
        WitLineKind::Function
    } else if contains_seq(line, "record "@) || contains_seq(line, "enum "@) || contains_seq(
        line,
        "variant "@,
    ) || contains_seq(line, "flags "@) {
        WitLineKind::TypeDefinition
    } else {
        WitLineKind::Plain
    }
}

/// Classify a line of a WIT document for highlighting.
pub fn classify_wit_line(line: &str) -> (r: WitLineKind)
    ensures
        r == wit_line_kind(line@),
{
    reveal(wit_line_kind);
    if starts_with(trim(line), "//") {
        WitLineKind::Comment
    } else if contains_str(line, "package ") || contains_str(line, "world ") || contains_str(
        line,
        "interface ",
    ) {
        WitLineKind::Declaration
    } else if contains_str(line, "import ") {
        WitLineKind::Import
    } else if contains_str(line, "export ") {
        WitLineKind::Export
    } else if contains_str(line, "func ") || contains_str(line, "resource ") {
        WitLineKind::Function
    } else if contains_str(line, "record ") || contains_str(line, "enum ") || contains_str(
        line,
        "variant ",
    ) || contains_str(line, "flags ") {
        WitLineKind::TypeDefinition
    } else {
        WitLineKind::Plain
    }
}

/// The WIT text shown for an interface: its own, or a placeholder.
pub open spec fn wit_source(text: Option<Seq<char>>) -> Seq<char> {
    match text {
        Some(t) => t,
        None => "<no WIT text>"@,
    }
}

/// Line `i` (counted from 0) as shown: its number from 1, right-aligned in
/// four columns, a bar, and the line.
pub open spec fn numbered_line(i: nat, line: Seq<char>) -> Seq<char> {
    pad_left(decimal_text(i + 1), 4) + " │ "@ + line
}

/// The shown lines of a WIT document, each with its highlighting.
pub open spec fn wit_view_lines(text: Option<Seq<char>>) -> Seq<(Seq<char>, WitLineKind)> {
    let lines = text_lines(wit_source(text));
    Seq::new(lines.len(), |i: int| (numbered_line(i as nat, lines[i]), wit_line_kind(lines[i])))
}

fn shown_wit_line(i: usize, line: &str) -> (r: (String, WitLineKind))
    requires
        i < usize::MAX,
    ensures
        r.0@ == numbered_line(i as nat, line@),
        r.1 == wit_line_kind(line@),
{
    let number = pad_left_exec(decimal((i + 1) as u64), 4);
    let head = concat2(number.as_str(), " │ ");
    (concat2(head.as_str(), line), classify_wit_line(line))
}

/// The numbered, classified lines of the WIT document of an interface.
pub fn wit_detail_lines(text: Option<&str>) -> (r: Vec<(String, WitLineKind)>)
    ensures
        r@.map_values(|p: (String, WitLineKind)| (p.0@, p.1)) == wit_view_lines(
            match text {
                Some(t) => Some(t@),
                None => None,
            },
        ),
{
    let source = match text {
        Some(t) => t,
        None => "<no WIT text>",
    };
    let lines = split_lines(source);
    let ghost want = wit_view_lines(
        match text {
            Some(t) => Some(t@),
            None => None,
        },
    );
    let ghost ls = text_lines(source@);
    assert(ls == lines@.map_values(|l: String| l@));
    let mut out: Vec<(String, WitLineKind)> = Vec::new();
    let mut i: usize = 0;
    while i < lines.len()
        invariant
            i <= lines.len(),
            ls == lines@.map_values(|l: String| l@),
            want.len() == ls.len(),
            forall|k: int|
                0 <= k < ls.len() ==> #[trigger] want[k] == (
                    numbered_line(k as nat, ls[k]),
                    wit_line_kind(ls[k]),
                ),
            out@.map_values(|p: (String, WitLineKind)| (p.0@, p.1)) == want.take(i as int),
        decreases lines.len() - i,
    {
        let shown = shown_wit_line(i, lines[i].as_str());
        let ghost before = out@.map_values(|p: (String, WitLineKind)| (p.0@, p.1));
        assert(ls[i as int] == lines@[i as int]@);
        out.push(shown);
        assert(out@.map_values(|p: (String, WitLineKind)| (p.0@, p.1)) =~= before.push(want[i as int]));
        assert(want.take(i + 1) =~= want.take(i as int).push(want[i as int]));
        i = i + 1;
    }
    assert(want.take(lines.len() as int) =~= want);
    out
}

/// The header of the WIT detail view: the package and its version (or `-`).
pub open spec fn wit_header_of(package_name: Seq<char>, version: Option<Seq<char>>) -> Seq<char> {
    "Package: "@ + package_name + "  │  Version: "@ + match version {
        Some(v) => v,
        None => "-"@,
    }
}

/// The header of the WIT detail view.
pub fn wit_detail_header(package_name: &str, version: Option<&str>) -> (r: String)
    ensures
        r@ == wit_header_of(
            package_name@,
            match version {
                Some(v) => Some(v@),
                None => None,
            },
        ),
{
    let v = match version {
        Some(v) => v,
        None => "-",
    };
    let head = concat3("Package: ", package_name, "  │  Version: ");
    concat2(head.as_str(), v)
}

/// The cells of a row of the interfaces table: package, version (or `-`),
/// and the component it came from.
pub fn interface_row(package_name: &str, version: Option<&str>, component_ref: &str) -> (r: (
    String,
    String,
    String,
))
    ensures
        r.0@ == package_name@,
        r.1@ == match version {
            Some(v) => v@,
            None => "-"@,
        },
        r.2@ == component_ref@,
{
    let v = match version {
        Some(v) => to_owned(v),
        None => to_owned("-"),
    };
    (to_owned(package_name), v, to_owned(component_ref))
}

/// `a - b`, or 0 when `b` exceeds `a`.
pub open spec fn sat_sub(a: int, b: int) -> int {
    if a > b {
        a - b
    } else {
        0
    }
}

/// The scroll position of the WIT detail view, kept within the text, and
/// whether a scrollbar is drawn: the line count is taken modulo 2^16 as the
/// view counts in `u16`, and two rows of the area go to the border.
pub open spec fn detail_scroll(scroll: u16, total_lines: nat, area_height: u16) -> (int, bool) {
    let total = (total_lines % 65536) as int;
    let visible = sat_sub(area_height as int, 2);
    let max = sat_sub(total, visible);
    (if scroll > max {
        max
    } else {
        scroll as int
    }, total > visible)
}

/// Clamp the scroll position of the WIT detail view to the text shown, and
/// tell whether the text is longer than the view.
pub fn clamp_detail_scroll(scroll: u16, total_lines: usize, area_height: u16) -> (r: (u16, bool))
    ensures
        (r.0 as int, r.1) == detail_scroll(scroll, total_lines as nat, area_height),
        r.0 <= scroll,
{
    let total: u16 = (total_lines % 65536) as u16;
    let visible: u16 = area_height.saturating_sub(2);
    let max: u16 = total.saturating_sub(visible);
    let clamped = if scroll > max {
        max
    } else {
        scroll
    };
    (clamped, total > visible)
}

/// The part of the log shown: from the scroll offset, but never so far that
/// the view is not full when the log is long enough; at most `height` lines.
pub fn log_window(total: usize, scroll_offset: usize, height: usize) -> (r: (usize, usize))
    ensures
        r.0 as int == (if scroll_offset < sat_sub(total as int, height as int) {
            scroll_offset as int
        } else {
            sat_sub(total as int, height as int)
        }),
        r.1 as int == (if r.0 + height < total {
            r.0 + height
        } else {
            total as int
        }),
        r.0 <= r.1 <= total,
        r.1 - r.0 <= height,
        total <= height ==> r.0 == 0 && r.1 == total,
        scroll_offset + height >= total ==> r.1 == total,
{
    let last_start = total.saturating_sub(height);
    let start = if scroll_offset < last_start {
        scroll_offset
    } else {
        last_start
    };
    let end = if total - start > height {
        start + height
    } else {
        total
    };
    (start, end)
}

/// The title of the log view: the number of lines.
pub fn log_title(count: usize) -> (r: String)
    ensures
        r@ == decimal_text(count as nat) + " log line(s)"@,
{
    let n = decimal(count as u64);
    concat2(n.as_str(), " log line(s)")
}

} // verus!

verus! {

/// Append one line.
fn push_line(out: &mut Vec<String>, line: String)
    ensures
        texts(final(out)@) == texts(old(out)@).push(line@),
{
    let ghost before = texts(out@);
    let ghost l = line@;
    out.push(line);
    assert(texts(out@) =~= before.push(l));
}

/// The text of the filter box of the packages view: the query with a cursor
/// while typing, a hint while it is empty, else the query.
pub open spec fn filter_box_of(active: bool, query: Seq<char>) -> Seq<char> {
    if active {
        query + "_"@
    } else if query.len() == 0 {
        "Press / to filter..."@
    } else {
        query
    }
}

/// The text of the filter box of the packages view.
pub fn filter_box_text(active: bool, query: &str) -> (r: String)
    ensures
        r@ == filter_box_of(active, query@),
{
    if active {
        concat2(query, "_")
    } else if query.unicode_len() == 0 {
        to_owned("Press / to filter...")
    } else {
        to_owned(query)
    }
}

/// What the packages view says when it has no package to list.
pub fn no_packages_message(query: &str) -> (r: &'static str)
    ensures
        r@ == (if query@.len() == 0 {
            "No packages stored."@
        } else {
            "No packages found matching your filter."@
        }),
{
    if query.unicode_len() == 0 {
        "No packages stored."
    } else {
        "No packages found matching your filter."
    }
}

/// `d` without a leading `sha256:`.
pub open spec fn short_digest(d: Seq<char>) -> Seq<char> {
    if has_prefix(d, "sha256:"@) {
        d.skip(7)
    } else {
        d
    }
}

/// The cells of a row of the packages table: repository, registry, tag (or
/// `-`), the size as given, and the digest without `sha256:` (or `-`).
pub open spec fn package_row_of(entry: ImageEntry, size: Seq<char>) -> Seq<Seq<char>> {
    seq![
        entry.ref_repository@,
        entry.ref_registry@,
        match entry.ref_tag {
            Some(t) => t@,
            None => "-"@,
        },
        size,
        match entry.ref_digest {
            Some(d) => short_digest(d@),
            None => "-"@,
        },
    ]
}

/// The cells of a row of the packages table; `size` is the image's size as
/// the caller formats it.
pub fn package_row(entry: &ImageEntry, size: &str) -> (r: Vec<String>)
    ensures
        texts(r@) == package_row_of(*entry, size@),
{
    let tag = match &entry.ref_tag {
        Some(t) => t.clone(),
        None => to_owned("-"),
    };
    let digest = match &entry.ref_digest {
        Some(d) => {
            proof {
                reveal_strlit("sha256:");
            }
            if starts_with(d.as_str(), "sha256:") {
                to_owned(d.as_str().substring_char(7, d.as_str().unicode_len()))
            } else {
                d.clone()
            }
        },
        None => to_owned("-"),
    };
    let out = vec![entry.ref_repository.clone(), entry.ref_registry.clone(), tag, to_owned(size), digest];
    assert(texts(out@) =~= package_row_of(*entry, size@));
    out
}

/// A titled list of tags: `TITLE N tag(s)`, then one bulleted line per tag.
pub open spec fn tag_block(title: Seq<char>, tags: Seq<String>) -> Seq<Seq<char>> {
    seq![title + decimal_text(tags.len()) + " tag(s)"@] + tags.map_values(|t: String| "  • "@ + t@)
}

fn push_tag_block(out: &mut Vec<String>, title: &str, tags: &Vec<String>)
    ensures
        texts(final(out)@) == texts(old(out)@) + tag_block(title@, tags@),
{
    let count = decimal(tags.len() as u64);
    let head = concat3(title, count.as_str(), " tag(s)");
    push_line(out, head);
    let ghost start = texts(out@);
    let mut i: usize = 0;
    while i < tags.len()
        invariant
            i <= tags.len(),
            texts(out@) == start + tags@.take(i as int).map_values(|t: String| "  • "@ + t@),
        decreases tags.len() - i,
    {
        push_line(out, concat2("  • ", tags[i].as_str()));
        assert(tags@.take(i + 1).map_values(|t: String| "  • "@ + t@) =~= tags@.take(i as int).map_values(
            |t: String| "  • "@ + t@,
        ).push("  • "@ + tags@[i as int]@));
        i = i + 1;
    }
    assert(tags@.take(tags.len() as int) =~= tags@);
    assert(texts(out@) =~= texts(old(out)@) + tag_block(title@, tags@));
}

/// The lines of the detail view of a known package: where it lives, its
/// description, its release tags, its signature and attestation tags where
/// it has any, and when it was first and last seen.
pub open spec fn known_detail_lines_of(p: KnownPackage) -> Seq<Seq<char>> {
    seq!["Registry: "@ + p.registry@, "Repository: "@ + p.repository@] + match p.description {
        Some(d) => seq!["Description: "@ + d@],
        None => Seq::empty(),
    } + seq![""@] + tag_block("Tags: "@, p.tags@) + (if p.signature_tags@.len() > 0 {
        seq![""@] + tag_block("Signature Tags: "@, p.signature_tags@)
    } else {
        Seq::empty()
    }) + (if p.attestation_tags@.len() > 0 {
        seq![""@] + tag_block("Attestation Tags: "@, p.attestation_tags@)
    } else {
        Seq::empty()
    }) + seq![""@, "Last Seen: "@ + p.last_seen_at@, "Created At: "@ + p.created_at@]
}

/// The header and lines of the detail view of a known package.
pub fn known_package_detail(p: &KnownPackage) -> (r: (String, Vec<String>))
    ensures
        r.0@ == spec_reference(p.registry@, p.repository@),
        texts(r.1@) == known_detail_lines_of(*p),
{
    let header = concat3(p.registry.as_str(), "/", p.repository.as_str());
    proof {
        reveal_strlit("/");
        assert("/"@ =~= seq!['/']);
    }
    let mut out: Vec<String> = Vec::new();
    assert(texts(out@) =~= Seq::<Seq<char>>::empty());
    push_line(&mut out, concat2("Registry: ", p.registry.as_str()));
    push_line(&mut out, concat2("Repository: ", p.repository.as_str()));
    let ghost a = texts(out@);
    match &p.description {
        Some(d) => push_line(&mut out, concat2("Description: ", d.as_str())),
        None => {},
    }
    let ghost b = texts(out@);
    push_line(&mut out, to_owned(""));
    push_tag_block(&mut out, "Tags: ", &p.tags);
    let ghost c = texts(out@);
    if p.signature_tags.len() > 0 {
        push_line(&mut out, to_owned(""));
        push_tag_block(&mut out, "Signature Tags: ", &p.signature_tags);
    }
    let ghost d = texts(out@);
    if p.attestation_tags.len() > 0 {
        push_line(&mut out, to_owned(""));
        push_tag_block(&mut out, "Attestation Tags: ", &p.attestation_tags);
    }
    let ghost e = texts(out@);
    push_line(&mut out, to_owned(""));
    push_line(&mut out, concat2("Last Seen: ", p.last_seen_at.as_str()));
    push_line(&mut out, concat2("Created At: ", p.created_at.as_str()));
    assert(texts(out@) =~= known_detail_lines_of(*p));
    (header, out)
}

} // verus!

verus! {

/// What the detail view of a stored image shows of its manifest.
#[derive(Debug, Clone)]
pub struct ManifestSummary {
    /// The manifest's schema version.
    pub schema_version: u8,
    /// The manifest's media type, if it names one.
    pub media_type: Option<String>,
    /// The media type of the image configuration.
    pub config_media_type: String,
    /// The media types of the layers, in order.
    pub layer_media_types: Vec<String>,
}

/// One line `LABEL value` when there is a value, none otherwise.
pub open spec fn optional_line(label: Seq<char>, value: Option<String>) -> Seq<Seq<char>> {
    match value {
        Some(v) => seq![label + v@],
        None => Seq::empty(),
    }
}

fn push_optional_line(out: &mut Vec<String>, label: &str, value: &Option<String>)
    ensures
        texts(final(out)@) == texts(old(out)@) + optional_line(label@, *value),
{
    match value {
        Some(v) => push_line(out, concat2(label, v.as_str())),
        None => {},
    }
    assert(texts(out@) =~= texts(old(out)@) + optional_line(label@, *value));
}

/// The line of layer `i` (counted from 0): its number from 1, its media type
/// and its size as given.
pub open spec fn layer_line(i: nat, media_type: Seq<char>, size: Seq<char>) -> Seq<char> {
    "  ["@ + decimal_text(i + 1) + "] "@ + media_type + " ("@ + size + ")"@
}

/// The lines of the detail view of a stored image; the sizes are given as
/// the caller formats them: the image's, the configuration's, and each layer's.
pub open spec fn image_detail_lines_of(
    e: ImageEntry,
    m: ManifestSummary,
    image_size: Seq<char>,
    config_size: Seq<char>,
    layer_sizes: Seq<String>,
) -> Seq<Seq<char>> {
    seq!["Registry: "@ + e.ref_registry@, "Repository: "@ + e.ref_repository@] + optional_line(
        "Mirror Registry: "@,
        e.ref_mirror_registry,
    ) + optional_line("Tag: "@, e.ref_tag) + optional_line("Digest: "@, e.ref_digest) + seq![
        "Size: "@ + image_size,
        ""@,
        "Manifest:"@,
        "  Schema Version: "@ + decimal_text(m.schema_version as nat),
    ] + optional_line("  Media Type: "@, m.media_type) + seq![
        "  Config Media Type: "@ + m.config_media_type@,
        "  Config Size: "@ + config_size,
        ""@,
        "Layers: "@ + decimal_text(m.layer_media_types@.len()) + " layer(s)"@,
    ] + Seq::new(
        m.layer_media_types@.len(),
        |i: int| layer_line(i as nat, m.layer_media_types@[i]@, layer_sizes[i]@),
    ) + seq![""@]
}

fn push_layer_lines(out: &mut Vec<String>, media_types: &Vec<String>, sizes: &Vec<String>)
    requires
        sizes@.len() == media_types@.len(),
    ensures
        texts(final(out)@) == texts(old(out)@) + Seq::new(
            media_types@.len(),
            |i: int| layer_line(i as nat, media_types@[i]@, sizes@[i]@),
        ),
{
    let ghost want = Seq::new(
        media_types@.len(),
        |i: int| layer_line(i as nat, media_types@[i]@, sizes@[i]@),
    );
    let ghost start = texts(out@);
    let mut i: usize = 0;
    while i < media_types.len()
        invariant
            i <= media_types.len(),
            sizes@.len() == media_types@.len(),
            want == Seq::new(
                media_types@.len(),
                |i: int| layer_line(i as nat, media_types@[i]@, sizes@[i]@),
            ),
            texts(out@) == start + want.take(i as int),
        decreases media_types.len() - i,
    {
        let number = decimal((i + 1) as u64);
        let a = concat3("  [", number.as_str(), "] ");
        let b = concat3(a.as_str(), media_types[i].as_str(), " (");
        let line = concat3(b.as_str(), sizes[i].as_str(), ")");
        assert(line@ =~= want[i as int]);
        push_line(out, line);
        assert(want.take(i + 1) =~= want.take(i as int).push(want[i as int]));
        i = i + 1;
    }
    assert(want.take(media_types.len() as int) =~= want);
}

/// The header (`registry/repository`) and lines of the detail view of a
/// stored image.
pub fn image_detail(
    e: &ImageEntry,
    m: &ManifestSummary,
    image_size: &str,
    config_size: &str,
    layer_sizes: &Vec<String>,
) -> (r: (String, Vec<String>))
    requires
        layer_sizes@.len() == m.layer_media_types@.len(),
    ensures
        r.0@ == spec_reference(e.ref_registry@, e.ref_repository@),
        texts(r.1@) == image_detail_lines_of(*e, *m, image_size@, config_size@, layer_sizes@),
{
    let header = concat3(e.ref_registry.as_str(), "/", e.ref_repository.as_str());
    proof {
        reveal_strlit("/");
        assert("/"@ =~= seq!['/']);
    }
    let mut out: Vec<String> = Vec::new();
    assert(texts(out@) =~= Seq::<Seq<char>>::empty());
    push_line(&mut out, concat2("Registry: ", e.ref_registry.as_str()));
    push_line(&mut out, concat2("Repository: ", e.ref_repository.as_str()));
    push_optional_line(&mut out, "Mirror Registry: ", &e.ref_mirror_registry);
    push_optional_line(&mut out, "Tag: ", &e.ref_tag);
    push_optional_line(&mut out, "Digest: ", &e.ref_digest);
    push_line(&mut out, concat2("Size: ", image_size));
    push_line(&mut out, to_owned(""));
    push_line(&mut out, to_owned("Manifest:"));
    let version = decimal(m.schema_version as u64);
    push_line(&mut out, concat2("  Schema Version: ", version.as_str()));
    push_optional_line(&mut out, "  Media Type: ", &m.media_type);
    push_line(&mut out, concat2("  Config Media Type: ", m.config_media_type.as_str()));
    push_line(&mut out, concat2("  Config Size: ", config_size));
    push_line(&mut out, to_owned(""));
    let count = decimal(m.layer_media_types.len() as u64);
    push_line(&mut out, concat3("Layers: ", count.as_str(), " layer(s)"));
    push_layer_lines(&mut out, &m.layer_media_types, layer_sizes);
    push_line(&mut out, to_owned(""));
    assert(texts(out@) =~= image_detail_lines_of(*e, *m, image_size@, config_size@, layer_sizes@));
    (header, out)
}

} // verus!

verus! {

/// What the settings view shows of the tool's state.
#[derive(Debug, Clone)]
pub struct StateSummary {
    /// The migration the metadata store is at.
    pub migration_current: u32,
    /// The number of migrations there are.
    pub migration_total: u32,
    /// The global configuration file.
    pub config_file: String,
    /// Whether the global configuration file exists.
    pub config_exists: bool,
    /// The configuration file of the current directory.
    pub local_config_file: String,
    /// Whether that file exists.
    pub local_config_exists: bool,
    /// The running executable.
    pub executable: String,
    /// The data directory.
    pub data_dir: String,
    /// The content store directory.
    pub store_dir: String,
    /// The metadata database file.
    pub metadata_file: String,
    /// The size of the content store, as the caller formats it.
    pub store_size: String,
    /// The size of the metadata database, as the caller formats it.
    pub metadata_size: String,
}

/// `s` with each `\` replaced by `/`, so paths read the same on every platform.
pub open spec fn forward_slashes(s: Seq<char>) -> Seq<char> {
    Seq::new(s.len(), |i: int| if s[i] == '\\' { '/' } else { s[i] })
}

/// `s` with each `\` replaced by `/`.
pub fn with_forward_slashes(s: &str) -> (r: String)
    ensures
        r@ == forward_slashes(s@),
{
    let n = s.unicode_len();
    let mut out = String::new();
    let mut i: usize = 0;
    while i < n
        invariant
            n == s@.len(),
            i <= n,
            out@ == forward_slashes(s@).take(i as int),
        decreases n - i,
    {
        let c = s.get_char(i);
        string_push(&mut out, if c == '\\' { '/' } else { c });
        assert(out@ =~= forward_slashes(s@).take(i + 1));
        i = i + 1;
    }
    assert(forward_slashes(s@).take(n as int) =~= forward_slashes(s@));
    out
}

/// The number of bytes of the UTF-8 encoding of `s`.
pub open spec fn byte_len(s: Seq<char>) -> nat {
    vstd::utf8::encode_utf8(s).len()
}

/// The larger of two numbers.
pub open spec fn max2(a: int, b: int) -> int {
    if a < b {
        b
    } else {
        a
    }
}

/// The text lines of the settings view: the migration state and where the
/// configuration files are, with whether they exist.
pub open spec fn settings_lines_of(s: StateSummary) -> Seq<Seq<char>> {
    seq![
        "Migrations"@,
        "  Current:  "@ + decimal_text(s.migration_current as nat) + "/"@ + decimal_text(
            s.migration_total as nat,
        ),
        "Configuration"@,
        "  Global config: "@ + forward_slashes(s.config_file@) + " ("@ + (if s.config_exists {
            "exists"@
        } else {
            "not created"@
        }) + ")"@,
        "  Local config:  "@ + forward_slashes(s.local_config_file@) + " ("@ + (
        if s.local_config_exists {
            "exists"@
        } else {
            "not found"@
        }) + ")"@,
        "Storage"@,
    ]
}

/// The rows of the storage table: what, where, and how large (`-` for the
/// executable and the data directory).
pub open spec fn storage_rows_of(s: StateSummary) -> Seq<(Seq<char>, Seq<char>, Seq<char>)> {
    seq![
        ("Executable"@, forward_slashes(s.executable@), "-"@),
        ("Data storage"@, forward_slashes(s.data_dir@), "-"@),
        ("Content store"@, forward_slashes(s.store_dir@), s.store_size@),
        ("Image metadata"@, forward_slashes(s.metadata_file@), s.metadata_size@),
    ]
}

/// The widths of the storage table's columns, in bytes: the longest label,
/// the longest path, and the longest size (at least 1).
pub open spec fn storage_widths_of(s: StateSummary) -> (int, int, int) {
    (
        14,
        max2(
            max2(
                max2(
                    byte_len(forward_slashes(s.executable@)) as int,
                    byte_len(forward_slashes(s.data_dir@)) as int,
                ),
                byte_len(forward_slashes(s.store_dir@)) as int,
            ),
            byte_len(forward_slashes(s.metadata_file@)) as int,
        ),
        max2(max2(byte_len(s.store_size@) as int, byte_len(s.metadata_size@) as int), 1),
    )
}

/// The views of the cells of a table row.
pub open spec fn row_texts(rows: Seq<(String, String, String)>) -> Seq<(Seq<char>, Seq<char>, Seq<char>)> {
    rows.map_values(|r: (String, String, String)| (r.0@, r.1@, r.2@))
}

/// The text lines, the storage table rows and the storage column widths of
/// the settings view.
pub fn settings_view(s: &StateSummary) -> (r: (Vec<String>, Vec<(String, String, String)>, (usize, usize, usize)))
    requires
        byte_len(forward_slashes(s.executable@)) <= usize::MAX,
        byte_len(forward_slashes(s.data_dir@)) <= usize::MAX,
        byte_len(forward_slashes(s.store_dir@)) <= usize::MAX,
        byte_len(forward_slashes(s.metadata_file@)) <= usize::MAX,
        byte_len(s.store_size@) <= usize::MAX,
        byte_len(s.metadata_size@) <= usize::MAX,
    ensures
        texts(r.0@) == settings_lines_of(*s),
        row_texts(r.1@) == storage_rows_of(*s),
        (r.2.0 as int, r.2.1 as int, r.2.2 as int) == storage_widths_of(*s),
{
    let current = decimal(s.migration_current as u64);
    let total = decimal(s.migration_total as u64);
    let head = concat3("  Current:  ", current.as_str(), "/");
    let migration_line = concat2(head.as_str(), total.as_str());
    let config = with_forward_slashes(s.config_file.as_str());
    let config_status = if s.config_exists {
        "exists"
    } else {
        "not created"
    };
    let g = concat3("  Global config: ", config.as_str(), " (");
    let global_line = concat3(g.as_str(), config_status, ")");
    let local = with_forward_slashes(s.local_config_file.as_str());
    let local_status = if s.local_config_exists {
        "exists"
    } else {
        "not found"
    };
    let l = concat3("  Local config:  ", local.as_str(), " (");
    let local_line = concat3(l.as_str(), local_status, ")");
    let lines = vec![
        to_owned("Migrations"),
        migration_line,
        to_owned("Configuration"),
        global_line,
        local_line,
        to_owned("Storage"),
    ];
    assert(texts(lines@) =~= settings_lines_of(*s));
    let exe = with_forward_slashes(s.executable.as_str());
    let data = with_forward_slashes(s.data_dir.as_str());
    let store = with_forward_slashes(s.store_dir.as_str());
    let meta = with_forward_slashes(s.metadata_file.as_str());
    let mut w2: usize = exe.as_str().len();
    if data.as_str().len() > w2 {
        w2 = data.as_str().len();
    }
    if store.as_str().len() > w2 {
        w2 = store.as_str().len();
    }
    if meta.as_str().len() > w2 {
        w2 = meta.as_str().len();
    }
    let mut w3: usize = s.store_size.as_str().len();
    if s.metadata_size.as_str().len() > w3 {
        w3 = s.metadata_size.as_str().len();
    }
    if w3 < 1 {
        w3 = 1;
    }
    let rows = vec![
        (to_owned("Executable"), exe, to_owned("-")),
        (to_owned("Data storage"), data, to_owned("-")),
        (to_owned("Content store"), store, s.store_size.clone()),
        (to_owned("Image metadata"), meta, s.metadata_size.clone()),
    ];
    assert(row_texts(rows@) =~= storage_rows_of(*s));
    (lines, rows, (14, w2, w3))
}

} // verus!

verus! {

/// What the tab bar says of the state: `offline` in offline mode, else
/// whether the package manager is ready.
pub open spec fn status_of(state: ManagerState, offline: bool) -> Seq<char> {
    if offline {
        "offline"@
    } else if state == ManagerState::Ready {
        "ready"@
    } else {
        "loading..."@
    }
}

/// The title of the tab bar: the program and its state.
pub fn tab_bar_title(state: ManagerState, offline: bool) -> (r: String)
    ensures
        r@ == "wasm(1) - "@ + status_of(state, offline),
{
    let status = if offline {
        "offline"
    } else if state == ManagerState::Ready {
        "ready"
    } else {
        "loading..."
    };
    concat2("wasm(1) - ", status)
}

/// Where the pull prompt is drawn in an area of the given size, as
/// `(x, y, width, height)`: at most 60 columns wide and 4 narrower than the
/// area, 5 rows high or 7 with an error, and centred.
pub open spec fn pull_prompt_area_of(width: u16, height: u16, has_error: bool) -> (int, int, int, int) {
    let w = if 60 < sat_sub(width as int, 4) {
        60
    } else {
        sat_sub(width as int, 4)
    };
    let h: int = if has_error {
        7
    } else {
        5
    };
    (sat_sub(width as int, w) / 2, sat_sub(height as int, h) / 2, w, h)
}

/// Where the pull prompt is drawn.
pub fn pull_prompt_area(width: u16, height: u16, has_error: bool) -> (r: (u16, u16, u16, u16))
    ensures
        (r.0 as int, r.1 as int, r.2 as int, r.3 as int) == pull_prompt_area_of(width, height, has_error),
        r.0 + r.2 <= width,
        r.2 <= 60,
{
    let avail = width.saturating_sub(4);
    let w: u16 = if 60 < avail {
        60
    } else {
        avail
    };
    let h: u16 = if has_error {
        7
    } else {
        5
    };
    (width.saturating_sub(w) / 2, height.saturating_sub(h) / 2, w, h)
}

/// The title of the pull prompt, which notes a running pull.
pub fn pull_prompt_title(in_progress: bool) -> (r: &'static str)
    ensures
        r@ == (if in_progress {
            " Pull Package (pulling...) "@
        } else {
            " Pull Package "@
        }),
{
    if in_progress {
        " Pull Package (pulling...) "
    } else {
        " Pull Package "
    }
}

/// The input line of the pull prompt: what was typed, and a cursor.
pub fn pull_prompt_input(input: &str) -> (r: String)
    ensures
        r@ == input@ + "_"@,
{
    concat2(input, "_")
}

} // verus!
