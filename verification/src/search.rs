//! The `package search` command's table of known packages.
use vstd::prelude::*;
use crate::known_package::{spec_reference, KnownPackage};
use crate::text::{concat3, contains_seq, to_owned};

verus! {

/// `items` joined by `, `.
pub open spec fn joined_list(items: Seq<String>) -> Seq<char>
    decreases items.len(),
{
    if items.len() == 0 {
        Seq::empty()
    } else if items.len() == 1 {
        items[0]@
    } else {
        joined_list(items.drop_last()) + ", "@ + items.last()@
    }
}

/// The cells of a package's row: its reference, its description (or `-`),
/// and its release tags joined by `, ` (or `-` when it has none).
pub open spec fn row_of(p: KnownPackage) -> (Seq<char>, Seq<char>, Seq<char>) {
    (
        spec_reference(p.registry@, p.repository@),
        match p.description {
            Some(d) => d@,
            None => "-"@,
        },
        if p.tags@.len() == 0 {
            "-"@
        } else {
            joined_list(p.tags@)
        },
    )
}

fn join_tags(tags: &Vec<String>) -> (r: String)
    ensures
        r@ == (if tags@.len() == 0 {
            "-"@
        } else {
            joined_list(tags@)
        }),
{
    if tags.len() == 0 {
        return to_owned("-");
    }
    let mut out = tags[0].clone();
    let mut i: usize = 1;
    while i < tags.len()
        invariant
            1 <= i <= tags.len(),
            out@ == joined_list(tags@.take(i as int)),
        decreases tags.len() - i,
    {
        assert(tags@.take(i + 1).drop_last() =~= tags@.take(i as int));
        assert(tags@.take(i + 1).last() == tags@[i as int]);
        out = concat3(out.as_str(), ", ", tags[i].as_str());
        i = i + 1;
    }
    assert(tags@.take(tags.len() as int) =~= tags@);
    assert(tags@.take(1) =~= seq![tags@[0]]) by {
        assert(tags@.take(1).len() == 1);
    }
    out
}

/// The rows of the search table, one per package, in order.
pub fn search_rows(packages: &Vec<KnownPackage>) -> (r: Vec<(String, String, String)>)
    ensures
        r@.len() == packages@.len(),
        forall|i: int| 0 <= i < r@.len() ==> (r@[i].0@, r@[i].1@, r@[i].2@) == row_of(#[trigger] packages@[i]),
{
    let mut rows: Vec<(String, String, String)> = Vec::new();
    let mut i: usize = 0;
    while i < packages.len()
        invariant
            i <= packages.len(),
            rows@.len() == i,
            forall|k: int| 0 <= k < i ==> (rows@[k].0@, rows@[k].1@, rows@[k].2@) == row_of(#[trigger] packages@[k]),
        decreases packages.len() - i,
    {
        let p = &packages[i];
        let description = match &p.description {
            Some(d) => d.clone(),
            None => to_owned("-"),
        };
        rows.push((p.reference(), description, join_tags(&p.tags)));
        i = i + 1;
    }
    rows
}

/// The text `comfy_table` renders for a table with this header and these
/// rows, its content arranged dynamically, not treated as written to a
/// terminal, and fitted to `width` columns when a width is given.
pub uninterp spec fn table_text(header: Seq<Seq<char>>, rows: Seq<Seq<Seq<char>>>, width: Option<u16>) -> Seq<char>;

/// The views of a list of cells.
pub open spec fn cell_texts(cells: Seq<String>) -> Seq<Seq<char>> {
    cells.map_values(|c: String| c@)
}

/// `comfy_table::Table`'s rendering of a table with this header and these
/// rows: dynamic arrangement, no terminal lookup (`force_no_tty`), and
/// `set_width` when a width is given. The text is named by `table_text`.
#[verifier::external_body]
fn render_table(header: Vec<String>, rows: Vec<Vec<String>>, width: Option<u16>) -> (r: String)
    ensures
        r@ == table_text(cell_texts(header@), rows@.map_values(|row: Vec<String>| cell_texts(row@)), width),
{
    let mut table = comfy_table::Table::new();
    table.set_content_arrangement(comfy_table::ContentArrangement::Dynamic);
    table.force_no_tty();
    if let Some(w) = width {
        table.set_width(w);
    }
    table.set_header(header);
    for row in rows {
        table.add_row(row);
    }
    table.to_string()
}

/// `comfy_table::Table::width` of a fresh table: the width of the terminal
/// when standard output is one, else none. It depends on the terminal, so
/// nothing is stated of it.
#[verifier::external_body]
fn terminal_width() -> (r: Option<u16>) {
    comfy_table::Table::new().width()
}

/// The header of the search table.
pub open spec fn search_header() -> Seq<Seq<char>> {
    seq!["PACKAGE"@, "DESCRIPTION"@, "TAGS"@]
}

/// The cells of a row of the search table.
pub open spec fn row_cells(p: KnownPackage) -> Seq<Seq<char>> {
    seq![row_of(p).0, row_of(p).1, row_of(p).2]
}

/// The header and the cells of the search table: `PACKAGE`, `DESCRIPTION`
/// and `TAGS`, then one row per package, in order.
pub fn search_table_cells(packages: &Vec<KnownPackage>) -> (r: (Vec<String>, Vec<Vec<String>>))
    ensures
        r.0@.map_values(|c: String| c@) == search_header(),
        r.1@.len() == packages@.len(),
        forall|i: int|
            0 <= i < r.1@.len() ==> (#[trigger] r.1@[i])@.map_values(|c: String| c@) == row_cells(packages@[i]),
{
    let rows = search_rows(packages);
    let mut cells: Vec<Vec<String>> = Vec::new();
    let mut i: usize = 0;
    while i < rows.len()
        invariant
            i <= rows.len(),
            rows@.len() == packages@.len(),
            forall|k: int| 0 <= k < rows@.len() ==> (rows@[k].0@, rows@[k].1@, rows@[k].2@) == row_of(#[trigger] packages@[k]),
            cells@.len() == i,
            forall|k: int|
                0 <= k < i ==> (#[trigger] cells@[k])@.map_values(|c: String| c@) == row_cells(packages@[k]),
        decreases rows.len() - i,
    {
        let (a, b, c) = &rows[i];
        let row = vec![a.clone(), b.clone(), c.clone()];
        assert(row@.map_values(|c: String| c@) =~= row_cells(packages@[i as int]));
        cells.push(row);
        i = i + 1;
    }
    let header = vec![to_owned("PACKAGE"), to_owned("DESCRIPTION"), to_owned("TAGS")];
    assert(header@.map_values(|c: String| c@) =~= search_header());
    (header, cells)
}

/// The rows of the search table, as text, one per package.
pub open spec fn search_table_rows(packages: Seq<KnownPackage>) -> Seq<Seq<Seq<char>>> {
    packages.map_values(|p: KnownPackage| row_cells(p))
}

/// The search results as a table with a `PACKAGE`, `DESCRIPTION` and
/// `TAGS` column, fitted to `width` columns when a width is given.
pub fn render_search_table_at(packages: &Vec<KnownPackage>, width: Option<u16>) -> (r: String)
    ensures
        r@ == table_text(search_header(), search_table_rows(packages@), width),
{
    let (header, cells) = search_table_cells(packages);
    proof {
        assert(cell_texts(header@) =~= search_header());
        let got = cells@.map_values(|row: Vec<String>| cell_texts(row@));
        assert forall|i: int| 0 <= i < cells@.len() implies #[trigger] got[i] == search_table_rows(packages@)[i] by {
            assert(cell_texts(cells@[i]@) == cells@[i]@.map_values(|c: String| c@));
        }
        assert(got =~= search_table_rows(packages@));
    }
    render_table(header, cells, width)
}

/// The search results as a table with a `PACKAGE`, `DESCRIPTION` and
/// `TAGS` column, fitted to the terminal's width when standard output is a
/// terminal.
pub fn render_search_table(packages: &Vec<KnownPackage>) -> (r: String)
    ensures
        exists|width: Option<u16>| r@ == table_text(search_header(), search_table_rows(packages@), width),
{
    let width = terminal_width();
    render_search_table_at(packages, width)
}

/// The message when the search finds nothing.
pub fn no_results_message(query: &str) -> (r: String)
    ensures
        r@ == "No packages found matching '"@ + query@ + "'"@,
{
    concat3("No packages found matching '", query, "'")
}

} // verus!

verus! {

/// Every item occurs, as a block of text, in the items joined by `, `; a
/// single item is the whole joined text.
pub proof fn lemma_joined_list_holds_items(items: Seq<String>)
    ensures
        items.len() == 1 ==> joined_list(items) == items[0]@,
        forall|j: int| 0 <= j < items.len() ==> contains_seq(joined_list(items), #[trigger] items[j]@),
    decreases items.len(),
{
    if items.len() > 1 {
        let init = items.drop_last();
        lemma_joined_list_holds_items(init);
        let head = joined_list(init);
        let s = joined_list(items);
        assert(s == head + ", "@ + items.last()@);
        assert forall|j: int| 0 <= j < items.len() implies contains_seq(s, #[trigger] items[j]@) by {
            let sub = items[j]@;
            if j < items.len() - 1 {
                assert(init[j] == items[j]);
                assert(contains_seq(head, init[j]@));
                let i = choose|i: int| 0 <= i && i + sub.len() <= head.len() && #[trigger] head.subrange(i, i + sub.len()) == sub;
                assert(s.subrange(i, i + sub.len()) =~= head.subrange(i, i + sub.len()));
            } else {
                let i: int = head.len() as int + 2;
                assert(", "@.len() == 2) by {
                    reveal_strlit(", ");
                }
                assert(s.subrange(i, i + sub.len() as int) =~= sub);
            }
        }
    } else if items.len() == 1 {
        let s = joined_list(items);
        assert(s == items[0]@);
        assert(s.subrange(0, 0 + items[0]@.len() as int) =~= items[0]@);
        assert(contains_seq(s, items[0]@));
    }
}

/// Tags law of the search table: a package's TAGS cell is `-` exactly when
/// it has no tag; with one tag it is that tag; and every one of its tags
/// occurs in it.
pub proof fn lemma_tags_cell(p: KnownPackage)
    ensures
        p.tags@.len() == 0 ==> row_of(p).2 == "-"@,
        p.tags@.len() == 1 ==> row_of(p).2 == p.tags@[0]@,
        forall|j: int| 0 <= j < p.tags@.len() ==> contains_seq(row_of(p).2, #[trigger] p.tags@[j]@),
{
    lemma_joined_list_holds_items(p.tags@);
}

} // verus!
