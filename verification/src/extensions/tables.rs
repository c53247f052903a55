//! Responsive tables: every table is wrapped in a scrolling container, and
//! every cell is given a class that says how its text is aligned.
//!
//! The rewrite works on tag boundaries alone. It does not parse a table into
//! rows and columns, so markup that is malformed or nested is wrapped as far
//! as its tags are found.

use crate::text::{
    copy_range, find, find_from, from_chars, lemma_find_leftmost, lemma_find_none_skip,
    lemma_replace_all_absent, lemma_skip_skip, push_all, push_range, push_str, replace_all,
    replace_all_chars, starts_with, starts_with_at, to_chars,
};
use vstd::prelude::*;

verus! {

/// Alignment options for table columns.
#[derive(Debug, Clone, Copy, PartialEq, Eq, Structural)]
pub enum ColumnAlignment {
    /// Align the column to the left.
    Left,
    /// Align the column to the center.
    Center,
    /// Align the column to the right.
    Right,
}

impl ColumnAlignment {
    /// The styling class that aligns the text of a cell in this way.
    pub open spec fn class_name(self) -> Seq<char> {
        match self {
            ColumnAlignment::Left => "text-left"@,
            ColumnAlignment::Center => "text-center"@,
            ColumnAlignment::Right => "text-right"@,
        }
    }

    /// Returns the styling class that aligns the text of a cell in this way.
    pub fn text_class(&self) -> (class: &'static str)
        ensures
            class@ == self.class_name(),
    {
        match self {
            ColumnAlignment::Left => "text-left",
            ColumnAlignment::Center => "text-center",
            ColumnAlignment::Right => "text-right",
        }
    }
}

/// The opening tag of a table.
pub open spec fn table_open() -> Seq<char> {
    "<table>"@
}

/// What stands in place of the opening tag of a table: the opening of the
/// responsive container, then the styled opening tag.
pub open spec fn table_open_wrapped() -> Seq<char> {
    "<div class=\"table-responsive\"><table class=\"table\">"@
}

/// The closing tag of a table.
pub open spec fn table_close() -> Seq<char> {
    "</table>"@
}

/// What stands in place of the closing tag of a table: the closing tag, then
/// the closing of the responsive container.
pub open spec fn table_close_wrapped() -> Seq<char> {
    "</table></div>"@
}

/// The characters with which the opening tag of a cell begins.
pub open spec fn cell_open() -> Seq<char> {
    "<td"@
}

/// The character that ends a tag.
pub open spec fn tag_end() -> Seq<char> {
    ">"@
}

/// The alignment that the attribute text of a cell asks for: centre or right
/// where the attribute `align` has that value, left in every other case.
pub open spec fn alignment_of(attrs: Seq<char>) -> ColumnAlignment {
    if find(attrs, "align=\"center\""@) is Some {
        ColumnAlignment::Center
    } else if find(attrs, "align=\"right\""@) is Some {
        ColumnAlignment::Right
    } else {
        ColumnAlignment::Left
    }
}

/// The opening tag of a cell found at the start of a text: its attribute
/// text and the number of characters that it spans.
pub struct CellTag {
    /// What stands between `<td` and the `>` that ends the tag.
    pub attrs: Seq<char>,
    /// The length of the whole tag.
    pub len: int,
}

/// The opening tag of a cell with which `s` begins, if it begins with one:
/// `<td`, then any text without `>`, then `>`.
pub open spec fn cell_tag_at_start(s: Seq<char>) -> Option<CellTag> {
    if !starts_with(s, cell_open()) {
        None
    } else {
        let text = s.skip(cell_open().len() as int);
        match find(text, tag_end()) {
            None => None,
            Some(n) => Some(
                CellTag { attrs: text.take(n), len: cell_open().len() + n + tag_end().len() },
            ),
        }
    }
}

/// A tag that is found is not empty and lies within the text.
pub proof fn lemma_cell_tag_len(s: Seq<char>)
    ensures
        cell_tag_at_start(s) matches Some(tag) ==> 0 < tag.len <= s.len(),
{
    reveal_strlit("<td");
    if starts_with(s, cell_open()) {
        lemma_find_leftmost(s.skip(cell_open().len() as int), tag_end());
    }
}

/// The opening tag of a cell with the given attribute text, annotated: the
/// attribute text is kept as it is, and the class of its alignment follows.
pub open spec fn annotated_cell(attrs: Seq<char>) -> Seq<char> {
    cell_open() + attrs + " class=\""@ + alignment_of(attrs).class_name() + "\">"@
}

/// `s` with the opening tag of every cell annotated, from left to right;
/// what follows a tag is searched from the end of that tag.
pub open spec fn annotate_cells(s: Seq<char>) -> Seq<char>
    decreases s.len(),
{
    if s.len() == 0 {
        s
    } else {
        match cell_tag_at_start(s) {
            Some(tag) => {
                proof {
                    lemma_cell_tag_len(s);
                }
                annotated_cell(tag.attrs) + annotate_cells(s.skip(tag.len))
            },
            None => seq![s[0]] + annotate_cells(s.skip(1)),
        }
    }
}

/// What the enhancement of tables makes of a document: the opening and the
/// closing tag of every table are replaced by their wrapped forms, and then
/// the opening tag of every cell is annotated.
pub open spec fn enhanced_tables(html: Seq<char>) -> Seq<char> {
    annotate_cells(
        replace_all(
            replace_all(html, table_open(), table_open_wrapped()),
            table_close(),
            table_close_wrapped(),
        ),
    )
}

/// Whether a document holds a tag that the enhancement of tables rewrites:
/// the opening or closing tag of a table, or the opening tag of a cell.
pub open spec fn has_table_tags(html: Seq<char>) -> bool {
    ||| find(html, table_open()) is Some
    ||| find(html, table_close()) is Some
    ||| exists|i: int| 0 <= i <= html.len() && #[trigger] cell_tag_at_start(html.skip(i)) is Some
}

/// Where no suffix of `s` begins with the opening tag of a cell, annotating
/// the cells changes nothing.
pub proof fn lemma_annotate_cells_absent(s: Seq<char>)
    requires
        forall|i: int| 0 <= i <= s.len() ==> #[trigger] cell_tag_at_start(s.skip(i)) is None,
    ensures
        annotate_cells(s) == s,
    decreases s.len(),
{
    assert(s.skip(0) =~= s);
    if s.len() > 0 {
        let t = s.skip(1);
        assert forall|i: int| 0 <= i <= t.len() implies #[trigger] cell_tag_at_start(t.skip(i))
            is None by {
            lemma_skip_skip(s, 1, i);
            assert(cell_tag_at_start(s.skip(1 + i)) is None);
        }
        lemma_annotate_cells_absent(t);
        assert(seq![s[0]] + t =~= s);
    }
}

/// Where no `>` follows the start of a cell tag, no suffix of the text begins
/// with the opening tag of a cell.
proof fn lemma_no_cell_tags_left(s: Seq<char>)
    requires
        starts_with(s, cell_open()),
        find(s.skip(cell_open().len() as int), tag_end()) is None,
    ensures
        forall|k: int| 0 <= k <= s.len() ==> #[trigger] cell_tag_at_start(s.skip(k)) is None,
{
    let open = cell_open().len() as int;
    assert forall|k: int| 0 <= k <= s.len() implies #[trigger] cell_tag_at_start(s.skip(k))
        is None by {
        if starts_with(s.skip(k), cell_open()) {
            lemma_find_none_skip(s.skip(open), tag_end(), k);
            lemma_skip_skip(s, open, k);
            lemma_skip_skip(s, k, open);
        }
    }
}

/// The enhancement of tables leaves a document without table tags as it is,
/// however often it is applied.
pub proof fn lemma_enhanced_tables_identity(html: Seq<char>)
    requires
        !has_table_tags(html),
    ensures
        enhanced_tables(html) == html,
        enhanced_tables(enhanced_tables(html)) == enhanced_tables(html),
{
    lemma_replace_all_absent(html, table_open(), table_open_wrapped());
    lemma_replace_all_absent(html, table_close(), table_close_wrapped());
    lemma_annotate_cells_absent(html);
}

/// Finds the alignment that the attribute text of a cell asks for.
pub fn alignment(attrs: &Vec<char>) -> (a: ColumnAlignment)
    ensures
        a == alignment_of(attrs@),
{
    assert(attrs@.skip(0) =~= attrs@);
    let center = to_chars("align=\"center\"");
    let right = to_chars("align=\"right\"");
    if find_from(attrs, &center, 0).is_some() {
        ColumnAlignment::Center
    } else if find_from(attrs, &right, 0).is_some() {
        ColumnAlignment::Right
    } else {
        ColumnAlignment::Left
    }
}

/// Appends to `out` the annotated opening tag of a cell with the given
/// attribute text.
fn push_annotated_cell(out: &mut Vec<char>, attrs: &Vec<char>)
    ensures
        final(out)@ == old(out)@ + annotated_cell(attrs@),
{
    let class = alignment(attrs).text_class();
    push_str(out, "<td");
    push_all(out, attrs);
    push_str(out, " class=\"");
    push_str(out, class);
    push_str(out, "\">");
    assert(out@ =~= old(out)@ + annotated_cell(attrs@));
}

/// Annotates the opening tag of every cell in `s`.
fn annotate_cells_chars(s: &Vec<char>) -> (out: Vec<char>)
    ensures
        out@ == annotate_cells(s@),
{
    let open = to_chars("<td");
    let end = to_chars(">");
    let mut out: Vec<char> = Vec::new();
    let mut i: usize = 0;
    assert(s@.skip(0) =~= s@);
    while i < s.len()
        invariant
            i <= s.len(),
            open@ == cell_open(),
            end@ == tag_end(),
            out@ + annotate_cells(s@.skip(i as int)) == annotate_cells(s@),
        decreases s.len() - i,
    {
        let ghost before = out@;
        let ghost rest = s@.skip(i as int);
        let mut tag_end_at: Option<usize> = None;
        if starts_with_at(s, &open, i) {
            proof {
                lemma_skip_skip(s@, i as int, open.len() as int);
            }
            tag_end_at = find_from(s, &end, i + open.len());
            if tag_end_at.is_none() {
                push_range(&mut out, s, i, s.len());
                proof {
                    lemma_no_cell_tags_left(rest);
                    lemma_annotate_cells_absent(rest);
                    assert(s@.subrange(i as int, s.len() as int) =~= rest);
                }
                return out;
            }
        }
        match tag_end_at {
            Some(g) => {
                let attrs = copy_range(s, i + open.len(), g);
                push_annotated_cell(&mut out, &attrs);
                let next = g + end.len();
                proof {
                    let tag = cell_tag_at_start(rest)->0;
                    lemma_cell_tag_len(rest);
                    assert(tag.len == next - i);
                    assert(tag.attrs =~= attrs@);
                    lemma_skip_skip(s@, i as int, tag.len);
                    assert(out@ + annotate_cells(s@.skip(next as int)) =~= before + annotate_cells(
                        rest,
                    ));
                }
                i = next;
            },
            None => {
                out.push(s[i]);
                proof {
                    assert(cell_tag_at_start(rest) is None);
                    lemma_skip_skip(s@, i as int, 1);
                    assert(out@ + annotate_cells(rest.skip(1)) =~= before + annotate_cells(rest));
                }
                i += 1;
            },
        }
    }
    out
}

/// Processes tables, enhancing them with a responsive container and with
/// alignment classes on their cells. A document without table tags comes
/// back as it is.
pub fn process_tables(table_html: &str) -> (enhanced: String)
    ensures
        enhanced@ == enhanced_tables(table_html@),
        !has_table_tags(table_html@) ==> enhanced@ == table_html@,
{
    let html = to_chars(table_html);
    let opened = replace_all_chars(
        &html,
        &to_chars("<table>"),
        &to_chars("<div class=\"table-responsive\"><table class=\"table\">"),
    );
    let closed = replace_all_chars(&opened, &to_chars("</table>"), &to_chars("</table></div>"));
    let annotated = annotate_cells_chars(&closed);
    proof {
        if !has_table_tags(table_html@) {
            lemma_enhanced_tables_identity(table_html@);
        }
    }
    from_chars(&annotated)
}

} // verus!
