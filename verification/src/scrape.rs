//! The bridge to the HTML parser: trusted extraction of plain text
//! structure from a documentation page.  Everything downstream — finding
//! the model table, pulling identifiers out of cells — is verified code
//! over these plain values.

use vstd::prelude::*;

verus! {

/// The tables of an HTML document, each as its rows of cell texts, in
/// document order.  The value is a function of the document text alone.
pub uninterp spec fn html_tables_of(s: Seq<char>) -> Seq<Seq<Seq<Seq<char>>>>;

/// The list items of an HTML document that contain an inline code span:
/// for each, the code span's text and the whole item's text, in document
/// order.  The value is a function of the document text alone.
pub uninterp spec fn html_code_items_of(s: Seq<char>) -> Seq<(Seq<char>, Seq<char>)>;

/// A list item holding an inline code span, as plain text.
#[derive(Debug)]
pub struct CodeListItem {
    pub code: String,
    pub text: String,
}

/// The views of extracted tables.
pub open spec fn table_views(ts: Seq<Vec<Vec<String>>>) -> Seq<Seq<Seq<Seq<char>>>> {
    ts.map_values(
        |t: Vec<Vec<String>>| t@.map_values(|row: Vec<String>| row@.map_values(|c: String| c@)),
    )
}

/// The views of extracted code list items.
pub open spec fn code_item_views(items: Seq<CodeListItem>) -> Seq<(Seq<char>, Seq<char>)> {
    items.map_values(|it: CodeListItem| (it.code@, it.text@))
}

/// Relies on scraper's `Html::parse_document`, `Selector::parse` and
/// `ElementRef::text`: every `table` element of the document, its `tr`
/// rows, and the concatenated text of each `td`/`th` cell, in order.
#[verifier::external_body]
pub fn extract_tables(html: &str) -> (r: Vec<Vec<Vec<String>>>)
    ensures
        table_views(r@) == html_tables_of(html@),
{
    let document = scraper::Html::parse_document(html);
    let table_sel = scraper::Selector::parse("table").unwrap();
    let row_sel = scraper::Selector::parse("tr").unwrap();
    let cell_sel = scraper::Selector::parse("td, th").unwrap();
    document
        .select(&table_sel)
        .map(|table| {
            table
                .select(&row_sel)
                .map(|row| {
                    row.select(&cell_sel).map(|cell| cell.text().collect::<String>()).collect()
                })
                .collect()
        })
        .collect()
}

/// Relies on scraper's `Html::parse_document`, `Selector::parse` and
/// `ElementRef::text`: every `li` element holding a `code` element, with
/// the first code span's text and the item's own text, in order.
#[verifier::external_body]
pub fn extract_code_list_items(html: &str) -> (r: Vec<CodeListItem>)
    ensures
        code_item_views(r@) == html_code_items_of(html@),
{
    let document = scraper::Html::parse_document(html);
    let li_sel = scraper::Selector::parse("li").unwrap();
    let code_sel = scraper::Selector::parse("code").unwrap();
    document
        .select(&li_sel)
        .filter_map(|item| {
            item.select(&code_sel).next().map(|code| CodeListItem {
                code: code.text().collect::<String>(),
                text: item.text().collect::<String>(),
            })
        })
        .collect()
}

} // verus!
