//! The call into the `scraper` crate: an HTML page read into rows of selected
//! elements, each element given as its text nodes and its `href` attribute.
use vstd::prelude::*;

verus! {

/// One selected element: its descendant text nodes in document order, and its `href`.
pub type Element = (Vec<String>, Option<String>);

/// What `Html::parse_document(html)` gives when, for each element that the
/// selector `rows` matches (in document order), each selector of `fields` is
/// applied within it (`ElementRef::select`), and each element found is taken
/// as its `text()` nodes and `attr("href")`. No rows when `rows` does not
/// parse; no elements for a field selector that does not parse.
pub uninterp spec fn scraped(
    html: Seq<char>,
    rows: Seq<char>,
    fields: Seq<Seq<char>>,
) -> Seq<Seq<Seq<(Seq<Seq<char>>, Option<Seq<char>>)>>>;

/// Parses `html` with `scraper::Html::parse_document` and selects, within each
/// row that `rows` matches, the elements that each of `fields` matches.
#[verifier::external_body]
pub(crate) fn call_scrape(html: &str, rows: &str, fields: &Vec<&str>) -> (r: Vec<Vec<Vec<Element>>>)
    ensures
        r.deep_view() == scraped(html@, rows@, fields.deep_view()),
{
    let doc = scraper::Html::parse_document(html);
    let sels: Vec<Option<scraper::Selector>> = fields.iter().map(|f| scraper::Selector::parse(f).ok()).collect();
    match scraper::Selector::parse(rows) {
        Ok(rs) => doc.select(&rs).map(|row| sels.iter().map(|s| s.iter().flat_map(|s| row.select(s))
            .map(|e| (e.text().map(String::from).collect(), e.attr("href").map(String::from))).collect())
            .collect()).collect(),
        Err(_) => Vec::new(),
    }
}

} // verus!
