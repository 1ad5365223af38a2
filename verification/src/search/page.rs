//! Reading the elements that a scraped page hands back.
use vstd::prelude::*;
use crate::scraper_calls::Element;
use crate::text::{join, join_strings, str_trim, trim};

verus! {

/// The plain values of a scraped element: its text nodes and its `href`.
pub type ElementView = (Seq<Seq<char>>, Option<Seq<char>>);

/// All the text of an element, its text nodes joined.
pub open spec fn all_text(e: ElementView) -> Seq<char> {
    join(e.0, ""@)
}

/// The elements that the `k`-th field selector found in a row (none when there is no such field).
pub open spec fn field(row: Seq<Seq<ElementView>>, k: int) -> Seq<ElementView> {
    if 0 <= k < row.len() {
        row[k]
    } else {
        Seq::empty()
    }
}

/// The trimmed text of the `i`-th element, or the empty text when there is none.
pub open spec fn nth_text(els: Seq<ElementView>, i: int) -> Seq<char> {
    if 0 <= i < els.len() {
        trim(all_text(els[i]))
    } else {
        Seq::empty()
    }
}

/// The trimmed first text node of the first element, or the empty text.
pub open spec fn first_node_text(els: Seq<ElementView>) -> Seq<char> {
    if els.len() > 0 && els[0].0.len() > 0 {
        trim(els[0].0[0])
    } else {
        Seq::empty()
    }
}

/// All the text of an element.
pub fn element_text(e: &Element) -> (r: String)
    ensures
        r@ == all_text(e.deep_view()),
{
    join_strings(&e.0, "")
}

/// The trimmed text of the `i`-th element, or the empty string.
pub fn text_at(els: &Vec<Element>, i: usize) -> (r: String)
    ensures
        r@ == nth_text(els.deep_view(), i as int),
{
    if i < els.len() {
        let t = element_text(&els[i]);
        str_trim(t.as_str())
    } else {
        String::new()
    }
}

/// The trimmed first text node of the first element, or the empty string.
pub fn first_text(els: &Vec<Element>) -> (r: String)
    ensures
        r@ == first_node_text(els.deep_view()),
{
    if els.len() > 0 && els[0].0.len() > 0 {
        str_trim(els[0].0[0].as_str())
    } else {
        String::new()
    }
}

/// The elements of the `k`-th field of a row.
pub fn field_of<'a>(row: &'a Vec<Vec<Element>>, k: usize) -> (r: Option<&'a Vec<Element>>)
    ensures
        match r {
            Some(els) => k < row@.len() && els.deep_view() == field(row.deep_view(), k as int),
            None => k >= row@.len() && field(row.deep_view(), k as int) == Seq::<ElementView>::empty(),
        },
{
    if k < row.len() {
        Some(&row[k])
    } else {
        None
    }
}

} // verus!
