//! Reading HTML markup through the scraper crate.
//!
//! Each query parses its markup as a whole document and runs one CSS selector
//! over it; an element found by one query is handed on as its outer markup and
//! parsed anew by the next query.
use vstd::prelude::*;

verus! {

/// The outer markup of each element that `selector` matches in `html`, in document order.
pub uninterp spec fn selected_outer_html(html: Seq<char>, selector: Seq<char>) -> Seq<Seq<char>>;

/// The inner markup of each element that `selector` matches in `html`, in document order.
pub uninterp spec fn selected_inner_html(html: Seq<char>, selector: Seq<char>) -> Seq<Seq<char>>;

/// The value of attribute `attr` (if present) of each element that `selector` matches
/// in `html`, in document order.
pub uninterp spec fn selected_attr(html: Seq<char>, selector: Seq<char>, attr: Seq<char>) -> Seq<Option<Seq<char>>>;

/// Calls scraper's `Html::parse_document`, `Selector::parse`, `Html::select` and
/// `ElementRef::html`. Claimed: the result is a function of the markup and the
/// selector alone (named above); a selector that does not parse matches nothing.
#[verifier::external_body]
pub(crate) fn select_outer_html(html: &str, selector: &str) -> (r: Vec<String>)
    ensures
        r.deep_view() == selected_outer_html(html@, selector@),
{
    let mut out = Vec::new();
    if let Ok(sel) = scraper::Selector::parse(selector) {
        for element in scraper::Html::parse_document(html).select(&sel) {
            out.push(element.html());
        }
    }
    out
}

/// Calls scraper's `Html::parse_document`, `Selector::parse`, `Html::select` and
/// `ElementRef::inner_html`. Claimed: the result is a function of the markup and the
/// selector alone (named above); a selector that does not parse matches nothing.
#[verifier::external_body]
pub(crate) fn select_inner_html(html: &str, selector: &str) -> (r: Vec<String>)
    ensures
        r.deep_view() == selected_inner_html(html@, selector@),
{
    let mut out = Vec::new();
    if let Ok(sel) = scraper::Selector::parse(selector) {
        for element in scraper::Html::parse_document(html).select(&sel) {
            out.push(element.inner_html());
        }
    }
    out
}

/// Calls scraper's `Html::parse_document`, `Selector::parse`, `Html::select` and
/// `Element::attr`. Claimed: the result is a function of the markup, the selector and
/// the attribute's name alone (named above); a selector that does not parse matches nothing.
#[verifier::external_body]
pub(crate) fn select_attr(html: &str, selector: &str, attr: &str) -> (r: Vec<Option<String>>)
    ensures
        r.deep_view() == selected_attr(html@, selector@, attr@),
{
    let mut out = Vec::new();
    if let Ok(sel) = scraper::Selector::parse(selector) {
        for element in scraper::Html::parse_document(html).select(&sel) {
            out.push(element.value().attr(attr).map(String::from));
        }
    }
    out
}

} // verus!
