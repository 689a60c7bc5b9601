use vstd::prelude::*;

use crate::error::ScrapeError;
use crate::links::{
    anchors_view, links_from_anchors, links_of, links_result_view, Anchor, AnchorView, FileLink,
};
use crate::status::{is_success, is_success_spec};

verus! {

/// The selector for the anchors of a file listing: anchor elements inside
/// an element of class `fileText`.
pub const FILE_LIST_SELECTOR: &'static str = ".fileText a";

/// Whether scraper accepts `selector` as a CSS selector group.
pub uninterp spec fn selector_parses(selector: Seq<char>) -> bool;

/// The elements of the HTML document `document` that the selector group
/// `selector` matches, in document order, each seen as an `AnchorView`.
pub uninterp spec fn matched_anchors(document: Seq<char>, selector: Seq<char>) -> Seq<AnchorView>;

/// Relies on scraper's `Selector::parse` (which fails on a malformed
/// selector), `Html::parse_document` (which never fails) and `Html::select`
/// (which yields the matching elements in document order): the elements that
/// `selector` matches in `document`, each with its attributes and its
/// descendant text nodes, or `None` where the selector does not parse.
#[verifier::external_body]
fn select_in_document(document: &str, selector: &str) -> (r: Option<Vec<Anchor>>)
    ensures
        r.is_some() == selector_parses(selector@),
        r.is_some() ==> anchors_view(r.unwrap()@) == matched_anchors(document@, selector@),
{
    let sel = match scraper::Selector::parse(selector) {
        Ok(s) => s,
        Err(_) => return None,
    };
    let doc = scraper::Html::parse_document(document);
    let found = doc.select(&sel).map(|e| Anchor {
        attrs: e.value().attrs().map(|(k, v)| (k.to_owned(), v.to_owned())).collect(),
        texts: e.text().map(|t| t.to_owned()).collect(),
    }).collect();
    Some(found)
}

/// The file links that a page body lists: one per anchor inside a
/// `fileText` element, in document order. Fails with `Parse` where the
/// listing selector is refused, and otherwise as `links_from_anchors` does.
pub fn extract_links(body: &str) -> (r: Result<Vec<FileLink>, ScrapeError>)
    ensures
        !selector_parses(FILE_LIST_SELECTOR@) ==> r == Err::<Vec<FileLink>, ScrapeError>(
            ScrapeError::Parse,
        ),
        selector_parses(FILE_LIST_SELECTOR@) ==> links_result_view(r) == links_of(
            matched_anchors(body@, FILE_LIST_SELECTOR@),
        ),
{
    match select_in_document(body, FILE_LIST_SELECTOR) {
        None => Err(ScrapeError::Parse),
        Some(anchors) => links_from_anchors(&anchors),
    }
}

/// The file links of a fetched root page, given the response status and
/// body. A status outside the success class is a `Fetch` error, reported
/// before the body is looked at.
pub fn extract_page(status: u16, body: &str) -> (r: Result<Vec<FileLink>, ScrapeError>)
    ensures
        !is_success_spec(status) ==> r == Err::<Vec<FileLink>, ScrapeError>(
            ScrapeError::Fetch(status),
        ),
        is_success_spec(status) && !selector_parses(FILE_LIST_SELECTOR@) ==> r == Err::<
            Vec<FileLink>,
            ScrapeError,
        >(ScrapeError::Parse),
        is_success_spec(status) && selector_parses(FILE_LIST_SELECTOR@) ==> links_result_view(r)
            == links_of(matched_anchors(body@, FILE_LIST_SELECTOR@)),
{
    if !is_success(status) {
        return Err(ScrapeError::Fetch(status));
    }
    extract_links(body)
}

} // verus!
