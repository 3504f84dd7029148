//! The model catalog: the markup of the page's list elements, or a plain
//! "nothing found" result when there are none.
use vstd::prelude::*;
use crate::decode::{failure_view, success_view, OperationResult, OperationResultView};
use crate::text::{join_lines, joined, strings_view};

verus! {

/// The query that picks the catalog's lists: `<ul>` elements whose `role` is `list`.
pub const LIST_SELECTOR: &'static str = "ul[role='list']";

pub const NO_LISTS_MESSAGE: &'static str = "No <ul role=\"list\"> elements found.";

pub const SELECTOR_ERROR_MESSAGE: &'static str = "Failed to parse selector";

/// What scraper's query gives for a document and a CSS selector: the outer
/// markup of each matching element in document order, or `None` where the
/// selector does not parse.
pub uninterp spec fn outer_html_matches(document: Seq<char>, selector: Seq<char>) -> Option<
    Seq<Seq<char>>,
>;

pub open spec fn opt_strings_view(o: Option<Vec<String>>) -> Option<Seq<Seq<char>>> {
    match o {
        Some(v) => Some(strings_view(v@)),
        None => None,
    }
}

/// Relies on scraper: `Selector::parse`, `Html::parse_document`,
/// `Html::select` and `ElementRef::html`, for the outer markup of the
/// elements that match, in document order.
#[verifier::external_body]
fn select_outer_html(document: &str, selector: &str) -> (r: Option<Vec<String>>)
    ensures
        opt_strings_view(r) == outer_html_matches(document@, selector@),
{
    let selector = scraper::Selector::parse(selector).ok()?;
    let document = scraper::Html::parse_document(document);
    Some(document.select(&selector).map(|element| element.html()).collect())
}

pub open spec fn result_view(r: Result<OperationResult, String>) -> Result<
    OperationResultView,
    Seq<char>,
> {
    match r {
        Ok(o) => Ok(o@),
        Err(e) => Err(e@),
    }
}

/// The catalog result for the markup found: an error where the query could
/// not run; a failure result where nothing matched; otherwise a success
/// whose data is the markup, one element after another, joined by newlines.
pub open spec fn catalog_outcome_of(found: Option<Seq<Seq<char>>>) -> Result<
    OperationResultView,
    Seq<char>,
> {
    match found {
        None => Err(SELECTOR_ERROR_MESSAGE@),
        Some(m) => if m.len() == 0 {
            Ok(failure_view(NO_LISTS_MESSAGE@))
        } else {
            Ok(success_view(joined(m)))
        },
    }
}

/// Turns the markup found into the catalog result.
pub fn catalog_outcome(found: Option<Vec<String>>) -> (r: Result<OperationResult, String>)
    ensures
        result_view(r) == catalog_outcome_of(opt_strings_view(found)),
{
    match found {
        None => Err(String::from_str(SELECTOR_ERROR_MESSAGE)),
        Some(m) => {
            if m.len() == 0 {
                Ok(OperationResult::failed(String::from_str(NO_LISTS_MESSAGE)))
            } else {
                Ok(OperationResult::succeeded(join_lines(&m)))
            }
        },
    }
}

/// The catalog result for a fetched page.
pub fn extract_catalog(page: &str) -> (r: Result<OperationResult, String>)
    ensures
        result_view(r) == catalog_outcome_of(outer_html_matches(page@, LIST_SELECTOR@)),
{
    let found = select_outer_html(page, LIST_SELECTOR);
    catalog_outcome(found)
}

/// Finding nothing is a normal result flagged as failure, not an error; one
/// or more elements give a success holding their markup joined by newlines.
pub proof fn lemma_catalog_flags(markup: Seq<Seq<char>>)
    ensures
        markup.len() == 0 ==> catalog_outcome_of(Some(markup)) == Ok::<OperationResultView, Seq<char>>(
            failure_view(NO_LISTS_MESSAGE@),
        ),
        markup.len() > 0 ==> catalog_outcome_of(Some(markup)) == Ok::<OperationResultView, Seq<char>>(
            success_view(joined(markup)),
        ),
        catalog_outcome_of(Some(markup)) matches Ok(o) && o.wf(),
{
}

/// Joined markup keeps each element's markup, in order, a newline apart.
pub proof fn lemma_joined_two(a: Seq<char>, b: Seq<char>)
    ensures
        joined(seq![a, b]) == a + seq!['\n'] + b,
{
    assert(seq![a, b].drop_last() =~= seq![a]);
    assert(joined(seq![a]) == a);
    assert(seq![a, b].last() == b);
}

} // verus!
