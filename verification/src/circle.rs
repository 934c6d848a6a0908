//! The listing of the works of a circle.

pub mod options;

use crate::dom::{
    fragment_of, matches_in, outer_html, outer_html_of, parse_fragment, select_in, texts_of,
};
use crate::error::{
    malformed, structural, to_parse_error, DlsiteError, Failure, FailureKind,
};
use crate::search::{items_read, list_decoded, list_failure, parse_search_html, SearchResult};
use crate::select::{first_of, text_first};
use crate::text::{parse_i32, parsed_i32};
use vstd::prelude::*;

verus! {

/// What the page of a circle holds at the selectors of the decoder.
#[derive(Debug)]
pub struct RawCirclePage {
    /// `#search_result_list`: the markup of the first.
    pub list_html: Option<String>,
    /// `.page_total > strong`: the first text node of the first.
    pub total: Option<Option<String>>,
}

pub struct RawCirclePageView {
    pub list_html: Option<Seq<char>>,
    pub total: Option<Option<Seq<char>>>,
}

impl DeepView for RawCirclePage {
    type V = RawCirclePageView;

    open spec fn deep_view(&self) -> RawCirclePageView {
        RawCirclePageView { list_html: self.list_html.deep_view(), total: self.total.deep_view() }
    }
}

/// What the page `html` holds at the selectors of the decoder.
pub open spec fn circle_page_read(html: Seq<char>) -> RawCirclePageView {
    let doc = fragment_of(html);
    RawCirclePageView {
        list_html: match first_of(matches_in(&doc, "#search_result_list"@)) {
            Some(list) => Some(outer_html_of(list)),
            None => None,
        },
        total: match first_of(matches_in(&doc, ".page_total > strong"@)) {
            Some(total) => Some(first_of(texts_of(total))),
            None => None,
        },
    }
}

/// Why `raw` is no listing, apart from its items: the failure of the first
/// check that fails.
pub open spec fn circle_page_failure(raw: RawCirclePageView) -> Option<Failure> {
    if raw.list_html is None {
        Some(structural("Product list not found"@))
    } else if raw.total is None {
        Some(structural("No total item count found"@))
    } else if raw.total->0 is None {
        Some(structural("No total item count found 2"@))
    } else if parsed_i32(raw.total->0->0) is None {
        Some(malformed("Failed to parse total item count"@))
    } else {
        None
    }
}

/// Whether `r` is what the page `raw`, asked for under `query_path`, decodes
/// to: the first failure of the page, else that of its items, else the
/// items with the total and the path.
pub open spec fn circle_page_decoded(
    raw: RawCirclePageView,
    query_path: Seq<char>,
    r: Result<SearchResult, DlsiteError>,
) -> bool {
    match circle_page_failure(raw) {
        Some(failure) => r is Err && r->Err_0.is_failure(failure),
        None => {
            let raws = items_read(raw.list_html->0);
            match r {
                Ok(found) => {
                    &&& list_decoded(raws, Ok(found.products))
                    &&& Some(found.count) == parsed_i32(raw.total->0->0)
                    &&& found.query_path@ == query_path
                },
                Err(e) => list_failure(raws) is Some && e.is_failure(list_failure(raws)->0),
            }
        },
    }
}

/// Reads the page `html` at the selectors of the decoder.
pub fn read_circle_page(html: &str) -> (raw: RawCirclePage)
    ensures
        raw.deep_view() == circle_page_read(html@),
{
    let doc = parse_fragment(html);
    let lists = select_in(&doc, "#search_result_list");
    let list_html = if lists.len() > 0 {
        Some(outer_html(lists[0]))
    } else {
        None
    };
    let totals = select_in(&doc, ".page_total > strong");
    let total = if totals.len() > 0 {
        Some(text_first(totals[0]))
    } else {
        None
    };
    RawCirclePage { list_html, total }
}

/// The listing that `raw` holds, or the first failure. The items are those
/// of the list's own markup, read as a listing.
pub fn decode_circle_page(raw: &RawCirclePage, query_path: String) -> (r: Result<
    SearchResult,
    DlsiteError,
>)
    ensures
        circle_page_decoded(raw.deep_view(), query_path@, r),
{
    let list_html = match &raw.list_html {
        Some(html) => html,
        None => {
            return Err(DlsiteError::structural("Product list not found"));
        },
    };
    let total = match &raw.total {
        Some(Some(t)) => t,
        Some(None) => {
            return Err(DlsiteError::structural("No total item count found 2"));
        },
        None => {
            return Err(DlsiteError::structural("No total item count found"));
        },
    };
    let count = match to_parse_error(
        parse_i32(total.as_str()),
        FailureKind::FieldFormat,
        "Failed to parse total item count",
    ) {
        Ok(n) => n,
        Err(e) => {
            return Err(e);
        },
    };
    match parse_search_html(list_html.as_str()) {
        Ok(products) => Ok(SearchResult { products, count, query_path }),
        Err(e) => Err(e),
    }
}

/// The listing of the page `html` of a circle, which was asked for under
/// `query_path`.
pub fn parse_circle_html(html: &str, query_path: String) -> (r: Result<SearchResult, DlsiteError>)
    ensures
        circle_page_decoded(circle_page_read(html@), query_path@, r),
{
    let raw = read_circle_page(html);
    decode_circle_page(&raw, query_path)
}

} // verus!
