//! The markup tree, as the `scraper` crate parses and queries it.
//!
//! Nothing in this file is proved: each function states what the function of
//! `scraper` that it calls is taken to do. A document and an element are
//! opaque; what is read from them is named by the spec functions below, each
//! of which stands for what one function of `scraper` returns.

use vstd::prelude::*;

verus! {

/// A parsed document or fragment.
#[verifier::external_type_specification]
#[verifier::external_body]
pub struct ExHtml(scraper::Html);

/// A reference to an element of a parsed document.
#[verifier::external_type_specification]
#[verifier::external_body]
pub struct ExElementRef<'a>(scraper::ElementRef<'a>);

/// The tree that `scraper::Html::parse_fragment` builds from `text`.
pub uninterp spec fn fragment_of(text: Seq<char>) -> scraper::Html;

/// The tree that `scraper::Html::parse_document` builds from `text`.
pub uninterp spec fn document_of(text: Seq<char>) -> scraper::Html;

/// The elements of `doc` that match the selector group `css`, in the order
/// in which `scraper::Html::select` yields them; none where `css` is not a
/// selector group.
pub uninterp spec fn matches_in(doc: &scraper::Html, css: Seq<char>) -> Seq<scraper::ElementRef>;

/// The descendants of `scope` that match the selector group `css`, in the
/// order in which `scraper::ElementRef::select` yields them; none where `css`
/// is not a selector group.
pub uninterp spec fn matches_under(scope: scraper::ElementRef, css: Seq<char>) -> Seq<
    scraper::ElementRef,
>;

/// The value of the attribute `name` of `el`, as `scraper::ElementRef::attr`
/// returns it.
pub uninterp spec fn attr_of(el: scraper::ElementRef, name: Seq<char>) -> Option<Seq<char>>;

/// The text nodes below `el`, in the order in which
/// `scraper::ElementRef::text` yields them.
pub uninterp spec fn texts_of(el: scraper::ElementRef) -> Seq<Seq<char>>;

/// What `scraper::ElementRef::inner_html` returns for `el`.
pub uninterp spec fn inner_html_of(el: scraper::ElementRef) -> Seq<char>;

/// What `scraper::ElementRef::html` returns for `el`.
pub uninterp spec fn outer_html_of(el: scraper::ElementRef) -> Seq<char>;

/// The children of `el` that are elements, in the order in which
/// `scraper::ElementRef::child_elements` yields them.
pub uninterp spec fn child_elements_of(el: scraper::ElementRef) -> Seq<scraper::ElementRef>;

/// Calls `scraper::Html::parse_fragment`, which parses `text` as the content
/// of a `body` element and never fails.
#[verifier::external_body]
pub(crate) fn parse_fragment(text: &str) -> (doc: scraper::Html)
    ensures
        doc == fragment_of(text@),
{
    scraper::Html::parse_fragment(text)
}

/// Calls `scraper::Html::parse_document`, which parses `text` as a whole
/// document and never fails.
#[verifier::external_body]
pub(crate) fn parse_document(text: &str) -> (doc: scraper::Html)
    ensures
        doc == document_of(text@),
{
    scraper::Html::parse_document(text)
}

/// Calls `scraper::Selector::parse` on `css` and, where that succeeds,
/// `scraper::Html::select`: the matching elements of the whole tree. Where
/// `css` does not parse, nothing is selected.
#[verifier::external_body]
pub(crate) fn select_in<'a>(doc: &'a scraper::Html, css: &str) -> (found: Vec<
    scraper::ElementRef<'a>,
>)
    ensures
        found@ == matches_in(doc, css@),
{
    match scraper::Selector::parse(css) {
        Ok(selector) => doc.select(&selector).collect(),
        Err(_) => Vec::new(),
    }
}

/// Calls `scraper::Selector::parse` on `css` and, where that succeeds,
/// `scraper::ElementRef::select`: the matching descendants of `scope`. Where
/// `css` does not parse, nothing is selected.
#[verifier::external_body]
pub(crate) fn select_under<'a>(scope: scraper::ElementRef<'a>, css: &str) -> (found: Vec<
    scraper::ElementRef<'a>,
>)
    ensures
        found@ == matches_under(scope, css@),
{
    match scraper::Selector::parse(css) {
        Ok(selector) => scope.select(&selector).collect(),
        Err(_) => Vec::new(),
    }
}

/// Calls `scraper::ElementRef::attr`: the value of the attribute `name`, if
/// the element has it.
#[verifier::external_body]
pub(crate) fn attr(el: scraper::ElementRef, name: &str) -> (value: Option<String>)
    ensures
        value.deep_view() == attr_of(el, name@),
{
    el.attr(name).map(|v| v.to_string())
}

/// Calls `scraper::ElementRef::text`: the descendant text nodes, in
/// document order.
#[verifier::external_body]
pub(crate) fn texts(el: scraper::ElementRef) -> (nodes: Vec<String>)
    ensures
        nodes.deep_view() == texts_of(el),
{
    el.text().map(|t| t.to_string()).collect()
}

/// Calls `scraper::ElementRef::inner_html`: the markup of what the element
/// holds.
#[verifier::external_body]
pub(crate) fn inner_html(el: scraper::ElementRef) -> (markup: String)
    ensures
        markup@ == inner_html_of(el),
{
    el.inner_html()
}

/// Calls `scraper::ElementRef::html`: the markup of the element itself.
#[verifier::external_body]
pub(crate) fn outer_html(el: scraper::ElementRef) -> (markup: String)
    ensures
        markup@ == outer_html_of(el),
{
    el.html()
}

/// Calls `scraper::ElementRef::child_elements`: the children that are
/// elements, in document order.
#[verifier::external_body]
pub(crate) fn child_elements<'a>(el: scraper::ElementRef<'a>) -> (children: Vec<
    scraper::ElementRef<'a>,
>)
    ensures
        children@ == child_elements_of(el),
{
    el.child_elements().collect()
}

} // verus!
