//! Reading single values out of the markup tree.

use crate::dom::{attr, attr_of, matches_under, select_under, texts, texts_of};
use vstd::prelude::*;

verus! {

/// The first item of `s`, if it has one.
pub open spec fn first_of<T>(s: Seq<T>) -> Option<T> {
    if s.len() > 0 {
        Some(s[0])
    } else {
        None
    }
}

/// The items of `parts`, one after the other.
pub open spec fn concat_all(parts: Seq<Seq<char>>) -> Seq<char>
    decreases parts.len(),
{
    if parts.len() == 0 {
        Seq::empty()
    } else {
        concat_all(parts.drop_last()) + parts.last()
    }
}

/// The first descendant of `scope` that matches `css`.
pub open spec fn first_match(scope: scraper::ElementRef, css: Seq<char>) -> Option<
    scraper::ElementRef,
> {
    first_of(matches_under(scope, css))
}

/// The attribute `name` of the first descendant of `scope` that matches
/// `css`: nothing where none matches, `Some(None)` where the first match
/// lacks the attribute.
pub open spec fn first_attr(scope: scraper::ElementRef, css: Seq<char>, name: Seq<char>) -> Option<
    Option<Seq<char>>,
> {
    match first_match(scope, css) {
        Some(el) => Some(attr_of(el, name)),
        None => None,
    }
}

/// The first text node of the first descendant of `scope` that matches
/// `css`: nothing where none matches, `Some(None)` where the first match
/// holds no text.
pub open spec fn first_text(scope: scraper::ElementRef, css: Seq<char>) -> Option<
    Option<Seq<char>>,
> {
    match first_match(scope, css) {
        Some(el) => Some(first_of(texts_of(el))),
        None => None,
    }
}

pub fn concat_strings(parts: &Vec<String>) -> (r: String)
    ensures
        r@ == concat_all(parts.deep_view()),
{
    let mut out = String::new();
    let mut i: usize = 0;
    while i < parts.len()
        invariant
            i <= parts.len(),
            out@ == concat_all(parts.deep_view().take(i as int)),
        decreases parts.len() - i,
    {
        proof {
            assert(parts.deep_view().take(i as int + 1).drop_last() =~= parts.deep_view().take(
                i as int,
            ));
        }
        out.append(parts[i].as_str());
        i += 1;
    }
    proof {
        assert(parts.deep_view().take(parts.len() as int) =~= parts.deep_view());
    }
    out
}

pub fn select_first<'a>(scope: scraper::ElementRef<'a>, css: &str) -> (r: Option<
    scraper::ElementRef<'a>,
>)
    ensures
        r == first_match(scope, css@),
{
    let found = select_under(scope, css);
    if found.len() > 0 {
        Some(found[0])
    } else {
        None
    }
}

pub fn text_first(el: scraper::ElementRef) -> (r: Option<String>)
    ensures
        r.deep_view() == first_of(texts_of(el)),
{
    let nodes = texts(el);
    if nodes.len() > 0 {
        Some(nodes[0].clone())
    } else {
        None
    }
}

pub fn select_first_attr(scope: scraper::ElementRef, css: &str, name: &str) -> (r: Option<
    Option<String>,
>)
    ensures
        r.deep_view() == first_attr(scope, css@, name@),
{
    match select_first(scope, css) {
        Some(el) => Some(attr(el, name)),
        None => None,
    }
}

pub fn select_first_text(scope: scraper::ElementRef, css: &str) -> (r: Option<Option<String>>)
    ensures
        r.deep_view() == first_text(scope, css@),
{
    match select_first(scope, css) {
        Some(el) => Some(text_first(el)),
        None => None,
    }
}

} // verus!
