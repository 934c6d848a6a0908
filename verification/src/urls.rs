//! Addresses, as the `url` crate reads and writes them.

use vstd::prelude::*;

verus! {

/// `text` as `url::Url` writes it back after `url::Url::parse` has read it;
/// nothing where `text` is no address.
pub uninterp spec fn url_written(text: Seq<char>) -> Option<Seq<char>>;

/// Calls `url::Url::parse` and, where that succeeds, turns the address back
/// into a string with `String::from`, which hands out its serialization.
#[verifier::external_body]
pub(crate) fn write_url(text: &str) -> (written: Option<String>)
    ensures
        written.deep_view() == url_written(text@),
{
    match url::Url::parse(text) {
        Ok(u) => Some(String::from(u)),
        Err(_) => None,
    }
}

} // verus!
