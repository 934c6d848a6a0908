//! Calendar dates, and the two outside functions that find and read one.

use chrono::Datelike;
use vstd::prelude::*;

verus! {

/// A day of the proleptic Gregorian calendar.
#[derive(Debug, Clone, Copy, PartialEq, Eq, Structural)]
pub struct Date {
    pub year: i32,
    /// From 1 to 12.
    pub month: u32,
    /// From 1 to 31.
    pub day: u32,
}

impl Date {
    /// Whether month and day are in the range of the calendar.
    pub open spec fn in_range(&self) -> bool {
        1 <= self.month <= 12 && 1 <= self.day <= 31
    }
}

/// The leftmost match of the regular expression `pattern` in `text`, as
/// `regex::Regex::find` reports it; nothing where there is no match, or
/// where `pattern` is no regular expression.
pub uninterp spec fn pattern_match(pattern: Seq<char>, text: Seq<char>) -> Option<Seq<char>>;

/// The year, month and day that `chrono::NaiveDate::parse_from_str` reads
/// from `text` under `format`; nothing where it reports an error.
pub uninterp spec fn date_read(text: Seq<char>, format: Seq<char>) -> Option<(int, int, int)>;

/// Calls `regex::Regex::new` on `pattern` and, where that succeeds,
/// `regex::Regex::find` on `text`: the text of the leftmost match.
#[verifier::external_body]
pub(crate) fn find_pattern(pattern: &str, text: &str) -> (found: Option<String>)
    ensures
        found.deep_view() == pattern_match(pattern@, text@),
{
    match regex::Regex::new(pattern) {
        Ok(re) => re.find(text).map(|m| m.as_str().to_string()),
        Err(_) => None,
    }
}

/// Calls `chrono::NaiveDate::parse_from_str`, and reads year, month and day
/// off the date with `chrono::Datelike`, which documents the month as
/// ranging from 1 to 12 and the day from 1 to 31.
#[verifier::external_body]
pub(crate) fn read_date(text: &str, format: &str) -> (date: Option<Date>)
    ensures
        match date {
            Some(d) => date_read(text@, format@) == Some(
                (d.year as int, d.month as int, d.day as int),
            ) && d.in_range(),
            None => date_read(text@, format@) is None,
        },
{
    match chrono::NaiveDate::parse_from_str(text, format) {
        Ok(d) => Some(Date { year: d.year(), month: d.month(), day: d.day() }),
        Err(_) => None,
    }
}

} // verus!
