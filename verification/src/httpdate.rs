//! HTTP date rendering and parsing, done by chrono behind trusted wrappers.
//!
//! Both directions are pure functions of their arguments, so each result is
//! given a name that contracts elsewhere in the library can speak about.

use vstd::prelude::*;

verus! {

/// The RFC 7231 IMF-fixdate rendering of a UNIX timestamp, e.g.
/// `Tue, 15 Nov 1994 08:12:31 GMT`.
pub uninterp spec fn http_date_of(secs: i64) -> Seq<char>;

/// The UNIX timestamp an HTTP date header value denotes, or `None` when the
/// value does not parse as one.
pub uninterp spec fn parsed_date_of(s: Seq<char>) -> Option<i64>;

/// Relies on chrono's `DateTime::<Utc>::from_timestamp` and its `format`
/// machinery with the fixed pattern `%a, %d %b %Y %H:%M:%S GMT`: the
/// rendered date depends on the timestamp alone (chrono renders English
/// weekday and month names regardless of locale or environment). A
/// timestamp outside the range chrono can represent renders as the empty
/// string, which is still a function of the timestamp alone.
#[verifier::external_body]
pub fn format_http_date(secs: i64) -> (r: String)
    ensures
        r@ == http_date_of(secs),
{
    match chrono::DateTime::<chrono::Utc>::from_timestamp(secs, 0) {
        Some(t) => t.format("%a, %d %b %Y %H:%M:%S GMT").to_string(),
        None => String::new(),
    }
}

/// Relies on chrono's `DateTime::parse_from_rfc2822` and `timestamp`:
/// whether a header value parses as an RFC 2822 date, and which UNIX
/// timestamp it denotes, depend on the characters alone.
#[verifier::external_body]
pub fn parse_http_date(s: &str) -> (r: Option<i64>)
    ensures
        r == parsed_date_of(s@),
{
    match chrono::DateTime::parse_from_rfc2822(s) {
        Ok(t) => Some(t.timestamp()),
        Err(_) => None,
    }
}

} // verus!
