//! Conditional-request evaluation: decide between serving a full body,
//! answering 304 Not Modified, and rejecting the method.
//!
//! `if-none-match` has strict priority: when it is present, matching or
//! not, `if-modified-since` is never consulted. An `if-modified-since`
//! value that does not parse as an HTTP date is treated as if the header
//! were absent.

use vstd::prelude::*;
use vstd::string::*;

use crate::httpdate::parse_http_date;
use crate::httpdate::parsed_date_of;
use crate::text::str_eq;

verus! {

/// The decision for one request: exactly one of these per request.
#[derive(Clone, Copy, PartialEq, Eq, Structural, Debug)]
pub enum Decision {
    Serve200,
    NotModified304,
    MethodNotAllowed405,
}

/// The views of the optional conditional headers.
pub open spec fn opt_view(o: Option<&str>) -> Option<Seq<char>> {
    match o {
        Some(s) => Some(s@),
        None => None,
    }
}

/// Only GET and HEAD are served.
pub open spec fn is_read_method(m: Seq<char>) -> bool {
    m == "GET"@ || m == "HEAD"@
}

/// An `if-none-match` value matches the entity tag exactly, or weakly: the
/// value prefixed with `W/` and the remainder equal to the tag.
pub open spec fn etag_matches(inm: Seq<char>, etag: Seq<char>) -> bool {
    inm == etag || (inm.len() >= 2 && inm[0] == 'W' && inm[1] == '/' && inm.skip(2) == etag)
}

/// The decision, given the method, the conditional headers, the entity tag
/// and the modification timestamp. Rules in order: a method other than GET
/// or HEAD is rejected; a present `if-none-match` decides alone (match
/// means 304, mismatch means a full serve); otherwise a present
/// `if-modified-since` that parses to a date strictly after the
/// modification time means 304; everything else is a full serve.
pub open spec fn decision_of(
    method: Seq<char>,
    inm: Option<Seq<char>>,
    ims: Option<Seq<char>>,
    etag: Seq<char>,
    last_modified_secs: i64,
) -> Decision {
    if !is_read_method(method) {
        Decision::MethodNotAllowed405
    } else if inm is Some {
        if etag_matches(inm->0, etag) {
            Decision::NotModified304
        } else {
            Decision::Serve200
        }
    } else if ims is Some && parsed_date_of(ims->0) is Some && parsed_date_of(ims->0)->0
        > last_modified_secs {
        Decision::NotModified304
    } else {
        Decision::Serve200
    }
}

/// Whether `inm` matches `etag`, exactly or weakly.
pub fn etag_matches_exec(inm: &str, etag: &str) -> (r: bool)
    ensures
        r == etag_matches(inm@, etag@),
{
    if str_eq(inm, etag) {
        return true;
    }
    let n = inm.unicode_len();
    if n >= 2 && inm.get_char(0) == 'W' && inm.get_char(1) == '/' {
        let rest = inm.substring_char(2, n);
        proof {
            assert(rest@ =~= inm@.skip(2));
        }
        str_eq(rest, etag)
    } else {
        false
    }
}

/// Evaluate the conditional request rules.
pub fn evaluate(
    method: &str,
    if_none_match: Option<&str>,
    if_modified_since: Option<&str>,
    etag: &str,
    last_modified_secs: i64,
) -> (d: Decision)
    ensures
        d == decision_of(
            method@,
            opt_view(if_none_match),
            opt_view(if_modified_since),
            etag@,
            last_modified_secs,
        ),
{
    if !(str_eq(method, "GET") || str_eq(method, "HEAD")) {
        return Decision::MethodNotAllowed405;
    }
    match if_none_match {
        Some(inm) => {
            if etag_matches_exec(inm, etag) {
                Decision::NotModified304
            } else {
                Decision::Serve200
            }
        },
        None => {
            match if_modified_since {
                Some(ims) => {
                    match parse_http_date(ims) {
                        Some(t) => {
                            if t > last_modified_secs {
                                Decision::NotModified304
                            } else {
                                Decision::Serve200
                            }
                        },
                        None => Decision::Serve200,
                    }
                },
                None => Decision::Serve200,
            }
        },
    }
}

/// A matching `if-none-match`, exact or weak-prefixed, yields 304 for a
/// read method, whatever `if-modified-since` holds.
pub proof fn lemma_inm_match_means_304(
    method: Seq<char>,
    inm: Seq<char>,
    ims: Option<Seq<char>>,
    etag: Seq<char>,
    last_modified_secs: i64,
)
    requires
        is_read_method(method),
        etag_matches(inm, etag),
    ensures
        decision_of(method, Some(inm), ims, etag, last_modified_secs)
            == Decision::NotModified304,
{
}

/// A non-matching `if-none-match` yields a full serve for a read method,
/// whatever `if-modified-since` holds: it is never consulted once
/// `if-none-match` was supplied.
pub proof fn lemma_inm_mismatch_means_200(
    method: Seq<char>,
    inm: Seq<char>,
    ims: Option<Seq<char>>,
    etag: Seq<char>,
    last_modified_secs: i64,
)
    requires
        is_read_method(method),
        !etag_matches(inm, etag),
    ensures
        decision_of(method, Some(inm), ims, etag, last_modified_secs) == Decision::Serve200,
{
}

/// With no `if-none-match`, an `if-modified-since` that parses to a date
/// strictly after the modification time yields 304.
pub proof fn lemma_ims_fresh_means_304(
    method: Seq<char>,
    ims: Seq<char>,
    etag: Seq<char>,
    last_modified_secs: i64,
)
    requires
        is_read_method(method),
        parsed_date_of(ims) is Some,
        parsed_date_of(ims)->0 > last_modified_secs,
    ensures
        decision_of(method, None, Some(ims), etag, last_modified_secs)
            == Decision::NotModified304,
{
}

/// With no `if-none-match`, an unparseable `if-modified-since` is treated
/// as absent: the request is served in full.
pub proof fn lemma_ims_unparseable_means_200(
    method: Seq<char>,
    ims: Seq<char>,
    etag: Seq<char>,
    last_modified_secs: i64,
)
    requires
        is_read_method(method),
        parsed_date_of(ims) is None,
    ensures
        decision_of(method, None, Some(ims), etag, last_modified_secs) == Decision::Serve200,
{
}

/// Method gating: any method other than GET or HEAD is rejected with 405,
/// independent of the conditional headers.
pub proof fn lemma_method_gating(
    method: Seq<char>,
    inm: Option<Seq<char>>,
    ims: Option<Seq<char>>,
    etag: Seq<char>,
    last_modified_secs: i64,
)
    requires
        !is_read_method(method),
    ensures
        decision_of(method, inm, ims, etag, last_modified_secs)
            == Decision::MethodNotAllowed405,
{
}

} // verus!
