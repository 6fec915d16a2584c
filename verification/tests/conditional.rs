use fileserver::conditional::Decision;
use fileserver::conditional::evaluate;

const ETAG: &str = "\"12345\"";
const DATE: &str = "Tue, 15 Nov 1994 08:12:31 GMT";
const DATE_SECS: i64 = 784887151;

#[test]
fn exact_match_means_304() {
    let d = evaluate("GET", Some(ETAG), None, ETAG, DATE_SECS);
    assert_eq!(d, Decision::NotModified304);
}

#[test]
fn weak_match_means_304() {
    let inm = "W/\"12345\"";
    let d = evaluate("GET", Some(inm), None, ETAG, DATE_SECS);
    assert_eq!(d, Decision::NotModified304);
}

#[test]
fn match_wins_over_stale_ims() {
    // A matching if-none-match yields 304 even when if-modified-since says
    // the copy is older than the resource.
    let stale = "Mon, 14 Nov 1994 08:12:31 GMT";
    let d = evaluate("GET", Some(ETAG), Some(stale), ETAG, DATE_SECS);
    assert_eq!(d, Decision::NotModified304);
}

#[test]
fn mismatch_wins_over_fresh_ims() {
    // A non-matching if-none-match yields a full serve even when
    // if-modified-since would say the copy is fresh.
    let fresh = "Wed, 16 Nov 1994 08:12:31 GMT";
    let d = evaluate("GET", Some("\"other\""), Some(fresh), ETAG, DATE_SECS);
    assert_eq!(d, Decision::Serve200);
}

#[test]
fn ims_after_means_304() {
    let later = "Wed, 16 Nov 1994 08:12:31 GMT";
    let d = evaluate("GET", None, Some(later), ETAG, DATE_SECS);
    assert_eq!(d, Decision::NotModified304);
}

#[test]
fn ims_equal_means_200() {
    // The comparison is strict: a client date equal to the modification
    // time is not after it.
    let d = evaluate("GET", None, Some(DATE), ETAG, DATE_SECS);
    assert_eq!(d, Decision::Serve200);
}

#[test]
fn ims_before_means_200() {
    let earlier = "Mon, 14 Nov 1994 08:12:31 GMT";
    let d = evaluate("GET", None, Some(earlier), ETAG, DATE_SECS);
    assert_eq!(d, Decision::Serve200);
}

#[test]
fn ims_unparseable_means_200() {
    let d = evaluate("GET", None, Some("not a date"), ETAG, DATE_SECS);
    assert_eq!(d, Decision::Serve200);
}

#[test]
fn no_conditions_means_200() {
    let d = evaluate("HEAD", None, None, ETAG, DATE_SECS);
    assert_eq!(d, Decision::Serve200);
}

#[test]
fn post_rejected_with_conditions() {
    let later = "Wed, 16 Nov 1994 08:12:31 GMT";
    let d = evaluate("POST", Some(ETAG), Some(later), ETAG, DATE_SECS);
    assert_eq!(d, Decision::MethodNotAllowed405);
}

#[test]
fn delete_rejected() {
    let d = evaluate("DELETE", None, None, ETAG, DATE_SECS);
    assert_eq!(d, Decision::MethodNotAllowed405);
}

#[test]
fn weak_prefix_on_other_tag_means_200() {
    let d = evaluate("GET", Some("W/\"other\""), None, ETAG, DATE_SECS);
    assert_eq!(d, Decision::Serve200);
}
