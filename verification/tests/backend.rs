use fileserver::backend::FileBackend;
use fileserver::conditional::Decision;
use fileserver::validator::FileMetadata;
use fileserver::validator::generate_etag;

fn backend() -> FileBackend {
    FileBackend { path: "/srv/files".to_string() }
}

fn meta() -> FileMetadata {
    FileMetadata { size: 1234, inode: 42, modified_secs: 784887151, modified_nanos: 0 }
}

#[test]
fn type_tag() {
    assert_eq!(backend().get_type(), "fileserver");
}

#[test]
fn resolve_confines_to_root() {
    let b = backend();
    assert_eq!(b.resolve("/a/../../b"), "/srv/files/b");
}

#[test]
fn get_serves_body_and_headers() {
    let m = meta();
    let r = backend().get_headers("GET", None, None, &m);
    assert_eq!(r.status, Decision::Serve200);
    assert_eq!(r.body_limit, Some(1234));
    let h = r.headers.expect("header set owed on 200");
    assert_eq!(h.content_length, "1234");
    assert_eq!(h.etag, generate_etag(&m));
    assert_eq!(h.last_modified, "Tue, 15 Nov 1994 08:12:31 GMT");
    assert_eq!(h.content_type, "image/webp");
}

#[test]
fn head_serves_headers_without_body() {
    let r = backend().get_headers("HEAD", None, None, &meta());
    assert_eq!(r.status, Decision::Serve200);
    assert_eq!(r.body_limit, None);
    assert!(r.headers.is_some());
}

#[test]
fn matching_etag_means_304_without_body() {
    let m = meta();
    let etag = generate_etag(&m);
    let r = backend().get_headers("GET", Some(etag.as_str()), None, &m);
    assert_eq!(r.status, Decision::NotModified304);
    assert_eq!(r.body_limit, None);
    let h = r.headers.expect("header set owed on 304");
    assert_eq!(h.etag, etag);
}

#[test]
fn weak_etag_means_304() {
    let m = meta();
    let weak = format!("W/{}", generate_etag(&m));
    let r = backend().get_headers("GET", Some(weak.as_str()), None, &m);
    assert_eq!(r.status, Decision::NotModified304);
    assert_eq!(r.body_limit, None);
}

#[test]
fn post_rejected_without_headers_or_body() {
    let r = backend().get_headers("POST", Some("\"x\""), Some("whatever"), &meta());
    assert_eq!(r.status, Decision::MethodNotAllowed405);
    assert!(r.headers.is_none());
    assert_eq!(r.body_limit, None);
}

#[test]
fn fresh_ims_means_304_with_headers() {
    let r = backend().get_headers(
        "GET",
        None,
        Some("Wed, 16 Nov 1994 08:12:31 GMT"),
        &meta(),
    );
    assert_eq!(r.status, Decision::NotModified304);
    assert_eq!(r.body_limit, None);
    assert!(r.headers.is_some());
}
