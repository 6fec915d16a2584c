use fileserver::validator::FileMetadata;
use fileserver::validator::generate_etag;
use fileserver::validator::validate;

fn meta(size: u64, inode: u64, modified_secs: i64, modified_nanos: u32) -> FileMetadata {
    FileMetadata { size, inode, modified_secs, modified_nanos }
}

#[test]
fn etag_exact_value() {
    let m = meta(2, 1, 3, 4);
    assert_eq!(
        generate_etag(&m),
        "\"00000000000000000001-00000000000000000002-p0000000000000000003.0000000004\""
    );
}

#[test]
fn etag_negative_timestamp() {
    let m = meta(2, 1, -3, 0);
    assert_eq!(
        generate_etag(&m),
        "\"00000000000000000001-00000000000000000002-n0000000000000000003.0000000000\""
    );
}

#[test]
fn etag_is_deterministic() {
    let m = meta(1024, 99, 784887151, 500);
    let e1 = generate_etag(&m);
    let e2 = generate_etag(&m);
    assert_eq!(e1, e2);
    let (v1, d1) = validate(&m);
    let (v2, d2) = validate(&m);
    assert_eq!(v1, v2);
    assert_eq!(d1, d2);
}

#[test]
fn etag_changes_with_each_field() {
    let m = meta(1024, 99, 784887151, 500);
    let e = generate_etag(&m);
    assert_ne!(e, generate_etag(&meta(1025, 99, 784887151, 500)));
    assert_ne!(e, generate_etag(&meta(1024, 98, 784887151, 500)));
    assert_ne!(e, generate_etag(&meta(1024, 99, 784887152, 500)));
    assert_ne!(e, generate_etag(&meta(1024, 99, 784887151, 501)));
}

#[test]
fn last_modified_is_imf_fixdate() {
    let m = meta(8, 7, 784887151, 0);
    let (_, last_modified) = validate(&m);
    assert_eq!(last_modified, "Tue, 15 Nov 1994 08:12:31 GMT");
}

#[test]
fn last_modified_other_date() {
    let m = meta(8, 7, 1445412480, 0);
    let (_, last_modified) = validate(&m);
    assert_eq!(last_modified, "Wed, 21 Oct 2015 07:28:00 GMT");
}

#[test]
fn validate_pairs_etag_with_date() {
    let m = meta(3, 5, 0, 0);
    let (etag, last_modified) = validate(&m);
    assert_eq!(etag, generate_etag(&m));
    assert_eq!(last_modified, "Thu, 01 Jan 1970 00:00:00 GMT");
}
