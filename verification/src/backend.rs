//! The backend responder: per request, derive the validator from the file
//! metadata, evaluate the conditional headers, and decide the status, the
//! header set, and the byte limit of the optional body stream.
//!
//! Opening the file and reading its metadata are the caller's task; this
//! module turns the values read into the one decision the host applies.

use vstd::prelude::*;
use vstd::string::*;

use crate::conditional::Decision;
use crate::conditional::decision_of;
use crate::conditional::evaluate;
use crate::conditional::opt_view;
use crate::httpdate::http_date_of;
use crate::paths::assemble_file_path;
use crate::paths::resolved_path;
use crate::text::dec_of;
use crate::text::str_eq;
use crate::text::u64_to_dec;
use crate::validator::FileMetadata;
use crate::validator::etag_of;
use crate::validator::validate;

verus! {

/// A backend serving files from one root directory.
pub struct FileBackend {
    pub path: String,
}

/// The metadata header set attached to 200 and 304 responses.
pub struct HeaderSet {
    pub content_length: String,
    pub etag: String,
    pub last_modified: String,
    pub content_type: String,
}

/// One decision per request: the status, the header set (absent for 405),
/// and the byte limit of the body (present only for a GET that is served
/// in full).
pub struct BackendResponse {
    pub status: Decision,
    pub headers: Option<HeaderSet>,
    pub body_limit: Option<u64>,
}

/// The header set owed to a 200 or 304 response for this metadata.
pub open spec fn headers_of(m: FileMetadata, h: HeaderSet) -> bool {
    &&& h.content_length@ == dec_of(m.size as nat)
    &&& h.etag@ == etag_of(m)
    &&& h.last_modified@ == http_date_of(m.modified_secs)
    &&& h.content_type@ == "image/webp"@
}

impl FileBackend {
    /// The type tag this backend reports to the host.
    pub fn get_type(&self) -> (r: &'static str)
        ensures
            r@ == "fileserver"@,
    {
        "fileserver"
    }

    /// Map the request URL onto a path confined to this backend's root.
    pub fn resolve(&self, url: &str) -> (r: String)
        requires
            self.path@.len() > 0,
        ensures
            r@ == resolved_path(self.path@, url@),
    {
        assemble_file_path(self.path.as_str(), url)
    }

    /// Decide the response for one request, from the method, the
    /// conditional headers, and the metadata of the opened file: 405 for a
    /// method other than GET or HEAD, with no headers and no body; 304 when
    /// the conditional headers show the client's copy is current, with the
    /// full metadata header set and no body; 200 otherwise, with the header
    /// set, and with a body (bounded by the size snapshot taken from the
    /// metadata) only for GET.
    pub fn get_headers(
        &self,
        method: &str,
        if_none_match: Option<&str>,
        if_modified_since: Option<&str>,
        meta: &FileMetadata,
    ) -> (r: BackendResponse)
        ensures
            r.status == decision_of(
                method@,
                opt_view(if_none_match),
                opt_view(if_modified_since),
                etag_of(*meta),
                meta.modified_secs,
            ),
            r.status == Decision::MethodNotAllowed405 ==> r.headers is None,
            r.status != Decision::MethodNotAllowed405 ==> r.headers is Some && headers_of(
                *meta,
                r.headers->0,
            ),
            r.body_limit == (if r.status == Decision::Serve200 && method@ == "GET"@ {
                Some(meta.size)
            } else {
                Option::<u64>::None
            }),
    {
        let (etag, last_modified) = validate(meta);
        let status = evaluate(
            method,
            if_none_match,
            if_modified_since,
            etag.as_str(),
            meta.modified_secs,
        );
        match status {
            Decision::MethodNotAllowed405 => BackendResponse {
                status,
                headers: None,
                body_limit: None,
            },
            _ => {
                let body_limit = if matches!(status, Decision::Serve200) && str_eq(
                    method,
                    "GET",
                ) {
                    Some(meta.size)
                } else {
                    None
                };
                let headers = HeaderSet {
                    content_length: u64_to_dec(meta.size),
                    etag,
                    last_modified,
                    content_type: "image/webp".to_owned(),
                };
                BackendResponse { status, headers: Some(headers), body_limit }
            },
        }
    }
}

} // verus!
