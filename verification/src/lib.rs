//! A verified core for a file-serving reverse-proxy backend.
//!
//! Given a request (method, URL path, conditional headers) and the metadata
//! of the file the URL resolves to, the library decides the response: the
//! status, the header set, and the byte limit of an optional body stream.
//! Path resolution confines every URL to a configured root directory by
//! construction; the validator derives a deterministic entity tag and an
//! HTTP date from the file metadata; the transfer stream never hands out
//! more bytes than the limit fixed when it was created.

pub mod backend;
pub mod conditional;
pub mod httpdate;
pub mod paths;
pub mod text;
pub mod transfer;
pub mod validator;
pub mod webp_profile;

pub use backend::BackendResponse;
pub use backend::FileBackend;
pub use backend::HeaderSet;
pub use conditional::Decision;
pub use conditional::evaluate;
pub use paths::assemble_file_path;
pub use paths::lemma_path_containment;
pub use transfer::TransferStream;
pub use transfer::lemma_transfer_bound;
pub use validator::FileMetadata;
pub use validator::generate_etag;
pub use validator::validate;
pub use webp_profile::Webp;
pub use webp_profile::WebpProfile;
