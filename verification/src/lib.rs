//! Verified core of a client for a Seafile-style share-link service.
//!
//! The crate covers the logic of the client: extracting the share key from a
//! link, classifying ambiguous HTTP error bodies, discovering the remote
//! directory tree, and the bookkeeping of resumable, retried downloads.
//! The host that performs the HTTP and filesystem work drives these
//! functions and owns every side effect.

pub mod classify;
pub mod download;
pub mod session;
pub mod text;
pub mod tree;
pub mod urls;

