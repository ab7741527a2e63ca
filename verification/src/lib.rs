//! Adapter logic for serving a file stored in a file center back to an HTTP
//! client: it derives the `Content-Disposition`, `Content-Type` and
//! `Content-Length` headers from the stored file's metadata and chooses
//! between a buffered and a streamed response body.

pub mod encoding;
pub mod handle;
pub mod response;
pub mod token;
