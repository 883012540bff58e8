//! A minimal HTTP request-processing core: a parser from raw connection
//! bytes to structured requests, a router over a fixed set of paths, the
//! handlers behind those paths, and an encoder from structured responses to
//! wire bytes. Connection I/O and filesystem access are left to the caller,
//! which hands this crate plain bytes and receives plain bytes back.
pub mod digits;
pub mod gzip;
pub mod handlers;
pub mod laws;
pub mod lit;
pub mod request;
pub mod response;
pub mod router;
pub mod text;
pub mod worker;
