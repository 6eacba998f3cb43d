//! Request dispatcher: the pure core of a small HTTP bridge.
//!
//! Callers hand in a method string, a URL, optional custom headers, an
//! optional bearer token and an optional body. The library validates the
//! method, assembles the ordered header list (custom headers first, then the
//! derived `Authorization` header, so the token always wins), passes the body
//! through untouched, and normalizes the transport's reply into a status code
//! plus body text. The network transport itself lives outside the library:
//! callers perform the send and hand the outcome back as plain values.

pub mod error;
pub mod method;
pub mod request;
pub mod response;
