//! Request-dispatch core of a minimal HTTP file-and-script server.
//!
//! The library decides, from an HTTP method and a URL path, whether a request
//! should be answered by serving a file, by executing a script, or by an
//! immediate error response, and it turns filesystem and process outcomes
//! into complete HTTP responses.  All decisions are pure functions over byte
//! sequences; the surrounding server binary performs the actual I/O and hands
//! the outcomes back in.

pub mod dispatch;
pub mod laws;
pub mod mime;
pub mod resolve;
pub mod response;
pub mod scan;
