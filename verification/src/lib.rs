//! Resolution of token collections and of single tokens: from what a token
//! registry and a metadata host return to collection metadata, token metadata
//! and a decoded image.
//!
//! The library never performs a contract read, an HTTP request or a file
//! write. Its callers do, and hand the outcome in as plain values; every
//! decision in between is made, and verified, here.

pub mod batch;
pub mod collection;
pub mod error;
pub mod fetch;
pub mod json;
pub mod materializer;
pub mod report;
pub mod token;
pub mod u256;
pub mod uri;
