//! A small JSON-over-HTTP request pipeline and a unified error model.
//!
//! The library prepares outgoing requests (query string, URL join,
//! conditional header, JSON body framing), classifies incoming responses,
//! and renders errors as HTTP-shaped responses. Sending a request through a
//! transport is left to the caller.

pub mod encoding;
pub mod client;
pub mod error;

pub use client::{classify_response, decode_text, query_string, Client, PreparedRequest};
pub use encoding::decimal_string;
pub use error::{Error, ErrorKind, HttpResponse};
