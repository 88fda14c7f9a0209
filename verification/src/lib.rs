//! Verified core of a client for a cloud storage REST API.
//!
//! Every operation against the API follows one protocol-level pattern:
//! resolve the authorization scopes, obtain a bearer token, assemble an
//! HTTP request (percent-encoded query string, substituted path template,
//! headers and body), send it, and interpret the response. This crate
//! factors that pattern into a single data-driven engine and verifies it:
//! the query encoder, the request builder, the response interpreter, the
//! streaming relay and the per-call state machine all carry contracts that
//! pin their results down exactly.
//!
//! The pieces that must touch the network (the token source and the HTTP
//! transport) stay outside: callers drive an [`executor::Execution`] by
//! handing it the token and the transport outcome, and every decision made
//! on the way is verified.

use vstd::prelude::*;

pub mod descriptor;
pub mod executor;
pub mod numeral;
pub mod ops;
pub mod params;
pub mod path;
pub mod pct;
pub mod query;
pub mod request;
pub mod response;
pub mod schema;
pub mod stream;
pub mod util;

verus! {

/// Why an API call failed. Every error is surfaced immediately to the
/// caller of the single failing operation: the core performs no retry and
/// no partial-result salvage.
#[derive(Debug, Clone, PartialEq, Eq)]
pub enum ApiError {
    /// Token acquisition failed; the message comes from the token source.
    Auth(String),
    /// The server answered with a status outside the 2xx range.
    Http(u16),
    /// The response body was not UTF-8 text or not well-formed JSON.
    Decode,
    /// A streaming write to the caller's destination failed mid-transfer.
    Sink,
    /// The network call itself failed; the message comes from the transport.
    Transport(String),
}

} // verus!
