//! Operation descriptors: the static wire shape of one API operation.
//!
//! A descriptor is created once per distinct operation and never mutated;
//! it is the data the request builder and the response interpreter are
//! parameterized over. The per-resource descriptor tables themselves are
//! configuration supplied by the layer above.

use vstd::prelude::*;

use crate::path::PathPiece;

verus! {

/// The HTTP verb of an operation.
#[derive(Clone, Copy, PartialEq, Eq, Structural, Debug)]
pub enum Method {
    Get,
    Post,
    Patch,
    Put,
    Delete,
}

/// What the operation sends: nothing, a JSON document, or raw bytes (the
/// media-upload variant).
#[derive(Clone, Copy, PartialEq, Eq, Structural, Debug)]
pub enum BodyKind {
    NoBody,
    Json,
    Raw,
}

/// What the operation receives: a JSON document, nothing of interest (a
/// delete-style call), or a raw byte stream (a download or export).
#[derive(Clone, Copy, PartialEq, Eq, Structural, Debug)]
pub enum ResponseKind {
    Json,
    NoContent,
    Stream,
}

/// The immutable definition of one API operation.
pub struct OperationDescriptor {
    /// The HTTP verb.
    pub method: Method,
    /// The absolute URL prefix the path is appended to.
    pub base_url: Vec<u8>,
    /// The path template, as alternating literals and placeholders.
    pub path: Vec<PathPiece>,
    /// Whether this is a media-upload operation, whose query string leads
    /// with `uploadType=media`.
    pub media_upload: bool,
    /// The scopes requested when the caller selects none explicitly.
    pub default_scopes: Vec<String>,
    /// What the operation sends.
    pub body: BodyKind,
    /// What the operation receives.
    pub response: ResponseKind,
}

} // verus!
