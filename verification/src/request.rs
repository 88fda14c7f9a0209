//! The request builder: descriptor + parameters + credentials + payload
//! become one fully resolved request.
//!
//! The URL is `base + resolved path + "?oauth_token=" + token +
//! "&fields=*"` followed by the encoded optional parameters; a
//! media-upload operation leads its query with `uploadType=media`. The
//! bearer token and the path parameters are inserted literally; only
//! query-parameter values are percent-encoded. The `fields=*` suffix is
//! fixed policy: every call asks for the full resource representation.

use vstd::prelude::*;

use crate::descriptor::{BodyKind, Method, OperationDescriptor};
use crate::numeral::{dec_nat, push_dec_u64};
use crate::path::{path_resolvable, resolve_path, resolved_path, PathParam};
use crate::query::{push_query, query_encoding, QueryField};
use crate::util::append_bytes;
use vstd::string::{StrSliceExecFns, StringSliceAdditionalSpecFns};

verus! {

/// Everything a caller supplies for one invocation: the required path
/// parameters and the query fields in their descriptor-defined order.
pub struct ParameterSet {
    pub path: Vec<PathParam>,
    pub query: Vec<QueryField>,
}

/// One resolved request header.
#[derive(Debug, Clone, PartialEq, Eq)]
pub struct Header {
    pub name: Vec<u8>,
    pub value: Vec<u8>,
}

/// The request payload as the caller hands it over: nothing, the text of
/// a serialized JSON document, or raw bytes to upload.
pub enum Payload {
    NoBody,
    Json(Vec<u8>),
    Raw(Vec<u8>),
}

/// A fully resolved request, ready for a transport to send.
#[derive(Debug, Clone, PartialEq, Eq)]
pub struct RawRequest {
    pub method: Method,
    pub url: Vec<u8>,
    pub headers: Vec<Header>,
    pub body: Vec<u8>,
}

/// The serialized form of an empty JSON payload. A payload that
/// serializes to this sentinel carries no information, and sending it
/// verbatim could be read as a request to clear fields; the builder
/// sends an empty body instead.
pub open spec fn null_text() -> Seq<u8> {
    ("null").spec_bytes()
}

/// The body bytes sent for a payload.
pub open spec fn body_bytes(p: Payload) -> Seq<u8> {
    match p {
        Payload::NoBody => seq![],
        Payload::Json(t) => if t@ == null_text() {
            seq![]
        } else {
            t@
        },
        Payload::Raw(d) => d@,
    }
}

/// The headers sent for a payload: `Content-Length` for a raw upload,
/// otherwise `Content-Type: application/json` — also on bodiless
/// requests, for compatibility with the target API.
pub open spec fn request_headers(p: Payload) -> Seq<(Seq<u8>, Seq<u8>)> {
    match p {
        Payload::Raw(d) => seq![(("Content-Length").spec_bytes(), dec_nat(d@.len() as nat))],
        _ => seq![(("Content-Type").spec_bytes(), ("application/json").spec_bytes())],
    }
}

/// The name/value views of a header list.
pub open spec fn header_views(hs: Seq<Header>) -> Seq<(Seq<u8>, Seq<u8>)> {
    hs.map_values(|h: Header| (h.name@, h.value@))
}

/// The fixed text between the resolved path and the bearer token.
pub open spec fn oauth_query_prefix(media_upload: bool) -> Seq<u8> {
    if media_upload {
        ("?uploadType=media&oauth_token=").spec_bytes()
    } else {
        ("?oauth_token=").spec_bytes()
    }
}

/// The fixed text between the bearer token and the encoded parameters.
pub open spec fn fields_suffix() -> Seq<u8> {
    ("&fields=*").spec_bytes()
}

/// The complete URL of a request.
pub open spec fn request_url(
    desc: OperationDescriptor,
    params: ParameterSet,
    token: Seq<u8>,
) -> Seq<u8> {
    desc.base_url@ + resolved_path(desc.path@, params.path@) + oauth_query_prefix(
        desc.media_upload,
    ) + token + fields_suffix() + query_encoding(params.query@)
}

/// Encoding a parameter set is deterministic: any two query strings that
/// `push_query` may produce for the same set are byte-identical, because
/// its contract pins the result to a function of the set alone.
pub proof fn lemma_encoding_deterministic(params: ParameterSet, r1: Seq<u8>, r2: Seq<u8>)
    requires
        r1 == query_encoding(params.query@),
        r2 == query_encoding(params.query@),
    ensures
        r1 == r2,
{
}

/// Building a request is idempotent: two requests built from the same
/// descriptor, parameter set, credentials and payload agree field for
/// field, because `build_request` pins every field to a function of
/// those inputs alone.
pub proof fn lemma_build_deterministic(
    desc: OperationDescriptor,
    params: ParameterSet,
    token: Seq<u8>,
    payload: Payload,
    q1: RawRequest,
    q2: RawRequest,
)
    requires
        q1.method == desc.method && q1.url@ == request_url(desc, params, token) && header_views(
            q1.headers@,
        ) == request_headers(payload) && q1.body@ == body_bytes(payload),
        q2.method == desc.method && q2.url@ == request_url(desc, params, token) && header_views(
            q2.headers@,
        ) == request_headers(payload) && q2.body@ == body_bytes(payload),
    ensures
        q1.method == q2.method,
        q1.url@ == q2.url@,
        header_views(q1.headers@) == header_views(q2.headers@),
        q1.body@ == q2.body@,
{
}

/// A call with every optional parameter unset, for an ordinary (non
/// media-upload) operation, gets exactly the bare URL: base, resolved
/// path, `?oauth_token=`, the token, `&fields=*`, and nothing after.
pub proof fn lemma_url_without_parameters(
    desc: OperationDescriptor,
    params: ParameterSet,
    token: Seq<u8>,
)
    requires
        !desc.media_upload,
        forall|i: int| 0 <= i < params.query@.len() ==> #[trigger] params.query@[i].value is None,
    ensures
        request_url(desc, params, token) == desc.base_url@ + resolved_path(
            desc.path@,
            params.path@,
        ) + ("?oauth_token=").spec_bytes() + token + ("&fields=*").spec_bytes(),
{
    crate::query::lemma_query_encoding_all_unset(params.query@);
    assert(request_url(desc, params, token) =~= desc.base_url@ + resolved_path(
        desc.path@,
        params.path@,
    ) + ("?oauth_token=").spec_bytes() + token + ("&fields=*").spec_bytes());
}

/// Whether `t` is the `null` sentinel.
fn is_null_text(t: &Vec<u8>) -> (r: bool)
    ensures
        r == (t@ == null_text()),
{
    let r = crate::util::bytes_eq(t.as_slice(), ("null").as_bytes());
    r
}

/// Build the request for one invocation. Returns `None` exactly when a
/// placeholder of the path template has no path parameter of its name;
/// on every well-formed parameter set the result is the one request the
/// wire protocol prescribes, a pure function of its inputs.
pub fn build_request(
    desc: &OperationDescriptor,
    params: &ParameterSet,
    token: &[u8],
    payload: &Payload,
) -> (r: Option<RawRequest>)
    ensures
        r is Some <==> path_resolvable(desc.path@, params.path@),
        r matches Some(q) ==> {
            &&& q.method == desc.method
            &&& q.url@ == request_url(*desc, *params, token@)
            &&& header_views(q.headers@) == request_headers(*payload)
            &&& q.body@ == body_bytes(*payload)
        },
{
    let resolved = match resolve_path(&desc.path, &params.path) {
        Option::Some(p) => p,
        Option::None => {
            return None;
        },
    };
    let mut url: Vec<u8> = Vec::new();
    append_bytes(&mut url, desc.base_url.as_slice());
    append_bytes(&mut url, resolved.as_slice());
    if desc.media_upload {
        append_bytes(&mut url, ("?uploadType=media&oauth_token=").as_bytes());
    } else {
        append_bytes(&mut url, ("?oauth_token=").as_bytes());
    }
    append_bytes(&mut url, token);
    append_bytes(&mut url, ("&fields=*").as_bytes());
    push_query(&mut url, &params.query);
    assert(url@ == request_url(*desc, *params, token@));

    let mut headers: Vec<Header> = Vec::new();
    let body: Vec<u8> = match payload {
        Payload::NoBody => {
            headers.push(
                Header {
                    name: ("Content-Type").as_bytes_vec(),
                    value: ("application/json").as_bytes_vec(),
                },
            );
            Vec::new()
        },
        Payload::Json(t) => {
            headers.push(
                Header {
                    name: ("Content-Type").as_bytes_vec(),
                    value: ("application/json").as_bytes_vec(),
                },
            );
            if is_null_text(t) {
                Vec::new()
            } else {
                crate::util::clone_bytes(t)
            }
        },
        Payload::Raw(d) => {
            let mut length_text: Vec<u8> = Vec::new();
            push_dec_u64(&mut length_text, d.len() as u64);
            headers.push(Header { name: ("Content-Length").as_bytes_vec(), value: length_text });
            crate::util::clone_bytes(d)
        },
    };
    assert(header_views(headers@) =~= request_headers(*payload));
    Some(RawRequest { method: desc.method, url, headers, body })
}

} // verus!
