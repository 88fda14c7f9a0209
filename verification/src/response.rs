//! The response interpreter: a transport result becomes a typed outcome.
//!
//! Success is any 2xx status. On failure the body is discarded and the
//! status alone is reported. On a buffered JSON success the body must be
//! UTF-8 text that parses as JSON; the interpreter hands the text on and
//! leaves the typed decode to the schema layer above. A no-content
//! operation succeeds on status alone.

use vstd::prelude::*;

use crate::descriptor::ResponseKind;
use crate::ApiError;
use vstd::utf8::{decode_utf8, valid_utf8};

verus! {

/// What a buffered operation yields on success: the JSON body text for
/// the schema layer to decode, or nothing for a no-content operation.
#[derive(Debug, Clone, PartialEq, Eq)]
pub enum ApiSuccess {
    Json(String),
    Unit,
}

/// Whether a status code counts as success.
pub open spec fn status_ok(status: u16) -> bool {
    200 <= status < 300
}

/// Whether a text parses as a JSON document. What exactly the grammar
/// admits is the JSON parser's affair; the interpreter only relies on the
/// answer being a function of the text.
pub uninterp spec fn json_wellformed(text: Seq<char>) -> bool;

/// Relies on serde_json::from_str::<serde_json::Value>: whether a text
/// parses as JSON depends on the text alone.
#[verifier::external_body]
fn check_json_syntax(text: &str) -> (r: bool)
    ensures
        r == json_wellformed(text@),
{
    serde_json::from_str::<serde_json::Value>(text).is_ok()
}

/// Relies on String::from_utf8: it succeeds exactly on valid UTF-8, and
/// the returned string holds the decoded characters of the input bytes.
#[verifier::external_body]
fn utf8_text(bytes: Vec<u8>) -> (r: Option<String>)
    ensures
        r is Some <==> valid_utf8(bytes@),
        r matches Some(s) ==> s@ == decode_utf8(bytes@),
{
    String::from_utf8(bytes).ok()
}

/// Report a non-2xx status as the error it is.
pub fn classify_status(status: u16) -> (r: Result<(), ApiError>)
    ensures
        r is Ok <==> status_ok(status),
        !status_ok(status) ==> r == Result::<(), ApiError>::Err(ApiError::Http(status)),
{
    if 200 <= status && status < 300 {
        Ok(())
    } else {
        Err(ApiError::Http(status))
    }
}

/// Interpret a buffered response for an operation that returns a JSON
/// document. On success the body text is returned for the schema layer
/// to decode; a body that is not UTF-8 or not JSON is a decode failure,
/// and a non-2xx status is reported without reading the body at all.
pub fn interpret_json_response(status: u16, body: Vec<u8>) -> (r: Result<String, ApiError>)
    ensures
        !status_ok(status) ==> r == Result::<String, ApiError>::Err(ApiError::Http(status)),
        status_ok(status) && !valid_utf8(body@) ==> r == Result::<String, ApiError>::Err(
            ApiError::Decode,
        ),
        status_ok(status) && valid_utf8(body@) && !json_wellformed(decode_utf8(body@)) ==> r
            == Result::<String, ApiError>::Err(ApiError::Decode),
        status_ok(status) && valid_utf8(body@) && json_wellformed(decode_utf8(body@)) ==> (
        r matches Ok(s) && s@ == decode_utf8(body@)),
{
    if !(200 <= status && status < 300) {
        return Err(ApiError::Http(status));
    }
    let text = match utf8_text(body) {
        Option::Some(t) => t,
        Option::None => {
            return Err(ApiError::Decode);
        },
    };
    if !check_json_syntax(text.as_str()) {
        return Err(ApiError::Decode);
    }
    Ok(text)
}

/// Interpret a buffered response for a no-content operation: success is
/// simply the absence of an error, whatever the body holds.
pub fn interpret_nocontent_response(status: u16, body: Vec<u8>) -> (r: Result<(), ApiError>)
    ensures
        r is Ok <==> status_ok(status),
        !status_ok(status) ==> r == Result::<(), ApiError>::Err(ApiError::Http(status)),
{
    let _ = body;
    classify_status(status)
}

/// The contract of the buffered interpreter, as a relation between the
/// transport result and the outcome.
pub open spec fn buffered_outcome_matches(
    kind: ResponseKind,
    status: u16,
    body: Seq<u8>,
    o: Result<ApiSuccess, ApiError>,
) -> bool {
    match kind {
        ResponseKind::Json => {
            &&& !status_ok(status) ==> o == Result::<ApiSuccess, ApiError>::Err(
                ApiError::Http(status),
            )
            &&& status_ok(status) && !valid_utf8(body) ==> o == Result::<ApiSuccess, ApiError>::Err(
                ApiError::Decode,
            )
            &&& status_ok(status) && valid_utf8(body) && !json_wellformed(decode_utf8(body)) ==> o
                == Result::<ApiSuccess, ApiError>::Err(ApiError::Decode)
            &&& status_ok(status) && valid_utf8(body) && json_wellformed(decode_utf8(body)) ==> (
            o matches Ok(s) && s matches ApiSuccess::Json(t) && t@ == decode_utf8(body))
        },
        ResponseKind::NoContent => {
            &&& o is Ok <==> status_ok(status)
            &&& o matches Ok(s) ==> s is Unit
            &&& !status_ok(status) ==> o == Result::<ApiSuccess, ApiError>::Err(
                ApiError::Http(status),
            )
        },
        ResponseKind::Stream => false,
    }
}

/// Interpret a buffered response according to the operation's declared
/// response kind. A streamed response never comes here; it goes through
/// the chunk relay instead.
pub fn interpret_buffered(kind: ResponseKind, status: u16, body: Vec<u8>) -> (o: Result<
    ApiSuccess,
    ApiError,
>)
    requires
        !(kind is Stream),
    ensures
        buffered_outcome_matches(kind, status, body@, o),
{
    match kind {
        ResponseKind::Json => {
            match interpret_json_response(status, body) {
                Result::Ok(t) => Ok(ApiSuccess::Json(t)),
                Result::Err(e) => Err(e),
            }
        },
        ResponseKind::NoContent => {
            match interpret_nocontent_response(status, body) {
                Result::Ok(_) => Ok(ApiSuccess::Unit),
                Result::Err(e) => Err(e),
            }
        },
        ResponseKind::Stream => {
            proof {
                assert(false);
            }
            Err(ApiError::Decode)
        },
    }
}

} // verus!
