//! Descriptors for a sample of the API's operations.
//!
//! Each constructor returns the fixed wire shape of one operation —
//! verb, base URL, path template, default scopes, body and response
//! kind — with a contract that pins every field. The remaining
//! operations of the API are descriptor data of exactly the same form.

use vstd::prelude::*;

use crate::descriptor::{BodyKind, Method, OperationDescriptor, ResponseKind};
use crate::path::PathPiece;
use vstd::string::{StrSliceExecFns, StringSliceAdditionalSpecFns};

verus! {

/// Information about the user, the user's storage and system capabilities.
pub fn about_get() -> (r: OperationDescriptor)
    ensures
        r.method == Method::Get,
        r.base_url@ == ("https://www.googleapis.com/drive/v3/").spec_bytes(),
        r.path@.len() == 1,
        (r.path@[0] matches PathPiece::Lit(t) && t@ == ("about").spec_bytes()),
        r.media_upload == false,
        r.default_scopes@.len() == 7,
        r.default_scopes@[0]@ == ("https://www.googleapis.com/auth/drive")@,
        r.default_scopes@[1]@ == ("https://www.googleapis.com/auth/drive.appdata")@,
        r.default_scopes@[2]@ == ("https://www.googleapis.com/auth/drive.file")@,
        r.default_scopes@[3]@ == ("https://www.googleapis.com/auth/drive.metadata")@,
        r.default_scopes@[4]@ == ("https://www.googleapis.com/auth/drive.metadata.readonly")@,
        r.default_scopes@[5]@ == ("https://www.googleapis.com/auth/drive.photos.readonly")@,
        r.default_scopes@[6]@ == ("https://www.googleapis.com/auth/drive.readonly")@,
        r.body == BodyKind::NoBody,
        r.response == ResponseKind::Json,
{
    let mut path: Vec<PathPiece> = Vec::new();
    path.push(PathPiece::Lit(("about").as_bytes_vec()));
    let mut scopes: Vec<String> = Vec::new();
    scopes.push(("https://www.googleapis.com/auth/drive").to_owned());
    scopes.push(("https://www.googleapis.com/auth/drive.appdata").to_owned());
    scopes.push(("https://www.googleapis.com/auth/drive.file").to_owned());
    scopes.push(("https://www.googleapis.com/auth/drive.metadata").to_owned());
    scopes.push(("https://www.googleapis.com/auth/drive.metadata.readonly").to_owned());
    scopes.push(("https://www.googleapis.com/auth/drive.photos.readonly").to_owned());
    scopes.push(("https://www.googleapis.com/auth/drive.readonly").to_owned());
    OperationDescriptor {
        method: Method::Get,
        base_url: ("https://www.googleapis.com/drive/v3/").as_bytes_vec(),
        path,
        media_upload: false,
        default_scopes: scopes,
        body: BodyKind::NoBody,
        response: ResponseKind::Json,
    }
}

/// The starting page token for listing future changes.
pub fn changes_get_start_page_token() -> (r: OperationDescriptor)
    ensures
        r.method == Method::Get,
        r.base_url@ == ("https://www.googleapis.com/drive/v3/").spec_bytes(),
        r.path@.len() == 1,
        (r.path@[0] matches PathPiece::Lit(t) && t@ == ("changes/startPageToken").spec_bytes()),
        r.media_upload == false,
        r.default_scopes@.len() == 7,
        r.default_scopes@[0]@ == ("https://www.googleapis.com/auth/drive")@,
        r.default_scopes@[1]@ == ("https://www.googleapis.com/auth/drive.appdata")@,
        r.default_scopes@[2]@ == ("https://www.googleapis.com/auth/drive.file")@,
        r.default_scopes@[3]@ == ("https://www.googleapis.com/auth/drive.metadata")@,
        r.default_scopes@[4]@ == ("https://www.googleapis.com/auth/drive.metadata.readonly")@,
        r.default_scopes@[5]@ == ("https://www.googleapis.com/auth/drive.photos.readonly")@,
        r.default_scopes@[6]@ == ("https://www.googleapis.com/auth/drive.readonly")@,
        r.body == BodyKind::NoBody,
        r.response == ResponseKind::Json,
{
    let mut path: Vec<PathPiece> = Vec::new();
    path.push(PathPiece::Lit(("changes/startPageToken").as_bytes_vec()));
    let mut scopes: Vec<String> = Vec::new();
    scopes.push(("https://www.googleapis.com/auth/drive").to_owned());
    scopes.push(("https://www.googleapis.com/auth/drive.appdata").to_owned());
    scopes.push(("https://www.googleapis.com/auth/drive.file").to_owned());
    scopes.push(("https://www.googleapis.com/auth/drive.metadata").to_owned());
    scopes.push(("https://www.googleapis.com/auth/drive.metadata.readonly").to_owned());
    scopes.push(("https://www.googleapis.com/auth/drive.photos.readonly").to_owned());
    scopes.push(("https://www.googleapis.com/auth/drive.readonly").to_owned());
    OperationDescriptor {
        method: Method::Get,
        base_url: ("https://www.googleapis.com/drive/v3/").as_bytes_vec(),
        path,
        media_upload: false,
        default_scopes: scopes,
        body: BodyKind::NoBody,
        response: ResponseKind::Json,
    }
}

/// The changes for a user or shared drive.
pub fn changes_list() -> (r: OperationDescriptor)
    ensures
        r.method == Method::Get,
        r.base_url@ == ("https://www.googleapis.com/drive/v3/").spec_bytes(),
        r.path@.len() == 1,
        (r.path@[0] matches PathPiece::Lit(t) && t@ == ("changes").spec_bytes()),
        r.media_upload == false,
        r.default_scopes@.len() == 7,
        r.default_scopes@[0]@ == ("https://www.googleapis.com/auth/drive")@,
        r.default_scopes@[1]@ == ("https://www.googleapis.com/auth/drive.appdata")@,
        r.default_scopes@[2]@ == ("https://www.googleapis.com/auth/drive.file")@,
        r.default_scopes@[3]@ == ("https://www.googleapis.com/auth/drive.metadata")@,
        r.default_scopes@[4]@ == ("https://www.googleapis.com/auth/drive.metadata.readonly")@,
        r.default_scopes@[5]@ == ("https://www.googleapis.com/auth/drive.photos.readonly")@,
        r.default_scopes@[6]@ == ("https://www.googleapis.com/auth/drive.readonly")@,
        r.body == BodyKind::NoBody,
        r.response == ResponseKind::Json,
{
    let mut path: Vec<PathPiece> = Vec::new();
    path.push(PathPiece::Lit(("changes").as_bytes_vec()));
    let mut scopes: Vec<String> = Vec::new();
    scopes.push(("https://www.googleapis.com/auth/drive").to_owned());
    scopes.push(("https://www.googleapis.com/auth/drive.appdata").to_owned());
    scopes.push(("https://www.googleapis.com/auth/drive.file").to_owned());
    scopes.push(("https://www.googleapis.com/auth/drive.metadata").to_owned());
    scopes.push(("https://www.googleapis.com/auth/drive.metadata.readonly").to_owned());
    scopes.push(("https://www.googleapis.com/auth/drive.photos.readonly").to_owned());
    scopes.push(("https://www.googleapis.com/auth/drive.readonly").to_owned());
    OperationDescriptor {
        method: Method::Get,
        base_url: ("https://www.googleapis.com/drive/v3/").as_bytes_vec(),
        path,
        media_upload: false,
        default_scopes: scopes,
        body: BodyKind::NoBody,
        response: ResponseKind::Json,
    }
}

/// Stop watching resources through a channel.
pub fn channels_stop() -> (r: OperationDescriptor)
    ensures
        r.method == Method::Post,
        r.base_url@ == ("https://www.googleapis.com/drive/v3/").spec_bytes(),
        r.path@.len() == 1,
        (r.path@[0] matches PathPiece::Lit(t) && t@ == ("channels/stop").spec_bytes()),
        r.media_upload == false,
        r.default_scopes@.len() == 7,
        r.default_scopes@[0]@ == ("https://www.googleapis.com/auth/drive")@,
        r.default_scopes@[1]@ == ("https://www.googleapis.com/auth/drive.appdata")@,
        r.default_scopes@[2]@ == ("https://www.googleapis.com/auth/drive.file")@,
        r.default_scopes@[3]@ == ("https://www.googleapis.com/auth/drive.metadata")@,
        r.default_scopes@[4]@ == ("https://www.googleapis.com/auth/drive.metadata.readonly")@,
        r.default_scopes@[5]@ == ("https://www.googleapis.com/auth/drive.photos.readonly")@,
        r.default_scopes@[6]@ == ("https://www.googleapis.com/auth/drive.readonly")@,
        r.body == BodyKind::Json,
        r.response == ResponseKind::NoContent,
{
    let mut path: Vec<PathPiece> = Vec::new();
    path.push(PathPiece::Lit(("channels/stop").as_bytes_vec()));
    let mut scopes: Vec<String> = Vec::new();
    scopes.push(("https://www.googleapis.com/auth/drive").to_owned());
    scopes.push(("https://www.googleapis.com/auth/drive.appdata").to_owned());
    scopes.push(("https://www.googleapis.com/auth/drive.file").to_owned());
    scopes.push(("https://www.googleapis.com/auth/drive.metadata").to_owned());
    scopes.push(("https://www.googleapis.com/auth/drive.metadata.readonly").to_owned());
    scopes.push(("https://www.googleapis.com/auth/drive.photos.readonly").to_owned());
    scopes.push(("https://www.googleapis.com/auth/drive.readonly").to_owned());
    OperationDescriptor {
        method: Method::Post,
        base_url: ("https://www.googleapis.com/drive/v3/").as_bytes_vec(),
        path,
        media_upload: false,
        default_scopes: scopes,
        body: BodyKind::Json,
        response: ResponseKind::NoContent,
    }
}

/// Copy a file and apply any requested updates.
pub fn files_copy() -> (r: OperationDescriptor)
    ensures
        r.method == Method::Post,
        r.base_url@ == ("https://www.googleapis.com/drive/v3/").spec_bytes(),
        r.path@.len() == 3,
        (r.path@[0] matches PathPiece::Lit(t) && t@ == ("files/").spec_bytes()),
        (r.path@[1] matches PathPiece::Param(n) && n@ == ("fileId").spec_bytes()),
        (r.path@[2] matches PathPiece::Lit(t) && t@ == ("/copy").spec_bytes()),
        r.media_upload == false,
        r.default_scopes@.len() == 4,
        r.default_scopes@[0]@ == ("https://www.googleapis.com/auth/drive")@,
        r.default_scopes@[1]@ == ("https://www.googleapis.com/auth/drive.appdata")@,
        r.default_scopes@[2]@ == ("https://www.googleapis.com/auth/drive.file")@,
        r.default_scopes@[3]@ == ("https://www.googleapis.com/auth/drive.photos.readonly")@,
        r.body == BodyKind::Json,
        r.response == ResponseKind::Json,
{
    let mut path: Vec<PathPiece> = Vec::new();
    path.push(PathPiece::Lit(("files/").as_bytes_vec()));
    path.push(PathPiece::Param(("fileId").as_bytes_vec()));
    path.push(PathPiece::Lit(("/copy").as_bytes_vec()));
    let mut scopes: Vec<String> = Vec::new();
    scopes.push(("https://www.googleapis.com/auth/drive").to_owned());
    scopes.push(("https://www.googleapis.com/auth/drive.appdata").to_owned());
    scopes.push(("https://www.googleapis.com/auth/drive.file").to_owned());
    scopes.push(("https://www.googleapis.com/auth/drive.photos.readonly").to_owned());
    OperationDescriptor {
        method: Method::Post,
        base_url: ("https://www.googleapis.com/drive/v3/").as_bytes_vec(),
        path,
        media_upload: false,
        default_scopes: scopes,
        body: BodyKind::Json,
        response: ResponseKind::Json,
    }
}

/// Create a new file from metadata.
pub fn files_create() -> (r: OperationDescriptor)
    ensures
        r.method == Method::Post,
        r.base_url@ == ("https://www.googleapis.com/drive/v3/").spec_bytes(),
        r.path@.len() == 1,
        (r.path@[0] matches PathPiece::Lit(t) && t@ == ("files").spec_bytes()),
        r.media_upload == false,
        r.default_scopes@.len() == 3,
        r.default_scopes@[0]@ == ("https://www.googleapis.com/auth/drive")@,
        r.default_scopes@[1]@ == ("https://www.googleapis.com/auth/drive.appdata")@,
        r.default_scopes@[2]@ == ("https://www.googleapis.com/auth/drive.file")@,
        r.body == BodyKind::Json,
        r.response == ResponseKind::Json,
{
    let mut path: Vec<PathPiece> = Vec::new();
    path.push(PathPiece::Lit(("files").as_bytes_vec()));
    let mut scopes: Vec<String> = Vec::new();
    scopes.push(("https://www.googleapis.com/auth/drive").to_owned());
    scopes.push(("https://www.googleapis.com/auth/drive.appdata").to_owned());
    scopes.push(("https://www.googleapis.com/auth/drive.file").to_owned());
    OperationDescriptor {
        method: Method::Post,
        base_url: ("https://www.googleapis.com/drive/v3/").as_bytes_vec(),
        path,
        media_upload: false,
        default_scopes: scopes,
        body: BodyKind::Json,
        response: ResponseKind::Json,
    }
}

/// Create a new file from uploaded content. The upload operations
/// request no scopes of their own: only an explicit caller selection
/// is forwarded.
pub fn files_create_upload() -> (r: OperationDescriptor)
    ensures
        r.method == Method::Post,
        r.base_url@ == ("https://www.googleapis.com/").spec_bytes(),
        r.path@.len() == 1,
        (r.path@[0] matches PathPiece::Lit(t) && t@ == ("upload/drive/v3/files").spec_bytes()),
        r.media_upload == true,
        r.default_scopes@.len() == 0,
        r.body == BodyKind::Raw,
        r.response == ResponseKind::Json,
{
    let mut path: Vec<PathPiece> = Vec::new();
    path.push(PathPiece::Lit(("upload/drive/v3/files").as_bytes_vec()));
    let mut scopes: Vec<String> = Vec::new();
    OperationDescriptor {
        method: Method::Post,
        base_url: ("https://www.googleapis.com/").as_bytes_vec(),
        path,
        media_upload: true,
        default_scopes: scopes,
        body: BodyKind::Raw,
        response: ResponseKind::Json,
    }
}

/// Permanently delete a file owned by the user.
pub fn files_delete() -> (r: OperationDescriptor)
    ensures
        r.method == Method::Delete,
        r.base_url@ == ("https://www.googleapis.com/drive/v3/").spec_bytes(),
        r.path@.len() == 2,
        (r.path@[0] matches PathPiece::Lit(t) && t@ == ("files/").spec_bytes()),
        (r.path@[1] matches PathPiece::Param(n) && n@ == ("fileId").spec_bytes()),
        r.media_upload == false,
        r.default_scopes@.len() == 3,
        r.default_scopes@[0]@ == ("https://www.googleapis.com/auth/drive")@,
        r.default_scopes@[1]@ == ("https://www.googleapis.com/auth/drive.appdata")@,
        r.default_scopes@[2]@ == ("https://www.googleapis.com/auth/drive.file")@,
        r.body == BodyKind::NoBody,
        r.response == ResponseKind::NoContent,
{
    let mut path: Vec<PathPiece> = Vec::new();
    path.push(PathPiece::Lit(("files/").as_bytes_vec()));
    path.push(PathPiece::Param(("fileId").as_bytes_vec()));
    let mut scopes: Vec<String> = Vec::new();
    scopes.push(("https://www.googleapis.com/auth/drive").to_owned());
    scopes.push(("https://www.googleapis.com/auth/drive.appdata").to_owned());
    scopes.push(("https://www.googleapis.com/auth/drive.file").to_owned());
    OperationDescriptor {
        method: Method::Delete,
        base_url: ("https://www.googleapis.com/drive/v3/").as_bytes_vec(),
        path,
        media_upload: false,
        default_scopes: scopes,
        body: BodyKind::NoBody,
        response: ResponseKind::NoContent,
    }
}

/// Permanently delete all of the user's trashed files.
pub fn files_empty_trash() -> (r: OperationDescriptor)
    ensures
        r.method == Method::Delete,
        r.base_url@ == ("https://www.googleapis.com/drive/v3/").spec_bytes(),
        r.path@.len() == 1,
        (r.path@[0] matches PathPiece::Lit(t) && t@ == ("files/trash").spec_bytes()),
        r.media_upload == false,
        r.default_scopes@.len() == 1,
        r.default_scopes@[0]@ == ("https://www.googleapis.com/auth/drive")@,
        r.body == BodyKind::NoBody,
        r.response == ResponseKind::NoContent,
{
    let mut path: Vec<PathPiece> = Vec::new();
    path.push(PathPiece::Lit(("files/trash").as_bytes_vec()));
    let mut scopes: Vec<String> = Vec::new();
    scopes.push(("https://www.googleapis.com/auth/drive").to_owned());
    OperationDescriptor {
        method: Method::Delete,
        base_url: ("https://www.googleapis.com/drive/v3/").as_bytes_vec(),
        path,
        media_upload: false,
        default_scopes: scopes,
        body: BodyKind::NoBody,
        response: ResponseKind::NoContent,
    }
}

/// Export a document to the requested MIME type, streamed to a sink.
pub fn files_export() -> (r: OperationDescriptor)
    ensures
        r.method == Method::Get,
        r.base_url@ == ("https://www.googleapis.com/drive/v3/").spec_bytes(),
        r.path@.len() == 1,
        (r.path@[0] matches PathPiece::Lit(t) && t@ == ("files/trash").spec_bytes()),
        r.media_upload == false,
        r.default_scopes@.len() == 3,
        r.default_scopes@[0]@ == ("https://www.googleapis.com/auth/drive")@,
        r.default_scopes@[1]@ == ("https://www.googleapis.com/auth/drive.file")@,
        r.default_scopes@[2]@ == ("https://www.googleapis.com/auth/drive.readonly")@,
        r.body == BodyKind::NoBody,
        r.response == ResponseKind::Stream,
{
    let mut path: Vec<PathPiece> = Vec::new();
    path.push(PathPiece::Lit(("files/trash").as_bytes_vec()));
    let mut scopes: Vec<String> = Vec::new();
    scopes.push(("https://www.googleapis.com/auth/drive").to_owned());
    scopes.push(("https://www.googleapis.com/auth/drive.file").to_owned());
    scopes.push(("https://www.googleapis.com/auth/drive.readonly").to_owned());
    OperationDescriptor {
        method: Method::Get,
        base_url: ("https://www.googleapis.com/drive/v3/").as_bytes_vec(),
        path,
        media_upload: false,
        default_scopes: scopes,
        body: BodyKind::NoBody,
        response: ResponseKind::Stream,
    }
}

/// Generate file IDs for later create or copy requests.
pub fn files_generate_ids() -> (r: OperationDescriptor)
    ensures
        r.method == Method::Get,
        r.base_url@ == ("https://www.googleapis.com/drive/v3/").spec_bytes(),
        r.path@.len() == 1,
        (r.path@[0] matches PathPiece::Lit(t) && t@ == ("files/generateIds").spec_bytes()),
        r.media_upload == false,
        r.default_scopes@.len() == 3,
        r.default_scopes@[0]@ == ("https://www.googleapis.com/auth/drive")@,
        r.default_scopes@[1]@ == ("https://www.googleapis.com/auth/drive.appdata")@,
        r.default_scopes@[2]@ == ("https://www.googleapis.com/auth/drive.file")@,
        r.body == BodyKind::NoBody,
        r.response == ResponseKind::Json,
{
    let mut path: Vec<PathPiece> = Vec::new();
    path.push(PathPiece::Lit(("files/generateIds").as_bytes_vec()));
    let mut scopes: Vec<String> = Vec::new();
    scopes.push(("https://www.googleapis.com/auth/drive").to_owned());
    scopes.push(("https://www.googleapis.com/auth/drive.appdata").to_owned());
    scopes.push(("https://www.googleapis.com/auth/drive.file").to_owned());
    OperationDescriptor {
        method: Method::Get,
        base_url: ("https://www.googleapis.com/drive/v3/").as_bytes_vec(),
        path,
        media_upload: false,
        default_scopes: scopes,
        body: BodyKind::NoBody,
        response: ResponseKind::Json,
    }
}

/// A file's metadata or content by ID.
pub fn files_get() -> (r: OperationDescriptor)
    ensures
        r.method == Method::Get,
        r.base_url@ == ("https://www.googleapis.com/drive/v3/").spec_bytes(),
        r.path@.len() == 2,
        (r.path@[0] matches PathPiece::Lit(t) && t@ == ("files/").spec_bytes()),
        (r.path@[1] matches PathPiece::Param(n) && n@ == ("fileId").spec_bytes()),
        r.media_upload == false,
        r.default_scopes@.len() == 7,
        r.default_scopes@[0]@ == ("https://www.googleapis.com/auth/drive")@,
        r.default_scopes@[1]@ == ("https://www.googleapis.com/auth/drive.appdata")@,
        r.default_scopes@[2]@ == ("https://www.googleapis.com/auth/drive.file")@,
        r.default_scopes@[3]@ == ("https://www.googleapis.com/auth/drive.metadata")@,
        r.default_scopes@[4]@ == ("https://www.googleapis.com/auth/drive.metadata.readonly")@,
        r.default_scopes@[5]@ == ("https://www.googleapis.com/auth/drive.photos.readonly")@,
        r.default_scopes@[6]@ == ("https://www.googleapis.com/auth/drive.readonly")@,
        r.body == BodyKind::NoBody,
        r.response == ResponseKind::Json,
{
    let mut path: Vec<PathPiece> = Vec::new();
    path.push(PathPiece::Lit(("files/").as_bytes_vec()));
    path.push(PathPiece::Param(("fileId").as_bytes_vec()));
    let mut scopes: Vec<String> = Vec::new();
    scopes.push(("https://www.googleapis.com/auth/drive").to_owned());
    scopes.push(("https://www.googleapis.com/auth/drive.appdata").to_owned());
    scopes.push(("https://www.googleapis.com/auth/drive.file").to_owned());
    scopes.push(("https://www.googleapis.com/auth/drive.metadata").to_owned());
    scopes.push(("https://www.googleapis.com/auth/drive.metadata.readonly").to_owned());
    scopes.push(("https://www.googleapis.com/auth/drive.photos.readonly").to_owned());
    scopes.push(("https://www.googleapis.com/auth/drive.readonly").to_owned());
    OperationDescriptor {
        method: Method::Get,
        base_url: ("https://www.googleapis.com/drive/v3/").as_bytes_vec(),
        path,
        media_upload: false,
        default_scopes: scopes,
        body: BodyKind::NoBody,
        response: ResponseKind::Json,
    }
}

/// Subscribe to changes through a notification channel.
pub fn changes_watch() -> (r: OperationDescriptor)
    ensures
        r.method == Method::Post,
        r.base_url@ == ("https://www.googleapis.com/drive/v3/").spec_bytes(),
        r.path@.len() == 1,
        (r.path@[0] matches PathPiece::Lit(t) && t@ == ("changes/watch").spec_bytes()),
        r.media_upload == false,
        r.default_scopes@.len() == 7,
        r.default_scopes@[0]@ == ("https://www.googleapis.com/auth/drive")@,
        r.default_scopes@[1]@ == ("https://www.googleapis.com/auth/drive.appdata")@,
        r.default_scopes@[2]@ == ("https://www.googleapis.com/auth/drive.file")@,
        r.default_scopes@[3]@ == ("https://www.googleapis.com/auth/drive.metadata")@,
        r.default_scopes@[4]@ == ("https://www.googleapis.com/auth/drive.metadata.readonly")@,
        r.default_scopes@[5]@ == ("https://www.googleapis.com/auth/drive.photos.readonly")@,
        r.default_scopes@[6]@ == ("https://www.googleapis.com/auth/drive.readonly")@,
        r.body == BodyKind::Json,
        r.response == ResponseKind::Json,
{
    let mut path: Vec<PathPiece> = Vec::new();
    path.push(PathPiece::Lit(("changes/watch").as_bytes_vec()));
    let mut scopes: Vec<String> = Vec::new();
    scopes.push(("https://www.googleapis.com/auth/drive").to_owned());
    scopes.push(("https://www.googleapis.com/auth/drive.appdata").to_owned());
    scopes.push(("https://www.googleapis.com/auth/drive.file").to_owned());
    scopes.push(("https://www.googleapis.com/auth/drive.metadata").to_owned());
    scopes.push(("https://www.googleapis.com/auth/drive.metadata.readonly").to_owned());
    scopes.push(("https://www.googleapis.com/auth/drive.photos.readonly").to_owned());
    scopes.push(("https://www.googleapis.com/auth/drive.readonly").to_owned());
    OperationDescriptor {
        method: Method::Post,
        base_url: ("https://www.googleapis.com/drive/v3/").as_bytes_vec(),
        path,
        media_upload: false,
        default_scopes: scopes,
        body: BodyKind::Json,
        response: ResponseKind::Json,
    }
}

/// List or search files.
pub fn files_list() -> (r: OperationDescriptor)
    ensures
        r.method == Method::Get,
        r.base_url@ == ("https://www.googleapis.com/drive/v3/").spec_bytes(),
        r.path@.len() == 1,
        (r.path@[0] matches PathPiece::Lit(t) && t@ == ("files").spec_bytes()),
        r.media_upload == false,
        r.default_scopes@.len() == 7,
        r.default_scopes@[0]@ == ("https://www.googleapis.com/auth/drive")@,
        r.default_scopes@[1]@ == ("https://www.googleapis.com/auth/drive.appdata")@,
        r.default_scopes@[2]@ == ("https://www.googleapis.com/auth/drive.file")@,
        r.default_scopes@[3]@ == ("https://www.googleapis.com/auth/drive.metadata")@,
        r.default_scopes@[4]@ == ("https://www.googleapis.com/auth/drive.metadata.readonly")@,
        r.default_scopes@[5]@ == ("https://www.googleapis.com/auth/drive.photos.readonly")@,
        r.default_scopes@[6]@ == ("https://www.googleapis.com/auth/drive.readonly")@,
        r.body == BodyKind::NoBody,
        r.response == ResponseKind::Json,
{
    let mut path: Vec<PathPiece> = Vec::new();
    path.push(PathPiece::Lit(("files").as_bytes_vec()));
    let mut scopes: Vec<String> = Vec::new();
    scopes.push(("https://www.googleapis.com/auth/drive").to_owned());
    scopes.push(("https://www.googleapis.com/auth/drive.appdata").to_owned());
    scopes.push(("https://www.googleapis.com/auth/drive.file").to_owned());
    scopes.push(("https://www.googleapis.com/auth/drive.metadata").to_owned());
    scopes.push(("https://www.googleapis.com/auth/drive.metadata.readonly").to_owned());
    scopes.push(("https://www.googleapis.com/auth/drive.photos.readonly").to_owned());
    scopes.push(("https://www.googleapis.com/auth/drive.readonly").to_owned());
    OperationDescriptor {
        method: Method::Get,
        base_url: ("https://www.googleapis.com/drive/v3/").as_bytes_vec(),
        path,
        media_upload: false,
        default_scopes: scopes,
        body: BodyKind::NoBody,
        response: ResponseKind::Json,
    }
}

/// Update a file's metadata.
pub fn files_update() -> (r: OperationDescriptor)
    ensures
        r.method == Method::Patch,
        r.base_url@ == ("https://www.googleapis.com/drive/v3/").spec_bytes(),
        r.path@.len() == 2,
        (r.path@[0] matches PathPiece::Lit(t) && t@ == ("files/").spec_bytes()),
        (r.path@[1] matches PathPiece::Param(n) && n@ == ("fileId").spec_bytes()),
        r.media_upload == false,
        r.default_scopes@.len() == 5,
        r.default_scopes@[0]@ == ("https://www.googleapis.com/auth/drive")@,
        r.default_scopes@[1]@ == ("https://www.googleapis.com/auth/drive.appdata")@,
        r.default_scopes@[2]@ == ("https://www.googleapis.com/auth/drive.file")@,
        r.default_scopes@[3]@ == ("https://www.googleapis.com/auth/drive.metadata")@,
        r.default_scopes@[4]@ == ("https://www.googleapis.com/auth/drive.scripts")@,
        r.body == BodyKind::Json,
        r.response == ResponseKind::Json,
{
    let mut path: Vec<PathPiece> = Vec::new();
    path.push(PathPiece::Lit(("files/").as_bytes_vec()));
    path.push(PathPiece::Param(("fileId").as_bytes_vec()));
    let mut scopes: Vec<String> = Vec::new();
    scopes.push(("https://www.googleapis.com/auth/drive").to_owned());
    scopes.push(("https://www.googleapis.com/auth/drive.appdata").to_owned());
    scopes.push(("https://www.googleapis.com/auth/drive.file").to_owned());
    scopes.push(("https://www.googleapis.com/auth/drive.metadata").to_owned());
    scopes.push(("https://www.googleapis.com/auth/drive.scripts").to_owned());
    OperationDescriptor {
        method: Method::Patch,
        base_url: ("https://www.googleapis.com/drive/v3/").as_bytes_vec(),
        path,
        media_upload: false,
        default_scopes: scopes,
        body: BodyKind::Json,
        response: ResponseKind::Json,
    }
}

/// Update a file's content from uploaded bytes.
pub fn files_update_upload() -> (r: OperationDescriptor)
    ensures
        r.method == Method::Patch,
        r.base_url@ == ("https://www.googleapis.com/").spec_bytes(),
        r.path@.len() == 2,
        (r.path@[0] matches PathPiece::Lit(t) && t@ == ("upload/drive/v3/files/").spec_bytes()),
        (r.path@[1] matches PathPiece::Param(n) && n@ == ("fileId").spec_bytes()),
        r.media_upload == true,
        r.default_scopes@.len() == 0,
        r.body == BodyKind::Raw,
        r.response == ResponseKind::Json,
{
    let mut path: Vec<PathPiece> = Vec::new();
    path.push(PathPiece::Lit(("upload/drive/v3/files/").as_bytes_vec()));
    path.push(PathPiece::Param(("fileId").as_bytes_vec()));
    let mut scopes: Vec<String> = Vec::new();
    OperationDescriptor {
        method: Method::Patch,
        base_url: ("https://www.googleapis.com/").as_bytes_vec(),
        path,
        media_upload: true,
        default_scopes: scopes,
        body: BodyKind::Raw,
        response: ResponseKind::Json,
    }
}

/// Subscribe to changes to a file.
pub fn files_watch() -> (r: OperationDescriptor)
    ensures
        r.method == Method::Post,
        r.base_url@ == ("https://www.googleapis.com/drive/v3/").spec_bytes(),
        r.path@.len() == 3,
        (r.path@[0] matches PathPiece::Lit(t) && t@ == ("files/").spec_bytes()),
        (r.path@[1] matches PathPiece::Param(n) && n@ == ("fileId").spec_bytes()),
        (r.path@[2] matches PathPiece::Lit(t) && t@ == ("/watch").spec_bytes()),
        r.media_upload == false,
        r.default_scopes@.len() == 7,
        r.default_scopes@[0]@ == ("https://www.googleapis.com/auth/drive")@,
        r.default_scopes@[1]@ == ("https://www.googleapis.com/auth/drive.appdata")@,
        r.default_scopes@[2]@ == ("https://www.googleapis.com/auth/drive.file")@,
        r.default_scopes@[3]@ == ("https://www.googleapis.com/auth/drive.metadata")@,
        r.default_scopes@[4]@ == ("https://www.googleapis.com/auth/drive.metadata.readonly")@,
        r.default_scopes@[5]@ == ("https://www.googleapis.com/auth/drive.photos.readonly")@,
        r.default_scopes@[6]@ == ("https://www.googleapis.com/auth/drive.readonly")@,
        r.body == BodyKind::Json,
        r.response == ResponseKind::Json,
{
    let mut path: Vec<PathPiece> = Vec::new();
    path.push(PathPiece::Lit(("files/").as_bytes_vec()));
    path.push(PathPiece::Param(("fileId").as_bytes_vec()));
    path.push(PathPiece::Lit(("/watch").as_bytes_vec()));
    let mut scopes: Vec<String> = Vec::new();
    scopes.push(("https://www.googleapis.com/auth/drive").to_owned());
    scopes.push(("https://www.googleapis.com/auth/drive.appdata").to_owned());
    scopes.push(("https://www.googleapis.com/auth/drive.file").to_owned());
    scopes.push(("https://www.googleapis.com/auth/drive.metadata").to_owned());
    scopes.push(("https://www.googleapis.com/auth/drive.metadata.readonly").to_owned());
    scopes.push(("https://www.googleapis.com/auth/drive.photos.readonly").to_owned());
    scopes.push(("https://www.googleapis.com/auth/drive.readonly").to_owned());
    OperationDescriptor {
        method: Method::Post,
        base_url: ("https://www.googleapis.com/drive/v3/").as_bytes_vec(),
        path,
        media_upload: false,
        default_scopes: scopes,
        body: BodyKind::Json,
        response: ResponseKind::Json,
    }
}

/// Create a permission for a file or shared drive.
pub fn permissions_create() -> (r: OperationDescriptor)
    ensures
        r.method == Method::Post,
        r.base_url@ == ("https://www.googleapis.com/drive/v3/").spec_bytes(),
        r.path@.len() == 3,
        (r.path@[0] matches PathPiece::Lit(t) && t@ == ("files/").spec_bytes()),
        (r.path@[1] matches PathPiece::Param(n) && n@ == ("fileId").spec_bytes()),
        (r.path@[2] matches PathPiece::Lit(t) && t@ == ("/permissions").spec_bytes()),
        r.media_upload == false,
        r.default_scopes@.len() == 2,
        r.default_scopes@[0]@ == ("https://www.googleapis.com/auth/drive")@,
        r.default_scopes@[1]@ == ("https://www.googleapis.com/auth/drive.file")@,
        r.body == BodyKind::Json,
        r.response == ResponseKind::Json,
{
    let mut path: Vec<PathPiece> = Vec::new();
    path.push(PathPiece::Lit(("files/").as_bytes_vec()));
    path.push(PathPiece::Param(("fileId").as_bytes_vec()));
    path.push(PathPiece::Lit(("/permissions").as_bytes_vec()));
    let mut scopes: Vec<String> = Vec::new();
    scopes.push(("https://www.googleapis.com/auth/drive").to_owned());
    scopes.push(("https://www.googleapis.com/auth/drive.file").to_owned());
    OperationDescriptor {
        method: Method::Post,
        base_url: ("https://www.googleapis.com/drive/v3/").as_bytes_vec(),
        path,
        media_upload: false,
        default_scopes: scopes,
        body: BodyKind::Json,
        response: ResponseKind::Json,
    }
}

/// List a file's or shared drive's permissions.
pub fn permissions_list() -> (r: OperationDescriptor)
    ensures
        r.method == Method::Get,
        r.base_url@ == ("https://www.googleapis.com/drive/v3/").spec_bytes(),
        r.path@.len() == 3,
        (r.path@[0] matches PathPiece::Lit(t) && t@ == ("files/").spec_bytes()),
        (r.path@[1] matches PathPiece::Param(n) && n@ == ("fileId").spec_bytes()),
        (r.path@[2] matches PathPiece::Lit(t) && t@ == ("/permissions").spec_bytes()),
        r.media_upload == false,
        r.default_scopes@.len() == 6,
        r.default_scopes@[0]@ == ("https://www.googleapis.com/auth/drive")@,
        r.default_scopes@[1]@ == ("https://www.googleapis.com/auth/drive.file")@,
        r.default_scopes@[2]@ == ("https://www.googleapis.com/auth/drive.metadata")@,
        r.default_scopes@[3]@ == ("https://www.googleapis.com/auth/drive.metadata.readonly")@,
        r.default_scopes@[4]@ == ("https://www.googleapis.com/auth/drive.photos.readonly")@,
        r.default_scopes@[5]@ == ("https://www.googleapis.com/auth/drive.readonly")@,
        r.body == BodyKind::NoBody,
        r.response == ResponseKind::Json,
{
    let mut path: Vec<PathPiece> = Vec::new();
    path.push(PathPiece::Lit(("files/").as_bytes_vec()));
    path.push(PathPiece::Param(("fileId").as_bytes_vec()));
    path.push(PathPiece::Lit(("/permissions").as_bytes_vec()));
    let mut scopes: Vec<String> = Vec::new();
    scopes.push(("https://www.googleapis.com/auth/drive").to_owned());
    scopes.push(("https://www.googleapis.com/auth/drive.file").to_owned());
    scopes.push(("https://www.googleapis.com/auth/drive.metadata").to_owned());
    scopes.push(("https://www.googleapis.com/auth/drive.metadata.readonly").to_owned());
    scopes.push(("https://www.googleapis.com/auth/drive.photos.readonly").to_owned());
    scopes.push(("https://www.googleapis.com/auth/drive.readonly").to_owned());
    OperationDescriptor {
        method: Method::Get,
        base_url: ("https://www.googleapis.com/drive/v3/").as_bytes_vec(),
        path,
        media_upload: false,
        default_scopes: scopes,
        body: BodyKind::NoBody,
        response: ResponseKind::Json,
    }
}

} // verus!
