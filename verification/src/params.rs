//! From typed per-operation parameter structs to the generic
//! [`ParameterSet`] the engine consumes.
//!
//! Each conversion fixes the field order the encoder will follow: the
//! optional query fields in their declared order, then the fields the
//! operation requires unconditionally, with the path parameters kept
//! apart for template substitution. A sample of operations is converted
//! here; the remaining parameter structs follow the same mechanical
//! pattern.

use vstd::prelude::*;

use crate::path::PathParam;
use crate::query::{QueryField, ScalarValue};
use crate::request::ParameterSet;
use crate::schema::{
    AboutGetParams, ChangesGetStartPageTokenParams, ChangesListParams, ChangesWatchParams,
    ChannelsStopParams, FilesCopyParams, FilesCreateParams, FilesDeleteParams,
    FilesEmptyTrashParams, FilesExportParams, FilesGenerateIdsParams, FilesGetParams,
    FilesListParams, FilesUpdateParams, FilesWatchParams, PermissionsCreateParams,
    PermissionsListParams,
};
use vstd::string::{StrSliceExecFns, StringSliceAdditionalSpecFns};
use vstd::utf8::encode_utf8;

verus! {

/// The UTF-8 bytes of a string value.
pub fn text_bytes(s: &String) -> (r: Vec<u8>)
    ensures
        r@ == encode_utf8(s@),
{
    s.as_str().as_bytes_vec()
}

/// How an optional string field appears as a query value.
pub open spec fn text_option_matches(r: Option<ScalarValue>, v: Option<String>) -> bool {
    match v {
        Option::None => r is None,
        Option::Some(s) => r matches Some(ScalarValue::Text(t)) && t@ == encode_utf8(s@),
    }
}

/// How an optional boolean field appears as a query value.
pub open spec fn flag_option_matches(r: Option<ScalarValue>, v: Option<bool>) -> bool {
    match v {
        Option::None => r is None,
        Option::Some(b) => r == Some(ScalarValue::Flag(b)),
    }
}

/// How an optional integer field appears as a query value.
pub open spec fn int_option_matches(r: Option<ScalarValue>, v: Option<i32>) -> bool {
    match v {
        Option::None => r is None,
        Option::Some(n) => r matches Some(ScalarValue::Int(m)) && m == n as i64,
    }
}

/// One optional string field under its wire name.
pub open spec fn text_field(f: QueryField, name: Seq<u8>, v: Option<String>) -> bool {
    f.name@ == name && text_option_matches(f.value, v)
}

/// One optional boolean field under its wire name.
pub open spec fn flag_field(f: QueryField, name: Seq<u8>, v: Option<bool>) -> bool {
    f.name@ == name && flag_option_matches(f.value, v)
}

/// One optional integer field under its wire name.
pub open spec fn int_field(f: QueryField, name: Seq<u8>, v: Option<i32>) -> bool {
    f.name@ == name && int_option_matches(f.value, v)
}

/// One required string field under its wire name: always present.
pub open spec fn required_text_field(f: QueryField, name: Seq<u8>, v: String) -> bool {
    f.name@ == name && (f.value matches Some(ScalarValue::Text(t)) && t@ == encode_utf8(v@))
}

/// One path parameter under its placeholder name.
pub open spec fn path_field(p: PathParam, name: Seq<u8>, v: String) -> bool {
    p.name@ == name && p.value@ == encode_utf8(v@)
}

fn opt_text(v: &Option<String>) -> (r: Option<ScalarValue>)
    ensures
        text_option_matches(r, *v),
{
    match v {
        Option::None => None,
        Option::Some(s) => Some(ScalarValue::Text(text_bytes(s))),
    }
}

fn opt_flag(v: &Option<bool>) -> (r: Option<ScalarValue>)
    ensures
        flag_option_matches(r, *v),
{
    match v {
        Option::None => None,
        Option::Some(b) => Some(ScalarValue::Flag(*b)),
    }
}

fn opt_int(v: &Option<i32>) -> (r: Option<ScalarValue>)
    ensures
        int_option_matches(r, *v),
{
    match v {
        Option::None => None,
        Option::Some(n) => Some(ScalarValue::Int(*n as i64)),
    }
}

impl AboutGetParams {
    /// This operation takes no parameters at all.
    pub fn to_parameters(&self) -> (r: ParameterSet)
        ensures
            r.path@.len() == 0,
            r.query@.len() == 0,
    {
        ParameterSet { path: Vec::new(), query: Vec::new() }
    }
}

impl ChannelsStopParams {
    /// This operation takes no parameters at all.
    pub fn to_parameters(&self) -> (r: ParameterSet)
        ensures
            r.path@.len() == 0,
            r.query@.len() == 0,
    {
        ParameterSet { path: Vec::new(), query: Vec::new() }
    }
}

impl ChangesGetStartPageTokenParams {
    pub fn to_parameters(&self) -> (r: ParameterSet)
        ensures
            r.path@.len() == 0,
            r.query@.len() == 4,
            text_field(r.query@[0], ("driveId").spec_bytes(), self.drive_id),
            flag_field(r.query@[1], ("supportsAllDrives").spec_bytes(), self.supports_all_drives),
            flag_field(r.query@[2], ("supportsTeamDrives").spec_bytes(), self.supports_team_drives),
            text_field(r.query@[3], ("teamDriveId").spec_bytes(), self.team_drive_id),
    {
        let mut query: Vec<QueryField> = Vec::new();
        query.push(QueryField { name: ("driveId").as_bytes_vec(), value: opt_text(&self.drive_id) });
        query.push(
            QueryField {
                name: ("supportsAllDrives").as_bytes_vec(),
                value: opt_flag(&self.supports_all_drives),
            },
        );
        query.push(
            QueryField {
                name: ("supportsTeamDrives").as_bytes_vec(),
                value: opt_flag(&self.supports_team_drives),
            },
        );
        query.push(
            QueryField {
                name: ("teamDriveId").as_bytes_vec(),
                value: opt_text(&self.team_drive_id),
            },
        );
        ParameterSet { path: Vec::new(), query }
    }
}

impl ChangesListParams {
    pub fn to_parameters(&self) -> (r: ParameterSet)
        ensures
            r.path@.len() == 0,
            r.query@.len() == 13,
            text_field(r.query@[0], ("driveId").spec_bytes(), self.drive_id),
            flag_field(
                r.query@[1],
                ("includeCorpusRemovals").spec_bytes(),
                self.include_corpus_removals,
            ),
            flag_field(
                r.query@[2],
                ("includeItemsFromAllDrives").spec_bytes(),
                self.include_items_from_all_drives,
            ),
            text_field(
                r.query@[3],
                ("includePermissionsForView").spec_bytes(),
                self.include_permissions_for_view,
            ),
            flag_field(r.query@[4], ("includeRemoved").spec_bytes(), self.include_removed),
            flag_field(
                r.query@[5],
                ("includeTeamDriveItems").spec_bytes(),
                self.include_team_drive_items,
            ),
            int_field(r.query@[6], ("pageSize").spec_bytes(), self.page_size),
            flag_field(r.query@[7], ("restrictToMyDrive").spec_bytes(), self.restrict_to_my_drive),
            text_field(r.query@[8], ("spaces").spec_bytes(), self.spaces),
            flag_field(r.query@[9], ("supportsAllDrives").spec_bytes(), self.supports_all_drives),
            flag_field(
                r.query@[10],
                ("supportsTeamDrives").spec_bytes(),
                self.supports_team_drives,
            ),
            text_field(r.query@[11], ("teamDriveId").spec_bytes(), self.team_drive_id),
            required_text_field(r.query@[12], ("pageToken").spec_bytes(), self.page_token),
    {
        let mut query: Vec<QueryField> = Vec::new();
        query.push(QueryField { name: ("driveId").as_bytes_vec(), value: opt_text(&self.drive_id) });
        query.push(
            QueryField {
                name: ("includeCorpusRemovals").as_bytes_vec(),
                value: opt_flag(&self.include_corpus_removals),
            },
        );
        query.push(
            QueryField {
                name: ("includeItemsFromAllDrives").as_bytes_vec(),
                value: opt_flag(&self.include_items_from_all_drives),
            },
        );
        query.push(
            QueryField {
                name: ("includePermissionsForView").as_bytes_vec(),
                value: opt_text(&self.include_permissions_for_view),
            },
        );
        query.push(
            QueryField {
                name: ("includeRemoved").as_bytes_vec(),
                value: opt_flag(&self.include_removed),
            },
        );
        query.push(
            QueryField {
                name: ("includeTeamDriveItems").as_bytes_vec(),
                value: opt_flag(&self.include_team_drive_items),
            },
        );
        query.push(
            QueryField { name: ("pageSize").as_bytes_vec(), value: opt_int(&self.page_size) },
        );
        query.push(
            QueryField {
                name: ("restrictToMyDrive").as_bytes_vec(),
                value: opt_flag(&self.restrict_to_my_drive),
            },
        );
        query.push(QueryField { name: ("spaces").as_bytes_vec(), value: opt_text(&self.spaces) });
        query.push(
            QueryField {
                name: ("supportsAllDrives").as_bytes_vec(),
                value: opt_flag(&self.supports_all_drives),
            },
        );
        query.push(
            QueryField {
                name: ("supportsTeamDrives").as_bytes_vec(),
                value: opt_flag(&self.supports_team_drives),
            },
        );
        query.push(
            QueryField {
                name: ("teamDriveId").as_bytes_vec(),
                value: opt_text(&self.team_drive_id),
            },
        );
        query.push(
            QueryField {
                name: ("pageToken").as_bytes_vec(),
                value: Some(ScalarValue::Text(text_bytes(&self.page_token))),
            },
        );
        ParameterSet { path: Vec::new(), query }
    }
}

impl FilesGetParams {
    pub fn to_parameters(&self) -> (r: ParameterSet)
        ensures
            r.path@.len() == 1,
            path_field(r.path@[0], ("fileId").spec_bytes(), self.file_id),
            r.query@.len() == 4,
            flag_field(r.query@[0], ("acknowledgeAbuse").spec_bytes(), self.acknowledge_abuse),
            text_field(
                r.query@[1],
                ("includePermissionsForView").spec_bytes(),
                self.include_permissions_for_view,
            ),
            flag_field(r.query@[2], ("supportsAllDrives").spec_bytes(), self.supports_all_drives),
            flag_field(r.query@[3], ("supportsTeamDrives").spec_bytes(), self.supports_team_drives),
    {
        let mut path: Vec<PathParam> = Vec::new();
        path.push(PathParam { name: ("fileId").as_bytes_vec(), value: text_bytes(&self.file_id) });
        let mut query: Vec<QueryField> = Vec::new();
        query.push(
            QueryField {
                name: ("acknowledgeAbuse").as_bytes_vec(),
                value: opt_flag(&self.acknowledge_abuse),
            },
        );
        query.push(
            QueryField {
                name: ("includePermissionsForView").as_bytes_vec(),
                value: opt_text(&self.include_permissions_for_view),
            },
        );
        query.push(
            QueryField {
                name: ("supportsAllDrives").as_bytes_vec(),
                value: opt_flag(&self.supports_all_drives),
            },
        );
        query.push(
            QueryField {
                name: ("supportsTeamDrives").as_bytes_vec(),
                value: opt_flag(&self.supports_team_drives),
            },
        );
        ParameterSet { path, query }
    }
}

impl FilesCopyParams {
    pub fn to_parameters(&self) -> (r: ParameterSet)
        ensures
            r.path@.len() == 1,
            path_field(r.path@[0], ("fileId").spec_bytes(), self.file_id),
            r.query@.len() == 7,
            flag_field(
                r.query@[0],
                ("enforceSingleParent").spec_bytes(),
                self.enforce_single_parent,
            ),
            flag_field(
                r.query@[1],
                ("ignoreDefaultVisibility").spec_bytes(),
                self.ignore_default_visibility,
            ),
            text_field(
                r.query@[2],
                ("includePermissionsForView").spec_bytes(),
                self.include_permissions_for_view,
            ),
            flag_field(
                r.query@[3],
                ("keepRevisionForever").spec_bytes(),
                self.keep_revision_forever,
            ),
            text_field(r.query@[4], ("ocrLanguage").spec_bytes(), self.ocr_language),
            flag_field(r.query@[5], ("supportsAllDrives").spec_bytes(), self.supports_all_drives),
            flag_field(r.query@[6], ("supportsTeamDrives").spec_bytes(), self.supports_team_drives),
    {
        let mut path: Vec<PathParam> = Vec::new();
        path.push(PathParam { name: ("fileId").as_bytes_vec(), value: text_bytes(&self.file_id) });
        let mut query: Vec<QueryField> = Vec::new();
        query.push(
            QueryField {
                name: ("enforceSingleParent").as_bytes_vec(),
                value: opt_flag(&self.enforce_single_parent),
            },
        );
        query.push(
            QueryField {
                name: ("ignoreDefaultVisibility").as_bytes_vec(),
                value: opt_flag(&self.ignore_default_visibility),
            },
        );
        query.push(
            QueryField {
                name: ("includePermissionsForView").as_bytes_vec(),
                value: opt_text(&self.include_permissions_for_view),
            },
        );
        query.push(
            QueryField {
                name: ("keepRevisionForever").as_bytes_vec(),
                value: opt_flag(&self.keep_revision_forever),
            },
        );
        query.push(
            QueryField {
                name: ("ocrLanguage").as_bytes_vec(),
                value: opt_text(&self.ocr_language),
            },
        );
        query.push(
            QueryField {
                name: ("supportsAllDrives").as_bytes_vec(),
                value: opt_flag(&self.supports_all_drives),
            },
        );
        query.push(
            QueryField {
                name: ("supportsTeamDrives").as_bytes_vec(),
                value: opt_flag(&self.supports_team_drives),
            },
        );
        ParameterSet { path, query }
    }
}

impl FilesCreateParams {
    pub fn to_parameters(&self) -> (r: ParameterSet)
        ensures
            r.path@.len() == 0,
            r.query@.len() == 8,
            flag_field(
                r.query@[0],
                ("enforceSingleParent").spec_bytes(),
                self.enforce_single_parent,
            ),
            flag_field(
                r.query@[1],
                ("ignoreDefaultVisibility").spec_bytes(),
                self.ignore_default_visibility,
            ),
            text_field(
                r.query@[2],
                ("includePermissionsForView").spec_bytes(),
                self.include_permissions_for_view,
            ),
            flag_field(
                r.query@[3],
                ("keepRevisionForever").spec_bytes(),
                self.keep_revision_forever,
            ),
            text_field(r.query@[4], ("ocrLanguage").spec_bytes(), self.ocr_language),
            flag_field(r.query@[5], ("supportsAllDrives").spec_bytes(), self.supports_all_drives),
            flag_field(r.query@[6], ("supportsTeamDrives").spec_bytes(), self.supports_team_drives),
            flag_field(
                r.query@[7],
                ("useContentAsIndexableText").spec_bytes(),
                self.use_content_as_indexable_text,
            ),
    {
        let mut query: Vec<QueryField> = Vec::new();
        query.push(
            QueryField {
                name: ("enforceSingleParent").as_bytes_vec(),
                value: opt_flag(&self.enforce_single_parent),
            },
        );
        query.push(
            QueryField {
                name: ("ignoreDefaultVisibility").as_bytes_vec(),
                value: opt_flag(&self.ignore_default_visibility),
            },
        );
        query.push(
            QueryField {
                name: ("includePermissionsForView").as_bytes_vec(),
                value: opt_text(&self.include_permissions_for_view),
            },
        );
        query.push(
            QueryField {
                name: ("keepRevisionForever").as_bytes_vec(),
                value: opt_flag(&self.keep_revision_forever),
            },
        );
        query.push(
            QueryField {
                name: ("ocrLanguage").as_bytes_vec(),
                value: opt_text(&self.ocr_language),
            },
        );
        query.push(
            QueryField {
                name: ("supportsAllDrives").as_bytes_vec(),
                value: opt_flag(&self.supports_all_drives),
            },
        );
        query.push(
            QueryField {
                name: ("supportsTeamDrives").as_bytes_vec(),
                value: opt_flag(&self.supports_team_drives),
            },
        );
        query.push(
            QueryField {
                name: ("useContentAsIndexableText").as_bytes_vec(),
                value: opt_flag(&self.use_content_as_indexable_text),
            },
        );
        ParameterSet { path: Vec::new(), query }
    }
}

impl FilesDeleteParams {
    pub fn to_parameters(&self) -> (r: ParameterSet)
        ensures
            r.path@.len() == 1,
            path_field(r.path@[0], ("fileId").spec_bytes(), self.file_id),
            r.query@.len() == 3,
            flag_field(
                r.query@[0],
                ("enforceSingleParent").spec_bytes(),
                self.enforce_single_parent,
            ),
            flag_field(r.query@[1], ("supportsAllDrives").spec_bytes(), self.supports_all_drives),
            flag_field(r.query@[2], ("supportsTeamDrives").spec_bytes(), self.supports_team_drives),
    {
        let mut path: Vec<PathParam> = Vec::new();
        path.push(PathParam { name: ("fileId").as_bytes_vec(), value: text_bytes(&self.file_id) });
        let mut query: Vec<QueryField> = Vec::new();
        query.push(
            QueryField {
                name: ("enforceSingleParent").as_bytes_vec(),
                value: opt_flag(&self.enforce_single_parent),
            },
        );
        query.push(
            QueryField {
                name: ("supportsAllDrives").as_bytes_vec(),
                value: opt_flag(&self.supports_all_drives),
            },
        );
        query.push(
            QueryField {
                name: ("supportsTeamDrives").as_bytes_vec(),
                value: opt_flag(&self.supports_team_drives),
            },
        );
        ParameterSet { path, query }
    }
}

impl FilesEmptyTrashParams {
    pub fn to_parameters(&self) -> (r: ParameterSet)
        ensures
            r.path@.len() == 0,
            r.query@.len() == 1,
            flag_field(
                r.query@[0],
                ("enforceSingleParent").spec_bytes(),
                self.enforce_single_parent,
            ),
    {
        let mut query: Vec<QueryField> = Vec::new();
        query.push(
            QueryField {
                name: ("enforceSingleParent").as_bytes_vec(),
                value: opt_flag(&self.enforce_single_parent),
            },
        );
        ParameterSet { path: Vec::new(), query }
    }
}

impl FilesExportParams {
    /// The export path template does not name the file placeholder, so
    /// the file parameter rides along unused; the MIME type is a
    /// required query field, appended unconditionally.
    pub fn to_parameters(&self) -> (r: ParameterSet)
        ensures
            r.path@.len() == 1,
            path_field(r.path@[0], ("fileId").spec_bytes(), self.file_id),
            r.query@.len() == 1,
            required_text_field(r.query@[0], ("mimeType").spec_bytes(), self.mime_type),
    {
        let mut path: Vec<PathParam> = Vec::new();
        path.push(PathParam { name: ("fileId").as_bytes_vec(), value: text_bytes(&self.file_id) });
        let mut query: Vec<QueryField> = Vec::new();
        query.push(
            QueryField {
                name: ("mimeType").as_bytes_vec(),
                value: Some(ScalarValue::Text(text_bytes(&self.mime_type))),
            },
        );
        ParameterSet { path, query }
    }
}

impl FilesGenerateIdsParams {
    pub fn to_parameters(&self) -> (r: ParameterSet)
        ensures
            r.path@.len() == 0,
            r.query@.len() == 2,
            int_field(r.query@[0], ("count").spec_bytes(), self.count),
            text_field(r.query@[1], ("space").spec_bytes(), self.space),
    {
        let mut query: Vec<QueryField> = Vec::new();
        query.push(QueryField { name: ("count").as_bytes_vec(), value: opt_int(&self.count) });
        query.push(QueryField { name: ("space").as_bytes_vec(), value: opt_text(&self.space) });
        ParameterSet { path: Vec::new(), query }
    }
}

impl ChangesWatchParams {
    pub fn to_parameters(&self) -> (r: ParameterSet)
        ensures
            r.path@.len() == 0,
            r.query@.len() == 13,
            text_field(r.query@[0], ("driveId").spec_bytes(), self.drive_id),
            flag_field(r.query@[1], ("includeCorpusRemovals").spec_bytes(), self.include_corpus_removals),
            flag_field(r.query@[2], ("includeItemsFromAllDrives").spec_bytes(), self.include_items_from_all_drives),
            text_field(r.query@[3], ("includePermissionsForView").spec_bytes(), self.include_permissions_for_view),
            flag_field(r.query@[4], ("includeRemoved").spec_bytes(), self.include_removed),
            flag_field(r.query@[5], ("includeTeamDriveItems").spec_bytes(), self.include_team_drive_items),
            int_field(r.query@[6], ("pageSize").spec_bytes(), self.page_size),
            flag_field(r.query@[7], ("restrictToMyDrive").spec_bytes(), self.restrict_to_my_drive),
            text_field(r.query@[8], ("spaces").spec_bytes(), self.spaces),
            flag_field(r.query@[9], ("supportsAllDrives").spec_bytes(), self.supports_all_drives),
            flag_field(r.query@[10], ("supportsTeamDrives").spec_bytes(), self.supports_team_drives),
            text_field(r.query@[11], ("teamDriveId").spec_bytes(), self.team_drive_id),
            required_text_field(r.query@[12], ("pageToken").spec_bytes(), self.page_token),
    {
        let mut query: Vec<QueryField> = Vec::new();
        query.push(QueryField { name: ("driveId").as_bytes_vec(), value: opt_text(&self.drive_id) });
        query.push(QueryField { name: ("includeCorpusRemovals").as_bytes_vec(), value: opt_flag(&self.include_corpus_removals) });
        query.push(QueryField { name: ("includeItemsFromAllDrives").as_bytes_vec(), value: opt_flag(&self.include_items_from_all_drives) });
        query.push(QueryField { name: ("includePermissionsForView").as_bytes_vec(), value: opt_text(&self.include_permissions_for_view) });
        query.push(QueryField { name: ("includeRemoved").as_bytes_vec(), value: opt_flag(&self.include_removed) });
        query.push(QueryField { name: ("includeTeamDriveItems").as_bytes_vec(), value: opt_flag(&self.include_team_drive_items) });
        query.push(QueryField { name: ("pageSize").as_bytes_vec(), value: opt_int(&self.page_size) });
        query.push(QueryField { name: ("restrictToMyDrive").as_bytes_vec(), value: opt_flag(&self.restrict_to_my_drive) });
        query.push(QueryField { name: ("spaces").as_bytes_vec(), value: opt_text(&self.spaces) });
        query.push(QueryField { name: ("supportsAllDrives").as_bytes_vec(), value: opt_flag(&self.supports_all_drives) });
        query.push(QueryField { name: ("supportsTeamDrives").as_bytes_vec(), value: opt_flag(&self.supports_team_drives) });
        query.push(QueryField { name: ("teamDriveId").as_bytes_vec(), value: opt_text(&self.team_drive_id) });
        query.push(QueryField { name: ("pageToken").as_bytes_vec(), value: Some(ScalarValue::Text(text_bytes(&self.page_token))) });
        ParameterSet { path: Vec::new(), query }
    }
}

impl FilesListParams {
    pub fn to_parameters(&self) -> (r: ParameterSet)
        ensures
            r.path@.len() == 0,
            r.query@.len() == 14,
            text_field(r.query@[0], ("corpora").spec_bytes(), self.corpora),
            text_field(r.query@[1], ("corpus").spec_bytes(), self.corpus),
            text_field(r.query@[2], ("driveId").spec_bytes(), self.drive_id),
            flag_field(r.query@[3], ("includeItemsFromAllDrives").spec_bytes(), self.include_items_from_all_drives),
            text_field(r.query@[4], ("includePermissionsForView").spec_bytes(), self.include_permissions_for_view),
            flag_field(r.query@[5], ("includeTeamDriveItems").spec_bytes(), self.include_team_drive_items),
            text_field(r.query@[6], ("orderBy").spec_bytes(), self.order_by),
            int_field(r.query@[7], ("pageSize").spec_bytes(), self.page_size),
            text_field(r.query@[8], ("pageToken").spec_bytes(), self.page_token),
            text_field(r.query@[9], ("q").spec_bytes(), self.q),
            text_field(r.query@[10], ("spaces").spec_bytes(), self.spaces),
            flag_field(r.query@[11], ("supportsAllDrives").spec_bytes(), self.supports_all_drives),
            flag_field(r.query@[12], ("supportsTeamDrives").spec_bytes(), self.supports_team_drives),
            text_field(r.query@[13], ("teamDriveId").spec_bytes(), self.team_drive_id),
    {
        let mut query: Vec<QueryField> = Vec::new();
        query.push(QueryField { name: ("corpora").as_bytes_vec(), value: opt_text(&self.corpora) });
        query.push(QueryField { name: ("corpus").as_bytes_vec(), value: opt_text(&self.corpus) });
        query.push(QueryField { name: ("driveId").as_bytes_vec(), value: opt_text(&self.drive_id) });
        query.push(QueryField { name: ("includeItemsFromAllDrives").as_bytes_vec(), value: opt_flag(&self.include_items_from_all_drives) });
        query.push(QueryField { name: ("includePermissionsForView").as_bytes_vec(), value: opt_text(&self.include_permissions_for_view) });
        query.push(QueryField { name: ("includeTeamDriveItems").as_bytes_vec(), value: opt_flag(&self.include_team_drive_items) });
        query.push(QueryField { name: ("orderBy").as_bytes_vec(), value: opt_text(&self.order_by) });
        query.push(QueryField { name: ("pageSize").as_bytes_vec(), value: opt_int(&self.page_size) });
        query.push(QueryField { name: ("pageToken").as_bytes_vec(), value: opt_text(&self.page_token) });
        query.push(QueryField { name: ("q").as_bytes_vec(), value: opt_text(&self.q) });
        query.push(QueryField { name: ("spaces").as_bytes_vec(), value: opt_text(&self.spaces) });
        query.push(QueryField { name: ("supportsAllDrives").as_bytes_vec(), value: opt_flag(&self.supports_all_drives) });
        query.push(QueryField { name: ("supportsTeamDrives").as_bytes_vec(), value: opt_flag(&self.supports_team_drives) });
        query.push(QueryField { name: ("teamDriveId").as_bytes_vec(), value: opt_text(&self.team_drive_id) });
        ParameterSet { path: Vec::new(), query }
    }
}

impl FilesUpdateParams {
    pub fn to_parameters(&self) -> (r: ParameterSet)
        ensures
            r.path@.len() == 1,
            path_field(r.path@[0], ("fileId").spec_bytes(), self.file_id),
            r.query@.len() == 9,
            text_field(r.query@[0], ("addParents").spec_bytes(), self.add_parents),
            flag_field(r.query@[1], ("enforceSingleParent").spec_bytes(), self.enforce_single_parent),
            text_field(r.query@[2], ("includePermissionsForView").spec_bytes(), self.include_permissions_for_view),
            flag_field(r.query@[3], ("keepRevisionForever").spec_bytes(), self.keep_revision_forever),
            text_field(r.query@[4], ("ocrLanguage").spec_bytes(), self.ocr_language),
            text_field(r.query@[5], ("removeParents").spec_bytes(), self.remove_parents),
            flag_field(r.query@[6], ("supportsAllDrives").spec_bytes(), self.supports_all_drives),
            flag_field(r.query@[7], ("supportsTeamDrives").spec_bytes(), self.supports_team_drives),
            flag_field(r.query@[8], ("useContentAsIndexableText").spec_bytes(), self.use_content_as_indexable_text),
    {
        let mut path: Vec<PathParam> = Vec::new();
        path.push(PathParam { name: ("fileId").as_bytes_vec(), value: text_bytes(&self.file_id) });
        let mut query: Vec<QueryField> = Vec::new();
        query.push(QueryField { name: ("addParents").as_bytes_vec(), value: opt_text(&self.add_parents) });
        query.push(QueryField { name: ("enforceSingleParent").as_bytes_vec(), value: opt_flag(&self.enforce_single_parent) });
        query.push(QueryField { name: ("includePermissionsForView").as_bytes_vec(), value: opt_text(&self.include_permissions_for_view) });
        query.push(QueryField { name: ("keepRevisionForever").as_bytes_vec(), value: opt_flag(&self.keep_revision_forever) });
        query.push(QueryField { name: ("ocrLanguage").as_bytes_vec(), value: opt_text(&self.ocr_language) });
        query.push(QueryField { name: ("removeParents").as_bytes_vec(), value: opt_text(&self.remove_parents) });
        query.push(QueryField { name: ("supportsAllDrives").as_bytes_vec(), value: opt_flag(&self.supports_all_drives) });
        query.push(QueryField { name: ("supportsTeamDrives").as_bytes_vec(), value: opt_flag(&self.supports_team_drives) });
        query.push(QueryField { name: ("useContentAsIndexableText").as_bytes_vec(), value: opt_flag(&self.use_content_as_indexable_text) });
        ParameterSet { path: path, query }
    }
}

impl FilesWatchParams {
    pub fn to_parameters(&self) -> (r: ParameterSet)
        ensures
            r.path@.len() == 1,
            path_field(r.path@[0], ("fileId").spec_bytes(), self.file_id),
            r.query@.len() == 4,
            flag_field(r.query@[0], ("acknowledgeAbuse").spec_bytes(), self.acknowledge_abuse),
            text_field(r.query@[1], ("includePermissionsForView").spec_bytes(), self.include_permissions_for_view),
            flag_field(r.query@[2], ("supportsAllDrives").spec_bytes(), self.supports_all_drives),
            flag_field(r.query@[3], ("supportsTeamDrives").spec_bytes(), self.supports_team_drives),
    {
        let mut path: Vec<PathParam> = Vec::new();
        path.push(PathParam { name: ("fileId").as_bytes_vec(), value: text_bytes(&self.file_id) });
        let mut query: Vec<QueryField> = Vec::new();
        query.push(QueryField { name: ("acknowledgeAbuse").as_bytes_vec(), value: opt_flag(&self.acknowledge_abuse) });
        query.push(QueryField { name: ("includePermissionsForView").as_bytes_vec(), value: opt_text(&self.include_permissions_for_view) });
        query.push(QueryField { name: ("supportsAllDrives").as_bytes_vec(), value: opt_flag(&self.supports_all_drives) });
        query.push(QueryField { name: ("supportsTeamDrives").as_bytes_vec(), value: opt_flag(&self.supports_team_drives) });
        ParameterSet { path: path, query }
    }
}

impl PermissionsCreateParams {
    pub fn to_parameters(&self) -> (r: ParameterSet)
        ensures
            r.path@.len() == 1,
            path_field(r.path@[0], ("fileId").spec_bytes(), self.file_id),
            r.query@.len() == 8,
            text_field(r.query@[0], ("emailMessage").spec_bytes(), self.email_message),
            flag_field(r.query@[1], ("enforceSingleParent").spec_bytes(), self.enforce_single_parent),
            flag_field(r.query@[2], ("moveToNewOwnersRoot").spec_bytes(), self.move_to_new_owners_root),
            flag_field(r.query@[3], ("sendNotificationEmail").spec_bytes(), self.send_notification_email),
            flag_field(r.query@[4], ("supportsAllDrives").spec_bytes(), self.supports_all_drives),
            flag_field(r.query@[5], ("supportsTeamDrives").spec_bytes(), self.supports_team_drives),
            flag_field(r.query@[6], ("transferOwnership").spec_bytes(), self.transfer_ownership),
            flag_field(r.query@[7], ("useDomainAdminAccess").spec_bytes(), self.use_domain_admin_access),
    {
        let mut path: Vec<PathParam> = Vec::new();
        path.push(PathParam { name: ("fileId").as_bytes_vec(), value: text_bytes(&self.file_id) });
        let mut query: Vec<QueryField> = Vec::new();
        query.push(QueryField { name: ("emailMessage").as_bytes_vec(), value: opt_text(&self.email_message) });
        query.push(QueryField { name: ("enforceSingleParent").as_bytes_vec(), value: opt_flag(&self.enforce_single_parent) });
        query.push(QueryField { name: ("moveToNewOwnersRoot").as_bytes_vec(), value: opt_flag(&self.move_to_new_owners_root) });
        query.push(QueryField { name: ("sendNotificationEmail").as_bytes_vec(), value: opt_flag(&self.send_notification_email) });
        query.push(QueryField { name: ("supportsAllDrives").as_bytes_vec(), value: opt_flag(&self.supports_all_drives) });
        query.push(QueryField { name: ("supportsTeamDrives").as_bytes_vec(), value: opt_flag(&self.supports_team_drives) });
        query.push(QueryField { name: ("transferOwnership").as_bytes_vec(), value: opt_flag(&self.transfer_ownership) });
        query.push(QueryField { name: ("useDomainAdminAccess").as_bytes_vec(), value: opt_flag(&self.use_domain_admin_access) });
        ParameterSet { path: path, query }
    }
}

impl PermissionsListParams {
    pub fn to_parameters(&self) -> (r: ParameterSet)
        ensures
            r.path@.len() == 1,
            path_field(r.path@[0], ("fileId").spec_bytes(), self.file_id),
            r.query@.len() == 6,
            text_field(r.query@[0], ("includePermissionsForView").spec_bytes(), self.include_permissions_for_view),
            int_field(r.query@[1], ("pageSize").spec_bytes(), self.page_size),
            text_field(r.query@[2], ("pageToken").spec_bytes(), self.page_token),
            flag_field(r.query@[3], ("supportsAllDrives").spec_bytes(), self.supports_all_drives),
            flag_field(r.query@[4], ("supportsTeamDrives").spec_bytes(), self.supports_team_drives),
            flag_field(r.query@[5], ("useDomainAdminAccess").spec_bytes(), self.use_domain_admin_access),
    {
        let mut path: Vec<PathParam> = Vec::new();
        path.push(PathParam { name: ("fileId").as_bytes_vec(), value: text_bytes(&self.file_id) });
        let mut query: Vec<QueryField> = Vec::new();
        query.push(QueryField { name: ("includePermissionsForView").as_bytes_vec(), value: opt_text(&self.include_permissions_for_view) });
        query.push(QueryField { name: ("pageSize").as_bytes_vec(), value: opt_int(&self.page_size) });
        query.push(QueryField { name: ("pageToken").as_bytes_vec(), value: opt_text(&self.page_token) });
        query.push(QueryField { name: ("supportsAllDrives").as_bytes_vec(), value: opt_flag(&self.supports_all_drives) });
        query.push(QueryField { name: ("supportsTeamDrives").as_bytes_vec(), value: opt_flag(&self.supports_team_drives) });
        query.push(QueryField { name: ("useDomainAdminAccess").as_bytes_vec(), value: opt_flag(&self.use_domain_admin_access) });
        ParameterSet { path: path, query }
    }
}

} // verus!
