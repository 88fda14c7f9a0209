//! The resource and parameter schemas of the API, as plain data.
//!
//! These are the typed request and response bodies and the per-operation
//! parameter sets. They carry no behaviour of their own: parameter
//! structs are turned into a generic [`crate::request::ParameterSet`] by
//! the params module, and response structs are filled from decoded JSON
//! by the layer that owns the serializer.

use std::collections::HashMap;
use vstd::prelude::*;

verus! {

#[derive(Debug, Clone, Default)]
pub struct AboutDriveThemes {
    /// A link to this theme's background image.
    pub background_image_link: Option<String>,
    /// The color of this theme as an RGB hex string.
    pub color_rgb: Option<String>,
    /// The ID of the theme.
    pub id: Option<String>,
}

#[derive(Debug, Clone, Default)]
pub struct AboutStorageQuota {
    /// i64: The usage limit, if applicable. This will not be present if the user has unlimited storage.
    pub limit: Option<String>,
    /// i64: The total usage across all services.
    pub usage: Option<String>,
    /// i64: The usage by all files in Google Drive.
    pub usage_in_drive: Option<String>,
    /// i64: The usage by trashed files in Google Drive.
    pub usage_in_drive_trash: Option<String>,
}

#[derive(Debug, Clone, Default)]
pub struct AboutTeamDriveThemes {
    /// Deprecated - use driveThemes/backgroundImageLink instead.
    pub background_image_link: Option<String>,
    /// Deprecated - use driveThemes/colorRgb instead.
    pub color_rgb: Option<String>,
    /// Deprecated - use driveThemes/id instead.
    pub id: Option<String>,
}

#[derive(Debug, Clone, Default)]
pub struct About {
    /// Whether the user has installed the requesting app.
    pub app_installed: Option<bool>,
    /// Whether the user can create shared drives.
    pub can_create_drives: Option<bool>,
    /// Deprecated - use canCreateDrives instead.
    pub can_create_team_drives: Option<bool>,
    /// A list of themes that are supported for shared drives.
    pub drive_themes: Option<Vec<AboutDriveThemes>>,
    /// A map of source MIME type to possible targets for all supported exports.
    pub export_formats: Option<HashMap<String, Vec<String>>>,
    /// The currently supported folder colors as RGB hex strings.
    pub folder_color_palette: Option<Vec<String>>,
    /// A map of source MIME type to possible targets for all supported imports.
    pub import_formats: Option<HashMap<String, Vec<String>>>,
    /// Identifies what kind of resource this is. Value: the fixed string "drive#about".
    pub kind: Option<String>,
    /// A map of maximum import sizes by MIME type, in bytes.
    pub max_import_sizes: Option<HashMap<String, String>>,
    /// i64: The maximum upload size in bytes.
    pub max_upload_size: Option<String>,
    /// The user's storage quota limits and usage. All fields are measured in bytes.
    pub storage_quota: Option<AboutStorageQuota>,
    /// Deprecated - use driveThemes instead.
    pub team_drive_themes: Option<Vec<AboutTeamDriveThemes>>,
    pub user: Option<User>,
}

#[derive(Debug, Clone, Default)]
pub struct Channel {
    /// The address where notifications are delivered for this channel.
    pub address: Option<String>,
    /// i64: Date and time of notification channel expiration, expressed as a Unix timestamp, in milliseconds. Optional.
    pub expiration: Option<String>,
    /// A UUID or similar unique string that identifies this channel.
    pub id: Option<String>,
    /// Identifies this as a notification channel used to watch for changes to a resource, which is "api#channel".
    pub kind: Option<String>,
    /// Additional parameters controlling delivery channel behavior. Optional.
    pub params: Option<HashMap<String, String>>,
    /// A Boolean value to indicate whether payload is wanted. Optional.
    pub payload: Option<bool>,
    /// An opaque ID that identifies the resource being watched on this channel. Stable across different API versions.
    pub resource_id: Option<String>,
    /// A version-specific identifier for the watched resource.
    pub resource_uri: Option<String>,
    /// An arbitrary string delivered to the target address with each notification delivered over this channel. Optional.
    pub token: Option<String>,
    /// The type of delivery mechanism used for this channel.
    pub typ: Option<String>,
}

#[derive(Debug, Clone, Default)]
pub struct CommentQuotedFileContent {
    /// The MIME type of the quoted content.
    pub mime_type: Option<String>,
    /// The quoted content itself. This is interpreted as plain text if set through the API.
    pub value: Option<String>,
}

#[derive(Debug, Clone, Default)]
pub struct DriveCapabilities {
    /// Whether the current user can add children to folders in this shared drive.
    pub can_add_children: Option<bool>,
    /// Whether the current user can change the copyRequiresWriterPermission restriction of this shared drive.
    pub can_change_copy_requires_writer_permission_restriction: Option<bool>,
    /// Whether the current user can change the domainUsersOnly restriction of this shared drive.
    pub can_change_domain_users_only_restriction: Option<bool>,
    /// Whether the current user can change the background of this shared drive.
    pub can_change_drive_background: Option<bool>,
    /// Whether the current user can change the driveMembersOnly restriction of this shared drive.
    pub can_change_drive_members_only_restriction: Option<bool>,
    /// Whether the current user can comment on files in this shared drive.
    pub can_comment: Option<bool>,
    /// Whether the current user can copy files in this shared drive.
    pub can_copy: Option<bool>,
    /// Whether the current user can delete children from folders in this shared drive.
    pub can_delete_children: Option<bool>,
    /// Whether the current user can delete this shared drive. Attempting to delete the shared drive may still fail if there are untrashed items inside the shared drive.
    pub can_delete_drive: Option<bool>,
    /// Whether the current user can download files in this shared drive.
    pub can_download: Option<bool>,
    /// Whether the current user can edit files in this shared drive
    pub can_edit: Option<bool>,
    /// Whether the current user can list the children of folders in this shared drive.
    pub can_list_children: Option<bool>,
    /// Whether the current user can add members to this shared drive or remove them or change their role.
    pub can_manage_members: Option<bool>,
    /// Whether the current user can read the revisions resource of files in this shared drive.
    pub can_read_revisions: Option<bool>,
    /// Whether the current user can rename files or folders in this shared drive.
    pub can_rename: Option<bool>,
    /// Whether the current user can rename this shared drive.
    pub can_rename_drive: Option<bool>,
    /// Whether the current user can share files or folders in this shared drive.
    pub can_share: Option<bool>,
    /// Whether the current user can trash children from folders in this shared drive.
    pub can_trash_children: Option<bool>,
}

#[derive(Debug, Clone, Default)]
pub struct DriveRestrictions {
    /// Whether administrative privileges on this shared drive are required to modify restrictions.
    pub admin_managed_restrictions: Option<bool>,
    /// Whether the options to copy, print, or download files inside this shared drive, should be disabled for readers and commenters. When this restriction is set to true, it will override the similarly named field to true for any file inside this shared drive.
    pub copy_requires_writer_permission: Option<bool>,
    /// Whether access to this shared drive and items inside this shared drive is restricted to users of the domain to which this shared drive belongs. This restriction may be overridden by other sharing policies controlled outside of this shared drive.
    pub domain_users_only: Option<bool>,
    /// Whether access to items inside this shared drive is restricted to its members.
    pub drive_members_only: Option<bool>,
}

#[derive(Debug, Clone, Default)]
pub struct FileCapabilities {
    /// Whether the current user can add children to this folder. This is always false when the item is not a folder.
    pub can_add_children: Option<bool>,
    /// Whether the current user can add a folder from another drive (different shared drive or My Drive) to this folder. This is false when the item is not a folder. Only populated for items in shared drives.
    pub can_add_folder_from_another_drive: Option<bool>,
    /// Whether the current user can add a parent for the item without removing an existing parent in the same request. Not populated for shared drive files.
    pub can_add_my_drive_parent: Option<bool>,
    /// Whether the current user can change the copyRequiresWriterPermission restriction of this file.
    pub can_change_copy_requires_writer_permission: Option<bool>,
    /// Deprecated
    pub can_change_viewers_can_copy_content: Option<bool>,
    /// Whether the current user can comment on this file.
    pub can_comment: Option<bool>,
    /// Whether the current user can copy this file. For an item in a shared drive, whether the current user can copy non-folder descendants of this item, or this item itself if it is not a folder.
    pub can_copy: Option<bool>,
    /// Whether the current user can delete this file.
    pub can_delete: Option<bool>,
    /// Whether the current user can delete children of this folder. This is false when the item is not a folder. Only populated for items in shared drives.
    pub can_delete_children: Option<bool>,
    /// Whether the current user can download this file.
    pub can_download: Option<bool>,
    /// Whether the current user can edit this file. Other factors may limit the type of changes a user can make to a file. For example, see canChangeCopyRequiresWriterPermission or canModifyContent.
    pub can_edit: Option<bool>,
    /// Whether the current user can list the children of this folder. This is always false when the item is not a folder.
    pub can_list_children: Option<bool>,
    /// Whether the current user can modify the content of this file.
    pub can_modify_content: Option<bool>,
    /// Whether the current user can modify restrictions on content of this file.
    pub can_modify_content_restriction: Option<bool>,
    /// Whether the current user can move children of this folder outside of the shared drive. This is false when the item is not a folder. Only populated for items in shared drives.
    pub can_move_children_out_of_drive: Option<bool>,
    /// Deprecated - use canMoveChildrenOutOfDrive instead.
    pub can_move_children_out_of_team_drive: Option<bool>,
    /// Whether the current user can move children of this folder within this drive. This is false when the item is not a folder. Note that a request to move the child may still fail depending on the current user's access to the child and to the destination folder.
    pub can_move_children_within_drive: Option<bool>,
    /// Deprecated - use canMoveChildrenWithinDrive instead.
    pub can_move_children_within_team_drive: Option<bool>,
    /// Deprecated - use canMoveItemOutOfDrive instead.
    pub can_move_item_into_team_drive: Option<bool>,
    /// Whether the current user can move this item outside of this drive by changing its parent. Note that a request to change the parent of the item may still fail depending on the new parent that is being added.
    pub can_move_item_out_of_drive: Option<bool>,
    /// Deprecated - use canMoveItemOutOfDrive instead.
    pub can_move_item_out_of_team_drive: Option<bool>,
    /// Whether the current user can move this item within this drive. Note that a request to change the parent of the item may still fail depending on the new parent that is being added and the parent that is being removed.
    pub can_move_item_within_drive: Option<bool>,
    /// Deprecated - use canMoveItemWithinDrive instead.
    pub can_move_item_within_team_drive: Option<bool>,
    /// Deprecated - use canMoveItemWithinDrive or canMoveItemOutOfDrive instead.
    pub can_move_team_drive_item: Option<bool>,
    /// Whether the current user can read the shared drive to which this file belongs. Only populated for items in shared drives.
    pub can_read_drive: Option<bool>,
    /// Whether the current user can read the revisions resource of this file. For a shared drive item, whether revisions of non-folder descendants of this item, or this item itself if it is not a folder, can be read.
    pub can_read_revisions: Option<bool>,
    /// Deprecated - use canReadDrive instead.
    pub can_read_team_drive: Option<bool>,
    /// Whether the current user can remove children from this folder. This is always false when the item is not a folder. For a folder in a shared drive, use canDeleteChildren or canTrashChildren instead.
    pub can_remove_children: Option<bool>,
    /// Whether the current user can remove a parent from the item without adding another parent in the same request. Not populated for shared drive files.
    pub can_remove_my_drive_parent: Option<bool>,
    /// Whether the current user can rename this file.
    pub can_rename: Option<bool>,
    /// Whether the current user can modify the sharing settings for this file.
    pub can_share: Option<bool>,
    /// Whether the current user can move this file to trash.
    pub can_trash: Option<bool>,
    /// Whether the current user can trash children of this folder. This is false when the item is not a folder. Only populated for items in shared drives.
    pub can_trash_children: Option<bool>,
    /// Whether the current user can restore this file from trash.
    pub can_untrash: Option<bool>,
}

#[derive(Debug, Clone, Default)]
pub struct FileContentHintsThumbnail {
    /// The thumbnail data encoded with URL-safe Base64 (RFC 4648 section 5).
    pub image: Option<String>,
    /// The MIME type of the thumbnail.
    pub mime_type: Option<String>,
}

#[derive(Debug, Clone, Default)]
pub struct FileContentHints {
    /// Text to be indexed for the file to improve fullText queries. This is limited to 128KB in length and may contain HTML elements.
    pub indexable_text: Option<String>,
    /// A thumbnail for the file. This will only be used if Google Drive cannot generate a standard thumbnail.
    pub thumbnail: Option<FileContentHintsThumbnail>,
}

#[derive(Debug, Clone, Default)]
pub struct FileShortcutDetails {
    /// The ID of the file that this shortcut points to.
    pub target_id: Option<String>,
    /// The MIME type of the file that this shortcut points to. The value of this field is a snapshot of the target's MIME type, captured when the shortcut is created.
    pub target_mime_type: Option<String>,
}

#[derive(Debug, Clone, Default)]
pub struct FileVideoMediaMetadata {
    /// i64: The duration of the video in milliseconds.
    pub duration_millis: Option<String>,
    /// The height of the video in pixels.
    pub height: Option<i32>,
    /// The width of the video in pixels.
    pub width: Option<i32>,
}

#[derive(Debug, Clone, Default)]
pub struct GeneratedIds {
    /// The IDs generated for the requesting user in the specified space.
    pub ids: Option<Vec<String>>,
    /// Identifies what kind of resource this is. Value: the fixed string "drive#generatedIds".
    pub kind: Option<String>,
    /// The type of file that can be created with these IDs.
    pub space: Option<String>,
}

#[derive(Debug, Clone, Default)]
pub struct PermissionPermissionDetails {
    /// Whether this permission is inherited. This field is always populated. This is an output-only field.
    pub inherited: Option<bool>,
    /// The ID of the item from which this permission is inherited. This is an output-only field.
    pub inherited_from: Option<String>,
    /// The permission type for this user. While new values may be added in future, the following are currently possible:   - file  - member
    pub permission_type: Option<String>,
    /// The primary role for this user. While new values may be added in the future, the following are currently possible:   - organizer  - fileOrganizer  - writer  - commenter  - reader
    pub role: Option<String>,
}

#[derive(Debug, Clone, Default)]
pub struct PermissionTeamDrivePermissionDetails {
    /// Deprecated - use permissionDetails/inherited instead.
    pub inherited: Option<bool>,
    /// Deprecated - use permissionDetails/inheritedFrom instead.
    pub inherited_from: Option<String>,
    /// Deprecated - use permissionDetails/role instead.
    pub role: Option<String>,
    /// Deprecated - use permissionDetails/permissionType instead.
    pub team_drive_permission_type: Option<String>,
}

#[derive(Debug, Clone, Default)]
pub struct StartPageToken {
    /// Identifies what kind of resource this is. Value: the fixed string "drive#startPageToken".
    pub kind: Option<String>,
    /// The starting page token for listing changes.
    pub start_page_token: Option<String>,
}

#[derive(Debug, Clone, Default)]
pub struct TeamDriveCapabilities {
    /// Whether the current user can add children to folders in this Team Drive.
    pub can_add_children: Option<bool>,
    /// Whether the current user can change the copyRequiresWriterPermission restriction of this Team Drive.
    pub can_change_copy_requires_writer_permission_restriction: Option<bool>,
    /// Whether the current user can change the domainUsersOnly restriction of this Team Drive.
    pub can_change_domain_users_only_restriction: Option<bool>,
    /// Whether the current user can change the background of this Team Drive.
    pub can_change_team_drive_background: Option<bool>,
    /// Whether the current user can change the teamMembersOnly restriction of this Team Drive.
    pub can_change_team_members_only_restriction: Option<bool>,
    /// Whether the current user can comment on files in this Team Drive.
    pub can_comment: Option<bool>,
    /// Whether the current user can copy files in this Team Drive.
    pub can_copy: Option<bool>,
    /// Whether the current user can delete children from folders in this Team Drive.
    pub can_delete_children: Option<bool>,
    /// Whether the current user can delete this Team Drive. Attempting to delete the Team Drive may still fail if there are untrashed items inside the Team Drive.
    pub can_delete_team_drive: Option<bool>,
    /// Whether the current user can download files in this Team Drive.
    pub can_download: Option<bool>,
    /// Whether the current user can edit files in this Team Drive
    pub can_edit: Option<bool>,
    /// Whether the current user can list the children of folders in this Team Drive.
    pub can_list_children: Option<bool>,
    /// Whether the current user can add members to this Team Drive or remove them or change their role.
    pub can_manage_members: Option<bool>,
    /// Whether the current user can read the revisions resource of files in this Team Drive.
    pub can_read_revisions: Option<bool>,
    /// Deprecated - use canDeleteChildren or canTrashChildren instead.
    pub can_remove_children: Option<bool>,
    /// Whether the current user can rename files or folders in this Team Drive.
    pub can_rename: Option<bool>,
    /// Whether the current user can rename this Team Drive.
    pub can_rename_team_drive: Option<bool>,
    /// Whether the current user can share files or folders in this Team Drive.
    pub can_share: Option<bool>,
    /// Whether the current user can trash children from folders in this Team Drive.
    pub can_trash_children: Option<bool>,
}

#[derive(Debug, Clone, Default)]
pub struct TeamDriveRestrictions {
    /// Whether administrative privileges on this Team Drive are required to modify restrictions.
    pub admin_managed_restrictions: Option<bool>,
    /// Whether the options to copy, print, or download files inside this Team Drive, should be disabled for readers and commenters. When this restriction is set to true, it will override the similarly named field to true for any file inside this Team Drive.
    pub copy_requires_writer_permission: Option<bool>,
    /// Whether access to this Team Drive and items inside this Team Drive is restricted to users of the domain to which this Team Drive belongs. This restriction may be overridden by other sharing policies controlled outside of this Team Drive.
    pub domain_users_only: Option<bool>,
    /// Whether access to items inside this Team Drive is restricted to members of this Team Drive.
    pub team_members_only: Option<bool>,
}

#[derive(Debug, Clone, Default)]
pub struct User {
    /// A plain text displayable name for this user.
    pub display_name: Option<String>,
    /// The email address of the user. This may not be present in certain contexts if the user has not made their email address visible to the requester.
    pub email_address: Option<String>,
    /// Identifies what kind of resource this is. Value: the fixed string "drive#user".
    pub kind: Option<String>,
    /// Whether this user is the requesting user.
    pub me: Option<bool>,
    /// The user's ID as visible in Permission resources.
    pub permission_id: Option<String>,
    /// A link to the user's profile photo, if available.
    pub photo_link: Option<String>,
}

#[derive(Debug, Clone, Default)]
pub struct AboutGetParams {
}

#[derive(Debug, Clone, Default)]
pub struct ChangesGetStartPageTokenParams {
    /// The ID of the shared drive for which the starting pageToken for listing future changes from that shared drive is returned.
    pub drive_id: Option<String>,
    /// Whether the requesting application supports both My Drives and shared drives.
    pub supports_all_drives: Option<bool>,
    /// Deprecated use supportsAllDrives instead.
    pub supports_team_drives: Option<bool>,
    /// Deprecated use driveId instead.
    pub team_drive_id: Option<String>,
}

#[derive(Debug, Clone, Default)]
pub struct ChangesListParams {
    /// The shared drive from which changes are returned. If specified the change IDs will be reflective of the shared drive; use the combined drive ID and change ID as an identifier.
    pub drive_id: Option<String>,
    /// Whether changes should include the file resource if the file is still accessible by the user at the time of the request, even when a file was removed from the list of changes and there will be no further change entries for this file.
    pub include_corpus_removals: Option<bool>,
    /// Whether both My Drive and shared drive items should be included in results.
    pub include_items_from_all_drives: Option<bool>,
    /// Specifies which additional view's permissions to include in the response. Only 'published' is supported.
    pub include_permissions_for_view: Option<String>,
    /// Whether to include changes indicating that items have been removed from the list of changes, for example by deletion or loss of access.
    pub include_removed: Option<bool>,
    /// Deprecated use includeItemsFromAllDrives instead.
    pub include_team_drive_items: Option<bool>,
    /// The maximum number of changes to return per page.
    pub page_size: Option<i32>,
    /// The token for continuing a previous list request on the next page. This should be set to the value of 'nextPageToken' from the previous response or to the response from the getStartPageToken method.
    pub page_token: String,
    /// Whether to restrict the results to changes inside the My Drive hierarchy. This omits changes to files such as those in the Application Data folder or shared files which have not been added to My Drive.
    pub restrict_to_my_drive: Option<bool>,
    /// A comma-separated list of spaces to query within the user corpus. Supported values are 'drive', 'appDataFolder' and 'photos'.
    pub spaces: Option<String>,
    /// Whether the requesting application supports both My Drives and shared drives.
    pub supports_all_drives: Option<bool>,
    /// Deprecated use supportsAllDrives instead.
    pub supports_team_drives: Option<bool>,
    /// Deprecated use driveId instead.
    pub team_drive_id: Option<String>,
}

#[derive(Debug, Clone, Default)]
pub struct ChangesWatchParams {
    /// The shared drive from which changes are returned. If specified the change IDs will be reflective of the shared drive; use the combined drive ID and change ID as an identifier.
    pub drive_id: Option<String>,
    /// Whether changes should include the file resource if the file is still accessible by the user at the time of the request, even when a file was removed from the list of changes and there will be no further change entries for this file.
    pub include_corpus_removals: Option<bool>,
    /// Whether both My Drive and shared drive items should be included in results.
    pub include_items_from_all_drives: Option<bool>,
    /// Specifies which additional view's permissions to include in the response. Only 'published' is supported.
    pub include_permissions_for_view: Option<String>,
    /// Whether to include changes indicating that items have been removed from the list of changes, for example by deletion or loss of access.
    pub include_removed: Option<bool>,
    /// Deprecated use includeItemsFromAllDrives instead.
    pub include_team_drive_items: Option<bool>,
    /// The maximum number of changes to return per page.
    pub page_size: Option<i32>,
    /// The token for continuing a previous list request on the next page. This should be set to the value of 'nextPageToken' from the previous response or to the response from the getStartPageToken method.
    pub page_token: String,
    /// Whether to restrict the results to changes inside the My Drive hierarchy. This omits changes to files such as those in the Application Data folder or shared files which have not been added to My Drive.
    pub restrict_to_my_drive: Option<bool>,
    /// A comma-separated list of spaces to query within the user corpus. Supported values are 'drive', 'appDataFolder' and 'photos'.
    pub spaces: Option<String>,
    /// Whether the requesting application supports both My Drives and shared drives.
    pub supports_all_drives: Option<bool>,
    /// Deprecated use supportsAllDrives instead.
    pub supports_team_drives: Option<bool>,
    /// Deprecated use driveId instead.
    pub team_drive_id: Option<String>,
}

#[derive(Debug, Clone, Default)]
pub struct ChannelsStopParams {
}

#[derive(Debug, Clone, Default)]
pub struct CommentsCreateParams {
    /// The ID of the file.
    pub file_id: String,
}

#[derive(Debug, Clone, Default)]
pub struct CommentsDeleteParams {
    /// The ID of the comment.
    pub comment_id: String,
    /// The ID of the file.
    pub file_id: String,
}

#[derive(Debug, Clone, Default)]
pub struct CommentsGetParams {
    /// The ID of the comment.
    pub comment_id: String,
    /// The ID of the file.
    pub file_id: String,
    /// Whether to return deleted comments. Deleted comments will not include their original content.
    pub include_deleted: Option<bool>,
}

#[derive(Debug, Clone, Default)]
pub struct CommentsListParams {
    /// The ID of the file.
    pub file_id: String,
    /// Whether to include deleted comments. Deleted comments will not include their original content.
    pub include_deleted: Option<bool>,
    /// The maximum number of comments to return per page.
    pub page_size: Option<i32>,
    /// The token for continuing a previous list request on the next page. This should be set to the value of 'nextPageToken' from the previous response.
    pub page_token: Option<String>,
    /// The minimum value of 'modifiedTime' for the result comments (RFC 3339 date-time).
    pub start_modified_time: Option<String>,
}

#[derive(Debug, Clone, Default)]
pub struct CommentsUpdateParams {
    /// The ID of the comment.
    pub comment_id: String,
    /// The ID of the file.
    pub file_id: String,
}

#[derive(Debug, Clone, Default)]
pub struct DrivesCreateParams {
    /// An ID, such as a random UUID, which uniquely identifies this user's request for idempotent creation of a shared drive. A repeated request by the same user and with the same request ID will avoid creating duplicates by attempting to create the same shared drive. If the shared drive already exists a 409 error will be returned.
    pub request_id: String,
}

#[derive(Debug, Clone, Default)]
pub struct DrivesDeleteParams {
    /// The ID of the shared drive.
    pub drive_id: String,
}

#[derive(Debug, Clone, Default)]
pub struct DrivesGetParams {
    /// The ID of the shared drive.
    pub drive_id: String,
    /// Issue the request as a domain administrator; if set to true, then the requester will be granted access if they are an administrator of the domain to which the shared drive belongs.
    pub use_domain_admin_access: Option<bool>,
}

#[derive(Debug, Clone, Default)]
pub struct DrivesHideParams {
    /// The ID of the shared drive.
    pub drive_id: String,
}

#[derive(Debug, Clone, Default)]
pub struct DrivesListParams {
    /// Maximum number of shared drives to return.
    pub page_size: Option<i32>,
    /// Page token for shared drives.
    pub page_token: Option<String>,
    /// Query string for searching shared drives.
    pub q: Option<String>,
    /// Issue the request as a domain administrator; if set to true, then all shared drives of the domain in which the requester is an administrator are returned.
    pub use_domain_admin_access: Option<bool>,
}

#[derive(Debug, Clone, Default)]
pub struct DrivesUnhideParams {
    /// The ID of the shared drive.
    pub drive_id: String,
}

#[derive(Debug, Clone, Default)]
pub struct DrivesUpdateParams {
    /// The ID of the shared drive.
    pub drive_id: String,
    /// Issue the request as a domain administrator; if set to true, then the requester will be granted access if they are an administrator of the domain to which the shared drive belongs.
    pub use_domain_admin_access: Option<bool>,
}

#[derive(Debug, Clone, Default)]
pub struct FilesCopyParams {
    /// Set to true to opt in to API behavior that aims for all items to have exactly one parent. This parameter only takes effect if the item is not in a shared drive. Requests that specify more than one parent fail.
    pub enforce_single_parent: Option<bool>,
    /// The ID of the file.
    pub file_id: String,
    /// Whether to ignore the domain's default visibility settings for the created file. Domain administrators can choose to make all uploaded files visible to the domain by default; this parameter bypasses that behavior for the request. Permissions are still inherited from parent folders.
    pub ignore_default_visibility: Option<bool>,
    /// Specifies which additional view's permissions to include in the response. Only 'published' is supported.
    pub include_permissions_for_view: Option<String>,
    /// Whether to set the 'keepForever' field in the new head revision. This is only applicable to files with binary content in Google Drive. Only 200 revisions for the file can be kept forever. If the limit is reached, try deleting pinned revisions.
    pub keep_revision_forever: Option<bool>,
    /// A language hint for OCR processing during image import (ISO 639-1 code).
    pub ocr_language: Option<String>,
    /// Whether the requesting application supports both My Drives and shared drives.
    pub supports_all_drives: Option<bool>,
    /// Deprecated use supportsAllDrives instead.
    pub supports_team_drives: Option<bool>,
}

#[derive(Debug, Clone, Default)]
pub struct FilesCreateParams {
    /// Set to true to opt in to API behavior that aims for all items to have exactly one parent. This parameter only takes effect if the item is not in a shared drive. Requests that specify more than one parent fail.
    pub enforce_single_parent: Option<bool>,
    /// Whether to ignore the domain's default visibility settings for the created file. Domain administrators can choose to make all uploaded files visible to the domain by default; this parameter bypasses that behavior for the request. Permissions are still inherited from parent folders.
    pub ignore_default_visibility: Option<bool>,
    /// Specifies which additional view's permissions to include in the response. Only 'published' is supported.
    pub include_permissions_for_view: Option<String>,
    /// Whether to set the 'keepForever' field in the new head revision. This is only applicable to files with binary content in Google Drive. Only 200 revisions for the file can be kept forever. If the limit is reached, try deleting pinned revisions.
    pub keep_revision_forever: Option<bool>,
    /// A language hint for OCR processing during image import (ISO 639-1 code).
    pub ocr_language: Option<String>,
    /// Whether the requesting application supports both My Drives and shared drives.
    pub supports_all_drives: Option<bool>,
    /// Deprecated use supportsAllDrives instead.
    pub supports_team_drives: Option<bool>,
    /// Whether to use the uploaded content as indexable text.
    pub use_content_as_indexable_text: Option<bool>,
}

#[derive(Debug, Clone, Default)]
pub struct FilesDeleteParams {
    /// Set to true to opt in to API behavior that aims for all items to have exactly one parent. This parameter will only take effect if the item is not in a shared drive. If an item's last parent is deleted but the item itself is not, the item will be placed under its owner's root.
    pub enforce_single_parent: Option<bool>,
    /// The ID of the file.
    pub file_id: String,
    /// Whether the requesting application supports both My Drives and shared drives.
    pub supports_all_drives: Option<bool>,
    /// Deprecated use supportsAllDrives instead.
    pub supports_team_drives: Option<bool>,
}

#[derive(Debug, Clone, Default)]
pub struct FilesEmptyTrashParams {
    /// Set to true to opt in to API behavior that aims for all items to have exactly one parent. This parameter will only take effect if the item is not in a shared drive. If an item's last parent is deleted but the item itself is not, the item will be placed under its owner's root.
    pub enforce_single_parent: Option<bool>,
}

#[derive(Debug, Clone, Default)]
pub struct FilesExportParams {
    /// The ID of the file.
    pub file_id: String,
    /// The MIME type of the format requested for this export.
    pub mime_type: String,
}

#[derive(Debug, Clone, Default)]
pub struct FilesGenerateIdsParams {
    /// The number of IDs to return.
    pub count: Option<i32>,
    /// The space in which the IDs can be used to create new files. Supported values are 'drive' and 'appDataFolder'.
    pub space: Option<String>,
}

#[derive(Debug, Clone, Default)]
pub struct FilesGetParams {
    /// Whether the user is acknowledging the risk of downloading known malware or other abusive files. This is only applicable when alt=media.
    pub acknowledge_abuse: Option<bool>,
    /// The ID of the file.
    pub file_id: String,
    /// Specifies which additional view's permissions to include in the response. Only 'published' is supported.
    pub include_permissions_for_view: Option<String>,
    /// Whether the requesting application supports both My Drives and shared drives.
    pub supports_all_drives: Option<bool>,
    /// Deprecated use supportsAllDrives instead.
    pub supports_team_drives: Option<bool>,
}

#[derive(Debug, Clone, Default)]
pub struct FilesListParams {
    /// Groupings of files to which the query applies. Supported groupings are: 'user' (files created by, opened by, or shared directly with the user), 'drive' (files in the specified shared drive as indicated by the 'driveId'), 'domain' (files shared to the user's domain), and 'allDrives' (A combination of 'user' and 'drive' for all drives where the user is a member). When able, use 'user' or 'drive', instead of 'allDrives', for efficiency.
    pub corpora: Option<String>,
    /// The source of files to list. Deprecated: use 'corpora' instead.
    pub corpus: Option<String>,
    /// ID of the shared drive to search.
    pub drive_id: Option<String>,
    /// Whether both My Drive and shared drive items should be included in results.
    pub include_items_from_all_drives: Option<bool>,
    /// Specifies which additional view's permissions to include in the response. Only 'published' is supported.
    pub include_permissions_for_view: Option<String>,
    /// Deprecated use includeItemsFromAllDrives instead.
    pub include_team_drive_items: Option<bool>,
    /// A comma-separated list of sort keys. Valid keys are 'createdTime', 'folder', 'modifiedByMeTime', 'modifiedTime', 'name', 'name_natural', 'quotaBytesUsed', 'recency', 'sharedWithMeTime', 'starred', and 'viewedByMeTime'. Each key sorts ascending by default, but may be reversed with the 'desc' modifier. Example usage: ?orderBy=folder,modifiedTime desc,name. Please note that there is a current limitation for users with approximately one million files in which the requested sort order is ignored.
    pub order_by: Option<String>,
    /// The maximum number of files to return per page. Partial or empty result pages are possible even before the end of the files list has been reached.
    pub page_size: Option<i32>,
    /// The token for continuing a previous list request on the next page. This should be set to the value of 'nextPageToken' from the previous response.
    pub page_token: Option<String>,
    /// A query for filtering the file results. See the "Search for Files" guide for supported syntax.
    pub q: Option<String>,
    /// A comma-separated list of spaces to query within the corpus. Supported values are 'drive', 'appDataFolder' and 'photos'.
    pub spaces: Option<String>,
    /// Whether the requesting application supports both My Drives and shared drives.
    pub supports_all_drives: Option<bool>,
    /// Deprecated use supportsAllDrives instead.
    pub supports_team_drives: Option<bool>,
    /// Deprecated use driveId instead.
    pub team_drive_id: Option<String>,
}

#[derive(Debug, Clone, Default)]
pub struct FilesUpdateParams {
    /// A comma-separated list of parent IDs to add.
    pub add_parents: Option<String>,
    /// Set to true to opt in to API behavior that aims for all items to have exactly one parent. This parameter only takes effect if the item is not in a shared drive. If the item's owner makes a request to add a single parent, the item is removed from all current folders and placed in the requested folder. Other requests that increase the number of parents fail, except when the canAddMyDriveParent file capability is true and a single parent is being added.
    pub enforce_single_parent: Option<bool>,
    /// The ID of the file.
    pub file_id: String,
    /// Specifies which additional view's permissions to include in the response. Only 'published' is supported.
    pub include_permissions_for_view: Option<String>,
    /// Whether to set the 'keepForever' field in the new head revision. This is only applicable to files with binary content in Google Drive. Only 200 revisions for the file can be kept forever. If the limit is reached, try deleting pinned revisions.
    pub keep_revision_forever: Option<bool>,
    /// A language hint for OCR processing during image import (ISO 639-1 code).
    pub ocr_language: Option<String>,
    /// A comma-separated list of parent IDs to remove.
    pub remove_parents: Option<String>,
    /// Whether the requesting application supports both My Drives and shared drives.
    pub supports_all_drives: Option<bool>,
    /// Deprecated use supportsAllDrives instead.
    pub supports_team_drives: Option<bool>,
    /// Whether to use the uploaded content as indexable text.
    pub use_content_as_indexable_text: Option<bool>,
}

#[derive(Debug, Clone, Default)]
pub struct FilesWatchParams {
    /// Whether the user is acknowledging the risk of downloading known malware or other abusive files. This is only applicable when alt=media.
    pub acknowledge_abuse: Option<bool>,
    /// The ID of the file.
    pub file_id: String,
    /// Specifies which additional view's permissions to include in the response. Only 'published' is supported.
    pub include_permissions_for_view: Option<String>,
    /// Whether the requesting application supports both My Drives and shared drives.
    pub supports_all_drives: Option<bool>,
    /// Deprecated use supportsAllDrives instead.
    pub supports_team_drives: Option<bool>,
}

#[derive(Debug, Clone, Default)]
pub struct PermissionsCreateParams {
    /// A plain text custom message to include in the notification email.
    pub email_message: Option<String>,
    /// Set to true to opt in to API behavior that aims for all items to have exactly one parent. This parameter only takes effect if the item is not in a shared drive. See moveToNewOwnersRoot for details.
    pub enforce_single_parent: Option<bool>,
    /// The ID of the file or shared drive.
    pub file_id: String,
    /// This parameter only takes effect if the item is not in a shared drive and the request is attempting to transfer the ownership of the item. When set to true, the item is moved to the new owner's My Drive root folder and all prior parents removed. If set to false, when enforceSingleParent=true, parents are not changed. If set to false, when enforceSingleParent=false, existing parents are not changed; however, the file will be added to the new owner's My Drive root folder, unless it is already in the new owner's My Drive.
    pub move_to_new_owners_root: Option<bool>,
    /// Whether to send a notification email when sharing to users or groups. This defaults to true for users and groups, and is not allowed for other requests. It must not be disabled for ownership transfers.
    pub send_notification_email: Option<bool>,
    /// Whether the requesting application supports both My Drives and shared drives.
    pub supports_all_drives: Option<bool>,
    /// Deprecated use supportsAllDrives instead.
    pub supports_team_drives: Option<bool>,
    /// Whether to transfer ownership to the specified user and downgrade the current owner to a writer. This parameter is required as an acknowledgement of the side effect.
    pub transfer_ownership: Option<bool>,
    /// Issue the request as a domain administrator; if set to true, then the requester will be granted access if the file ID parameter refers to a shared drive and the requester is an administrator of the domain to which the shared drive belongs.
    pub use_domain_admin_access: Option<bool>,
}

#[derive(Debug, Clone, Default)]
pub struct PermissionsDeleteParams {
    /// The ID of the file or shared drive.
    pub file_id: String,
    /// The ID of the permission.
    pub permission_id: String,
    /// Whether the requesting application supports both My Drives and shared drives.
    pub supports_all_drives: Option<bool>,
    /// Deprecated use supportsAllDrives instead.
    pub supports_team_drives: Option<bool>,
    /// Issue the request as a domain administrator; if set to true, then the requester will be granted access if the file ID parameter refers to a shared drive and the requester is an administrator of the domain to which the shared drive belongs.
    pub use_domain_admin_access: Option<bool>,
}

#[derive(Debug, Clone, Default)]
pub struct PermissionsGetParams {
    /// The ID of the file.
    pub file_id: String,
    /// The ID of the permission.
    pub permission_id: String,
    /// Whether the requesting application supports both My Drives and shared drives.
    pub supports_all_drives: Option<bool>,
    /// Deprecated use supportsAllDrives instead.
    pub supports_team_drives: Option<bool>,
    /// Issue the request as a domain administrator; if set to true, then the requester will be granted access if the file ID parameter refers to a shared drive and the requester is an administrator of the domain to which the shared drive belongs.
    pub use_domain_admin_access: Option<bool>,
}

#[derive(Debug, Clone, Default)]
pub struct PermissionsListParams {
    /// The ID of the file or shared drive.
    pub file_id: String,
    /// Specifies which additional view's permissions to include in the response. Only 'published' is supported.
    pub include_permissions_for_view: Option<String>,
    /// The maximum number of permissions to return per page. When not set for files in a shared drive, at most 100 results will be returned. When not set for files that are not in a shared drive, the entire list will be returned.
    pub page_size: Option<i32>,
    /// The token for continuing a previous list request on the next page. This should be set to the value of 'nextPageToken' from the previous response.
    pub page_token: Option<String>,
    /// Whether the requesting application supports both My Drives and shared drives.
    pub supports_all_drives: Option<bool>,
    /// Deprecated use supportsAllDrives instead.
    pub supports_team_drives: Option<bool>,
    /// Issue the request as a domain administrator; if set to true, then the requester will be granted access if the file ID parameter refers to a shared drive and the requester is an administrator of the domain to which the shared drive belongs.
    pub use_domain_admin_access: Option<bool>,
}

#[derive(Debug, Clone, Default)]
pub struct PermissionsUpdateParams {
    /// The ID of the file or shared drive.
    pub file_id: String,
    /// The ID of the permission.
    pub permission_id: String,
    /// Whether to remove the expiration date.
    pub remove_expiration: Option<bool>,
    /// Whether the requesting application supports both My Drives and shared drives.
    pub supports_all_drives: Option<bool>,
    /// Deprecated use supportsAllDrives instead.
    pub supports_team_drives: Option<bool>,
    /// Whether to transfer ownership to the specified user and downgrade the current owner to a writer. This parameter is required as an acknowledgement of the side effect.
    pub transfer_ownership: Option<bool>,
    /// Issue the request as a domain administrator; if set to true, then the requester will be granted access if the file ID parameter refers to a shared drive and the requester is an administrator of the domain to which the shared drive belongs.
    pub use_domain_admin_access: Option<bool>,
}

#[derive(Debug, Clone, Default)]
pub struct RepliesCreateParams {
    /// The ID of the comment.
    pub comment_id: String,
    /// The ID of the file.
    pub file_id: String,
}

#[derive(Debug, Clone, Default)]
pub struct RepliesDeleteParams {
    /// The ID of the comment.
    pub comment_id: String,
    /// The ID of the file.
    pub file_id: String,
    /// The ID of the reply.
    pub reply_id: String,
}

#[derive(Debug, Clone, Default)]
pub struct RepliesGetParams {
    /// The ID of the comment.
    pub comment_id: String,
    /// The ID of the file.
    pub file_id: String,
    /// Whether to return deleted replies. Deleted replies will not include their original content.
    pub include_deleted: Option<bool>,
    /// The ID of the reply.
    pub reply_id: String,
}

#[derive(Debug, Clone, Default)]
pub struct RepliesListParams {
    /// The ID of the comment.
    pub comment_id: String,
    /// The ID of the file.
    pub file_id: String,
    /// Whether to include deleted replies. Deleted replies will not include their original content.
    pub include_deleted: Option<bool>,
    /// The maximum number of replies to return per page.
    pub page_size: Option<i32>,
    /// The token for continuing a previous list request on the next page. This should be set to the value of 'nextPageToken' from the previous response.
    pub page_token: Option<String>,
}

#[derive(Debug, Clone, Default)]
pub struct RepliesUpdateParams {
    /// The ID of the comment.
    pub comment_id: String,
    /// The ID of the file.
    pub file_id: String,
    /// The ID of the reply.
    pub reply_id: String,
}

#[derive(Debug, Clone, Default)]
pub struct RevisionsDeleteParams {
    /// The ID of the file.
    pub file_id: String,
    /// The ID of the revision.
    pub revision_id: String,
}

#[derive(Debug, Clone, Default)]
pub struct RevisionsGetParams {
    /// Whether the user is acknowledging the risk of downloading known malware or other abusive files. This is only applicable when alt=media.
    pub acknowledge_abuse: Option<bool>,
    /// The ID of the file.
    pub file_id: String,
    /// The ID of the revision.
    pub revision_id: String,
}

#[derive(Debug, Clone, Default)]
pub struct RevisionsListParams {
    /// The ID of the file.
    pub file_id: String,
    /// The maximum number of revisions to return per page.
    pub page_size: Option<i32>,
    /// The token for continuing a previous list request on the next page. This should be set to the value of 'nextPageToken' from the previous response.
    pub page_token: Option<String>,
}

#[derive(Debug, Clone, Default)]
pub struct RevisionsUpdateParams {
    /// The ID of the file.
    pub file_id: String,
    /// The ID of the revision.
    pub revision_id: String,
}

#[derive(Debug, Clone, Default)]
pub struct TeamdrivesCreateParams {
    /// An ID, such as a random UUID, which uniquely identifies this user's request for idempotent creation of a Team Drive. A repeated request by the same user and with the same request ID will avoid creating duplicates by attempting to create the same Team Drive. If the Team Drive already exists a 409 error will be returned.
    pub request_id: String,
}

#[derive(Debug, Clone, Default)]
pub struct TeamdrivesDeleteParams {
    /// The ID of the Team Drive
    pub team_drive_id: String,
}

#[derive(Debug, Clone, Default)]
pub struct TeamdrivesGetParams {
    /// The ID of the Team Drive
    pub team_drive_id: String,
    /// Issue the request as a domain administrator; if set to true, then the requester will be granted access if they are an administrator of the domain to which the Team Drive belongs.
    pub use_domain_admin_access: Option<bool>,
}

#[derive(Debug, Clone, Default)]
pub struct TeamdrivesListParams {
    /// Maximum number of Team Drives to return.
    pub page_size: Option<i32>,
    /// Page token for Team Drives.
    pub page_token: Option<String>,
    /// Query string for searching Team Drives.
    pub q: Option<String>,
    /// Issue the request as a domain administrator; if set to true, then all Team Drives of the domain in which the requester is an administrator are returned.
    pub use_domain_admin_access: Option<bool>,
}

#[derive(Debug, Clone, Default)]
pub struct TeamdrivesUpdateParams {
    /// The ID of the Team Drive
    pub team_drive_id: String,
    /// Issue the request as a domain administrator; if set to true, then the requester will be granted access if they are an administrator of the domain to which the Team Drive belongs.
    pub use_domain_admin_access: Option<bool>,
}

} // verus!
