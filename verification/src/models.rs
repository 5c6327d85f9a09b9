//! Values exchanged with the backend.

use std::collections::HashMap;
use vstd::prelude::*;

verus! {

/// The envelope of every backend reply.
#[derive(Clone, Debug)]
pub struct ApiResponse<T> {
    pub success: bool,
    pub data: Option<T>,
    pub error: Option<ApiError>,
}

/// The error of a reply that reports failure.
#[derive(Clone, Debug)]
pub struct ApiError {
    pub code: String,
    pub message: String,
}

/// What an upload of a document gives: the document and a session on it.
#[derive(Clone, Debug)]
pub struct UploadDocumentResponse {
    pub session_id: String,
    pub document: DocumentInfo,
}

/// A document without its content.
#[derive(Clone, Debug)]
pub struct DocumentInfo {
    pub id: String,
    pub title: String,
    pub char_count: i32,
    pub token_estimate: i32,
}

/// A document with its content.
#[derive(Clone, Debug)]
pub struct DocumentContentInfo {
    pub id: String,
    pub title: String,
    pub content: String,
}

/// A comment on a heading of a document.
#[derive(Clone, Debug)]
pub struct PrdCommentInfo {
    pub id: String,
    pub document_id: String,
    pub heading_id: String,
    pub heading_title_snapshot: String,
    pub author_user_id: String,
    pub author_display_name: String,
    pub content: String,
    pub created_at: String,
    pub updated_at: Option<String>,
}

/// A session on a document.
#[derive(Clone, Debug)]
pub struct SessionInfo {
    pub session_id: String,
    pub group_id: Option<String>,
    pub document_id: String,
    pub current_role: String,
    pub mode: String,
    pub guide_step: Option<i32>,
}

/// What a login or a token refresh grants. The backend rotates the access
/// token, the refresh token and the session key together.
#[derive(Clone, Debug)]
pub struct LoginResponse {
    pub access_token: String,
    pub refresh_token: String,
    pub session_key: String,
    pub client_type: String,
    pub expires_in: i32,
    pub user: UserInfo,
}

/// The signed-in user.
#[derive(Clone, Debug)]
pub struct UserInfo {
    pub user_id: String,
    pub username: String,
    pub display_name: String,
    pub role: String,
}

/// What a registration gives.
#[derive(Clone, Debug)]
pub struct RegisterResponse {
    pub user_id: String,
    pub username: String,
    pub role: String,
}

/// A group and the document it works on.
#[derive(Clone, Debug)]
pub struct GroupInfo {
    pub group_id: String,
    pub group_name: String,
    pub prd_document_id: Option<String>,
    pub prd_title: Option<String>,
    pub invite_link: Option<String>,
    pub invite_code: String,
    pub created_at: Option<String>,
    pub member_count: i32,
}

/// A member of a group.
#[derive(Clone, Debug)]
pub struct GroupMemberInfo {
    pub user_id: String,
    pub username: String,
    pub display_name: String,
    pub member_role: String,
    pub joined_at: String,
    pub is_owner: bool,
}

/// What joining a group gives.
#[derive(Clone, Debug)]
pub struct JoinGroupResponse {
    pub group_id: String,
    pub group_name: String,
    pub prd_title: Option<String>,
    pub member_count: i32,
}

/// A name that the backend suggests for a group.
#[derive(Clone, Debug)]
pub struct SuggestGroupNameResponse {
    pub name: String,
}

/// The session that opens on a group.
#[derive(Clone, Debug)]
pub struct OpenGroupSessionResponse {
    pub session_id: String,
    pub group_id: String,
    pub document_id: String,
    pub current_role: String,
}

/// The role of a session after a switch.
#[derive(Clone, Debug)]
pub struct SwitchRoleResponse {
    pub session_id: String,
    pub current_role: String,
}

/// Where a guide stands.
#[derive(Clone, Debug)]
pub struct GuideControlResponse {
    pub current_step: i32,
    pub total_steps: i32,
    pub status: String,
}

/// The tokens that a message took.
#[derive(Clone, Copy, Debug)]
pub struct TokenUsage {
    pub input: i32,
    pub output: i32,
}

/// A message of a session as the history tells it.
#[derive(Clone, Debug)]
pub struct MessageHistoryItem {
    pub id: String,
    pub role: String,
    pub content: String,
    pub view_role: Option<String>,
    pub timestamp: String,
    pub token_usage: Option<TokenUsage>,
}

/// A stage of the prompts, with its title for each role.
#[derive(Clone, Debug)]
pub struct PromptStageClientItem {
    pub stage_key: String,
    pub order: i32,
    pub step: i32,
    pub pm_title: String,
    pub dev_title: String,
    pub qa_title: String,
}

/// The stages of the prompts.
#[derive(Clone, Debug)]
pub struct PromptStagesClientResponse {
    pub updated_at: String,
    pub stages: Vec<PromptStageClientItem>,
}

/// An attachment as the backend has stored it.
#[derive(Clone, Debug)]
pub struct UploadAttachmentResponse {
    pub attachment_id: String,
    pub url: String,
    pub file_name: String,
    pub mime_type: String,
    pub size: i64,
}

/// A file that is uploaded to a group's knowledge base.
#[derive(Clone, Debug)]
pub struct KbFileInput {
    pub file_name: String,
    pub content: Vec<u8>,
    pub mime_type: String,
}

/// The name, texts and images that the client shows as its own.
#[derive(Clone, Debug)]
pub struct DesktopBranding {
    pub desktop_name: String,
    pub desktop_subtitle: String,
    pub window_title: String,
    pub login_icon_key: String,
    pub login_background_key: String,
    pub login_icon_url: Option<String>,
    pub login_background_url: Option<String>,
    /// The URL of each asset, by its key.
    pub assets: HashMap<String, String>,
    pub updated_at: Option<String>,
}

} // verus!
