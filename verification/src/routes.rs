//! The paths of the backend's API that take parameters.

use crate::text::{
    blank, decimal, is_blank, push_decimal, push_signed_decimal, signed_decimal, trim, trimmed,
};
use vstd::prelude::*;
use vstd::string::*;

verus! {

/// How many messages a history request asks for where the caller names no
/// limit.
pub const DEFAULT_HISTORY_LIMIT: i32 = 50;

/// The most messages that a history request asks for.
pub const MAX_HISTORY_LIMIT: i32 = 200;

fn concat2(a: &str, b: &str) -> (text: String)
    ensures
        text@ == a@ + b@,
{
    let mut text = String::from_str(a);
    text.append(b);
    text
}

fn concat3(a: &str, b: &str, c: &str) -> (text: String)
    ensures
        text@ == a@ + b@ + c@,
{
    let mut text = concat2(a, b);
    text.append(c);
    text
}

fn concat4(a: &str, b: &str, c: &str, d: &str) -> (text: String)
    ensures
        text@ == a@ + b@ + c@ + d@,
{
    let mut text = concat3(a, b, c);
    text.append(d);
    text
}

fn concat5(a: &str, b: &str, c: &str, d: &str, e: &str) -> (text: String)
    ensures
        text@ == a@ + b@ + c@ + d@ + e@,
{
    let mut text = concat4(a, b, c, d);
    text.append(e);
    text
}

/// The limit of a history request: the caller's, or the default, brought
/// into the range from 1 to the maximum.
pub open spec fn history_limit(limit: Option<i32>) -> int {
    let asked: int = match limit {
        Some(l) => l as int,
        None => DEFAULT_HISTORY_LIMIT as int,
    };
    if asked < 1 {
        1
    } else if asked > MAX_HISTORY_LIMIT {
        MAX_HISTORY_LIMIT as int
    } else {
        asked
    }
}

/// The query of a history request: the limit, and the instant before which
/// messages are wanted, if the caller names one.
pub open spec fn history_query(limit: Option<i32>, before: Option<&str>) -> Seq<char> {
    let head = "?limit="@ + decimal(history_limit(limit) as nat);
    match before {
        Some(b) => if is_blank(b@) {
            head
        } else {
            head + "&before="@ + trimmed(b@)
        },
        None => head,
    }
}

fn push_history_query(path: &mut String, limit: Option<i32>, before: Option<&str>)
    ensures
        final(path)@ == old(path)@ + history_query(limit, before),
{
    let asked: i32 = match limit {
        Some(l) => l,
        None => DEFAULT_HISTORY_LIMIT,
    };
    let limit_used: i32 = if asked < 1 {
        1
    } else if asked > MAX_HISTORY_LIMIT {
        MAX_HISTORY_LIMIT
    } else {
        asked
    };
    path.append("?limit=");
    push_decimal(path, limit_used as u64);
    match before {
        Some(b) => {
            if !blank(b) {
                path.append("&before=");
                path.append(trim(b).as_str());
            }
        },
        None => {},
    }
}

/// `/sessions/{session_id}`
pub fn session_path(session_id: &str) -> (path: String)
    ensures
        path@ == "/sessions/"@ + session_id@,
{
    concat2("/sessions/", session_id)
}

/// `/sessions/{session_id}/role`
pub fn session_role_path(session_id: &str) -> (path: String)
    ensures
        path@ == "/sessions/"@ + session_id@ + "/role"@,
{
    concat3("/sessions/", session_id, "/role")
}

/// `/sessions/{session_id}/guide/control`
pub fn guide_control_path(session_id: &str) -> (path: String)
    ensures
        path@ == "/sessions/"@ + session_id@ + "/guide/control"@,
{
    concat3("/sessions/", session_id, "/guide/control")
}

/// The path of a session's message history.
pub fn message_history_path(
    session_id: &str,
    limit: Option<i32>,
    before: Option<&str>,
) -> (path: String)
    ensures
        path@ == "/sessions/"@ + session_id@ + "/messages"@ + history_query(limit, before),
{
    let mut path = concat3("/sessions/", session_id, "/messages");
    push_history_query(&mut path, limit, before);
    path
}

/// The path of a group's message history.
pub fn group_message_history_path(
    group_id: &str,
    limit: Option<i32>,
    before: Option<&str>,
) -> (path: String)
    ensures
        path@ == "/groups/"@ + group_id@ + "/messages"@ + history_query(limit, before),
{
    let mut path = concat3("/groups/", group_id, "/messages");
    push_history_query(&mut path, limit, before);
    path
}

/// The URL that a message stream is requested from.
pub fn message_stream_url(base_url: &str, session_id: &str) -> (url: String)
    ensures
        url@ == base_url@ + "/api/v1/sessions/"@ + session_id@ + "/messages"@,
{
    concat4(base_url, "/api/v1/sessions/", session_id, "/messages")
}

/// The URL that a preview-ask stream is requested from.
pub fn preview_ask_url(base_url: &str, session_id: &str) -> (url: String)
    ensures
        url@ == base_url@ + "/api/v1/sessions/"@ + session_id@ + "/preview-ask"@,
{
    concat4(base_url, "/api/v1/sessions/", session_id, "/preview-ask")
}

/// The URL that a guide stream is requested from.
pub fn guide_start_url(base_url: &str, session_id: &str) -> (url: String)
    ensures
        url@ == base_url@ + "/api/v1/sessions/"@ + session_id@ + "/guide/start"@,
{
    concat4(base_url, "/api/v1/sessions/", session_id, "/guide/start")
}

/// The URL that attachments are uploaded to.
pub fn attachments_url(base_url: &str) -> (url: String)
    ensures
        url@ == base_url@ + "/api/v1/attachments"@,
{
    concat2(base_url, "/api/v1/attachments")
}

/// `/documents/{document_id}`
pub fn document_path(document_id: &str) -> (path: String)
    ensures
        path@ == "/documents/"@ + document_id@,
{
    concat2("/documents/", document_id)
}

/// `/documents/{document_id}/content?groupId={group_id}`
pub fn document_content_path(document_id: &str, group_id: &str) -> (path: String)
    ensures
        path@ == "/documents/"@ + document_id@ + "/content?groupId="@ + group_id@,
{
    concat4("/documents/", document_id, "/content?groupId=", group_id)
}

/// `/groups/{group_id}`
pub fn group_path(group_id: &str) -> (path: String)
    ensures
        path@ == "/groups/"@ + group_id@,
{
    concat2("/groups/", group_id)
}

/// `/groups/{group_id}/session`
pub fn group_session_path(group_id: &str) -> (path: String)
    ensures
        path@ == "/groups/"@ + group_id@ + "/session"@,
{
    concat3("/groups/", group_id, "/session")
}

/// `/groups/{group_id}/prd`
pub fn group_prd_path(group_id: &str) -> (path: String)
    ensures
        path@ == "/groups/"@ + group_id@ + "/prd"@,
{
    concat3("/groups/", group_id, "/prd")
}

/// `/groups/{group_id}/kb/documents`
pub fn kb_documents_path(group_id: &str) -> (path: String)
    ensures
        path@ == "/groups/"@ + group_id@ + "/kb/documents"@,
{
    concat3("/groups/", group_id, "/kb/documents")
}

/// `/groups/{group_id}/kb/documents/{document_id}`
pub fn kb_document_path(group_id: &str, document_id: &str) -> (path: String)
    ensures
        path@ == "/groups/"@ + group_id@ + "/kb/documents/"@ + document_id@,
{
    concat4("/groups/", group_id, "/kb/documents/", document_id)
}

/// `/groups/{group_id}/kb/documents/{document_id}/content`
pub fn kb_document_content_path(group_id: &str, document_id: &str) -> (path: String)
    ensures
        path@ == "/groups/"@ + group_id@ + "/kb/documents/"@ + document_id@ + "/content"@,
{
    concat5("/groups/", group_id, "/kb/documents/", document_id, "/content")
}

/// `/api/defect-agent/defects/{id}`
pub fn defect_path(id: &str) -> (path: String)
    ensures
        path@ == "/api/defect-agent/defects/"@ + id@,
{
    concat2("/api/defect-agent/defects/", id)
}

/// `/api/defect-agent/defects/{id}/{step}`, for the steps of a defect's
/// life: `submit`, `process`, `resolve`, `reject`, `messages`, `attachments`.
pub fn defect_step_path(id: &str, step: &str) -> (path: String)
    ensures
        path@ == "/api/defect-agent/defects/"@ + id@ + "/"@ + step@,
{
    concat4("/api/defect-agent/defects/", id, "/", step)
}

/// The path of a defect's messages: all of them, or those after the
/// sequence number `after_seq`.
pub fn defect_messages_path(id: &str, after_seq: Option<i64>) -> (path: String)
    ensures
        path@ == "/api/defect-agent/defects/"@ + id@ + "/messages"@ + match after_seq {
            Some(seq) => "?afterSeq="@ + signed_decimal(seq as int),
            None => Seq::<char>::empty(),
        },
{
    let mut path = concat3("/api/defect-agent/defects/", id, "/messages");
    match after_seq {
        Some(seq) => {
            path.append("?afterSeq=");
            push_signed_decimal(&mut path, seq);
        },
        None => {},
    }
    path
}

/// The path of one API key of the open platform; white space around the
/// identifier is dropped.
pub fn open_platform_key_path(key_id: &str) -> (path: String)
    ensures
        path@ == "/open-platform/keys/"@ + trimmed(key_id@),
{
    concat2("/open-platform/keys/", trim(key_id).as_str())
}

/// The query of a request for the comments on a document: the document, the
/// group, the heading if one is named, and the limit if one is named.
pub open spec fn comments_query(
    document_id: &str,
    group_id: &str,
    heading_id: Option<&str>,
    limit: Option<i32>,
) -> Seq<char> {
    let base = "?documentId="@ + document_id@ + "&groupId="@ + group_id@;
    let with_heading = match heading_id {
        Some(h) => if is_blank(h@) {
            base
        } else {
            base + "&headingId="@ + h@
        },
        None => base,
    };
    match limit {
        Some(l) => with_heading + "&limit="@ + signed_decimal(l as int),
        None => with_heading,
    }
}

/// The path of the comments on a document.
pub fn prd_comments_path(
    document_id: &str,
    group_id: &str,
    heading_id: Option<&str>,
    limit: Option<i32>,
) -> (path: String)
    ensures
        path@ == "/prd-comments"@ + comments_query(document_id, group_id, heading_id, limit),
{
    let mut path = concat5("/prd-comments", "?documentId=", document_id, "&groupId=", group_id);
    match heading_id {
        Some(h) => {
            if !blank(h) {
                path.append("&headingId=");
                path.append(h);
            }
        },
        None => {},
    }
    match limit {
        Some(l) => {
            path.append("&limit=");
            push_signed_decimal(&mut path, l as i64);
        },
        None => {},
    }
    path
}

/// `/prd-comments/{comment_id}?groupId={group_id}`
pub fn prd_comment_path(comment_id: &str, group_id: &str) -> (path: String)
    ensures
        path@ == "/prd-comments/"@ + comment_id@ + "?groupId="@ + group_id@,
{
    concat4("/prd-comments/", comment_id, "?groupId=", group_id)
}

/// The path of the skill list: all skills, or those of a role if one is
/// named.
pub fn skills_path(role: Option<&str>) -> (path: String)
    ensures
        path@ == match role {
            Some(r) => if is_blank(r@) {
                "/api/prd-agent/skills"@
            } else {
                "/api/prd-agent/skills?role="@ + trimmed(r@)
            },
            None => "/api/prd-agent/skills"@,
        },
{
    match role {
        Some(r) => {
            if blank(r) {
                String::from_str("/api/prd-agent/skills")
            } else {
                concat2("/api/prd-agent/skills?role=", trim(r).as_str())
            }
        },
        None => String::from_str("/api/prd-agent/skills"),
    }
}

/// `/api/prd-agent/skills/{skill_key}`
pub fn skill_path(skill_key: &str) -> (path: String)
    ensures
        path@ == "/api/prd-agent/skills/"@ + skill_key@,
{
    concat2("/api/prd-agent/skills/", skill_key)
}

/// `/api/prd-agent/skills/{skill_key}/execute`
pub fn skill_execute_path(skill_key: &str) -> (path: String)
    ensures
        path@ == "/api/prd-agent/skills/"@ + skill_key@ + "/execute"@,
{
    concat3("/api/prd-agent/skills/", skill_key, "/execute")
}

} // verus!
