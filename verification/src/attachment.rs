//! The rules of an attachment upload: what may be uploaded, as which type,
//! and with which headers.

use crate::api_client::{bearer, header_views, ApiSettings, Header, HeaderView, QUOTED_BODY_LIMIT};
use crate::auth::AuthStore;
use crate::text::{
    blank, is_blank, lowercase, push_truncated, same_text, to_lowercase, truncated,
};
use vstd::prelude::*;
use vstd::string::*;

verus! {

/// The most bytes that an attachment may have: 5 MiB.
pub const MAX_ATTACHMENT_BYTES: usize = 5242880;

/// The media type for a file extension in lower case.
pub open spec fn mime_named(extension: Option<Seq<char>>) -> Seq<char> {
    match extension {
        Some(e) => if e == "png"@ {
            "image/png"@
        } else if e == "jpg"@ || e == "jpeg"@ {
            "image/jpeg"@
        } else if e == "gif"@ {
            "image/gif"@
        } else if e == "webp"@ {
            "image/webp"@
        } else if e == "svg"@ {
            "image/svg+xml"@
        } else {
            "application/octet-stream"@
        },
        None => "application/octet-stream"@,
    }
}

/// The media type for the file extension `extension`, which is in lower
/// case.
pub fn mime_for(extension: Option<&str>) -> (mime: &'static str)
    ensures
        mime@ == mime_named(
            match extension {
                Some(e) => Some(e@),
                None => None,
            },
        ),
{
    match extension {
        Some(e) => {
            if same_text(e, "png") {
                "image/png"
            } else if same_text(e, "jpg") || same_text(e, "jpeg") {
                "image/jpeg"
            } else if same_text(e, "gif") {
                "image/gif"
            } else if same_text(e, "webp") {
                "image/webp"
            } else if same_text(e, "svg") {
                "image/svg+xml"
            } else {
                "application/octet-stream"
            }
        },
        None => "application/octet-stream",
    }
}

/// The media type of a file by its extension, in whatever case that is
/// written.
pub fn mime_of(extension: Option<&str>) -> (mime: &'static str)
    ensures
        mime@ == mime_named(
            match extension {
                Some(e) => Some(lowercase(e@)),
                None => None,
            },
        ),
{
    match extension {
        Some(e) => {
            let lower = to_lowercase(e);
            mime_for(Some(lower.as_str()))
        },
        None => mime_for(None),
    }
}

/// Accepts an attachment of `len` bytes unless it is over the limit.
pub fn check_size(len: usize) -> (checked: Result<(), String>)
    ensures
        checked is Ok <==> len <= MAX_ATTACHMENT_BYTES,
        checked is Err ==> checked->Err_0@ == "文件大小不能超过 5MB"@,
{
    if len > MAX_ATTACHMENT_BYTES {
        Err(String::from_str("文件大小不能超过 5MB"))
    } else {
        Ok(())
    }
}

/// The headers of an upload: the client, this installation if it has an
/// identifier, and the access token if there is one.
pub open spec fn upload_headers_for(
    client_id: Option<Seq<char>>,
    token: Option<Seq<char>>,
) -> Seq<HeaderView> {
    let client = seq![HeaderView { name: "X-Client"@, value: "desktop"@ }];
    let with_id = match client_id {
        Some(id) => if is_blank(id) {
            client
        } else {
            client.push(HeaderView { name: "X-Client-Id"@, value: id })
        },
        None => client,
    };
    match token {
        Some(t) => with_id.push(HeaderView { name: "Authorization"@, value: "Bearer "@ + t }),
        None => with_id,
    }
}

/// The headers of an upload.
pub fn upload_headers(settings: &ApiSettings, store: &AuthStore) -> (headers: Vec<Header>)
    ensures
        header_views(headers@) == upload_headers_for(
            settings@.client_id,
            store@.session.access_token,
        ),
{
    let mut headers: Vec<Header> = Vec::new();
    headers.push(Header { name: String::from_str("X-Client"), value: String::from_str("desktop") });
    match settings.client_id() {
        Some(id) => {
            if !blank(id.as_str()) {
                headers.push(Header { name: String::from_str("X-Client-Id"), value: id });
            }
        },
        None => {},
    }
    match store.current_access_token() {
        Some(token) => {
            headers.push(
                Header {
                    name: String::from_str("Authorization"),
                    value: bearer(token.as_str()),
                },
            );
        },
        None => {},
    }
    headers
}

/// The message for an upload that was answered without a body.
pub fn empty_response_error(status: &str) -> (message: String)
    ensures
        message@ == "服务器响应为空，状态码: "@ + status@,
{
    let mut message = String::from_str("服务器响应为空，状态码: ");
    message.append(status);
    message
}

/// The message for an upload whose answer is no reply envelope.
pub fn parse_failure_error(complaint: &str, status: &str, body: &str) -> (message: String)
    ensures
        message@ == "解析响应失败: "@ + complaint@ + "。状态: "@ + status@ + "。响应: "@
            + truncated(body@, QUOTED_BODY_LIMIT as nat),
{
    let mut message = String::from_str("解析响应失败: ");
    message.append(complaint);
    message.append("。状态: ");
    message.append(status);
    message.append("。响应: ");
    push_truncated(&mut message, body, QUOTED_BODY_LIMIT);
    message
}

} // verus!
