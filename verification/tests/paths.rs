use prd_relay::api_client::{
    bearer, empty_post_response_error, empty_response_error, get_api_base_url,
    get_default_api_url, is_localhost_url, names_this_machine, parse_failure_error,
    post_parse_failure_error, read_failed_error, request_failed_error, set_api_base_url,
    ApiSettings,
};
use prd_relay::branding::{branding_of, branding_path, skin_path};
use prd_relay::deep_link::{find_deep_link, is_deep_link};
use prd_relay::models::{ApiResponse, DesktopBranding};
use prd_relay::open_platform::{key_group_ids, key_name};
use prd_relay::routes::{
    attachments_url, defect_messages_path, defect_path, defect_step_path, document_content_path,
    document_path, group_message_history_path, group_path, group_prd_path, group_session_path,
    guide_control_path, guide_start_url, kb_document_content_path, kb_document_path,
    kb_documents_path, message_history_path, message_stream_url, open_platform_key_path,
    prd_comment_path, prd_comments_path, preview_ask_url, session_path, session_role_path,
    skill_execute_path, skill_path, skills_path,
};
use std::collections::HashMap;

#[test]
fn default_url_and_settings() {
    assert_eq!(get_default_api_url(), "http://localhost:5000");
    let mut settings = ApiSettings::new(None);
    assert_eq!(get_api_base_url(&settings), "http://localhost:5000");
    assert_eq!(settings.client_id(), None);
    set_api_base_url(&mut settings, "https://api.example.com".to_string());
    assert_eq!(get_api_base_url(&settings), "https://api.example.com");
    settings.set_client_id("c-1".to_string());
    assert_eq!(settings.client_id(), Some("c-1".to_string()));
    assert_eq!(get_api_base_url(&settings), "https://api.example.com");
    let from_env = ApiSettings::new(Some("http://10.0.0.1:8080".to_string()));
    assert_eq!(get_api_base_url(&from_env), "http://10.0.0.1:8080");
}

#[test]
fn api_url_joins_base_prefix_and_path() {
    let settings = ApiSettings::new(Some("http://h:1".to_string()));
    assert_eq!(settings.api_url("/sessions/s1"), "http://h:1/api/v1/sessions/s1");
    assert_eq!(settings.api_url(""), "http://h:1/api/v1");
}

#[test]
fn localhost_urls() {
    assert!(is_localhost_url("http://localhost:5000"));
    assert!(is_localhost_url("https://127.0.0.1/health"));
    assert!(is_localhost_url("http://LOCALHOST"));
    assert!(!is_localhost_url("http://example.com"));
    assert!(!is_localhost_url("http://127.0.0.2"));
    assert!(!is_localhost_url("localhost:5000"));
    assert!(!is_localhost_url("not a url"));
    assert!(!is_localhost_url(""));
    assert!(!is_localhost_url("http://[::1]:5000"));
    assert!(!is_localhost_url("data:text/plain,localhost"));
}

#[test]
fn host_names_of_this_machine() {
    assert!(names_this_machine(&Some("localhost".to_string())));
    assert!(names_this_machine(&Some("127.0.0.1".to_string())));
    assert!(names_this_machine(&Some("::1".to_string())));
    assert!(!names_this_machine(&Some("[::1]".to_string())));
    assert!(!names_this_machine(&Some("localhost.".to_string())));
    assert!(!names_this_machine(&None));
}

#[test]
fn messages_of_the_client() {
    assert_eq!(bearer("tok"), "Bearer tok");
    assert_eq!(
        empty_response_error("204 No Content", "http://h/api/v1/x"),
        "Empty response from server. Status: 204 No Content, URL: http://h/api/v1/x"
    );
    assert_eq!(
        empty_post_response_error("200 OK", "{}"),
        "Empty response from server. Status: 200 OK, Headers: {}"
    );
    assert_eq!(
        parse_failure_error("expected value", "200 OK", "<html>"),
        "Failed to parse response: expected value. Status: 200 OK. Response body: <html>"
    );
    let long = "a".repeat(501);
    assert_eq!(
        parse_failure_error("e", "s", &long),
        format!("Failed to parse response: e. Status: s. Response body: {}", "a".repeat(500))
    );
    assert_eq!(
        post_parse_failure_error("e", &long),
        format!("Failed to parse response: e. Response: {}", "a".repeat(500))
    );
    assert_eq!(request_failed_error("timeout"), "Request failed: timeout");
    assert_eq!(read_failed_error("reset"), "Failed to read response: reset");
}

#[test]
fn deep_links() {
    assert!(is_deep_link("prdagent://open?x=1"));
    assert!(is_deep_link("prdagent://"));
    assert!(!is_deep_link("prdagent:/"));
    assert!(!is_deep_link("PRDAGENT://x"));
    assert!(!is_deep_link(" prdagent://x"));
    assert!(!is_deep_link(""));
    let args = vec![
        "/usr/bin/app".to_string(),
        "--flag".to_string(),
        "prdagent://first".to_string(),
        "prdagent://second".to_string(),
    ];
    assert_eq!(find_deep_link(&args), Some("prdagent://first".to_string()));
    assert_eq!(find_deep_link(&vec!["app".to_string()]), None);
    assert_eq!(find_deep_link(&vec![]), None);
}

#[test]
fn session_paths() {
    assert_eq!(session_path("s1"), "/sessions/s1");
    assert_eq!(session_role_path("s1"), "/sessions/s1/role");
    assert_eq!(guide_control_path("s1"), "/sessions/s1/guide/control");
    assert_eq!(message_stream_url("http://h", "s1"), "http://h/api/v1/sessions/s1/messages");
    assert_eq!(preview_ask_url("http://h", "s1"), "http://h/api/v1/sessions/s1/preview-ask");
    assert_eq!(guide_start_url("http://h", "s1"), "http://h/api/v1/sessions/s1/guide/start");
    assert_eq!(attachments_url("http://h"), "http://h/api/v1/attachments");
}

#[test]
fn history_paths() {
    assert_eq!(message_history_path("s1", None, None), "/sessions/s1/messages?limit=50");
    assert_eq!(message_history_path("s1", Some(20), None), "/sessions/s1/messages?limit=20");
    assert_eq!(message_history_path("s1", Some(0), None), "/sessions/s1/messages?limit=1");
    assert_eq!(message_history_path("s1", Some(-5), None), "/sessions/s1/messages?limit=1");
    assert_eq!(message_history_path("s1", Some(1), None), "/sessions/s1/messages?limit=1");
    assert_eq!(message_history_path("s1", Some(200), None), "/sessions/s1/messages?limit=200");
    assert_eq!(message_history_path("s1", Some(201), None), "/sessions/s1/messages?limit=200");
    assert_eq!(
        message_history_path("s1", Some(i32::MAX), None),
        "/sessions/s1/messages?limit=200"
    );
    assert_eq!(
        message_history_path("s1", None, Some(" 2024-01-01T00:00:00Z ")),
        "/sessions/s1/messages?limit=50&before=2024-01-01T00:00:00Z"
    );
    assert_eq!(message_history_path("s1", None, Some("   ")), "/sessions/s1/messages?limit=50");
    assert_eq!(message_history_path("s1", None, Some("")), "/sessions/s1/messages?limit=50");
    assert_eq!(
        group_message_history_path("g1", Some(10), Some("t")),
        "/groups/g1/messages?limit=10&before=t"
    );
    assert_eq!(group_message_history_path("g1", None, None), "/groups/g1/messages?limit=50");
}

#[test]
fn document_and_group_paths() {
    assert_eq!(document_path("d1"), "/documents/d1");
    assert_eq!(document_content_path("d1", "g1"), "/documents/d1/content?groupId=g1");
    assert_eq!(group_path("g1"), "/groups/g1");
    assert_eq!(group_session_path("g1"), "/groups/g1/session");
    assert_eq!(group_prd_path("g1"), "/groups/g1/prd");
    assert_eq!(kb_documents_path("g1"), "/groups/g1/kb/documents");
    assert_eq!(kb_document_path("g1", "d1"), "/groups/g1/kb/documents/d1");
    assert_eq!(kb_document_content_path("g1", "d1"), "/groups/g1/kb/documents/d1/content");
}

#[test]
fn defect_paths() {
    assert_eq!(defect_path("7"), "/api/defect-agent/defects/7");
    assert_eq!(defect_step_path("7", "submit"), "/api/defect-agent/defects/7/submit");
    assert_eq!(defect_step_path("7", "attachments"), "/api/defect-agent/defects/7/attachments");
    assert_eq!(defect_messages_path("7", None), "/api/defect-agent/defects/7/messages");
    assert_eq!(
        defect_messages_path("7", Some(12)),
        "/api/defect-agent/defects/7/messages?afterSeq=12"
    );
    assert_eq!(
        defect_messages_path("7", Some(-3)),
        "/api/defect-agent/defects/7/messages?afterSeq=-3"
    );
    assert_eq!(
        defect_messages_path("7", Some(0)),
        "/api/defect-agent/defects/7/messages?afterSeq=0"
    );
}

#[test]
fn comment_paths() {
    assert_eq!(
        prd_comments_path("d1", "g1", None, None),
        "/prd-comments?documentId=d1&groupId=g1"
    );
    assert_eq!(
        prd_comments_path("d1", "g1", Some("h 1"), Some(5)),
        "/prd-comments?documentId=d1&groupId=g1&headingId=h 1&limit=5"
    );
    assert_eq!(
        prd_comments_path("d1", "g1", Some("  "), Some(-1)),
        "/prd-comments?documentId=d1&groupId=g1&limit=-1"
    );
    assert_eq!(
        prd_comments_path("d1", "g1", Some(" h "), None),
        "/prd-comments?documentId=d1&groupId=g1&headingId= h "
    );
    assert_eq!(prd_comment_path("c1", "g1"), "/prd-comments/c1?groupId=g1");
}

#[test]
fn skill_paths() {
    assert_eq!(skills_path(None), "/api/prd-agent/skills");
    assert_eq!(skills_path(Some("  ")), "/api/prd-agent/skills");
    assert_eq!(skills_path(Some(" PM ")), "/api/prd-agent/skills?role=PM");
    assert_eq!(skill_path("k"), "/api/prd-agent/skills/k");
    assert_eq!(skill_execute_path("k"), "/api/prd-agent/skills/k/execute");
}

#[test]
fn open_platform_keys() {
    assert_eq!(open_platform_key_path(" k1 "), "/open-platform/keys/k1");
    assert_eq!(key_name(Some("  my key ".to_string())), Some("my key".to_string()));
    assert_eq!(key_name(Some("   ".to_string())), None);
    assert_eq!(key_name(Some(String::new())), None);
    assert_eq!(key_name(None), None);
    let ids = vec![" g1 ".to_string(), "".to_string(), "g2".to_string(), " \t".to_string(), "g1".to_string()];
    assert_eq!(key_group_ids(&ids), vec!["g1".to_string(), "g2".to_string(), "g1".to_string()]);
    assert_eq!(key_group_ids(&vec![]), Vec::<String>::new());
}

fn branding() -> DesktopBranding {
    DesktopBranding {
        desktop_name: "PRD".to_string(),
        desktop_subtitle: String::new(),
        window_title: String::new(),
        login_icon_key: "icon".to_string(),
        login_background_key: String::new(),
        login_icon_url: None,
        login_background_url: None,
        assets: HashMap::new(),
        updated_at: None,
    }
}

#[test]
fn branding_paths_and_replies() {
    assert_eq!(branding_path(None), "/desktop/branding");
    assert_eq!(branding_path(Some(" White ")), "/desktop/branding?skin=white");
    assert_eq!(branding_path(Some("DARK")), "/desktop/branding?skin=dark");
    assert_eq!(branding_path(Some("blue")), "/desktop/branding");
    assert_eq!(branding_path(Some("")), "/desktop/branding");
    assert_eq!(skin_path(Some("White")), "/desktop/branding");
    assert_eq!(skin_path(Some("dark")), "/desktop/branding?skin=dark");
    let got = branding_of(ApiResponse { success: true, data: Some(branding()), error: None });
    assert_eq!(got.map(|b| b.desktop_name), Some("PRD".to_string()));
    let none = branding_of(ApiResponse { success: false, data: Some(branding()), error: None });
    assert!(none.is_none());
    let empty = branding_of(ApiResponse { success: true, data: None, error: None });
    assert!(empty.is_none());
}
