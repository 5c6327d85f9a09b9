use prd_relay::api_client::{get_api_base_url, ApiSettings, Header};
use prd_relay::attachment::{
    check_size, mime_for, mime_of, upload_headers, MAX_ATTACHMENT_BYTES,
};
use prd_relay::auth::AuthStore;
use prd_relay::cancel::{cancel_stream, target_of, CancelTarget, StreamCancelState, StreamKind};
use prd_relay::config::{
    answered, apply_saved, health_url, init_config, unanswered, AppConfig, ConnectFailure,
    HealthBody,
};
use prd_relay::defect::{decode_failure, decode_file};
use prd_relay::models::{ApiResponse, LoginResponse, UserInfo};
use prd_relay::skill::execute_request;
use prd_relay::sse::{StreamEvent, StreamPhase};
use prd_relay::updater::{
    check_failed, fetched, get_updater_arch, get_updater_platform_info,
    get_updater_target_triple, manifest_candidates, not_fetched, update_info, FoundUpdate,
};

fn config(url: &str, client_id: &str) -> AppConfig {
    AppConfig { api_base_url: url.to_string(), is_developer: true, client_id: client_id.to_string() }
}

#[test]
fn cancel_stream_by_name() {
    let mut registry = StreamCancelState::new();
    let message = registry.new_handle(StreamKind::Message);
    let preview = registry.new_handle(StreamKind::Preview);
    assert_eq!(cancel_stream(&mut registry, Some("Preview".to_string())), Ok(()));
    assert!(!registry.is_cancelled(&message));
    assert!(registry.is_cancelled(&preview));
    assert_eq!(cancel_stream(&mut registry, Some("nothing".to_string())), Ok(()));
    assert!(!registry.is_cancelled(&message));
    assert_eq!(cancel_stream(&mut registry, Some("MESSAGE".to_string())), Ok(()));
    assert!(registry.is_cancelled(&message));
}

#[test]
fn cancel_stream_all_and_none() {
    let mut registry = StreamCancelState::new();
    let message = registry.new_handle(StreamKind::Message);
    let guide = registry.new_handle(StreamKind::Guide);
    assert_eq!(cancel_stream(&mut registry, Some("ALL".to_string())), Ok(()));
    assert!(registry.is_cancelled(&message));
    assert!(registry.is_cancelled(&guide));
    let group = registry.new_handle(StreamKind::Group);
    assert_eq!(cancel_stream(&mut registry, None), Ok(()));
    assert!(registry.is_cancelled(&group));
}

#[test]
fn cancel_targets() {
    assert_eq!(target_of("all"), Some(CancelTarget::All));
    assert_eq!(target_of("message"), Some(CancelTarget::Kind(StreamKind::Message)));
    assert_eq!(target_of("preview"), Some(CancelTarget::Kind(StreamKind::Preview)));
    assert_eq!(target_of("group"), Some(CancelTarget::Kind(StreamKind::Group)));
    assert_eq!(target_of("guide"), Some(CancelTarget::Kind(StreamKind::Guide)));
    assert_eq!(target_of("All"), None);
    assert_eq!(target_of(""), None);
    assert_eq!(target_of("messages"), None);
}

#[test]
fn wire_names() {
    assert_eq!(StreamKind::Message.channel(), "message-chunk");
    assert_eq!(StreamKind::Preview.channel(), "preview-ask-chunk");
    assert_eq!(StreamKind::Guide.channel(), "guide-chunk");
    assert_eq!(StreamKind::Group.channel(), "group-chunk");
    assert_eq!(StreamPhase::Requesting.name(), "requesting");
    assert_eq!(StreamPhase::Connected.name(), "connected");
    assert_eq!(StreamPhase::Receiving.name(), "receiving");
    assert_eq!(StreamEvent::Done.wire_type_name(), Some("done"));
    assert_eq!(StreamEvent::Phase(StreamPhase::Connected).wire_type_name(), Some("phase"));
    assert_eq!(StreamEvent::Delta("x".to_string()).wire_type_name(), Some("delta"));
    assert_eq!(StreamEvent::Error("x".to_string()).wire_type_name(), Some("error"));
    assert_eq!(StreamEvent::Structured("{}".to_string()).wire_type_name(), None);
    assert_eq!(prd_relay::relay::AUTH_EXPIRED_SIGNAL, "auth-expired");
    assert_eq!(prd_relay::relay::AUTH_EXPIRED_CODE, "UNAUTHORIZED");
}

#[test]
fn token_from_the_ui() {
    let mut store = AuthStore::new();
    store.set_auth_token(Some("tok".to_string()));
    assert_eq!(store.current_access_token(), Some("tok".to_string()));
    store.set_auth_token(Some("  ".to_string()));
    assert_eq!(store.current_access_token(), None);
    store.set_token(" padded ".to_string());
    assert_eq!(store.current_access_token(), Some(" padded ".to_string()));
    store.set_auth_token(None);
    assert_eq!(store.current_access_token(), None);
    store.set_token("t2".to_string());
    store.clear_token();
    assert_eq!(store.current_access_token(), None);
}

#[test]
fn refresh_materials_from_the_ui() {
    let mut store = AuthStore::new();
    store.set_token("tok".to_string());
    store.set_auth_session(
        Some("u1".to_string()),
        Some("r1".to_string()),
        Some("k1".to_string()),
        None,
    );
    assert_eq!(store.current_access_token(), Some("tok".to_string()));
    assert_eq!(store.client_type(), "desktop");
    match store.begin_refresh() {
        prd_relay::auth::RefreshTicket::Perform(request) => {
            assert_eq!(request.user_id, "u1");
            assert_eq!(request.refresh_token, "r1");
            assert_eq!(request.session_key, "k1");
            assert_eq!(request.client_type, "desktop");
        }
        other => panic!("expected a refresh request, got {other:?}"),
    }
    store.set_auth_session(None, None, None, Some("tablet".to_string()));
    assert_eq!(store.client_type(), "tablet");
    assert_eq!(store.current_access_token(), Some("tok".to_string()));
}

fn login_reply(success: bool, with_data: bool) -> ApiResponse<LoginResponse> {
    ApiResponse {
        success,
        data: if with_data {
            Some(LoginResponse {
                access_token: "a".to_string(),
                refresh_token: "r".to_string(),
                session_key: "k".to_string(),
                client_type: "desktop".to_string(),
                expires_in: 60,
                user: UserInfo {
                    user_id: "u".to_string(),
                    username: "n".to_string(),
                    display_name: "N".to_string(),
                    role: "DEV".to_string(),
                },
            })
        } else {
            None
        },
        error: None,
    }
}

#[test]
fn login_reply_signs_in() {
    let mut store = AuthStore::new();
    assert!(!store.accept_login(&login_reply(false, true)));
    assert_eq!(store.current_access_token(), None);
    assert!(!store.accept_login(&login_reply(true, false)));
    assert_eq!(store.current_access_token(), None);
    assert!(store.accept_login(&login_reply(true, true)));
    assert_eq!(store.current_access_token(), Some("a".to_string()));
    assert!(matches!(store.begin_refresh(), prd_relay::auth::RefreshTicket::Perform(_)));
}

#[test]
fn config_gets_a_client_id_when_it_has_none() {
    let mut with_id = config("http://h", "c-1");
    assert!(!with_id.ensure_client_id("fresh".to_string()));
    assert_eq!(with_id.client_id, "c-1");
    let mut without = config("http://h", "  ");
    assert!(without.ensure_client_id("fresh".to_string()));
    assert_eq!(without.client_id, "fresh");
    assert_eq!(without.api_base_url, "http://h");
    assert!(without.is_developer);
    let mut random = config("http://h", "");
    assert!(random.fill_client_id());
    assert!(!random.client_id.trim().is_empty());
    let mut kept = config("http://h", "c-2");
    assert!(!kept.fill_client_id());
    assert_eq!(kept.client_id, "c-2");
}

#[test]
fn saved_config_keeps_an_identifier() {
    let saved = config("http://h", "mine").to_save(Some(config("x", "disk")), "fresh".to_string());
    assert_eq!(saved.client_id, "mine");
    let saved = config("http://h", " ").to_save(Some(config("x", "disk")), "fresh".to_string());
    assert_eq!(saved.client_id, "disk");
    assert_eq!(saved.api_base_url, "http://h");
    let saved = config("http://h", "").to_save(Some(config("x", " ")), "fresh".to_string());
    assert_eq!(saved.client_id, "fresh");
    let saved = config("http://h", "").to_save(None, "fresh".to_string());
    assert_eq!(saved.client_id, "fresh");
}

#[test]
fn saved_config_gets_a_random_identifier_as_a_last_resort() {
    let saved = config("http://h", "mine").for_saving(Some(config("x", "disk")));
    assert_eq!(saved.client_id, "mine");
    let saved = config("http://h", "").for_saving(Some(config("x", "disk")));
    assert_eq!(saved.client_id, "disk");
    let saved = config("http://h", " ").for_saving(None);
    assert_eq!(saved.client_id.len(), 36);
    assert_eq!(saved.api_base_url, "http://h");
    assert!(saved.is_developer);
}

#[test]
fn fresh_config() {
    let made = AppConfig::with_client_id("c-9".to_string());
    assert_eq!(made.api_base_url, "http://localhost:5000");
    assert!(!made.is_developer);
    assert_eq!(made.client_id, "c-9");
    let random = AppConfig::default();
    assert_eq!(random.api_base_url, "http://localhost:5000");
    assert!(!random.is_developer);
    assert_eq!(random.client_id.len(), 36);
    assert_ne!(random.client_id, AppConfig::default().client_id);
}

#[test]
fn startup_takes_the_loaded_config() {
    let mut settings = ApiSettings::new(None);
    init_config(&mut settings, Some(config("  https://api.example.com \n", "c-1")));
    assert_eq!(get_api_base_url(&settings), "https://api.example.com");
    assert_eq!(settings.client_id(), Some("c-1".to_string()));
    init_config(&mut settings, Some(config("   ", " ")));
    assert_eq!(get_api_base_url(&settings), "https://api.example.com");
    assert_eq!(settings.client_id(), Some("c-1".to_string()));
    init_config(&mut settings, None);
    assert_eq!(get_api_base_url(&settings), "https://api.example.com");
    apply_saved(&mut settings, &config(" http://raw ", "c-2"));
    assert_eq!(get_api_base_url(&settings), " http://raw ");
    assert_eq!(settings.client_id(), Some("c-2".to_string()));
}

#[test]
fn health_urls() {
    assert_eq!(health_url("http://h"), "http://h/health");
    assert_eq!(health_url("http://h/"), "http://h/health");
    assert_eq!(health_url("http://h///"), "http://h/health");
    assert_eq!(health_url("http://h/a/"), "http://h/a/health");
    assert_eq!(health_url(""), "/health");
    assert_eq!(health_url("//"), "/health");
}

#[test]
fn connection_test_results() {
    let ok = answered(200, 12, HealthBody::Status("healthy".to_string()));
    assert!(ok.success);
    assert_eq!(ok.latency_ms, Some(12));
    assert_eq!(ok.error, None);
    assert_eq!(ok.server_status, Some("healthy".to_string()));
    assert_eq!(answered(200, 1, HealthBody::NoStatus).server_status, Some("unknown".to_string()));
    assert_eq!(answered(204, 1, HealthBody::Unreadable).server_status, Some("ok".to_string()));
    let bad = answered(503, 40, HealthBody::Status("up".to_string()));
    assert!(!bad.success);
    assert_eq!(bad.latency_ms, Some(40));
    assert_eq!(bad.error, Some("HTTP 503".to_string()));
    assert_eq!(bad.server_status, None);
    let timed_out = unanswered(ConnectFailure::TimedOut, "x");
    assert!(!timed_out.success);
    assert_eq!(timed_out.latency_ms, None);
    assert_eq!(timed_out.error, Some("连接超时".to_string()));
    assert_eq!(timed_out.server_status, None);
    assert_eq!(
        unanswered(ConnectFailure::Refused, "x").error,
        Some("无法连接到服务器".to_string())
    );
    assert_eq!(
        unanswered(ConnectFailure::Other, "dns").error,
        Some("连接失败: dns".to_string())
    );
}

#[test]
fn attachment_rules() {
    assert_eq!(MAX_ATTACHMENT_BYTES, 5 * 1024 * 1024);
    assert_eq!(check_size(0), Ok(()));
    assert_eq!(check_size(5 * 1024 * 1024), Ok(()));
    assert_eq!(check_size(5 * 1024 * 1024 + 1), Err("文件大小不能超过 5MB".to_string()));
    assert_eq!(mime_of(Some("PNG")), "image/png");
    assert_eq!(mime_of(Some("jpg")), "image/jpeg");
    assert_eq!(mime_of(Some("Jpeg")), "image/jpeg");
    assert_eq!(mime_of(Some("gif")), "image/gif");
    assert_eq!(mime_of(Some("webp")), "image/webp");
    assert_eq!(mime_of(Some("svg")), "image/svg+xml");
    assert_eq!(mime_of(Some("pdf")), "application/octet-stream");
    assert_eq!(mime_of(None), "application/octet-stream");
    assert_eq!(mime_for(Some("PNG")), "application/octet-stream");
    assert_eq!(
        prd_relay::attachment::empty_response_error("502 Bad Gateway"),
        "服务器响应为空，状态码: 502 Bad Gateway"
    );
    assert_eq!(
        prd_relay::attachment::parse_failure_error("eof", "200 OK", "{"),
        "解析响应失败: eof。状态: 200 OK。响应: {"
    );
}

#[test]
fn upload_headers_name_client_and_token() {
    let mut settings = ApiSettings::new(None);
    let mut store = AuthStore::new();
    let client = Header { name: "X-Client".to_string(), value: "desktop".to_string() };
    assert_eq!(upload_headers(&settings, &store), vec![client.clone()]);
    settings.set_client_id("  ".to_string());
    assert_eq!(upload_headers(&settings, &store), vec![client.clone()]);
    settings.set_client_id("c-1".to_string());
    store.set_token("tok".to_string());
    assert_eq!(
        upload_headers(&settings, &store),
        vec![
            client,
            Header { name: "X-Client-Id".to_string(), value: "c-1".to_string() },
            Header { name: "Authorization".to_string(), value: "Bearer tok".to_string() },
        ]
    );
}

#[test]
fn base64_files() {
    assert_eq!(decode_file("aGVsbG8="), Ok(b"hello".to_vec()));
    assert_eq!(decode_file(""), Ok(vec![]));
    let failed = decode_file("not base64!").unwrap_err();
    assert!(failed.starts_with("Failed to decode file: "));
    assert!(failed.len() > "Failed to decode file: ".len());
    assert!(decode_file("aGVsbG8").is_err());
    assert_eq!(decode_failure("bad"), "Failed to decode file: bad");
}

#[test]
fn skill_request_overrides_nothing() {
    let request = execute_request("s1".to_string(), Some("hi".to_string()), None, None);
    assert_eq!(request.session_id, "s1");
    assert_eq!(request.user_input, Some("hi".to_string()));
    assert_eq!(request.attachment_ids, None);
    assert!(request.parameters.is_none());
    assert_eq!(request.context_scope_override, None);
    assert_eq!(request.output_mode_override, None);
}

#[test]
fn updater_platforms() {
    assert_eq!(get_updater_target_triple("macos", "aarch64"), "aarch64-apple-darwin");
    assert_eq!(get_updater_target_triple("macos", "x86_64"), "x86_64-apple-darwin");
    assert_eq!(get_updater_target_triple("windows", "x86_64"), "x86_64-pc-windows-msvc");
    assert_eq!(get_updater_target_triple("windows", "x86"), "i686-pc-windows-msvc");
    assert_eq!(get_updater_target_triple("linux", "x86_64"), "x86_64-unknown-linux-gnu");
    assert_eq!(get_updater_target_triple("linux", "aarch64"), "aarch64-unknown-linux-gnu");
    assert_eq!(get_updater_target_triple("linux", "riscv64"), "unknown");
    assert_eq!(get_updater_target_triple("freebsd", "x86_64"), "unknown");
    assert_eq!(get_updater_arch("x86"), "i686");
    assert_eq!(get_updater_arch("x86_64"), "x86_64");
    assert_eq!(get_updater_arch("arm"), "armv7");
    assert_eq!(get_updater_arch("aarch64"), "aarch64");
    assert_eq!(get_updater_arch("riscv64"), "riscv64");
    assert_eq!(get_updater_arch("mips"), "unknown");
    let info = get_updater_platform_info("windows", "x86");
    assert_eq!(info.target, "i686-pc-windows-msvc");
    assert_eq!(info.arch, "i686");
    assert_eq!(info.json_target, "i686-pc-windows-msvc");
}

#[test]
fn updater_manifests() {
    assert_eq!(
        manifest_candidates("x86_64-unknown-linux-gnu"),
        vec![
            "https://github.com/inernoro/prd_agent/releases/latest/download/latest-x86_64-unknown-linux-gnu.json".to_string(),
            "https://github.com/inernoro/prd_agent/releases/latest/download/latest.json".to_string(),
        ]
    );
    let ok = fetched("u".to_string(), 200, Some("OK".to_string()), Ok("{}".to_string()));
    assert_eq!(ok.url, "u");
    assert_eq!(ok.status, 200);
    assert_eq!(ok.status_text, "OK");
    assert!(ok.ok);
    assert_eq!(ok.body, Some("{}".to_string()));
    assert_eq!(ok.error, None);
    let odd = fetched("u".to_string(), 599, None, Err("broken pipe".to_string()));
    assert_eq!(odd.status_text, "Unknown");
    assert!(!odd.ok);
    assert_eq!(odd.body, Some("[读取响应体失败: broken pipe]".to_string()));
    let failed = not_fetched("u".to_string(), "dns".to_string());
    assert_eq!(failed.status, 0);
    assert_eq!(failed.status_text, "Request Failed");
    assert!(!failed.ok);
    assert_eq!(failed.body, None);
    assert_eq!(failed.error, Some("dns".to_string()));
}

#[test]
fn update_infos() {
    let none = update_info("1.0.0".to_string(), None);
    assert!(!none.available);
    assert_eq!(none.current_version, "1.0.0");
    assert_eq!(none.version, None);
    assert_eq!(none.body, None);
    let some = update_info(
        "1.0.0".to_string(),
        Some(FoundUpdate { version: "1.1.0".to_string(), body: Some("notes".to_string()) }),
    );
    assert!(some.available);
    assert_eq!(some.version, Some("1.1.0".to_string()));
    assert_eq!(some.body, Some("notes".to_string()));
    assert_eq!(check_failed("offline"), "检查更新失败: offline");
}
