use prd_relay::auth::{AuthStore, RefreshOutcome, RefreshTicket};
use prd_relay::cancel::{StreamCancelState, StreamKind};
use prd_relay::models::{ApiResponse, LoginResponse, UserInfo};
use prd_relay::api_client::Header;
use prd_relay::relay::{http_error_message, status_text_of, Relay, RelayAction, RelayStage};
use prd_relay::sse::{StreamEvent, StreamPhase};

fn publish(event: StreamEvent) -> RelayAction {
    RelayAction::Publish(event)
}

fn phase(phase: StreamPhase) -> RelayAction {
    publish(StreamEvent::Phase(phase))
}

fn header(name: &str, value: &str) -> Header {
    Header { name: name.to_string(), value: value.to_string() }
}

fn headers(token: Option<&str>) -> Vec<Header> {
    let mut all = vec![
        header("Accept", "text/event-stream"),
        header("Content-Type", "application/json"),
        header("X-Client", "desktop"),
    ];
    if let Some(token) = token {
        all.push(header("Authorization", &format!("Bearer {token}")));
    }
    all
}

fn signed_in_store() -> AuthStore {
    let mut store = AuthStore::new();
    store.set_session(
        Some("old-token".to_string()),
        Some("refresh-0".to_string()),
        Some("key-0".to_string()),
        Some("u1".to_string()),
        "desktop".to_string(),
    );
    store
}

fn new_grant() -> LoginResponse {
    LoginResponse {
        access_token: "new-token".to_string(),
        refresh_token: "refresh-1".to_string(),
        session_key: "key-1".to_string(),
        client_type: "desktop".to_string(),
        expires_in: 3600,
        user: UserInfo {
            user_id: "u1".to_string(),
            username: "ann".to_string(),
            display_name: "Ann".to_string(),
            role: "PM".to_string(),
        },
    }
}

fn published(actions: &[RelayAction]) -> Vec<StreamEvent> {
    let mut events = Vec::new();
    for action in actions {
        if let RelayAction::Publish(event) = action {
            events.push(event.clone());
        }
    }
    events
}

#[test]
fn start_takes_a_handle_and_sends_with_the_token() {
    let mut registry = StreamCancelState::new();
    let store = signed_in_store();
    let (relay, actions) = Relay::start(&mut registry, StreamKind::Message, &store);
    assert_eq!(
        actions,
        vec![phase(StreamPhase::Requesting), RelayAction::Send(headers(Some("old-token")))]
    );
    assert_eq!(relay.stage(), RelayStage::AwaitingResponse);
    assert_eq!(relay.handle().kind(), StreamKind::Message);
    assert!(!registry.is_cancelled(&relay.handle()));
    assert!(!relay.is_finished());
}

#[test]
fn start_without_a_token_sends_no_authorization() {
    let mut registry = StreamCancelState::new();
    let store = AuthStore::new();
    let (_, actions) = Relay::start(&mut registry, StreamKind::Preview, &store);
    assert_eq!(actions, vec![phase(StreamPhase::Requesting), RelayAction::Send(headers(None))]);
}

#[test]
fn start_supersedes_the_running_stream_of_the_kind() {
    let mut registry = StreamCancelState::new();
    let store = signed_in_store();
    let (first, _) = Relay::start(&mut registry, StreamKind::Message, &store);
    let (other, _) = Relay::start(&mut registry, StreamKind::Preview, &store);
    let (second, _) = Relay::start(&mut registry, StreamKind::Message, &store);
    assert!(registry.is_cancelled(&first.handle()));
    assert!(!registry.is_cancelled(&other.handle()));
    assert!(!registry.is_cancelled(&second.handle()));
}

#[test]
fn unauthorized_then_refresh_then_stream_to_done() {
    let mut registry = StreamCancelState::new();
    let mut store = signed_in_store();
    let mut events = Vec::new();

    let (mut relay, actions) = Relay::start(&mut registry, StreamKind::Message, &store);
    events.extend(published(&actions));

    let actions = relay.on_response(401);
    assert_eq!(actions, vec![RelayAction::Refresh]);
    assert_eq!(relay.stage(), RelayStage::Refreshing);

    assert!(matches!(store.begin_refresh(), RefreshTicket::Perform(_)));
    let ok = store.complete_refresh(RefreshOutcome::Replied {
        status: 200,
        envelope: Some(ApiResponse { success: true, data: Some(new_grant()), error: None }),
    });
    assert!(ok);

    let actions = relay.on_refreshed(ok, &store);
    assert_eq!(actions, vec![RelayAction::Send(headers(Some("new-token")))]);
    assert_eq!(relay.stage(), RelayStage::AwaitingRetry);

    let actions = relay.on_response(200);
    assert_eq!(actions, vec![phase(StreamPhase::Connected), RelayAction::ReadChunk]);
    events.extend(published(&actions));

    let actions = relay.on_chunk(&registry, b"data: [DONE]\n\n");
    assert_eq!(
        actions,
        vec![phase(StreamPhase::Receiving), publish(StreamEvent::Done), RelayAction::ReadChunk]
    );
    events.extend(published(&actions));

    let actions = relay.on_end();
    assert_eq!(actions, vec![]);
    assert!(relay.is_finished());

    assert_eq!(
        events,
        vec![
            StreamEvent::Phase(StreamPhase::Requesting),
            StreamEvent::Phase(StreamPhase::Connected),
            StreamEvent::Phase(StreamPhase::Receiving),
            StreamEvent::Done,
        ]
    );
}

#[test]
fn refresh_with_empty_body_ends_the_run_with_auth_expired() {
    let mut registry = StreamCancelState::new();
    let mut store = signed_in_store();
    let (mut relay, _) = Relay::start(&mut registry, StreamKind::Message, &store);
    assert_eq!(relay.on_response(401), vec![RelayAction::Refresh]);
    assert!(matches!(store.begin_refresh(), RefreshTicket::Perform(_)));
    let ok = store.complete_refresh(RefreshOutcome::Replied { status: 200, envelope: None });
    assert!(!ok);
    assert_eq!(relay.on_refreshed(ok, &store), vec![RelayAction::SignalAuthExpired]);
    assert!(relay.is_finished());
    assert_eq!(relay.on_response(200), vec![]);
    assert_eq!(relay.on_chunk(&registry, b"data: x\n\n"), vec![]);
    assert_eq!(store.current_access_token(), Some("old-token".to_string()));
}

#[test]
fn cancel_between_chunks_stops_publication() {
    let mut registry = StreamCancelState::new();
    let store = signed_in_store();
    let (mut relay, _) = Relay::start(&mut registry, StreamKind::Message, &store);
    relay.on_response(200);
    let first = relay.on_chunk(&registry, b"data: {\"n\":1}\n\n");
    assert_eq!(
        first,
        vec![
            phase(StreamPhase::Receiving),
            publish(StreamEvent::Structured("{\"n\":1}".to_string())),
            RelayAction::ReadChunk,
        ]
    );
    registry.cancel(StreamKind::Message);
    let second = relay.on_chunk(&registry, b"data: {\"n\":2}\n\n");
    assert_eq!(second, vec![publish(StreamEvent::Done)]);
    assert!(relay.is_finished());
    assert_eq!(relay.on_chunk(&registry, b"data: {\"n\":3}\n\n"), vec![]);
    assert_eq!(relay.on_end(), vec![]);
    assert_eq!(relay.on_read_failed("late"), vec![]);
}

#[test]
fn cancel_of_another_kind_does_not_stop_the_run() {
    let mut registry = StreamCancelState::new();
    let store = signed_in_store();
    let (mut relay, _) = Relay::start(&mut registry, StreamKind::Message, &store);
    relay.on_response(200);
    registry.cancel(StreamKind::Preview);
    assert_eq!(
        relay.on_chunk(&registry, b"data: a\n\n"),
        vec![
            phase(StreamPhase::Receiving),
            publish(StreamEvent::Delta("a".to_string())),
            RelayAction::ReadChunk,
        ]
    );
}

#[test]
fn newer_stream_of_the_kind_stops_the_older_one() {
    let mut registry = StreamCancelState::new();
    let store = signed_in_store();
    let (mut older, _) = Relay::start(&mut registry, StreamKind::Message, &store);
    older.on_response(200);
    let (mut newer, _) = Relay::start(&mut registry, StreamKind::Message, &store);
    newer.on_response(200);
    assert_eq!(older.on_chunk(&registry, b"data: a\n\n"), vec![publish(StreamEvent::Done)]);
    assert_eq!(
        newer.on_chunk(&registry, b"data: a\n\n"),
        vec![
            phase(StreamPhase::Receiving),
            publish(StreamEvent::Delta("a".to_string())),
            RelayAction::ReadChunk,
        ]
    );
}

#[test]
fn error_status_is_reported_with_its_body() {
    let mut registry = StreamCancelState::new();
    let store = signed_in_store();
    let (mut relay, _) = Relay::start(&mut registry, StreamKind::Message, &store);
    assert_eq!(
        relay.on_response(500),
        vec![phase(StreamPhase::Connected), RelayAction::ReadErrorBody]
    );
    assert_eq!(relay.stage(), RelayStage::ReadingError);
    assert_eq!(
        relay.on_error_body("boom"),
        vec![publish(StreamEvent::Error("HTTP 500 Internal Server Error: boom".to_string()))]
    );
    assert!(relay.is_finished());
}

#[test]
fn second_unauthorized_is_final() {
    let mut registry = StreamCancelState::new();
    let store = signed_in_store();
    let (mut relay, _) = Relay::start(&mut registry, StreamKind::Message, &store);
    relay.on_response(401);
    relay.on_refreshed(true, &store);
    assert_eq!(
        relay.on_response(401),
        vec![phase(StreamPhase::Connected), RelayAction::ReadErrorBody]
    );
    assert_eq!(
        relay.on_error_body(""),
        vec![publish(StreamEvent::Error("HTTP 401 Unauthorized: ".to_string()))]
    );
}

#[test]
fn error_body_is_cut_at_500_characters() {
    let body: String = "é".repeat(600);
    let message = http_error_message("404 Not Found", &body);
    let expected = format!("HTTP 404 Not Found: {}", "é".repeat(500));
    assert_eq!(message, expected);
    let short = "x".repeat(500);
    assert_eq!(
        http_error_message("404 Not Found", &short),
        format!("HTTP 404 Not Found: {short}")
    );
}

#[test]
fn status_text_follows_reqwest() {
    assert_eq!(status_text_of(200), "200 OK");
    assert_eq!(status_text_of(404), "404 Not Found");
    assert_eq!(status_text_of(599), "599 <unknown status code>");
    assert_eq!(status_text_of(999), "999 <unknown status code>");
    assert_eq!(status_text_of(100), "100 Continue");
}

#[test]
fn status_text_of_a_number_that_is_no_status() {
    assert_eq!(status_text_of(0), "0");
    assert_eq!(status_text_of(99), "99");
    assert_eq!(status_text_of(1000), "1000");
    assert_eq!(status_text_of(65535), "65535");
}

#[test]
fn send_failure_ends_the_run_with_an_error() {
    let mut registry = StreamCancelState::new();
    let store = signed_in_store();
    let (mut relay, _) = Relay::start(&mut registry, StreamKind::Message, &store);
    assert_eq!(
        relay.on_send_failed("connection refused"),
        vec![publish(StreamEvent::Error("Request failed: connection refused".to_string()))]
    );
    assert!(relay.is_finished());
}

#[test]
fn send_failure_of_the_retry_ends_the_run_with_an_error() {
    let mut registry = StreamCancelState::new();
    let store = signed_in_store();
    let (mut relay, _) = Relay::start(&mut registry, StreamKind::Message, &store);
    relay.on_response(401);
    relay.on_refreshed(true, &store);
    assert_eq!(
        relay.on_send_failed("reset"),
        vec![publish(StreamEvent::Error("Request failed: reset".to_string()))]
    );
    assert!(relay.is_finished());
}

#[test]
fn read_failure_ends_the_run_with_an_error() {
    let mut registry = StreamCancelState::new();
    let store = signed_in_store();
    let (mut relay, _) = Relay::start(&mut registry, StreamKind::Message, &store);
    relay.on_response(200);
    relay.on_chunk(&registry, b"data: a\n\n");
    assert_eq!(
        relay.on_read_failed("connection reset"),
        vec![publish(StreamEvent::Error("Stream error: connection reset".to_string()))]
    );
    assert!(relay.is_finished());
}

#[test]
fn end_of_stream_publishes_nothing() {
    let mut registry = StreamCancelState::new();
    let store = signed_in_store();
    let (mut relay, _) = Relay::start(&mut registry, StreamKind::Message, &store);
    relay.on_response(204);
    assert_eq!(relay.stage(), RelayStage::Streaming);
    assert_eq!(relay.on_end(), vec![]);
    assert!(relay.is_finished());
}

#[test]
fn chunk_split_inside_a_frame_keeps_event_order() {
    let mut registry = StreamCancelState::new();
    let store = signed_in_store();
    let (mut relay, _) = Relay::start(&mut registry, StreamKind::Message, &store);
    relay.on_response(200);
    assert_eq!(relay.on_chunk(&registry, b"data: a\n\ndata: "), vec![
        phase(StreamPhase::Receiving),
        publish(StreamEvent::Delta("a".to_string())),
        RelayAction::ReadChunk,
    ]);
    assert_eq!(relay.on_chunk(&registry, b"b\n\ndata: c\n\n"), vec![
        publish(StreamEvent::Delta("b".to_string())),
        publish(StreamEvent::Delta("c".to_string())),
        RelayAction::ReadChunk,
    ]);
}

#[test]
fn invalid_utf8_becomes_replacement_characters() {
    let mut registry = StreamCancelState::new();
    let store = signed_in_store();
    let (mut relay, _) = Relay::start(&mut registry, StreamKind::Message, &store);
    relay.on_response(200);
    assert_eq!(relay.on_chunk(&registry, b"data: a\xffb\n\n"), vec![
        phase(StreamPhase::Receiving),
        publish(StreamEvent::Delta("a\u{fffd}b".to_string())),
        RelayAction::ReadChunk,
    ]);
    let euro = "data: €\n\n".as_bytes();
    assert_eq!(relay.on_chunk(&registry, &euro[..7]), vec![RelayAction::ReadChunk]);
    assert_eq!(relay.on_chunk(&registry, &euro[7..]), vec![
        publish(StreamEvent::Delta("\u{fffd}\u{fffd}\u{fffd}".to_string())),
        RelayAction::ReadChunk,
    ]);
}

#[test]
fn inputs_out_of_turn_are_ignored() {
    let mut registry = StreamCancelState::new();
    let store = signed_in_store();
    let (mut relay, _) = Relay::start(&mut registry, StreamKind::Message, &store);
    assert_eq!(relay.on_chunk(&registry, b"data: a\n\n"), vec![]);
    assert_eq!(relay.on_refreshed(true, &store), vec![]);
    assert_eq!(relay.on_error_body("x"), vec![]);
    assert_eq!(relay.on_end(), vec![]);
    assert_eq!(relay.on_read_failed("x"), vec![]);
    assert_eq!(relay.stage(), RelayStage::AwaitingResponse);
    relay.on_response(200);
    assert_eq!(relay.on_response(200), vec![]);
    assert_eq!(relay.on_send_failed("x"), vec![]);
    assert_eq!(relay.stage(), RelayStage::Streaming);
}
