use prd_relay::sse::{classify_payload, SseBuffer, StreamEvent, StreamPhase};

fn receiving() -> StreamEvent {
    StreamEvent::Phase(StreamPhase::Receiving)
}

fn delta(text: &str) -> StreamEvent {
    StreamEvent::Delta(text.to_string())
}

fn structured(text: &str) -> StreamEvent {
    StreamEvent::Structured(text.to_string())
}

#[test]
fn structured_chunk_gives_receiving_then_event() {
    let mut buffer = SseBuffer::new();
    let events = buffer.feed("data: {\"type\":\"delta\",\"content\":\"hi\"}\n\n");
    assert_eq!(
        events,
        vec![receiving(), structured("{\"type\":\"delta\",\"content\":\"hi\"}")]
    );
    assert!(buffer.seen_data());
    assert_eq!(buffer.pending_text(), "");
}

#[test]
fn new_buffer_is_empty() {
    let buffer = SseBuffer::new();
    assert!(!buffer.seen_data());
    assert_eq!(buffer.pending_text(), "");
}

#[test]
fn every_split_in_two_gives_the_same_events() {
    let payload = "data: {\"type\":\"delta\",\"content\":\"a\"}\n\ndata: plain\ndata: text\n\n: ping\n\ndata: [DONE]\n\ndata: tail";
    let mut whole = SseBuffer::new();
    let expected = whole.feed(payload);
    assert_eq!(
        expected,
        vec![
            receiving(),
            structured("{\"type\":\"delta\",\"content\":\"a\"}"),
            delta("plain\ntext"),
            StreamEvent::Done,
        ]
    );
    for cut in 0..=payload.len() {
        let mut buffer = SseBuffer::new();
        let mut events = buffer.feed(&payload[..cut]);
        events.extend(buffer.feed(&payload[cut..]));
        assert_eq!(events, expected);
        assert_eq!(buffer.pending_text(), whole.pending_text());
        assert_eq!(buffer.seen_data(), whole.seen_data());
    }
}

#[test]
fn feeding_character_by_character_gives_the_same_events() {
    let payload = "data: one\n\ndata: [DONE]\n\ndata: {\"n\":2}\n\n";
    let mut whole = SseBuffer::new();
    let expected = whole.feed(payload);
    let mut buffer = SseBuffer::new();
    let mut events = Vec::new();
    for c in payload.chars() {
        events.extend(buffer.feed(&c.to_string()));
    }
    assert_eq!(events, expected);
    assert_eq!(
        events,
        vec![receiving(), delta("one"), StreamEvent::Done, structured("{\"n\":2}")]
    );
}

#[test]
fn split_inside_the_delimiter_and_the_prefix() {
    let mut buffer = SseBuffer::new();
    assert_eq!(buffer.feed("da"), vec![]);
    assert_eq!(buffer.feed("ta: x\n"), vec![]);
    assert_eq!(buffer.pending_text(), "data: x\n");
    assert_eq!(buffer.feed("\ndata: y"), vec![receiving(), delta("x")]);
    assert_eq!(buffer.pending_text(), "data: y");
    assert_eq!(buffer.feed("\n\n"), vec![delta("y")]);
}

#[test]
fn sentinel_gives_done_and_decoding_goes_on() {
    let mut buffer = SseBuffer::new();
    let events = buffer.feed("data: [DONE]\n\ndata: more\n\ndata: [DONE]\n\n");
    assert_eq!(
        events,
        vec![receiving(), StreamEvent::Done, delta("more"), StreamEvent::Done]
    );
    assert_eq!(buffer.feed("data: [DONE]\n\n"), vec![StreamEvent::Done]);
}

#[test]
fn text_around_the_sentinel_is_no_sentinel() {
    let mut buffer = SseBuffer::new();
    assert_eq!(
        buffer.feed("data: [DONE] \n\ndata: [done]\n\n"),
        vec![receiving(), delta("[DONE] "), delta("[done]")]
    );
}

#[test]
fn payload_that_is_no_json_becomes_a_delta() {
    let mut buffer = SseBuffer::new();
    assert_eq!(buffer.feed("data: hello world\n\n"), vec![receiving(), delta("hello world")]);
    assert_eq!(buffer.feed("data: {broken\n\n"), vec![delta("{broken")]);
}

#[test]
fn json_that_is_no_object_is_structured_too() {
    let mut buffer = SseBuffer::new();
    assert_eq!(
        buffer.feed("data: 42\n\ndata: \"text\"\n\ndata: [1,2]\n\n"),
        vec![receiving(), structured("42"), structured("\"text\""), structured("[1,2]")]
    );
}

#[test]
fn data_lines_are_joined_by_line_feeds() {
    let mut buffer = SseBuffer::new();
    assert_eq!(
        buffer.feed("data: first\ndata: second\ndata:third\n\n"),
        vec![receiving(), delta("first\nsecond\nthird")]
    );
}

#[test]
fn multi_line_json_is_parsed_as_one_payload() {
    let mut buffer = SseBuffer::new();
    assert_eq!(
        buffer.feed("data: {\"a\":\ndata: 1}\n\n"),
        vec![receiving(), structured("{\"a\":\n1}")]
    );
}

#[test]
fn one_carriage_return_is_stripped_per_line() {
    let mut buffer = SseBuffer::new();
    assert_eq!(
        buffer.feed("data: a\r\ndata: b\r\n\n"),
        vec![receiving(), delta("a\nb")]
    );
    assert_eq!(buffer.feed("data: c\r\r\n\n"), vec![delta("c\r")]);
}

#[test]
fn one_leading_space_is_stripped() {
    let mut buffer = SseBuffer::new();
    assert_eq!(
        buffer.feed("data:  two\n\ndata:none\n\ndata:\tx\n\n"),
        vec![receiving(), delta(" two"), delta("none"), delta("\tx")]
    );
}

#[test]
fn frames_without_data_are_ignored() {
    let mut buffer = SseBuffer::new();
    assert_eq!(buffer.feed(": keep-alive\n\n"), vec![]);
    assert_eq!(buffer.feed("event: ping\nid: 7\n\n"), vec![]);
    assert_eq!(buffer.feed("data:\n\n"), vec![]);
    assert_eq!(buffer.feed("data: \n\n"), vec![]);
    assert_eq!(buffer.feed("\n\n\n\n"), vec![]);
    assert!(!buffer.seen_data());
    assert_eq!(buffer.pending_text(), "");
    assert_eq!(buffer.feed("Data: x\n\n data: y\n\n"), vec![]);
}

#[test]
fn other_fields_of_a_frame_are_skipped() {
    let mut buffer = SseBuffer::new();
    assert_eq!(
        buffer.feed("event: message\ndata: body\nid: 1\n\n"),
        vec![receiving(), delta("body")]
    );
}

#[test]
fn two_empty_data_lines_give_a_line_feed() {
    let mut buffer = SseBuffer::new();
    assert_eq!(buffer.feed("data:\ndata:\n\n"), vec![receiving(), delta("\n")]);
}

#[test]
fn incomplete_frame_waits_for_its_end() {
    let mut buffer = SseBuffer::new();
    assert_eq!(buffer.feed("data: par"), vec![]);
    assert_eq!(buffer.pending_text(), "data: par");
    assert!(!buffer.seen_data());
    assert_eq!(buffer.feed("tial\n"), vec![]);
    assert_eq!(buffer.feed("\n"), vec![receiving(), delta("partial")]);
    assert_eq!(buffer.pending_text(), "");
}

#[test]
fn receiving_is_published_once_per_stream() {
    let mut buffer = SseBuffer::new();
    assert_eq!(buffer.feed("data: a\n\n"), vec![receiving(), delta("a")]);
    assert_eq!(buffer.feed("data: b\n\n"), vec![delta("b")]);
    assert_eq!(buffer.feed(""), vec![]);
    assert!(buffer.seen_data());
}

#[test]
fn characters_beyond_ascii_pass_through() {
    let mut buffer = SseBuffer::new();
    assert_eq!(
        buffer.feed("data: 你好，世界 \u{fffd}\n\n"),
        vec![receiving(), delta("你好，世界 \u{fffd}")]
    );
    assert_eq!(
        buffer.feed("data: {\"content\":\"héllo\"}\n\n"),
        vec![structured("{\"content\":\"héllo\"}")]
    );
}

#[test]
fn classify_payload_by_cases() {
    assert_eq!(classify_payload("[DONE]".to_string(), false), StreamEvent::Done);
    assert_eq!(classify_payload("[DONE]".to_string(), true), StreamEvent::Done);
    assert_eq!(classify_payload("{\"a\":1}".to_string(), true), structured("{\"a\":1}"));
    assert_eq!(classify_payload("{\"a\":1}".to_string(), false), delta("{\"a\":1}"));
    assert_eq!(classify_payload("[DONE".to_string(), false), delta("[DONE"));
}
