//! The SSE frame decoder: a growing text buffer goes in, stream events
//! come out, and an incomplete last frame waits for more text.

use crate::frame::{
    after_first_frame, data_frame, delimiter_at, find_delimiter, first_delimiter, first_frame,
    frame_payload, has_frame, lemma_data_frame, lemma_frame_len, lemma_frame_stable, payload_of,
};
use crate::text::{push_text, same_text, text_of};
use vstd::prelude::*;
use vstd::string::*;

verus! {

/// A stage of a stream's life that the UI is told about.
#[derive(Clone, Copy, Debug, PartialEq, Eq, Structural)]
pub enum StreamPhase {
    /// The request is about to be sent.
    Requesting,
    /// A response with a final status is in hand.
    Connected,
    /// The first payload of the stream has arrived.
    Receiving,
}

impl StreamPhase {
    /// The name of the phase on the wire.
    pub open spec fn wire_name(self) -> Seq<char> {
        match self {
            StreamPhase::Requesting => "requesting"@,
            StreamPhase::Connected => "connected"@,
            StreamPhase::Receiving => "receiving"@,
        }
    }

    /// The name of the phase on the wire.
    pub fn name(&self) -> (name: &'static str)
        ensures
            name@ == self.wire_name(),
    {
        match self {
            StreamPhase::Requesting => "requesting",
            StreamPhase::Connected => "connected",
            StreamPhase::Receiving => "receiving",
        }
    }
}

/// What a stream publishes to the UI.
#[derive(Clone, Debug, PartialEq, Eq)]
pub enum StreamEvent {
    Phase(StreamPhase),
    /// A payload that is no JSON text, passed on as raw text.
    Delta(String),
    /// A payload that is JSON text, passed on as it came.
    Structured(String),
    /// The current exchange is complete.
    Done,
    Error(String),
}

/// A stream event with its texts as character sequences.
pub enum EventView {
    Phase(StreamPhase),
    Delta(Seq<char>),
    Structured(Seq<char>),
    Done,
    Error(Seq<char>),
}

impl View for StreamEvent {
    type V = EventView;

    open spec fn view(&self) -> EventView {
        match self {
            StreamEvent::Phase(p) => EventView::Phase(*p),
            StreamEvent::Delta(t) => EventView::Delta(t@),
            StreamEvent::Structured(t) => EventView::Structured(t@),
            StreamEvent::Done => EventView::Done,
            StreamEvent::Error(t) => EventView::Error(t@),
        }
    }
}

impl EventView {
    /// The value of the field `type` of the event on the wire; a structured
    /// event has none of its own making, it goes out as it came.
    pub open spec fn wire_type(self) -> Option<Seq<char>> {
        match self {
            EventView::Phase(_) => Some("phase"@),
            EventView::Delta(_) => Some("delta"@),
            EventView::Structured(_) => None,
            EventView::Done => Some("done"@),
            EventView::Error(_) => Some("error"@),
        }
    }
}

impl StreamEvent {
    /// The value of the field `type` of the event on the wire.
    pub fn wire_type_name(&self) -> (name: Option<&'static str>)
        ensures
            match name {
                Some(n) => self@.wire_type() == Some(n@),
                None => self@.wire_type() is None,
            },
    {
        match self {
            StreamEvent::Phase(_) => Some("phase"),
            StreamEvent::Delta(_) => Some("delta"),
            StreamEvent::Structured(_) => None,
            StreamEvent::Done => Some("done"),
            StreamEvent::Error(_) => Some("error"),
        }
    }
}

/// The views of a sequence of events, in order.
pub open spec fn event_views(events: Seq<StreamEvent>) -> Seq<EventView> {
    events.map_values(|e: StreamEvent| e@)
}

/// Whether `serde_json` accepts a text as one JSON value.
pub uninterp spec fn json_parses(text: Seq<char>) -> bool;

/// `json_parses` as a function value, the recogniser that `SseBuffer::feed`
/// decodes with.
pub open spec fn json_oracle() -> spec_fn(Seq<char>) -> bool {
    |text: Seq<char>| json_parses(text)
}

/// Calls `serde_json::from_str` for a `serde_json::Value` and says whether it
/// returned `Ok`. Trusted: the outcome depends on the text alone, and the
/// parser returns an error rather than panic on any input.
#[verifier::external_body]
fn is_json(text: &str) -> (ok: bool)
    ensures
        ok == json_parses(text@),
{
    serde_json::from_str::<serde_json::Value>(text).is_ok()
}

/// The payload that marks the end of an exchange.
pub open spec fn sentinel() -> Seq<char> {
    "[DONE]"@
}

/// The event that a non-empty payload stands for, given whether it is JSON.
pub open spec fn event_of(payload: Seq<char>, parses: bool) -> EventView {
    if payload == sentinel() {
        EventView::Done
    } else if parses {
        EventView::Structured(payload)
    } else {
        EventView::Delta(payload)
    }
}

/// The non-empty payloads of the complete frames of `s`, in order.
pub open spec fn payloads(s: Seq<char>) -> Seq<Seq<char>>
    decreases s.len(),
{
    if has_frame(s) {
        let payload = frame_payload(first_frame(s));
        let rest = payloads(after_first_frame(s));
        if payload.len() == 0 {
            rest
        } else {
            seq![payload] + rest
        }
    } else {
        seq![]
    }
}

/// What is left of `s` after its complete frames: the incomplete last frame.
pub open spec fn pending(s: Seq<char>) -> Seq<char>
    decreases s.len(),
{
    if has_frame(s) {
        pending(after_first_frame(s))
    } else {
        s
    }
}

/// The events for a run of payloads: one event each, after a `Receiving`
/// phase if these are the first payloads of the stream.
pub open spec fn events_of(
    ps: Seq<Seq<char>>,
    seen: bool,
    parses: spec_fn(Seq<char>) -> bool,
) -> Seq<EventView> {
    let each = ps.map_values(|p: Seq<char>| event_of(p, parses(p)));
    if !seen && ps.len() > 0 {
        seq![EventView::Phase(StreamPhase::Receiving)] + each
    } else {
        each
    }
}

/// State of a decoder between two chunks.
pub struct BufferView {
    /// Text of the incomplete last frame.
    pub pending: Seq<char>,
    /// Whether the stream has had a payload yet.
    pub seen: bool,
}

impl BufferView {
    /// A decoder never keeps a complete frame.
    pub open spec fn wf(self) -> bool {
        !has_frame(self.pending)
    }
}

/// Outcome of feeding a decoder: its next state and the events to publish.
pub struct Fed {
    pub next: BufferView,
    pub events: Seq<EventView>,
}

/// Feeding `text` to a decoder in state `state`.
pub open spec fn fed(
    state: BufferView,
    text: Seq<char>,
    parses: spec_fn(Seq<char>) -> bool,
) -> Fed {
    let all = state.pending + text;
    let ps = payloads(all);
    Fed {
        next: BufferView { pending: pending(all), seen: state.seen || ps.len() > 0 },
        events: events_of(ps, state.seen, parses),
    }
}

/// Feeding `chunks` to a decoder one after the other.
pub open spec fn fed_all(
    state: BufferView,
    chunks: Seq<Seq<char>>,
    parses: spec_fn(Seq<char>) -> bool,
) -> Fed
    decreases chunks.len(),
{
    if chunks.len() == 0 {
        Fed { next: state, events: seq![] }
    } else {
        let first = fed(state, chunks[0], parses);
        let rest = fed_all(first.next, chunks.drop_first(), parses);
        Fed { next: rest.next, events: first.events + rest.events }
    }
}

/// `chunks` put together into one text.
pub open spec fn joined(chunks: Seq<Seq<char>>) -> Seq<char>
    decreases chunks.len(),
{
    if chunks.len() == 0 {
        seq![]
    } else {
        chunks[0] + joined(chunks.drop_first())
    }
}

/// One more payload adds its event, after the `Receiving` phase if it is the
/// first payload of the stream.
proof fn lemma_events_push(
    ps: Seq<Seq<char>>,
    p: Seq<char>,
    seen: bool,
    parses: spec_fn(Seq<char>) -> bool,
)
    ensures
        events_of(ps.push(p), seen, parses) == events_of(ps, seen, parses) + events_of(
            seq![p],
            seen || ps.len() > 0,
            parses,
        ),
{
}

/// What a decoder keeps holds no complete frame.
pub proof fn lemma_pending_is_partial(s: Seq<char>)
    ensures
        !has_frame(pending(s)),
    decreases s.len(),
{
    if has_frame(s) {
        lemma_pending_is_partial(after_first_frame(s));
    }
}

/// Text that arrives after `s` changes nothing about the frames that `s`
/// completes: their payloads come first, and the rest is decoded from what
/// `s` left pending.
pub proof fn lemma_decode_append(s: Seq<char>, more: Seq<char>)
    ensures
        payloads(s + more) == payloads(s) + payloads(pending(s) + more),
        pending(s + more) == pending(pending(s) + more),
    decreases s.len(),
{
    if has_frame(s) {
        lemma_frame_stable(s, more);
        lemma_decode_append(after_first_frame(s), more);
    }
}

/// Chunk boundaries do not matter: feeding a text in two chunks leaves the
/// decoder in the state, and publishes the events, of feeding it in one.
pub proof fn lemma_feed_split(
    state: BufferView,
    a: Seq<char>,
    b: Seq<char>,
    parses: spec_fn(Seq<char>) -> bool,
)
    ensures
        fed(state, a + b, parses).next == fed(fed(state, a, parses).next, b, parses).next,
        fed(state, a + b, parses).events == fed(state, a, parses).events + fed(
            fed(state, a, parses).next,
            b,
            parses,
        ).events,
{
    let s = state.pending + a;
    assert(state.pending + (a + b) =~= s + b);
    lemma_decode_append(s, b);
}

/// Chunk boundaries do not matter, for any number of chunks: feeding them
/// one after the other is feeding their concatenation at once.
pub proof fn lemma_feed_chunks(
    state: BufferView,
    chunks: Seq<Seq<char>>,
    parses: spec_fn(Seq<char>) -> bool,
)
    requires
        state.wf(),
    ensures
        fed_all(state, chunks, parses) == fed(state, joined(chunks), parses),
    decreases chunks.len(),
{
    if chunks.len() == 0 {
        assert(fed(state, joined(chunks), parses).events =~= Seq::<EventView>::empty());
    } else {
        let first = fed(state, chunks[0], parses);
        lemma_pending_is_partial(state.pending + chunks[0]);
        lemma_feed_chunks(first.next, chunks.drop_first(), parses);
        lemma_feed_split(state, chunks[0], joined(chunks.drop_first()), parses);
    }
}

/// A frame that is followed by a delimiter and more text is decoded on its
/// own, and decoding goes on with the text after the delimiter. The frame
/// must not end in a line feed, nor hold a delimiter itself.
pub proof fn lemma_frame_then_rest(frame: Seq<char>, rest: Seq<char>)
    requires
        forall|j: int| 0 <= j ==> !delimiter_at(frame + seq!['\n'], j),
    ensures
        payloads(frame + seq!['\n', '\n'] + rest) == if frame_payload(frame).len() == 0 {
            payloads(rest)
        } else {
            seq![frame_payload(frame)] + payloads(rest)
        },
        pending(frame + seq!['\n', '\n'] + rest) == pending(rest),
{
    let s = frame + seq!['\n', '\n'] + rest;
    let n = frame.len() as int;
    assert forall|j: int| 0 <= j < n implies !delimiter_at(s, j) by {
        assert(!delimiter_at(frame + seq!['\n'], j));
    }
    lemma_frame_len(s, n);
    assert(first_frame(s) =~= frame);
    assert(after_first_frame(s) =~= rest);
}

/// A frame with a payload on one data line gives that payload, and decoding
/// goes on behind its delimiter. The payload must not be empty, hold no line
/// feed and not end in a carriage return.
pub proof fn lemma_one_line_frame(payload: Seq<char>, rest: Seq<char>)
    requires
        payload.len() > 0,
        forall|i: int| 0 <= i < payload.len() ==> payload[i] != '\n',
        payload.last() != '\r',
    ensures
        payloads(data_frame(payload) + seq!['\n', '\n'] + rest) == seq![payload] + payloads(rest),
        pending(data_frame(payload) + seq!['\n', '\n'] + rest) == pending(rest),
{
    let frame = data_frame(payload);
    assert forall|j: int| 0 <= j implies !delimiter_at(frame + seq!['\n'], j) by {
        if 6 <= j < frame.len() {
            assert(frame[j] == payload[j - 6]);
        }
    }
    lemma_data_frame(payload);
    lemma_frame_then_rest(frame, rest);
}

/// What a fresh or a running decoder publishes for one such frame: the
/// `Receiving` phase if the stream has had no payload yet, and then `Done`
/// for the sentinel, the payload as a `Delta` where it is no JSON, and as a
/// `Structured` event where it is. Nothing stays pending.
pub proof fn lemma_one_line_frame_events(
    payload: Seq<char>,
    seen: bool,
    parses: spec_fn(Seq<char>) -> bool,
)
    requires
        payload.len() > 0,
        forall|i: int| 0 <= i < payload.len() ==> payload[i] != '\n',
        payload.last() != '\r',
    ensures
        ({
            let state = BufferView { pending: seq![], seen };
            let out = fed(state, data_frame(payload) + seq!['\n', '\n'], parses);
            let event = event_of(payload, parses(payload));
            &&& out.next == (BufferView { pending: seq![], seen: true })
            &&& out.events == if seen {
                seq![event]
            } else {
                seq![EventView::Phase(StreamPhase::Receiving), event]
            }
            &&& payload == sentinel() ==> event == EventView::Done
            &&& payload != sentinel() && !parses(payload) ==> event == EventView::Delta(payload)
            &&& payload != sentinel() && parses(payload) ==> event == EventView::Structured(
                payload,
            )
        }),
{
    let text = data_frame(payload) + seq!['\n', '\n'];
    let empty = Seq::<char>::empty();
    lemma_one_line_frame(payload, empty);
    assert(text + empty =~= text);
    assert(empty + text =~= text);
    assert(!has_frame(empty)) by {
        if has_frame(empty) {
            assert(delimiter_at(empty, choose|i: int| first_delimiter(empty, i)));
        }
    }
    assert(payloads(text) =~= seq![payload]);
}

/// Every payload gets exactly one event, in order: `Done` for the sentinel,
/// the payload itself as a `Delta` where it is no JSON, as a `Structured`
/// event where it is. Nothing else is published but one `Receiving` phase
/// ahead of the first payload of the stream.
pub proof fn lemma_event_per_payload(
    ps: Seq<Seq<char>>,
    seen: bool,
    parses: spec_fn(Seq<char>) -> bool,
    k: int,
)
    requires
        0 <= k < ps.len(),
    ensures
        ({
            let events = events_of(ps, seen, parses);
            let ahead: int = if seen { 0 } else { 1 };
            &&& events.len() == ps.len() + ahead
            &&& !seen ==> events[0] == EventView::Phase(StreamPhase::Receiving)
            &&& ps[k] == sentinel() ==> events[k + ahead] == EventView::Done
            &&& ps[k] != sentinel() && !parses(ps[k]) ==> events[k + ahead] == EventView::Delta(
                ps[k],
            )
            &&& ps[k] != sentinel() && parses(ps[k]) ==> events[k + ahead]
                == EventView::Structured(ps[k])
        }),
{
}

/// How many of `events` are `Done`.
pub open spec fn done_count(events: Seq<EventView>) -> nat
    decreases events.len(),
{
    if events.len() == 0 {
        0
    } else {
        done_count(events.drop_last()) + if events.last() is Done { 1nat } else { 0nat }
    }
}

/// How many of `ps` are the sentinel.
pub open spec fn sentinel_count(ps: Seq<Seq<char>>) -> nat
    decreases ps.len(),
{
    if ps.len() == 0 {
        0
    } else {
        sentinel_count(ps.drop_last()) + if ps.last() == sentinel() { 1nat } else { 0nat }
    }
}

/// One more event counts if it is `Done`.
proof fn lemma_done_count_push(events: Seq<EventView>, event: EventView)
    ensures
        done_count(events.push(event)) == done_count(events) + if event is Done {
            1nat
        } else {
            0nat
        },
{
    assert(events.push(event).drop_last() =~= events);
}

/// As many `Done` events are published as sentinel payloads were decoded.
pub proof fn lemma_done_per_sentinel(
    ps: Seq<Seq<char>>,
    seen: bool,
    parses: spec_fn(Seq<char>) -> bool,
)
    ensures
        done_count(events_of(ps, seen, parses)) == sentinel_count(ps),
    decreases ps.len(),
{
    let events = events_of(ps, seen, parses);
    if ps.len() > 0 {
        let before = ps.drop_last();
        let head = events_of(before, seen, parses);
        let last = event_of(ps.last(), parses(ps.last()));
        lemma_done_per_sentinel(before, seen, parses);
        if seen || before.len() > 0 {
            assert(events =~= head.push(last));
            lemma_done_count_push(head, last);
        } else {
            let phase = EventView::Phase(StreamPhase::Receiving);
            assert(events =~= Seq::<EventView>::empty().push(phase).push(last));
            lemma_done_count_push(Seq::<EventView>::empty(), phase);
            lemma_done_count_push(Seq::<EventView>::empty().push(phase), last);
        }
    }
}

/// Whether `payload` is the end-of-exchange sentinel.
fn is_sentinel(payload: &Vec<char>) -> (yes: bool)
    ensures
        yes == (payload@ == sentinel()),
{
    proof {
        reveal_strlit("[DONE]");
    }
    let yes = payload.len() == 6 && payload[0] == '[' && payload[1] == 'D' && payload[2] == 'O'
        && payload[3] == 'N' && payload[4] == 'E' && payload[5] == ']';
    if yes {
        assert(payload@ =~= sentinel());
    }
    yes
}

/// The event for a non-empty payload, given whether it parses as JSON.
pub fn classify_payload(payload: String, parses: bool) -> (event: StreamEvent)
    ensures
        event@ == event_of(payload@, parses),
{
    if same_text(payload.as_str(), "[DONE]") {
        StreamEvent::Done
    } else if parses {
        StreamEvent::Structured(payload)
    } else {
        StreamEvent::Delta(payload)
    }
}

/// The accumulating buffer of one stream's decoder.
#[derive(Debug)]
pub struct SseBuffer {
    pending: Vec<char>,
    seen: bool,
}

impl View for SseBuffer {
    type V = BufferView;

    closed spec fn view(&self) -> BufferView {
        BufferView { pending: self.pending@, seen: self.seen }
    }
}

impl SseBuffer {
    #[verifier::type_invariant]
    spec fn inv(self) -> bool {
        self@.wf()
    }

    /// An empty buffer for a stream that has had no payload yet.
    pub fn new() -> (buffer: SseBuffer)
        ensures
            buffer@ == (BufferView { pending: seq![], seen: false }),
            buffer@.wf(),
    {
        SseBuffer { pending: Vec::new(), seen: false }
    }

    /// Whether the stream has had a payload yet.
    pub fn seen_data(&self) -> (seen: bool)
        ensures
            seen == self@.seen,
    {
        self.seen
    }

    /// The buffered text of the incomplete last frame.
    pub fn pending_text(&self) -> (text: String)
        ensures
            text@ == self@.pending,
    {
        text_of(&self.pending)
    }

    /// Appends `incoming` to the buffer, takes every complete frame out of it
    /// and returns the events of their payloads in order. What follows the
    /// last frame delimiter stays buffered.
    pub fn feed(&mut self, incoming: &str) -> (events: Vec<StreamEvent>)
        ensures
            old(self)@.wf(),
            final(self)@.wf(),
            final(self)@ == fed(old(self)@, incoming@, json_oracle()).next,
            event_views(events@) == fed(old(self)@, incoming@, json_oracle()).events,
    {
        proof {
            use_type_invariant(&*self);
        }
        let ghost all = old(self)@.pending + incoming@;
        let ghost seen0 = old(self)@.seen;
        let mut seen = self.seen;
        let mut buf: Vec<char> = Vec::new();
        core::mem::swap(&mut buf, &mut self.pending);
        push_text(&mut buf, incoming);
        let mut events: Vec<StreamEvent> = Vec::new();
        let ghost mut done: Seq<Seq<char>> = seq![];
        let n = buf.len();
        let mut start: usize = 0;
        assert(all.subrange(0, n as int) =~= all);
        loop
            invariant
                buf@ == all,
                n == all.len(),
                start <= n,
                payloads(all) == done + payloads(all.subrange(start as int, n as int)),
                pending(all) == pending(all.subrange(start as int, n as int)),
                seen == (seen0 || done.len() > 0),
                event_views(events@) == events_of(done, seen0, json_oracle()),
            ensures
                !has_frame(all.subrange(start as int, n as int)),
            decreases n - start,
        {
            let ghost rest = all.subrange(start as int, n as int);
            let end = match find_delimiter(&buf, start) {
                Some(i) => i,
                None => {
                    break ;
                },
            };
            proof {
                assert(first_frame(rest) =~= all.subrange(start as int, end as int));
                assert(after_first_frame(rest) =~= all.subrange(end + 2, n as int));
            }
            let payload = payload_of(&buf, start, end);
            if payload.len() > 0 {
                if !seen {
                    seen = true;
                    events.push(StreamEvent::Phase(StreamPhase::Receiving));
                }
                let text = text_of(&payload);
                let parses = if is_sentinel(&payload) {
                    false
                } else {
                    is_json(text.as_str())
                };
                let event = classify_payload(text, parses);
                events.push(event);
                proof {
                    lemma_events_push(done, payload@, seen0, json_oracle());
                    done = done.push(payload@);
                }
            }
            start = end + 2;
        }
        let rest = buf.split_off(start);
        self.seen = seen;
        self.pending = rest;
        events
    }
}

} // verus!
