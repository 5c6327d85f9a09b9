//! The decisions of one streaming run: what to do next, and what to publish,
//! for each thing that happens to the run. The caller does the waiting: it
//! sends the request, refreshes the session, reads the chunks, and reports
//! each outcome here.

use crate::api_client::{
    bearer, header_views, is_success_status, status_is_success, Header, HeaderView,
    QUOTED_BODY_LIMIT,
};
use crate::auth::{AuthStore, SessionView};
use crate::cancel::{CancellationHandle, HandleView, StreamCancelState, StreamKind};
use crate::sse::{
    event_views, fed, json_oracle, lemma_feed_split, BufferView, EventView, SseBuffer, StreamEvent,
    StreamPhase,
};
use crate::text::{decimal, decode_lossy, push_decimal, push_truncated, truncated, utf8_lossy};
use crate::vecs::reversed;
use vstd::prelude::*;
use vstd::string::*;

verus! {

/// The status that makes the run renew the access token.
pub const UNAUTHORIZED: u16 = 401;

/// The name of the process-wide signal that the session has expired.
pub const AUTH_EXPIRED_SIGNAL: &'static str = "auth-expired";

/// The code that the signal carries.
pub const AUTH_EXPIRED_CODE: &'static str = "UNAUTHORIZED";

/// Where a run stands.
#[derive(Clone, Copy, Debug, PartialEq, Eq, Structural)]
pub enum RelayStage {
    /// The request is out for the first time.
    AwaitingResponse,
    /// The first response was unauthorized; the session is being refreshed.
    Refreshing,
    /// The request is out again, after a refresh.
    AwaitingRetry,
    /// The final status was no success; its body is being read.
    ReadingError,
    /// The response body is being read chunk by chunk.
    Streaming,
    /// The run is over. Nothing is published any more.
    Finished,
}

/// What the caller does next for the run.
#[derive(Clone, Debug, PartialEq, Eq)]
pub enum RelayAction {
    /// Publish the event on the channel of the run's kind.
    Publish(StreamEvent),
    /// Raise the process-wide signal that the session has expired.
    SignalAuthExpired,
    /// Send the request with these headers, then report the response.
    Send(Vec<Header>),
    /// Refresh the session, then report whether that succeeded.
    Refresh,
    /// Read the response body as text, then report it.
    ReadErrorBody,
    /// Read the next chunk of the response body, then report it.
    ReadChunk,
}

/// An action with its texts as character sequences.
pub enum ActionView {
    Publish(EventView),
    SignalAuthExpired,
    Send(Seq<HeaderView>),
    Refresh,
    ReadErrorBody,
    ReadChunk,
}

impl View for RelayAction {
    type V = ActionView;

    open spec fn view(&self) -> ActionView {
        match self {
            RelayAction::Publish(e) => ActionView::Publish(e@),
            RelayAction::SignalAuthExpired => ActionView::SignalAuthExpired,
            RelayAction::Send(h) => ActionView::Send(header_views(h@)),
            RelayAction::Refresh => ActionView::Refresh,
            RelayAction::ReadErrorBody => ActionView::ReadErrorBody,
            RelayAction::ReadChunk => ActionView::ReadChunk,
        }
    }
}

/// The views of a sequence of actions, in order.
pub open spec fn action_views(actions: Seq<RelayAction>) -> Seq<ActionView> {
    actions.map_values(|a: RelayAction| a@)
}

/// One `Publish` per event, in order.
pub open spec fn publish_all(events: Seq<EventView>) -> Seq<ActionView> {
    events.map_values(|e: EventView| ActionView::Publish(e))
}

/// The headers of a streaming request: it asks for an event stream, carries
/// JSON, names the client, and bears the access token if there is one.
pub open spec fn stream_headers(session: SessionView) -> Seq<HeaderView> {
    let fixed = seq![
        HeaderView { name: "Accept"@, value: "text/event-stream"@ },
        HeaderView { name: "Content-Type"@, value: "application/json"@ },
        HeaderView { name: "X-Client"@, value: session.client_type },
    ];
    match session.access_token {
        Some(token) => fixed.push(
            HeaderView { name: "Authorization"@, value: "Bearer "@ + token },
        ),
        None => fixed,
    }
}

/// What `reqwest::StatusCode` displays for a status code that it accepts: the
/// code and its canonical reason phrase.
pub uninterp spec fn status_display(code: u16) -> Seq<char>;

/// The codes that `reqwest::StatusCode::from_u16` accepts.
pub open spec fn is_status_code(code: u16) -> bool {
    100 <= code <= 999
}

/// Makes a `reqwest::StatusCode` of `code` with `from_u16` and formats it with
/// its `Display`. Trusted: `from_u16` accepts the codes from 100 to 999 and
/// no other, and the text depends on the code alone.
#[verifier::external_body]
fn display_status(code: u16) -> (text: Option<String>)
    ensures
        text is Some <==> is_status_code(code),
        text is Some ==> text->0@ == status_display(code),
{
    match reqwest::StatusCode::from_u16(code) {
        Ok(status) => Some(status.to_string()),
        Err(_) => None,
    }
}

/// How a status reads in an error message: as `reqwest` displays it, or as a
/// bare number where `reqwest` has no status of that code.
pub open spec fn status_text(code: u16) -> Seq<char> {
    if is_status_code(code) {
        status_display(code)
    } else {
        decimal(code as nat)
    }
}

/// The message of the error event for a response without success status.
pub open spec fn http_error(status: Seq<char>, body: Seq<char>) -> Seq<char> {
    "HTTP "@ + status + ": "@ + truncated(body, QUOTED_BODY_LIMIT as nat)
}

/// The message of the error event for a request that got no response.
pub open spec fn send_error(message: Seq<char>) -> Seq<char> {
    "Request failed: "@ + message
}

/// The message of the error event for a body that could not be read on.
pub open spec fn read_error(message: Seq<char>) -> Seq<char> {
    "Stream error: "@ + message
}

/// A run as a value.
pub struct RelayView {
    pub handle: HandleView,
    pub stage: RelayStage,
    /// The final status of the response, once there is one.
    pub status: u16,
    pub buffer: BufferView,
}

/// One decision: the run afterwards, and what the caller is to do.
pub struct Step {
    pub next: RelayView,
    pub actions: Seq<ActionView>,
}

impl RelayView {
    /// The run stays as it is and nothing is to be done.
    pub open spec fn ignore(self) -> Step {
        Step { next: self, actions: seq![] }
    }

    /// The run is over, and `actions` are its last.
    pub open spec fn finish(self, actions: Seq<ActionView>) -> Step {
        Step { next: RelayView { stage: RelayStage::Finished, ..self }, actions }
    }

    /// A run that begins: it holds a fresh handle and sends the request.
    pub open spec fn start(handle: HandleView, session: SessionView) -> Step {
        Step {
            next: RelayView {
                handle,
                stage: RelayStage::AwaitingResponse,
                status: 0,
                buffer: BufferView { pending: seq![], seen: false },
            },
            actions: seq![
                ActionView::Publish(EventView::Phase(StreamPhase::Requesting)),
                ActionView::Send(stream_headers(session)),
            ],
        }
    }

    /// The request got no response.
    pub open spec fn on_send_failed(self, message: Seq<char>) -> Step {
        if self.stage == RelayStage::AwaitingResponse || self.stage == RelayStage::AwaitingRetry {
            self.finish(seq![ActionView::Publish(EventView::Error(send_error(message)))])
        } else {
            self.ignore()
        }
    }

    /// A response is in hand. An unauthorized first response leads to one
    /// refresh; every other response is final.
    pub open spec fn on_response(self, status: u16) -> Step {
        if self.stage == RelayStage::AwaitingResponse && status == UNAUTHORIZED {
            Step {
                next: RelayView { stage: RelayStage::Refreshing, ..self },
                actions: seq![ActionView::Refresh],
            }
        } else if self.stage == RelayStage::AwaitingResponse || self.stage
            == RelayStage::AwaitingRetry {
            let connected = ActionView::Publish(EventView::Phase(StreamPhase::Connected));
            if is_success_status(status) {
                Step {
                    next: RelayView { stage: RelayStage::Streaming, status, ..self },
                    actions: seq![connected, ActionView::ReadChunk],
                }
            } else {
                Step {
                    next: RelayView { stage: RelayStage::ReadingError, status, ..self },
                    actions: seq![connected, ActionView::ReadErrorBody],
                }
            }
        } else {
            self.ignore()
        }
    }

    /// The refresh has ended. After a success the request goes out once
    /// more, with the headers of the renewed session; after a failure the
    /// run is over.
    pub open spec fn on_refreshed(self, ok: bool, session: SessionView) -> Step {
        if self.stage == RelayStage::Refreshing {
            if ok {
                Step {
                    next: RelayView { stage: RelayStage::AwaitingRetry, ..self },
                    actions: seq![ActionView::Send(stream_headers(session))],
                }
            } else {
                self.finish(seq![ActionView::SignalAuthExpired])
            }
        } else {
            self.ignore()
        }
    }

    /// The body of a response without success status was read.
    pub open spec fn on_error_body(self, body: Seq<char>) -> Step {
        if self.stage == RelayStage::ReadingError {
            self.finish(
                seq![
                    ActionView::Publish(
                        EventView::Error(http_error(status_text(self.status), body)),
                    ),
                ],
            )
        } else {
            self.ignore()
        }
    }

    /// A chunk of text has arrived, and `cancelled` says whether the run's
    /// handle is cancelled. A cancelled run publishes `Done` and ends;
    /// otherwise the events of the chunk are published in order.
    pub open spec fn on_text(
        self,
        cancelled: bool,
        text: Seq<char>,
        parses: spec_fn(Seq<char>) -> bool,
    ) -> Step {
        if self.stage == RelayStage::Streaming {
            if cancelled {
                self.finish(seq![ActionView::Publish(EventView::Done)])
            } else {
                let decoded = fed(self.buffer, text, parses);
                Step {
                    next: RelayView { buffer: decoded.next, ..self },
                    actions: publish_all(decoded.events).push(ActionView::ReadChunk),
                }
            }
        } else {
            self.ignore()
        }
    }

    /// The body could not be read on.
    pub open spec fn on_read_failed(self, message: Seq<char>) -> Step {
        if self.stage == RelayStage::Streaming {
            self.finish(seq![ActionView::Publish(EventView::Error(read_error(message)))])
        } else {
            self.ignore()
        }
    }

    /// The body has ended.
    pub open spec fn on_end(self) -> Step {
        if self.stage == RelayStage::Streaming {
            self.finish(seq![])
        } else {
            self.ignore()
        }
    }
}

/// The headers of a streaming request for a session with this access token
/// and client type.
pub fn headers_for(store: &AuthStore) -> (headers: Vec<Header>)
    ensures
        header_views(headers@) == stream_headers(store@.session),
{
    let mut headers: Vec<Header> = Vec::new();
    headers.push(
        Header { name: String::from_str("Accept"), value: String::from_str("text/event-stream") },
    );
    headers.push(
        Header {
            name: String::from_str("Content-Type"),
            value: String::from_str("application/json"),
        },
    );
    headers.push(Header { name: String::from_str("X-Client"), value: store.client_type() });
    match store.current_access_token() {
        Some(token) => {
            headers.push(
                Header { name: String::from_str("Authorization"), value: bearer(token.as_str()) },
            );
        },
        None => {},
    }
    headers
}

/// How `status` reads in an error message.
pub fn status_text_of(status: u16) -> (text: String)
    ensures
        text@ == status_text(status),
{
    match display_status(status) {
        Some(text) => text,
        None => {
            let mut text = String::new();
            push_decimal(&mut text, status as u64);
            text
        },
    }
}

/// The message of the error event for a response without success status:
/// the status as `status` words it, and the start of the body.
pub fn http_error_message(status: &str, body: &str) -> (message: String)
    ensures
        message@ == http_error(status@, body@),
{
    let mut message = String::from_str("HTTP ");
    message.append(status);
    message.append(": ");
    push_truncated(&mut message, body, QUOTED_BODY_LIMIT);
    message
}

fn prefixed(prefix: &str, message: &str) -> (text: String)
    ensures
        text@ == prefix@ + message@,
{
    let mut text = String::from_str(prefix);
    text.append(message);
    text
}

fn one(action: RelayAction) -> (actions: Vec<RelayAction>)
    ensures
        action_views(actions@) == seq![action@],
{
    let mut actions: Vec<RelayAction> = Vec::new();
    actions.push(action);
    actions
}

fn none() -> (actions: Vec<RelayAction>)
    ensures
        action_views(actions@) == Seq::<ActionView>::empty(),
{
    Vec::new()
}

/// One `Publish` action per event, in order.
fn publish(events: Vec<StreamEvent>) -> (actions: Vec<RelayAction>)
    ensures
        action_views(actions@) == publish_all(event_views(events@)),
{
    let ghost all = events@;
    let mut stack = reversed(events);
    let mut actions: Vec<RelayAction> = Vec::new();
    let ghost mut done: int = 0;
    while stack.len() > 0
        invariant
            0 <= done <= all.len(),
            stack@ == all.skip(done).reverse(),
            action_views(actions@) == publish_all(event_views(all.take(done))),
        decreases stack.len(),
    {
        let ghost before = action_views(actions@);
        let event = stack.pop().unwrap();
        actions.push(RelayAction::Publish(event));
        proof {
            assert(action_views(actions@) =~= before.push(ActionView::Publish(event@)));
            done = done + 1;
        }
    }
    actions
}

/// One streaming run.
#[derive(Debug)]
pub struct Relay {
    handle: CancellationHandle,
    stage: RelayStage,
    status: u16,
    buffer: SseBuffer,
}

impl View for Relay {
    type V = RelayView;

    closed spec fn view(&self) -> RelayView {
        RelayView {
            handle: self.handle@,
            stage: self.stage,
            status: self.status,
            buffer: self.buffer@,
        }
    }
}

impl Relay {
    /// Begins a run of `kind`: takes a fresh handle from the registry, which
    /// supersedes the running stream of the kind, and has the request sent
    /// with the current access token.
    pub fn start(
        registry: &mut StreamCancelState,
        kind: StreamKind,
        store: &AuthStore,
    ) -> (run: (Relay, Vec<RelayAction>))
        requires
            old(registry)@.slot(kind).serial < u64::MAX,
        ensures
            final(registry)@ == old(registry)@.new_handle(kind),
            run.0@ == RelayView::start(old(registry)@.next_handle(kind), store@.session).next,
            action_views(run.1@) == RelayView::start(
                old(registry)@.next_handle(kind),
                store@.session,
            ).actions,
            !final(registry)@.is_cancelled(run.0@.handle),
    {
        let handle = registry.new_handle(kind);
        let relay = Relay {
            handle,
            stage: RelayStage::AwaitingResponse,
            status: 0,
            buffer: SseBuffer::new(),
        };
        let mut actions: Vec<RelayAction> = Vec::new();
        actions.push(RelayAction::Publish(StreamEvent::Phase(StreamPhase::Requesting)));
        actions.push(RelayAction::Send(headers_for(store)));
        (relay, actions)
    }

    /// The handle that the run polls.
    pub fn handle(&self) -> (handle: CancellationHandle)
        ensures
            handle@ == self@.handle,
    {
        self.handle
    }

    /// Where the run stands.
    pub fn stage(&self) -> (stage: RelayStage)
        ensures
            stage == self@.stage,
    {
        self.stage
    }

    /// Whether the run is over.
    pub fn is_finished(&self) -> (yes: bool)
        ensures
            yes == (self@.stage == RelayStage::Finished),
    {
        match self.stage {
            RelayStage::Finished => true,
            _ => false,
        }
    }

    fn awaits_response(&self) -> (yes: bool)
        ensures
            yes == (self@.stage == RelayStage::AwaitingResponse || self@.stage
                == RelayStage::AwaitingRetry),
    {
        match self.stage {
            RelayStage::AwaitingResponse => true,
            RelayStage::AwaitingRetry => true,
            _ => false,
        }
    }

    fn is_streaming(&self) -> (yes: bool)
        ensures
            yes == (self@.stage == RelayStage::Streaming),
    {
        match self.stage {
            RelayStage::Streaming => true,
            _ => false,
        }
    }

    /// The request got no response: the run ends with an error event.
    pub fn on_send_failed(&mut self, message: &str) -> (actions: Vec<RelayAction>)
        ensures
            final(self)@ == old(self)@.on_send_failed(message@).next,
            action_views(actions@) == old(self)@.on_send_failed(message@).actions,
    {
        if self.awaits_response() {
            self.stage = RelayStage::Finished;
            one(RelayAction::Publish(StreamEvent::Error(prefixed("Request failed: ", message))))
        } else {
            none()
        }
    }

    /// A response with `status` is in hand.
    pub fn on_response(&mut self, status: u16) -> (actions: Vec<RelayAction>)
        ensures
            final(self)@ == old(self)@.on_response(status).next,
            action_views(actions@) == old(self)@.on_response(status).actions,
    {
        let first = match self.stage {
            RelayStage::AwaitingResponse => true,
            _ => false,
        };
        if first && status == UNAUTHORIZED {
            self.stage = RelayStage::Refreshing;
            one(RelayAction::Refresh)
        } else if self.awaits_response() {
            self.status = status;
            let mut actions: Vec<RelayAction> = Vec::new();
            actions.push(RelayAction::Publish(StreamEvent::Phase(StreamPhase::Connected)));
            if status_is_success(status) {
                self.stage = RelayStage::Streaming;
                actions.push(RelayAction::ReadChunk);
            } else {
                self.stage = RelayStage::ReadingError;
                actions.push(RelayAction::ReadErrorBody);
            }
            actions
        } else {
            none()
        }
    }

    /// The refresh that the run asked for has ended, with success or not.
    pub fn on_refreshed(&mut self, ok: bool, store: &AuthStore) -> (actions: Vec<RelayAction>)
        ensures
            final(self)@ == old(self)@.on_refreshed(ok, store@.session).next,
            action_views(actions@) == old(self)@.on_refreshed(ok, store@.session).actions,
    {
        let refreshing = match self.stage {
            RelayStage::Refreshing => true,
            _ => false,
        };
        if !refreshing {
            none()
        } else if ok {
            self.stage = RelayStage::AwaitingRetry;
            one(RelayAction::Send(headers_for(store)))
        } else {
            self.stage = RelayStage::Finished;
            one(RelayAction::SignalAuthExpired)
        }
    }

    /// The body of the response without success status was read: the run
    /// ends with an error event that names the status and quotes the body.
    pub fn on_error_body(&mut self, body: &str) -> (actions: Vec<RelayAction>)
        ensures
            final(self)@ == old(self)@.on_error_body(body@).next,
            action_views(actions@) == old(self)@.on_error_body(body@).actions,
    {
        let reading = match self.stage {
            RelayStage::ReadingError => true,
            _ => false,
        };
        if reading {
            self.stage = RelayStage::Finished;
            let status = status_text_of(self.status);
            one(
                RelayAction::Publish(
                    StreamEvent::Error(http_error_message(status.as_str(), body)),
                ),
            )
        } else {
            none()
        }
    }

    /// A chunk of text has arrived, after the run's handle was polled with
    /// the result `cancelled`.
    pub fn on_text(&mut self, cancelled: bool, text: &str) -> (actions: Vec<RelayAction>)
        ensures
            final(self)@ == old(self)@.on_text(cancelled, text@, json_oracle()).next,
            action_views(actions@) == old(self)@.on_text(cancelled, text@, json_oracle()).actions,
    {
        if !self.is_streaming() {
            none()
        } else if cancelled {
            self.stage = RelayStage::Finished;
            one(RelayAction::Publish(StreamEvent::Done))
        } else {
            let events = self.buffer.feed(text);
            let mut actions = publish(events);
            actions.push(RelayAction::ReadChunk);
            actions
        }
    }

    /// A chunk of the response body has arrived. The run's handle is polled
    /// first: a cancelled run publishes `Done` and ends without looking at
    /// the chunk. Otherwise the chunk is read as text, invalid UTF-8 giving
    /// replacement characters, and its events are published in order.
    pub fn on_chunk(
        &mut self,
        registry: &StreamCancelState,
        bytes: &[u8],
    ) -> (actions: Vec<RelayAction>)
        ensures
            final(self)@ == old(self)@.on_text(
                registry@.is_cancelled(old(self)@.handle),
                utf8_lossy(bytes@),
                json_oracle(),
            ).next,
            action_views(actions@) == old(self)@.on_text(
                registry@.is_cancelled(old(self)@.handle),
                utf8_lossy(bytes@),
                json_oracle(),
            ).actions,
    {
        let cancelled = registry.is_cancelled(&self.handle);
        if cancelled {
            self.on_text(true, "")
        } else {
            let text = decode_lossy(bytes);
            self.on_text(false, text.as_str())
        }
    }

    /// The body could not be read on: the run ends with an error event.
    pub fn on_read_failed(&mut self, message: &str) -> (actions: Vec<RelayAction>)
        ensures
            final(self)@ == old(self)@.on_read_failed(message@).next,
            action_views(actions@) == old(self)@.on_read_failed(message@).actions,
    {
        if self.is_streaming() {
            self.stage = RelayStage::Finished;
            one(RelayAction::Publish(StreamEvent::Error(prefixed("Stream error: ", message))))
        } else {
            none()
        }
    }

    /// The body has ended: so does the run, with nothing more to publish.
    pub fn on_end(&mut self) -> (actions: Vec<RelayAction>)
        ensures
            final(self)@ == old(self)@.on_end().next,
            action_views(actions@) == old(self)@.on_end().actions,
    {
        if self.is_streaming() {
            self.stage = RelayStage::Finished;
        }
        none()
    }
}

/// A run that is over stays over: whatever is reported to it, it publishes
/// nothing, asks for nothing and does not change.
pub proof fn lemma_finished_is_final(
    relay: RelayView,
    text: Seq<char>,
    status: u16,
    flag: bool,
    session: SessionView,
    parses: spec_fn(Seq<char>) -> bool,
)
    requires
        relay.stage == RelayStage::Finished,
    ensures
        relay.on_send_failed(text) == relay.ignore(),
        relay.on_response(status) == relay.ignore(),
        relay.on_refreshed(flag, session) == relay.ignore(),
        relay.on_error_body(text) == relay.ignore(),
        relay.on_text(flag, text, parses) == relay.ignore(),
        relay.on_read_failed(text) == relay.ignore(),
        relay.on_end() == relay.ignore(),
{
}

/// The last thing that a run does for the UI: it publishes `Done` or an
/// error, or signals that the session has expired.
pub open spec fn is_last_word(action: ActionView) -> bool {
    match action {
        ActionView::Publish(EventView::Done) => true,
        ActionView::Publish(EventView::Error(_)) => true,
        ActionView::SignalAuthExpired => true,
        _ => false,
    }
}

/// A step that ends the run comes with its last word and nothing else, or
/// with nothing at all.
pub open spec fn ends_well(relay: RelayView, step: Step) -> bool {
    relay.stage != RelayStage::Finished && step.next.stage == RelayStage::Finished ==> {
        ||| step.actions.len() == 0
        ||| step.actions.len() == 1 && is_last_word(step.actions[0])
    }
}

/// However a run ends, the UI is told once: by `Done` for a cancelled run, by
/// an error event for a request, a status or a read that failed, by the
/// signal for a session that could not be renewed. Only a body that ends by
/// itself ends the run without a word.
pub proof fn lemma_runs_end_well(
    relay: RelayView,
    text: Seq<char>,
    status: u16,
    flag: bool,
    session: SessionView,
    parses: spec_fn(Seq<char>) -> bool,
)
    ensures
        ends_well(relay, relay.on_send_failed(text)),
        ends_well(relay, relay.on_response(status)),
        ends_well(relay, relay.on_refreshed(flag, session)),
        ends_well(relay, relay.on_error_body(text)),
        ends_well(relay, relay.on_text(flag, text, parses)),
        ends_well(relay, relay.on_read_failed(text)),
        ends_well(relay, relay.on_end()),
        relay.on_end().actions.len() == 0,
{
}

/// A chunk that arrives after the run's handle was cancelled is not looked
/// at: the run publishes `Done`, asks for no further chunk, and is over.
pub proof fn lemma_cancelled_run_stops(
    relay: RelayView,
    text: Seq<char>,
    parses: spec_fn(Seq<char>) -> bool,
)
    requires
        relay.stage == RelayStage::Streaming,
    ensures
        relay.on_text(true, text, parses).actions == seq![ActionView::Publish(EventView::Done)],
        relay.on_text(true, text, parses).next.stage == RelayStage::Finished,
{
}

/// At most one refresh per run: after the refresh the run never asks for
/// another, whatever status the second response has.
pub proof fn lemma_one_refresh_per_run(relay: RelayView, status: u16)
    requires
        relay.stage == RelayStage::AwaitingRetry,
    ensures
        !relay.on_response(status).actions.contains(ActionView::Refresh),
        relay.on_response(status).next.stage == RelayStage::Streaming || relay.on_response(
            status,
        ).next.stage == RelayStage::ReadingError,
{
    let actions = relay.on_response(status).actions;
    assert(actions.len() == 2 && actions[0] != ActionView::Refresh && actions[1]
        != ActionView::Refresh);
}

/// The events that a run publishes for a text do not depend on how the text
/// is cut into chunks: two chunks in a row publish what their concatenation
/// publishes, and leave the run in the same state.
pub proof fn lemma_text_split(
    relay: RelayView,
    a: Seq<char>,
    b: Seq<char>,
    parses: spec_fn(Seq<char>) -> bool,
)
    requires
        relay.stage == RelayStage::Streaming,
    ensures
        ({
            let first = relay.on_text(false, a, parses);
            let second = first.next.on_text(false, b, parses);
            let whole = relay.on_text(false, a + b, parses);
            &&& whole.next == second.next
            &&& whole.actions == publish_all(
                fed(relay.buffer, a, parses).events + fed(
                    fed(relay.buffer, a, parses).next,
                    b,
                    parses,
                ).events,
            ).push(ActionView::ReadChunk)
            &&& first.actions == publish_all(fed(relay.buffer, a, parses).events).push(
                ActionView::ReadChunk,
            )
            &&& second.actions == publish_all(
                fed(fed(relay.buffer, a, parses).next, b, parses).events,
            ).push(ActionView::ReadChunk)
        }),
{
    lemma_feed_split(relay.buffer, a, b, parses);
}

/// The same for chunks of bytes, where the cut falls between two characters:
/// then the text of the whole is the text of the one chunk followed by the
/// text of the other, and the run decodes it as it decodes the two.
pub proof fn lemma_byte_split(
    relay: RelayView,
    a: Seq<u8>,
    b: Seq<u8>,
    parses: spec_fn(Seq<char>) -> bool,
)
    requires
        relay.stage == RelayStage::Streaming,
        utf8_lossy(a + b) == utf8_lossy(a) + utf8_lossy(b),
    ensures
        ({
            let first = relay.on_text(false, utf8_lossy(a), parses);
            let second = first.next.on_text(false, utf8_lossy(b), parses);
            let whole = relay.on_text(false, utf8_lossy(a + b), parses);
            &&& whole.next == second.next
            &&& whole.actions == publish_all(
                fed(relay.buffer, utf8_lossy(a), parses).events + fed(
                    fed(relay.buffer, utf8_lossy(a), parses).next,
                    utf8_lossy(b),
                    parses,
                ).events,
            ).push(ActionView::ReadChunk)
        }),
{
    lemma_text_split(relay, utf8_lossy(a), utf8_lossy(b), parses);
}

} // verus!
