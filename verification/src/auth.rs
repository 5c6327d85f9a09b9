//! The auth session store: the current access token, the materials for
//! renewing it, and the decisions of the single-flight refresh.

use crate::api_client::{is_success_status, status_is_success};
use crate::models::{ApiResponse, LoginResponse};
use crate::text::{blank, clone_opt, is_blank, opt_view};
use vstd::prelude::*;
use vstd::string::*;

verus! {

/// The credentials of the signed-in user.
#[derive(Clone, Debug)]
pub struct AuthSession {
    pub access_token: Option<String>,
    pub refresh_token: Option<String>,
    pub session_key: Option<String>,
    pub user_id: Option<String>,
    pub client_type: String,
}

/// An `AuthSession` with its texts as character sequences.
pub struct SessionView {
    pub access_token: Option<Seq<char>>,
    pub refresh_token: Option<Seq<char>>,
    pub session_key: Option<Seq<char>>,
    pub user_id: Option<Seq<char>>,
    pub client_type: Seq<char>,
}

impl View for AuthSession {
    type V = SessionView;

    open spec fn view(&self) -> SessionView {
        SessionView {
            access_token: opt_view(self.access_token),
            refresh_token: opt_view(self.refresh_token),
            session_key: opt_view(self.session_key),
            user_id: opt_view(self.user_id),
            client_type: self.client_type@,
        }
    }
}

impl SessionView {
    /// The session of a client that nobody is signed in to.
    pub open spec fn signed_out() -> SessionView {
        SessionView {
            access_token: None,
            refresh_token: None,
            session_key: None,
            user_id: None,
            client_type: "desktop"@,
        }
    }

    /// Everything that a refresh call carries is there.
    pub open spec fn can_refresh(self) -> bool {
        self.refresh_token is Some && self.user_id is Some && self.session_key is Some
    }

    /// The session that a grant installs: all of it comes from the grant.
    pub open spec fn granted(grant: LoginResponse) -> SessionView {
        SessionView {
            access_token: Some(grant.access_token@),
            refresh_token: Some(grant.refresh_token@),
            session_key: Some(grant.session_key@),
            user_id: Some(grant.user.user_id@),
            client_type: grant.client_type@,
        }
    }
}

/// The body of a refresh call.
#[derive(Clone, Debug)]
pub struct RefreshRequest {
    pub refresh_token: String,
    pub user_id: String,
    pub client_type: String,
    pub session_key: String,
}

/// What the store answers to a caller that wants the token renewed.
#[derive(Clone, Debug)]
pub enum RefreshTicket {
    /// The caller makes the refresh call with this body and reports its
    /// outcome with `complete_refresh`.
    Perform(RefreshRequest),
    /// A refresh call is in flight: the caller waits for its outcome.
    Join,
    /// The session lacks what a refresh call carries: the refresh has failed.
    Unavailable,
}

/// How a refresh call ended.
#[derive(Clone, Debug)]
pub enum RefreshOutcome {
    /// No response came.
    Failed,
    /// A response came, with this status; `envelope` is its body if that was
    /// a reply envelope, and `None` for an empty or unreadable body.
    Replied { status: u16, envelope: Option<ApiResponse<LoginResponse>> },
}

/// The API path of the refresh call.
pub const REFRESH_PATH: &'static str = "/auth/refresh";

/// The grant that a refresh outcome carries, if the refresh succeeded: the
/// call was answered with a success status and an envelope that reports
/// success and holds data.
pub open spec fn grant_of(outcome: RefreshOutcome) -> Option<LoginResponse> {
    match outcome {
        RefreshOutcome::Replied { status, envelope: Some(envelope) } => {
            if is_success_status(status) && envelope.success {
                envelope.data
            } else {
                None
            }
        },
        _ => None,
    }
}

/// The store as a value.
pub struct StoreView {
    pub session: SessionView,
    /// A refresh call is in flight.
    pub refreshing: bool,
    /// How the last completed refresh ended.
    pub last_refresh: Option<bool>,
}

/// The answer of the store to one caller, as a value.
pub enum TicketView {
    Perform {
        refresh_token: Seq<char>,
        user_id: Seq<char>,
        client_type: Seq<char>,
        session_key: Seq<char>,
    },
    Join,
    Unavailable,
}

impl View for RefreshTicket {
    type V = TicketView;

    open spec fn view(&self) -> TicketView {
        match self {
            RefreshTicket::Perform(r) => TicketView::Perform {
                refresh_token: r.refresh_token@,
                user_id: r.user_id@,
                client_type: r.client_type@,
                session_key: r.session_key@,
            },
            RefreshTicket::Join => TicketView::Join,
            RefreshTicket::Unavailable => TicketView::Unavailable,
        }
    }
}

impl StoreView {
    /// The ticket for a caller that asks for a refresh now.
    pub open spec fn ticket(self) -> TicketView {
        if self.refreshing {
            TicketView::Join
        } else if self.session.can_refresh() {
            TicketView::Perform {
                refresh_token: self.session.refresh_token->0,
                user_id: self.session.user_id->0,
                client_type: self.session.client_type,
                session_key: self.session.session_key->0,
            }
        } else {
            TicketView::Unavailable
        }
    }

    /// The store after it has answered a caller that asked for a refresh.
    pub open spec fn begin_refresh(self) -> StoreView {
        if !self.refreshing && self.session.can_refresh() {
            StoreView { refreshing: true, ..self }
        } else {
            self
        }
    }

    /// The store after the refresh call in flight ended with `outcome`.
    pub open spec fn complete_refresh(self, outcome: RefreshOutcome) -> StoreView {
        if !self.refreshing {
            self
        } else {
            match grant_of(outcome) {
                Some(grant) => StoreView {
                    session: SessionView::granted(grant),
                    refreshing: false,
                    last_refresh: Some(true),
                },
                None => StoreView { refreshing: false, last_refresh: Some(false), ..self },
            }
        }
    }

    /// The store after `n` callers in a row have asked for a refresh.
    pub open spec fn begin_many(self, n: nat) -> StoreView
        decreases n,
    {
        if n == 0 {
            self
        } else {
            self.begin_refresh().begin_many((n - 1) as nat)
        }
    }

    /// How many of `n` callers in a row are told to make the refresh call.
    pub open spec fn calls_among(self, n: nat) -> nat
        decreases n,
    {
        if n == 0 {
            0
        } else {
            let here: nat = if self.ticket() is Perform { 1 } else { 0 };
            here + self.begin_refresh().calls_among((n - 1) as nat)
        }
    }
}

/// The process-wide holder of the session. One caller at a time changes it.
#[derive(Debug)]
pub struct AuthStore {
    session: AuthSession,
    refreshing: bool,
    last_refresh: Option<bool>,
}

impl View for AuthStore {
    type V = StoreView;

    closed spec fn view(&self) -> StoreView {
        StoreView {
            session: self.session@,
            refreshing: self.refreshing,
            last_refresh: self.last_refresh,
        }
    }
}

impl AuthStore {
    /// A store with nobody signed in and no refresh in flight.
    pub fn new() -> (store: AuthStore)
        ensures
            store@ == (StoreView {
                session: SessionView::signed_out(),
                refreshing: false,
                last_refresh: None,
            }),
    {
        AuthStore {
            session: AuthSession {
                access_token: None,
                refresh_token: None,
                session_key: None,
                user_id: None,
                client_type: String::from_str("desktop"),
            },
            refreshing: false,
            last_refresh: None,
        }
    }

    /// The current access token, if there is one.
    pub fn current_access_token(&self) -> (token: Option<String>)
        ensures
            opt_view(token) == self@.session.access_token,
    {
        clone_opt(&self.session.access_token)
    }

    /// A copy of the session.
    pub fn session(&self) -> (session: AuthSession)
        ensures
            session@ == self@.session,
    {
        AuthSession {
            access_token: clone_opt(&self.session.access_token),
            refresh_token: clone_opt(&self.session.refresh_token),
            session_key: clone_opt(&self.session.session_key),
            user_id: clone_opt(&self.session.user_id),
            client_type: self.session.client_type.clone(),
        }
    }

    /// The client type of the session.
    pub fn client_type(&self) -> (client_type: String)
        ensures
            client_type@ == self@.session.client_type,
    {
        self.session.client_type.clone()
    }

    /// Whether a refresh call is in flight.
    pub fn is_refreshing(&self) -> (yes: bool)
        ensures
            yes == self@.refreshing,
    {
        self.refreshing
    }

    /// How the last completed refresh ended; `None` before the first.
    pub fn last_refresh(&self) -> (outcome: Option<bool>)
        ensures
            outcome == self@.last_refresh,
    {
        self.last_refresh
    }

    /// Replaces the whole session. Returns whether an access token is
    /// present now, which is what the presence signal is keyed on.
    pub fn set_session(
        &mut self,
        access_token: Option<String>,
        refresh_token: Option<String>,
        session_key: Option<String>,
        user_id: Option<String>,
        client_type: String,
    ) -> (present: bool)
        ensures
            final(self)@ == (StoreView {
                session: SessionView {
                    access_token: opt_view(access_token),
                    refresh_token: opt_view(refresh_token),
                    session_key: opt_view(session_key),
                    user_id: opt_view(user_id),
                    client_type: client_type@,
                },
                ..old(self)@
            }),
            present == access_token is Some,
    {
        let present = access_token.is_some();
        self.session =
            AuthSession { access_token, refresh_token, session_key, user_id, client_type };
        present
    }

    /// Wipes the session: nobody is signed in afterwards.
    pub fn clear_session(&mut self)
        ensures
            final(self)@ == (StoreView { session: SessionView::signed_out(), ..old(self)@ }),
    {
        self.session = AuthSession {
            access_token: None,
            refresh_token: None,
            session_key: None,
            user_id: None,
            client_type: String::from_str("desktop"),
        };
    }

    /// Answers a caller that wants the access token renewed. While a refresh
    /// call is in flight every caller is told to join it; otherwise the
    /// caller is told to make the call, if the session has what the call
    /// carries, and the call counts as in flight from now on.
    pub fn begin_refresh(&mut self) -> (ticket: RefreshTicket)
        ensures
            ticket@ == old(self)@.ticket(),
            final(self)@ == old(self)@.begin_refresh(),
    {
        if self.refreshing {
            return RefreshTicket::Join;
        }
        match (&self.session.refresh_token, &self.session.user_id, &self.session.session_key) {
            (Some(refresh_token), Some(user_id), Some(session_key)) => {
                let request = RefreshRequest {
                    refresh_token: refresh_token.clone(),
                    user_id: user_id.clone(),
                    client_type: self.session.client_type.clone(),
                    session_key: session_key.clone(),
                };
                self.refreshing = true;
                RefreshTicket::Perform(request)
            },
            _ => RefreshTicket::Unavailable,
        }
    }

    /// Takes the outcome of the refresh call in flight. On success the
    /// granted session replaces the stored one; on any failure the stored
    /// session stays as it is. Returns whether the refresh succeeded, which
    /// is the answer for the caller that made the call and for all that
    /// joined it.
    pub fn complete_refresh(&mut self, outcome: RefreshOutcome) -> (ok: bool)
        ensures
            final(self)@ == old(self)@.complete_refresh(outcome),
            ok == (old(self)@.refreshing && grant_of(outcome) is Some),
            old(self)@.refreshing ==> final(self)@.last_refresh == Some(ok),
            ok ==> final(self)@.session == SessionView::granted(grant_of(outcome)->0),
            !ok ==> final(self)@.session == old(self)@.session,
            !final(self)@.refreshing,
    {
        if !self.refreshing {
            return false;
        }
        self.refreshing = false;
        let granted = match outcome {
            RefreshOutcome::Replied { status, envelope: Some(envelope) } => {
                if status_is_success(status) && envelope.success {
                    envelope.data
                } else {
                    None
                }
            },
            _ => None,
        };
        match granted {
            Some(grant) => {
                self.install(grant);
                self.last_refresh = Some(true);
                true
            },
            None => {
                self.last_refresh = Some(false);
                false
            },
        }
    }

    /// Sets the access token and leaves the rest of the session as it is.
    pub fn set_token(&mut self, token: String)
        ensures
            final(self)@ == (StoreView {
                session: SessionView { access_token: Some(token@), ..old(self)@.session },
                ..old(self)@
            }),
    {
        self.session.access_token = Some(token);
    }

    /// Drops the access token and leaves the rest of the session as it is.
    pub fn clear_token(&mut self)
        ensures
            final(self)@ == (StoreView {
                session: SessionView { access_token: None, ..old(self)@.session },
                ..old(self)@
            }),
    {
        self.session.access_token = None;
    }

    /// Takes over an access token that the UI has kept: a token that is
    /// missing or blank drops the stored one.
    pub fn set_auth_token(&mut self, token: Option<String>)
        ensures
            final(self)@ == (StoreView {
                session: SessionView {
                    access_token: kept_token(opt_view(token)),
                    ..old(self)@.session
                },
                ..old(self)@
            }),
    {
        match token {
            Some(t) => {
                if blank(t.as_str()) {
                    self.clear_token();
                } else {
                    self.set_token(t);
                }
            },
            None => {
                self.clear_token();
            },
        }
    }

    /// Takes over the refresh materials that the UI has kept, and leaves the
    /// access token as it is. Without a client type the stored one stays.
    pub fn set_auth_session(
        &mut self,
        user_id: Option<String>,
        refresh_token: Option<String>,
        session_key: Option<String>,
        client_type: Option<String>,
    )
        ensures
            final(self)@ == (StoreView {
                session: SessionView {
                    access_token: old(self)@.session.access_token,
                    refresh_token: opt_view(refresh_token),
                    session_key: opt_view(session_key),
                    user_id: opt_view(user_id),
                    client_type: match client_type {
                        Some(c) => c@,
                        None => old(self)@.session.client_type,
                    },
                },
                ..old(self)@
            }),
    {
        self.session.user_id = user_id;
        self.session.refresh_token = refresh_token;
        self.session.session_key = session_key;
        match client_type {
            Some(c) => {
                self.session.client_type = c;
            },
            None => {},
        }
    }

    /// Takes the answer to a login: a reply that reports success and holds
    /// a grant signs the user in with that grant; any other reply changes
    /// nothing. Returns whether the user is signed in by it.
    pub fn accept_login(&mut self, reply: &ApiResponse<LoginResponse>) -> (signed_in: bool)
        ensures
            signed_in == (reply.success && reply.data is Some),
            final(self)@ == if signed_in {
                StoreView { session: SessionView::granted(reply.data->0), ..old(self)@ }
            } else {
                old(self)@
            },
    {
        if !reply.success {
            return false;
        }
        match &reply.data {
            Some(grant) => {
                self.session = AuthSession {
                    access_token: Some(grant.access_token.clone()),
                    refresh_token: Some(grant.refresh_token.clone()),
                    session_key: Some(grant.session_key.clone()),
                    user_id: Some(grant.user.user_id.clone()),
                    client_type: grant.client_type.clone(),
                };
                true
            },
            None => false,
        }
    }

    fn install(&mut self, grant: LoginResponse)
        ensures
            final(self)@ == (StoreView { session: SessionView::granted(grant), ..old(self)@ }),
    {
        self.session = AuthSession {
            access_token: Some(grant.access_token),
            refresh_token: Some(grant.refresh_token),
            session_key: Some(grant.session_key),
            user_id: Some(grant.user.user_id),
            client_type: grant.client_type,
        };
    }
}

/// The access token that is kept of one that the UI hands over: none for a
/// token that is missing or blank.
pub open spec fn kept_token(token: Option<Seq<char>>) -> Option<Seq<char>> {
    match token {
        Some(t) => if is_blank(t) {
            None
        } else {
            Some(t)
        },
        None => None,
    }
}

/// Single flight: however many callers ask for a refresh before the call in
/// flight has ended, one of them at most is told to make the call. It is
/// exactly one if no call was in flight and the session can be refreshed,
/// and none otherwise. The askers change nothing of the session.
pub proof fn lemma_single_flight(store: StoreView, n: nat)
    ensures
        store.calls_among(n) == if n > 0 && !store.refreshing && store.session.can_refresh() {
            1nat
        } else {
            0nat
        },
        store.begin_many(n).session == store.session,
        store.begin_many(n).last_refresh == store.last_refresh,
        store.begin_many(n).refreshing == (store.refreshing || (n > 0
            && store.session.can_refresh())),
    decreases n,
{
    if n > 0 {
        lemma_single_flight(store.begin_refresh(), (n - 1) as nat);
    }
}

/// While a refresh call is in flight, callers that ask for a refresh join it
/// and leave the store as it is: the outcome of the call is taken in the
/// same way however many have joined.
pub proof fn lemma_joiners_change_nothing(store: StoreView, n: nat, outcome: RefreshOutcome)
    requires
        store.refreshing,
    ensures
        store.begin_many(n) == store,
        store.ticket() is Join,
        store.begin_many(n).complete_refresh(outcome) == store.complete_refresh(outcome),
    decreases n,
{
    if n > 0 {
        lemma_joiners_change_nothing(store.begin_refresh(), (n - 1) as nat, outcome);
    }
}

/// One outcome for all: when the refresh call in flight ends, the store
/// records whether it succeeded, and that record stands until the next
/// refresh call ends, whoever asks for a refresh in between.
pub proof fn lemma_outcome_is_shared(store: StoreView, outcome: RefreshOutcome, n: nat)
    requires
        store.refreshing,
    ensures
        store.complete_refresh(outcome).last_refresh == Some(grant_of(outcome) is Some),
        store.complete_refresh(outcome).begin_many(n).last_refresh == Some(
            grant_of(outcome) is Some,
        ),
{
    lemma_single_flight(store.complete_refresh(outcome), n);
}

/// A refresh that fails leaves the session as it was, whatever the failure:
/// no response, a status that is no success, an empty or unreadable body, an
/// envelope that reports failure or holds no grant.
pub proof fn lemma_failed_refresh_keeps_session(store: StoreView, outcome: RefreshOutcome)
    requires
        grant_of(outcome) is None,
    ensures
        store.complete_refresh(outcome).session == store.session,
{
}

/// A refresh call that is answered with a success status but without a
/// readable envelope has failed.
pub proof fn lemma_empty_body_is_failure(status: u16)
    ensures
        grant_of(RefreshOutcome::Replied { status, envelope: None }) is None,
        grant_of(RefreshOutcome::Failed) is None,
{
}

} // verus!
