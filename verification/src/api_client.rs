//! Where the backend is, and how a request to it is addressed.

use crate::auth::AuthStore;
use crate::text::{clone_opt, opt_view, push_truncated, same_text, truncated};
use vstd::prelude::*;
use vstd::string::*;

verus! {

/// The address of a backend on this machine, used where none is configured.
pub open spec fn default_api_url() -> Seq<char> {
    "http://localhost:5000"@
}

/// The prefix of every path of the backend's API.
pub open spec fn api_prefix() -> Seq<char> {
    "/api/v1"@
}

/// A status in 200..=299.
pub open spec fn is_success_status(status: u16) -> bool {
    200 <= status < 300
}

/// Whether `status` is a success status.
pub fn status_is_success(status: u16) -> (yes: bool)
    ensures
        yes == is_success_status(status),
{
    200 <= status && status < 300
}

/// A header of a request.
#[derive(Clone, Debug, PartialEq, Eq)]
pub struct Header {
    pub name: String,
    pub value: String,
}

/// A header with its texts as character sequences.
pub struct HeaderView {
    pub name: Seq<char>,
    pub value: Seq<char>,
}

impl View for Header {
    type V = HeaderView;

    open spec fn view(&self) -> HeaderView {
        HeaderView { name: self.name@, value: self.value@ }
    }
}

/// The views of a sequence of headers, in order.
pub open spec fn header_views(headers: Seq<Header>) -> Seq<HeaderView> {
    headers.map_values(|h: Header| h@)
}

/// The settings of the API client: the base URL of the backend and the
/// identifier of this installation.
#[derive(Clone, Debug)]
pub struct ApiSettings {
    base_url: String,
    client_id: Option<String>,
}

/// The settings as a value.
pub struct SettingsView {
    pub base_url: Seq<char>,
    pub client_id: Option<Seq<char>>,
}

impl View for ApiSettings {
    type V = SettingsView;

    closed spec fn view(&self) -> SettingsView {
        SettingsView { base_url: self.base_url@, client_id: opt_view(self.client_id) }
    }
}

impl ApiSettings {
    /// Settings with the base URL that the environment gives, or the default
    /// one, and no client identifier.
    pub fn new(from_environment: Option<String>) -> (settings: ApiSettings)
        ensures
            settings@.client_id is None,
            settings@.base_url == match from_environment {
                Some(url) => url@,
                None => default_api_url(),
            },
    {
        let base_url = match from_environment {
            Some(url) => url,
            None => get_default_api_url(),
        };
        ApiSettings { base_url, client_id: None }
    }

    /// Sets the identifier of this installation.
    pub fn set_client_id(&mut self, client_id: String)
        ensures
            final(self)@ == (SettingsView { client_id: Some(client_id@), ..old(self)@ }),
    {
        self.client_id = Some(client_id);
    }

    /// The identifier of this installation, if it has one.
    pub fn client_id(&self) -> (client_id: Option<String>)
        ensures
            opt_view(client_id) == self@.client_id,
    {
        clone_opt(&self.client_id)
    }

    /// The URL of the API path `path`: the base URL, the API prefix and the
    /// path, one after the other.
    pub fn api_url(&self, path: &str) -> (url: String)
        ensures
            url@ == self@.base_url + api_prefix() + path@,
    {
        let mut url = self.base_url.clone();
        url.append("/api/v1");
        url.append(path);
        url
    }
}

/// Sets the base URL of the backend.
pub fn set_api_base_url(settings: &mut ApiSettings, url: String)
    ensures
        final(settings)@ == (SettingsView { base_url: url@, ..old(settings)@ }),
{
    settings.base_url = url;
}

/// The base URL of the backend.
pub fn get_api_base_url(settings: &ApiSettings) -> (url: String)
    ensures
        url@ == settings@.base_url,
{
    settings.base_url.clone()
}

/// The base URL that is used where none is configured.
pub fn get_default_api_url() -> (url: String)
    ensures
        url@ == default_api_url(),
{
    String::from_str("http://localhost:5000")
}

/// The current access token, for requests whose headers are put together by
/// hand.
pub fn get_auth_token(store: &AuthStore) -> (token: Option<String>)
    ensures
        opt_view(token) == store@.session.access_token,
{
    store.current_access_token()
}

/// The host of a URL as `reqwest::Url` reads it: `None` for a text that is
/// no absolute URL, and for a URL without a host.
pub uninterp spec fn url_host(url: Seq<char>) -> Option<Seq<char>>;

/// Parses `url` with `reqwest::Url::parse` and takes `host_str` of the
/// result. Trusted: the outcome depends on the text alone, and a text that
/// does not parse gives an error, not a panic.
#[verifier::external_body]
fn host_of(url: &str) -> (host: Option<String>)
    ensures
        opt_view(host) == url_host(url@),
{
    match reqwest::Url::parse(url) {
        Ok(parsed) => match parsed.host_str() {
            Some(host) => Some(host.to_string()),
            None => None,
        },
        Err(_) => None,
    }
}

/// The host names that stand for this machine.
pub open spec fn is_local_host(host: Option<Seq<char>>) -> bool {
    match host {
        Some(h) => h == "localhost"@ || h == "127.0.0.1"@ || h == "::1"@,
        None => false,
    }
}

/// Whether `host` names this machine.
pub fn names_this_machine(host: &Option<String>) -> (yes: bool)
    ensures
        yes == is_local_host(opt_view(*host)),
{
    match host {
        Some(h) => same_text(h.as_str(), "localhost") || same_text(h.as_str(), "127.0.0.1")
            || same_text(h.as_str(), "::1"),
        None => false,
    }
}

/// Whether the backend at `api_base_url` is on this machine, in which case
/// requests to it go around any proxy.
pub fn is_localhost_url(api_base_url: &str) -> (yes: bool)
    ensures
        yes == is_local_host(url_host(api_base_url@)),
{
    let host = host_of(api_base_url);
    names_this_machine(&host)
}

/// How many seconds a request that is no stream may take.
pub const REQUEST_TIMEOUT_SECS: u64 = 60;

/// How many characters of a response body a message quotes at most.
pub const QUOTED_BODY_LIMIT: usize = 500;

/// The value of the `Authorization` header for an access token.
pub fn bearer(token: &str) -> (value: String)
    ensures
        value@ == "Bearer "@ + token@,
{
    let mut value = String::from_str("Bearer ");
    value.append(token);
    value
}

/// The message for a response without a body.
pub fn empty_response_error(status: &str, url: &str) -> (message: String)
    ensures
        message@ == "Empty response from server. Status: "@ + status@ + ", URL: "@ + url@,
{
    let mut message = String::from_str("Empty response from server. Status: ");
    message.append(status);
    message.append(", URL: ");
    message.append(url);
    message
}

/// The message for a response whose body is no reply envelope: the parser's
/// complaint, the status, and the start of the body.
pub fn parse_failure_error(complaint: &str, status: &str, body: &str) -> (message: String)
    ensures
        message@ == "Failed to parse response: "@ + complaint@ + ". Status: "@ + status@
            + ". Response body: "@ + truncated(body@, QUOTED_BODY_LIMIT as nat),
{
    let mut message = String::from_str("Failed to parse response: ");
    message.append(complaint);
    message.append(". Status: ");
    message.append(status);
    message.append(". Response body: ");
    push_truncated(&mut message, body, QUOTED_BODY_LIMIT);
    message
}

/// The message for a response to a `POST` without a body.
pub fn empty_post_response_error(status: &str, headers: &str) -> (message: String)
    ensures
        message@ == "Empty response from server. Status: "@ + status@ + ", Headers: "@ + headers@,
{
    let mut message = String::from_str("Empty response from server. Status: ");
    message.append(status);
    message.append(", Headers: ");
    message.append(headers);
    message
}

/// The message for a response to a `POST` whose body is no reply envelope.
pub fn post_parse_failure_error(complaint: &str, body: &str) -> (message: String)
    ensures
        message@ == "Failed to parse response: "@ + complaint@ + ". Response: "@ + truncated(
            body@,
            QUOTED_BODY_LIMIT as nat,
        ),
{
    let mut message = String::from_str("Failed to parse response: ");
    message.append(complaint);
    message.append(". Response: ");
    push_truncated(&mut message, body, QUOTED_BODY_LIMIT);
    message
}

/// The message for a request that got no response.
pub fn request_failed_error(complaint: &str) -> (message: String)
    ensures
        message@ == "Request failed: "@ + complaint@,
{
    let mut message = String::from_str("Request failed: ");
    message.append(complaint);
    message
}

/// The message for a response whose body could not be read.
pub fn read_failed_error(complaint: &str) -> (message: String)
    ensures
        message@ == "Failed to read response: "@ + complaint@,
{
    let mut message = String::from_str("Failed to read response: ");
    message.append(complaint);
    message
}

} // verus!
