//! The persisted configuration of the client, and the connection test.

use crate::api_client::{
    default_api_url, get_default_api_url, is_success_status, set_api_base_url, status_is_success,
    ApiSettings, SettingsView,
};
use crate::text::{
    blank, chars_of, decimal, is_blank, opt_view, push_decimal, text_of, trim, trimmed,
};
use vstd::prelude::*;
use vstd::string::*;

verus! {

/// The configuration that is kept on disk.
#[derive(Clone, Debug)]
pub struct AppConfig {
    pub api_base_url: String,
    pub is_developer: bool,
    /// The identifier of this installation.
    pub client_id: String,
}

/// Makes a random UUID with `uuid::Uuid::new_v4` and formats it. Trusted;
/// nothing is claimed of the text, which differs from call to call.
#[verifier::external_body]
pub(crate) fn fresh_id() -> (id: String) {
    uuid::Uuid::new_v4().to_string()
}

impl AppConfig {
    /// The configuration of a fresh installation with the identifier
    /// `client_id`.
    pub fn with_client_id(client_id: String) -> (config: AppConfig)
        ensures
            config.api_base_url@ == default_api_url(),
            !config.is_developer,
            config.client_id == client_id,
    {
        AppConfig { api_base_url: get_default_api_url(), is_developer: false, client_id }
    }

    /// Gives the configuration the identifier `fresh` if it has none.
    /// Returns whether it did, in which case the configuration is to be
    /// written back.
    pub fn ensure_client_id(&mut self, fresh: String) -> (changed: bool)
        ensures
            changed == is_blank(old(self).client_id@),
            final(self).client_id@ == if changed {
                fresh@
            } else {
                old(self).client_id@
            },
            final(self).api_base_url == old(self).api_base_url,
            final(self).is_developer == old(self).is_developer,
    {
        if blank(self.client_id.as_str()) {
            self.client_id = fresh;
            true
        } else {
            false
        }
    }

    /// Gives the configuration a random identifier if it has none. Returns
    /// whether it did.
    pub fn fill_client_id(&mut self) -> (changed: bool)
        ensures
            changed == is_blank(old(self).client_id@),
            !changed ==> final(self).client_id@ == old(self).client_id@,
            final(self).api_base_url == old(self).api_base_url,
            final(self).is_developer == old(self).is_developer,
    {
        if blank(self.client_id.as_str()) {
            self.client_id = fresh_id();
            true
        } else {
            false
        }
    }

    /// The configuration to write when `self` is saved: `self`, with an
    /// identifier if it has none. The identifier is that of the configuration
    /// on disk, `existing`, or `fresh` where that has none either.
    pub fn to_save(self, existing: Option<AppConfig>, fresh: String) -> (saved: AppConfig)
        ensures
            saved.api_base_url == self.api_base_url,
            saved.is_developer == self.is_developer,
            saved.client_id@ == saved_client_id(
                self.client_id@,
                match existing {
                    Some(e) => Some(e.client_id@),
                    None => None,
                },
                fresh@,
            ),
    {
        let mut saved = self;
        if blank(saved.client_id.as_str()) {
            saved.client_id = match existing {
                Some(e) => if blank(e.client_id.as_str()) {
                    fresh
                } else {
                    e.client_id
                },
                None => fresh,
            };
        }
        saved
    }

    /// The configuration to write when `self` is saved, as `to_save` gives
    /// it, with a random identifier where neither `self` nor the
    /// configuration on disk has one.
    pub fn for_saving(self, existing: Option<AppConfig>) -> (saved: AppConfig)
        ensures
            saved.api_base_url == self.api_base_url,
            saved.is_developer == self.is_developer,
            !is_blank(self.client_id@) ==> saved.client_id@ == self.client_id@,
            is_blank(self.client_id@) && existing is Some && !is_blank(existing->0.client_id@)
                ==> saved.client_id@ == existing->0.client_id@,
    {
        self.to_save(existing, fresh_id())
    }
}

impl Default for AppConfig {
    /// The configuration of a fresh installation, with a random identifier.
    fn default() -> (config: AppConfig)
        ensures
            config.api_base_url@ == default_api_url(),
            !config.is_developer,
    {
        AppConfig::with_client_id(fresh_id())
    }
}

/// The identifier that is saved for a configuration with the identifier
/// `given`: `given` itself unless it is blank, then the one on disk unless
/// that is missing or blank, then `fresh`.
pub open spec fn saved_client_id(
    given: Seq<char>,
    existing: Option<Seq<char>>,
    fresh: Seq<char>,
) -> Seq<char> {
    if !is_blank(given) {
        given
    } else {
        match existing {
            Some(e) => if is_blank(e) {
                fresh
            } else {
                e
            },
            None => fresh,
        }
    }
}

/// The settings after the configuration `config` was loaded at startup: its
/// base URL, trimmed, replaces the one in use unless it is blank, and so
/// does its client identifier.
pub open spec fn initialised(settings: SettingsView, config: AppConfig) -> SettingsView {
    SettingsView {
        base_url: if is_blank(config.api_base_url@) {
            settings.base_url
        } else {
            trimmed(config.api_base_url@)
        },
        client_id: if is_blank(config.client_id@) {
            settings.client_id
        } else {
            Some(config.client_id@)
        },
    }
}

/// Brings the configuration that was loaded at startup, if any, into the
/// settings in use.
pub fn init_config(settings: &mut ApiSettings, loaded: Option<AppConfig>)
    ensures
        final(settings)@ == match loaded {
            Some(config) => initialised(old(settings)@, config),
            None => old(settings)@,
        },
{
    match loaded {
        Some(config) => {
            if !blank(config.api_base_url.as_str()) {
                set_api_base_url(settings, trim(config.api_base_url.as_str()));
            }
            if !blank(config.client_id.as_str()) {
                settings.set_client_id(config.client_id);
            }
        },
        None => {},
    }
}

/// Brings a configuration that is being saved into the settings in use: its
/// base URL and its client identifier, as they are.
pub fn apply_saved(settings: &mut ApiSettings, saved: &AppConfig)
    ensures
        final(settings)@ == (SettingsView {
            base_url: saved.api_base_url@,
            client_id: Some(saved.client_id@),
        }),
{
    set_api_base_url(settings, saved.api_base_url.clone());
    settings.set_client_id(saved.client_id.clone());
}

/// The result of a connection test.
#[derive(Clone, Debug)]
pub struct ApiTestResult {
    pub success: bool,
    pub latency_ms: Option<u64>,
    pub error: Option<String>,
    pub server_status: Option<String>,
}

/// How many seconds a connection test may take.
pub const TEST_TIMEOUT_SECS: u64 = 10;

/// `s` without the slashes it ends with.
pub open spec fn without_trailing_slashes(s: Seq<char>) -> Seq<char>
    decreases s.len(),
{
    if s.len() > 0 && s.last() == '/' {
        without_trailing_slashes(s.drop_last())
    } else {
        s
    }
}

proof fn lemma_without_trailing_slashes(s: Seq<char>, b: int)
    requires
        0 <= b <= s.len(),
        forall|i: int| b <= i < s.len() ==> s[i] == '/',
        b == 0 || s[b - 1] != '/',
    ensures
        without_trailing_slashes(s) == s.subrange(0, b),
    decreases s.len() - b,
{
    if b < s.len() {
        lemma_without_trailing_slashes(s.drop_last(), b);
    }
}

/// The URL of the health check of the backend at `api_url`.
pub fn health_url(api_url: &str) -> (url: String)
    ensures
        url@ == without_trailing_slashes(api_url@) + "/health"@,
{
    let mut chars = chars_of(api_url);
    let mut b: usize = chars.len();
    while b > 0 && chars[b - 1] == '/'
        invariant
            b <= chars.len(),
            forall|i: int| b <= i < chars.len() ==> chars@[i] == '/',
        decreases b,
    {
        b -= 1;
    }
    proof {
        lemma_without_trailing_slashes(chars@, b as int);
    }
    chars.truncate(b);
    let mut url = text_of(&chars);
    url.append("/health");
    url
}

/// What the body of a health check said.
#[derive(Clone, Debug)]
pub enum HealthBody {
    /// JSON with this text under `status`.
    Status(String),
    /// JSON without a text under `status`.
    NoStatus,
    /// No JSON.
    Unreadable,
}

/// The server status that a connection test reports for a health body.
pub open spec fn server_status(body: HealthBody) -> Seq<char> {
    match body {
        HealthBody::Status(s) => s@,
        HealthBody::NoStatus => "unknown"@,
        HealthBody::Unreadable => "ok"@,
    }
}

/// Why a connection test got no response.
#[derive(Clone, Copy, Debug, PartialEq, Eq, Structural)]
pub enum ConnectFailure {
    TimedOut,
    Refused,
    Other,
}

/// The error that a connection test reports when it got no response.
pub open spec fn failure_text(failure: ConnectFailure, detail: Seq<char>) -> Seq<char> {
    match failure {
        ConnectFailure::TimedOut => "连接超时"@,
        ConnectFailure::Refused => "无法连接到服务器"@,
        ConnectFailure::Other => "连接失败: "@ + detail,
    }
}

/// The result of a connection test that was answered, after `latency_ms`
/// milliseconds, with `status`; `body` is what the answer said, and counts
/// only with a success status.
pub fn answered(status: u16, latency_ms: u64, body: HealthBody) -> (result: ApiTestResult)
    ensures
        result.success == is_success_status(status),
        result.latency_ms == Some(latency_ms),
        opt_view(result.error) == if is_success_status(status) {
            None
        } else {
            Some("HTTP "@ + decimal(status as nat))
        },
        opt_view(result.server_status) == if is_success_status(status) {
            Some(server_status(body))
        } else {
            None
        },
{
    if status_is_success(status) {
        let server = match body {
            HealthBody::Status(s) => s,
            HealthBody::NoStatus => String::from_str("unknown"),
            HealthBody::Unreadable => String::from_str("ok"),
        };
        ApiTestResult {
            success: true,
            latency_ms: Some(latency_ms),
            error: None,
            server_status: Some(server),
        }
    } else {
        let mut error = String::from_str("HTTP ");
        push_decimal(&mut error, status as u64);
        ApiTestResult {
            success: false,
            latency_ms: Some(latency_ms),
            error: Some(error),
            server_status: None,
        }
    }
}

/// The result of a connection test that got no response.
pub fn unanswered(failure: ConnectFailure, detail: &str) -> (result: ApiTestResult)
    ensures
        !result.success,
        result.latency_ms is None,
        opt_view(result.error) == Some(failure_text(failure, detail@)),
        result.server_status is None,
{
    let error = match failure {
        ConnectFailure::TimedOut => String::from_str("连接超时"),
        ConnectFailure::Refused => String::from_str("无法连接到服务器"),
        ConnectFailure::Other => {
            let mut text = String::from_str("连接失败: ");
            text.append(detail);
            text
        },
    };
    ApiTestResult { success: false, latency_ms: None, error: Some(error), server_status: None }
}

} // verus!
