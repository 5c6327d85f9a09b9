//! What the updater tells the UI: the platform it looks for, the manifests
//! it tries, and what came of fetching them.

use crate::api_client::{is_success_status, status_is_success};
use crate::text::{opt_view, same_text};
use vstd::prelude::*;
use vstd::string::*;

verus! {

/// What a check for updates found.
#[derive(Clone, Debug)]
pub struct UpdateInfo {
    /// Whether an update is on offer.
    pub available: bool,
    pub current_version: String,
    /// The version on offer.
    pub version: Option<String>,
    /// The notes of the version on offer.
    pub body: Option<String>,
}

/// What came of fetching one manifest.
#[derive(Clone, Debug)]
pub struct ManifestFetchResult {
    pub url: String,
    pub status: u16,
    pub status_text: String,
    pub ok: bool,
    pub body: Option<String>,
    pub error: Option<String>,
}

/// What came of fetching the manifests for a target.
#[derive(Clone, Debug)]
pub struct FetchManifestsResult {
    pub target: String,
    pub results: Vec<ManifestFetchResult>,
}

/// The platform that the updater looks for.
#[derive(Clone, Debug)]
pub struct UpdaterPlatformInfo {
    /// The target triple in the names of the release assets.
    pub target: String,
    pub arch: String,
    /// The key of the platform in a manifest.
    pub json_target: String,
}

/// An update that the updater has found.
#[derive(Clone, Debug)]
pub struct FoundUpdate {
    pub version: String,
    pub body: Option<String>,
}

/// How many seconds the fetch of one manifest may take.
pub const MANIFEST_TIMEOUT_SECS: u64 = 30;

/// The target triple of the release assets for an operating system and a
/// processor architecture, both named as the compiler names them.
pub open spec fn target_triple(os: Seq<char>, arch: Seq<char>) -> Seq<char> {
    if os == "macos"@ && arch == "aarch64"@ {
        "aarch64-apple-darwin"@
    } else if os == "macos"@ && arch == "x86_64"@ {
        "x86_64-apple-darwin"@
    } else if os == "windows"@ && arch == "x86_64"@ {
        "x86_64-pc-windows-msvc"@
    } else if os == "windows"@ && arch == "x86"@ {
        "i686-pc-windows-msvc"@
    } else if os == "linux"@ && arch == "x86_64"@ {
        "x86_64-unknown-linux-gnu"@
    } else if os == "linux"@ && arch == "aarch64"@ {
        "aarch64-unknown-linux-gnu"@
    } else {
        "unknown"@
    }
}

/// The name of a processor architecture in the names of the release assets.
pub open spec fn asset_arch(arch: Seq<char>) -> Seq<char> {
    if arch == "x86"@ {
        "i686"@
    } else if arch == "x86_64"@ {
        "x86_64"@
    } else if arch == "arm"@ {
        "armv7"@
    } else if arch == "aarch64"@ {
        "aarch64"@
    } else if arch == "riscv64"@ {
        "riscv64"@
    } else {
        "unknown"@
    }
}

/// The target triple of the release assets for the platform `os`, `arch`.
pub fn get_updater_target_triple(os: &str, arch: &str) -> (target: &'static str)
    ensures
        target@ == target_triple(os@, arch@),
{
    let macos = same_text(os, "macos");
    let windows = same_text(os, "windows");
    let linux = same_text(os, "linux");
    let x86_64 = same_text(arch, "x86_64");
    let aarch64 = same_text(arch, "aarch64");
    if macos && aarch64 {
        "aarch64-apple-darwin"
    } else if macos && x86_64 {
        "x86_64-apple-darwin"
    } else if windows && x86_64 {
        "x86_64-pc-windows-msvc"
    } else if windows && same_text(arch, "x86") {
        "i686-pc-windows-msvc"
    } else if linux && x86_64 {
        "x86_64-unknown-linux-gnu"
    } else if linux && aarch64 {
        "aarch64-unknown-linux-gnu"
    } else {
        "unknown"
    }
}

/// The name of the architecture `arch` in the names of the release assets.
pub fn get_updater_arch(arch: &str) -> (name: &'static str)
    ensures
        name@ == asset_arch(arch@),
{
    if same_text(arch, "x86") {
        "i686"
    } else if same_text(arch, "x86_64") {
        "x86_64"
    } else if same_text(arch, "arm") {
        "armv7"
    } else if same_text(arch, "aarch64") {
        "aarch64"
    } else if same_text(arch, "riscv64") {
        "riscv64"
    } else {
        "unknown"
    }
}

/// The platform that the updater looks for, for showing in the UI.
pub fn get_updater_platform_info(os: &str, arch: &str) -> (info: UpdaterPlatformInfo)
    ensures
        info.target@ == target_triple(os@, arch@),
        info.arch@ == asset_arch(arch@),
        info.json_target@ == target_triple(os@, arch@),
{
    let target = get_updater_target_triple(os, arch);
    UpdaterPlatformInfo {
        target: String::from_str(target),
        arch: String::from_str(get_updater_arch(arch)),
        json_target: String::from_str(target),
    }
}

/// The URL of the manifest of the latest release for one target.
pub open spec fn target_manifest_url(target: Seq<char>) -> Seq<char> {
    "https://github.com/inernoro/prd_agent/releases/latest/download/latest-"@ + target + ".json"@
}

/// The URL of the manifest of the latest release for all targets.
pub open spec fn common_manifest_url() -> Seq<char> {
    "https://github.com/inernoro/prd_agent/releases/latest/download/latest.json"@
}

/// The manifests to try for `target`, in order: the one of the target, then
/// the common one.
pub fn manifest_candidates(target: &str) -> (urls: Vec<String>)
    ensures
        urls@.len() == 2,
        urls@[0]@ == target_manifest_url(target@),
        urls@[1]@ == common_manifest_url(),
{
    let mut first = String::from_str(
        "https://github.com/inernoro/prd_agent/releases/latest/download/latest-",
    );
    first.append(target);
    first.append(".json");
    let mut urls: Vec<String> = Vec::new();
    urls.push(first);
    let common = "https://github.com/inernoro/prd_agent/releases/latest/download/latest.json";
    urls.push(String::from_str(common));
    urls
}

/// The note that stands for a body that could not be read.
pub open spec fn unread_body(complaint: Seq<char>) -> Seq<char> {
    "[读取响应体失败: "@ + complaint + "]"@
}

/// The result for a manifest that was answered with `status`, whose reason
/// phrase is `reason` if it has one; `body` is the body, or the complaint of
/// the read that failed.
pub fn fetched(
    url: String,
    status: u16,
    reason: Option<String>,
    body: Result<String, String>,
) -> (result: ManifestFetchResult)
    ensures
        result.url == url,
        result.status == status,
        result.status_text@ == match reason {
            Some(r) => r@,
            None => "Unknown"@,
        },
        result.ok == is_success_status(status),
        opt_view(result.body) == Some(
            match body {
                Ok(text) => text@,
                Err(complaint) => unread_body(complaint@),
            },
        ),
        result.error is None,
{
    let status_text = match reason {
        Some(r) => r,
        None => String::from_str("Unknown"),
    };
    let body_text = match body {
        Ok(text) => text,
        Err(complaint) => {
            let mut note = String::from_str("[读取响应体失败: ");
            note.append(complaint.as_str());
            note.append("]");
            note
        },
    };
    ManifestFetchResult {
        url,
        status,
        status_text,
        ok: status_is_success(status),
        body: Some(body_text),
        error: None,
    }
}

/// The result for a manifest whose request failed with `error`.
pub fn not_fetched(url: String, error: String) -> (result: ManifestFetchResult)
    ensures
        result.url == url,
        result.status == 0,
        result.status_text@ == "Request Failed"@,
        !result.ok,
        result.body is None,
        result.error == Some(error),
{
    ManifestFetchResult {
        url,
        status: 0,
        status_text: String::from_str("Request Failed"),
        ok: false,
        body: None,
        error: Some(error),
    }
}

/// What the UI is told after a check for updates that went through.
pub fn update_info(current_version: String, found: Option<FoundUpdate>) -> (info: UpdateInfo)
    ensures
        info.current_version == current_version,
        info.available == found is Some,
        info.version == match found {
            Some(update) => Some(update.version),
            None => None,
        },
        info.body == match found {
            Some(update) => update.body,
            None => None,
        },
{
    match found {
        Some(update) => UpdateInfo {
            available: true,
            current_version,
            version: Some(update.version),
            body: update.body,
        },
        None => UpdateInfo { available: false, current_version, version: None, body: None },
    }
}

/// The message for a check for updates that failed.
pub fn check_failed(complaint: &str) -> (message: String)
    ensures
        message@ == "检查更新失败: "@ + complaint@,
{
    let mut message = String::from_str("检查更新失败: ");
    message.append(complaint);
    message
}

} // verus!
