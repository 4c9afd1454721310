//! Auto-update: the update channel setting, what a release looks like, the
//! update state machine (check on start-up and every six hours, offer a
//! found release, download it, then install) and the status bar text of
//! each state. Fetching the bytes of a download is the application's part;
//! it reports the outcome here.

use vstd::prelude::*;

use std::time::{Duration, SystemTime};

use crate::paths::{join_path, opt_view, path_exists, path_join};
use crate::clock::{duration_nanos, system_elapsed_nanos, system_now};
use crate::text::{decimal, format_u64, rfind_char, spec_ascii_lower, spec_rfind, str_eq, to_ascii_lowercase};

verus! {

/// Seconds between automatic update checks (six hours).
pub const DEFAULT_CHECK_INTERVAL_SECS: u64 = 21600;

/// The default update endpoint.
pub const DEFAULT_UPDATE_URL: &'static str = "https://update.sidex.dev/api/update";

/// An available remote release.
#[derive(Debug, Clone)]
pub struct UpdateInfo {
    /// SemVer version (such as `"0.3.0"`).
    pub version: String,
    /// ISO-8601 release date.
    pub release_date: String,
    /// Markdown release notes.
    pub release_notes: String,
    /// Download URL of the platform artifact.
    pub download_url: String,
    /// SHA-256 digest of the download.
    pub sha256: String,
    /// Size of the download in bytes.
    pub size_bytes: u64,
}

/// The `update.mode` setting.
#[derive(Debug, Clone, Copy, PartialEq, Eq, Structural)]
pub enum UpdateMode {
    /// Check, download, and offer to install.
    Default,
    /// Only check; the user starts the download.
    Manual,
    /// No update activity (the setting `none`).
    Disabled,
}

/// The mode a setting names, ignoring ASCII case (`Default` for anything
/// else).
pub open spec fn mode_named(lower: Seq<char>) -> UpdateMode {
    if lower == "manual"@ {
        UpdateMode::Manual
    } else if lower == "none"@ {
        UpdateMode::Disabled
    } else {
        UpdateMode::Default
    }
}

impl UpdateMode {
    /// The mode a setting names; anything unknown is `Default`.
    pub fn from_setting(s: &str) -> (r: Self)
        ensures
            r == mode_named(spec_ascii_lower(s@)),
    {
        let lower = to_ascii_lowercase(s);
        if str_eq(lower.as_str(), "manual") {
            UpdateMode::Manual
        } else if str_eq(lower.as_str(), "none") {
            UpdateMode::Disabled
        } else {
            UpdateMode::Default
        }
    }
}

impl Default for UpdateMode {
    fn default() -> (r: Self)
        ensures
            r == UpdateMode::Default,
    {
        UpdateMode::Default
    }
}

/// Why an update step failed.
#[derive(Debug, Clone)]
pub enum UpdateError {
    /// The downloaded update is not at the given path.
    NotFound(String),
}

impl UpdateError {
    /// The message shown for this error.
    pub fn message(&self) -> (r: String)
        ensures
            self matches UpdateError::NotFound(p) ==> r@ == "downloaded update not found: "@ + p@,
    {
        match self {
            UpdateError::NotFound(p) => {
                let mut s = String::from_str("downloaded update not found: ");
                s.append(p.as_str());
                s
            },
        }
    }
}

/// Asks the update server whether a release newer than `current_version`
/// exists. No server is contacted yet, so there never is one.
pub fn check_for_update(current_version: &str, update_url: &str) -> (r: Result<
    Option<UpdateInfo>,
    UpdateError,
>)
    ensures
        r matches Ok(None),
{
    Ok(None)
}

/// Whether an update found at `path` (`found` tells whether the file is
/// there) can be applied: it can exactly when the file exists.
pub fn update_readiness(found: bool, path: &str) -> (r: Result<(), UpdateError>)
    ensures
        found ==> r is Ok,
        !found ==> (r matches Err(UpdateError::NotFound(p)) && p@ == path@),
{
    if found {
        Ok(())
    } else {
        Err(UpdateError::NotFound(path.to_string()))
    }
}

/// Applies the update downloaded to `downloaded_path`; fails when there is
/// no such file. Whether the file exists is the file system's answer, so
/// the contract says what each answer leads to.
pub fn apply_update(downloaded_path: &str) -> (r: Result<(), UpdateError>)
    ensures
        r matches Err(UpdateError::NotFound(p)) ==> p@ == downloaded_path@,
{
    let found = path_exists(downloaded_path);
    update_readiness(found, downloaded_path)
}

/// The name a download is saved under: the part of its URL after the last
/// `/` (all of it when there is none).
pub open spec fn download_name(url: Seq<char>) -> Seq<char> {
    match spec_rfind(url, '/') {
        Some(k) => url.subrange(k + 1, url.len() as int),
        None => url,
    }
}

/// The file name a download is saved under (see `download_name`).
pub fn download_file_name(download_url: &str) -> (r: &str)
    ensures
        r@ == download_name(download_url@),
{
    let n = download_url.unicode_len();
    match rfind_char(download_url, '/') {
        Some(k) => download_url.substring_char(k + 1, n),
        None => download_url,
    }
}

/// The platform part of update URLs for an operating system and
/// architecture as `std::env::consts` names them.
pub open spec fn platform_tag(os: Seq<char>, arch: Seq<char>) -> Seq<char> {
    let arm = arch == "aarch64"@;
    if os == "macos"@ {
        if arm {
            "darwin-arm64"@
        } else {
            "darwin-x64"@
        }
    } else if os == "linux"@ {
        if arm {
            "linux-arm64"@
        } else {
            "linux-x64"@
        }
    } else if os == "windows"@ {
        if arm {
            "win32-arm64"@
        } else {
            "win32-x64"@
        }
    } else {
        "unknown"@
    }
}

/// The platform part of update URLs (see `platform_tag`).
pub fn platform_string(os: &str, arch: &str) -> (r: &'static str)
    ensures
        r@ == platform_tag(os@, arch@),
{
    let arm = str_eq(arch, "aarch64");
    if str_eq(os, "macos") {
        if arm {
            "darwin-arm64"
        } else {
            "darwin-x64"
        }
    } else if str_eq(os, "linux") {
        if arm {
            "linux-arm64"
        } else {
            "linux-x64"
        }
    } else if str_eq(os, "windows") {
        if arm {
            "win32-arm64"
        } else {
            "win32-x64"
        }
    } else {
        "unknown"
    }
}

// ── The update state machine ─────────────────────────────────────────────────

/// Calls `dirs::cache_dir`, converting the path to text (lossily, for a
/// directory that is not valid UTF-8). The answer depends on the user and
/// the machine, so nothing is claimed of it.
#[verifier::external_body]
fn cache_dir() -> Option<String> {
    dirs::cache_dir().map(|p| p.to_string_lossy().into_owned())
}

/// Calls `Duration::from_secs`; `Duration` is opaque to the verifier, so
/// nothing is stated of the value.
#[verifier::external_body]
fn secs(n: u64) -> Duration {
    Duration::from_secs(n)
}

/// Where the update lifecycle stands.
#[derive(Debug, Clone)]
pub enum UpdateState {
    /// Nothing update-related is going on.
    Idle,
    /// The server is being asked for a newer release.
    CheckingForUpdate,
    /// A newer release was found and is not downloaded yet.
    UpdateAvailable(UpdateInfo),
    /// A download is under way, `percent` of it done (0 to 100).
    Downloading { percent: u32 },
    /// The release is downloaded and ready to install.
    ReadyToInstall(UpdateInfo),
    /// Something went wrong, with the message.
    Error(String),
}

/// Whether a check is due, `elapsed_ns` nanoseconds after the last one
/// (none when the clock has gone back past it) with checks every
/// `interval_ns` nanoseconds: when the interval has passed or the clock
/// went back.
pub open spec fn check_due_spec(elapsed_ns: Option<u128>, interval_ns: u128) -> bool {
    match elapsed_ns {
        Some(e) => e >= interval_ns,
        None => true,
    }
}

/// Whether a check is due (see `check_due_spec`).
pub fn check_due(elapsed_ns: Option<u128>, interval_ns: u128) -> (r: bool)
    ensures
        r == check_due_spec(elapsed_ns, interval_ns),
{
    match elapsed_ns {
        Some(e) => e >= interval_ns,
        None => true,
    }
}

/// The status bar text of a state: none when idle.
pub open spec fn status_of(state: UpdateState) -> Option<Seq<char>> {
    match state {
        UpdateState::Idle => None,
        UpdateState::CheckingForUpdate => Some("Checking for updates…"@),
        UpdateState::UpdateAvailable(info) => Some("Update available: v"@ + info.version@),
        UpdateState::Downloading { percent } => Some(
            "Downloading update… "@ + decimal(percent as nat) + "%"@,
        ),
        UpdateState::ReadyToInstall(info) => Some("v"@ + info.version@ + " ready — restart to update"@),
        UpdateState::Error(msg) => Some("Update error: "@ + msg@),
    }
}

/// The updater service.
pub struct Updater {
    pub state: UpdateState,
    /// Time between automatic checks.
    pub check_interval: Duration,
    pub update_url: String,
    pub current_version: String,
    pub mode: UpdateMode,
    last_check: Option<SystemTime>,
    download_dir: Option<String>,
}

impl Updater {
    /// The current state.
    pub closed spec fn state_view(&self) -> UpdateState {
        self.state
    }

    /// The update mode.
    pub closed spec fn mode_view(&self) -> UpdateMode {
        self.mode
    }

    /// The endpoint asked, as text.
    pub closed spec fn url_view(&self) -> Seq<char> {
        self.update_url@
    }

    /// The running version, as text.
    pub closed spec fn version_view(&self) -> Seq<char> {
        self.current_version@
    }

    /// When the server was last asked, if ever.
    pub closed spec fn last_check_view(&self) -> Option<SystemTime> {
        self.last_check
    }

    /// Where downloads go: `sidex/updates` under the user's cache directory,
    /// none when the machine has no cache directory.
    pub closed spec fn download_dir_view(&self) -> Option<Seq<char>> {
        opt_view(self.download_dir)
    }

    /// A new updater for `current_version`: idle, never checked, in the
    /// default mode, asking the default endpoint every six hours.
    pub fn new(current_version: &str) -> (u: Self)
        ensures
            u.state_view() is Idle,
            u.url_view() == DEFAULT_UPDATE_URL@,
            u.version_view() == current_version@,
            u.mode_view() == UpdateMode::Default,
            u.last_check_view() is None,
            u.download_dir_view() matches Some(d) ==> exists|c: Seq<char>|
                d == path_join(#[trigger] path_join(c, "sidex"@), "updates"@),
    {
        let download_dir = match cache_dir() {
            Some(c) => {
                let sidex = join_path(c.as_str(), "sidex");
                let d = join_path(sidex.as_str(), "updates");
                assert(d@ == path_join(path_join(c@, "sidex"@), "updates"@));
                Some(d)
            },
            None => None,
        };
        Updater {
            state: UpdateState::Idle,
            check_interval: secs(DEFAULT_CHECK_INTERVAL_SECS),
            update_url: DEFAULT_UPDATE_URL.to_string(),
            current_version: current_version.to_string(),
            mode: UpdateMode::Default,
            last_check: None,
            download_dir,
        }
    }

    /// Where downloads go (see `download_dir_view`).
    pub fn download_dir(&self) -> (r: Option<String>)
        ensures
            opt_view(r) == self.download_dir_view(),
    {
        match &self.download_dir {
            Some(d) => Some(d.clone()),
            None => None,
        }
    }

    /// Whether a check is due: never when updates are disabled, always when
    /// the server was never asked, and otherwise when the check interval has
    /// passed since the last check or the clock went back past it (see
    /// `check_due`). The time elapsed is the clock's answer.
    pub fn should_check_now(&self) -> (r: bool)
        ensures
            self.mode_view() == UpdateMode::Disabled ==> !r,
            self.mode_view() != UpdateMode::Disabled && self.last_check_view() is None ==> r,
            self.mode_view() != UpdateMode::Disabled && self.last_check_view() is Some ==> exists|
                elapsed_ns: Option<u128>,
                interval_ns: u128,
            | r == #[trigger] check_due_spec(elapsed_ns, interval_ns),
    {
        if self.mode == UpdateMode::Disabled {
            return false;
        }
        match &self.last_check {
            Some(t) => {
                let elapsed = system_elapsed_nanos(t);
                let interval = duration_nanos(&self.check_interval);
                check_due(elapsed, interval)
            },
            None => true,
        }
    }

    /// Asks the update server for a newer release. With updates disabled
    /// nothing happens and the answer is none; otherwise the check time is
    /// recorded and the state follows the answer: the release offered, idle
    /// when there is none, the error's message when the check failed.
    pub fn check_for_update(&mut self) -> (r: Result<Option<UpdateInfo>, UpdateError>)
        ensures
            old(self).mode_view() == UpdateMode::Disabled ==> (r matches Ok(None) && *final(self) == *old(self)),
            old(self).mode_view() != UpdateMode::Disabled ==> {
                &&& final(self).last_check_view() is Some
                &&& r matches Ok(None)
                &&& final(self).state_view() is Idle
                &&& final(self).mode_view() == old(self).mode_view()
                &&& final(self).url_view() == old(self).url_view()
                &&& final(self).version_view() == old(self).version_view()
                &&& final(self).download_dir_view() == old(self).download_dir_view()
            },
    {
        if self.mode == UpdateMode::Disabled {
            return Ok(None);
        }
        self.state = UpdateState::CheckingForUpdate;
        self.last_check = Some(system_now());
        let result = check_for_update(self.current_version.as_str(), self.update_url.as_str());
        match &result {
            Ok(Some(info)) => {
                self.state = UpdateState::UpdateAvailable(info.clone());
            },
            Ok(None) => {
                self.state = UpdateState::Idle;
            },
            Err(e) => {
                self.state = UpdateState::Error(e.message());
            },
        }
        result
    }

    /// A download starts: the state shows it under way, nothing done yet.
    pub fn begin_download(&mut self)
        ensures
            final(self).state_view() == (UpdateState::Downloading { percent: 0 }),
            final(self).mode_view() == old(self).mode_view(),
            final(self).last_check_view() == old(self).last_check_view(),
            final(self).download_dir_view() == old(self).download_dir_view(),
            final(self).version_view() == old(self).version_view(),
            final(self).url_view() == old(self).url_view(),
    {
        self.state = UpdateState::Downloading { percent: 0 };
    }

    /// A download of `info` has ended, with `failure` the message of what
    /// went wrong if anything did: the release is ready to install, or the
    /// state holds the message.
    pub fn download_finished(&mut self, info: &UpdateInfo, failure: Option<String>)
        ensures
            failure is None ==> (final(self).state_view() matches UpdateState::ReadyToInstall(i)
                && i.version@ == info.version@ && i.download_url@ == info.download_url@),
            failure matches Some(m) ==> (final(self).state_view() matches UpdateState::Error(e) && e@ == m@),
            final(self).mode_view() == old(self).mode_view(),
            final(self).last_check_view() == old(self).last_check_view(),
            final(self).download_dir_view() == old(self).download_dir_view(),
            final(self).version_view() == old(self).version_view(),
            final(self).url_view() == old(self).url_view(),
    {
        match failure {
            None => {
                let ready = UpdateInfo {
                    version: info.version.clone(),
                    release_date: info.release_date.clone(),
                    release_notes: info.release_notes.clone(),
                    download_url: info.download_url.clone(),
                    sha256: info.sha256.clone(),
                    size_bytes: info.size_bytes,
                };
                self.state = UpdateState::ReadyToInstall(ready);
            },
            Some(m) => {
                self.state = UpdateState::Error(m);
            },
        }
    }

    /// Applies a downloaded update (see `apply_update`).
    pub fn apply_update(&mut self, downloaded_path: &str) -> (r: Result<(), UpdateError>)
        ensures
            r matches Err(UpdateError::NotFound(p)) ==> p@ == downloaded_path@,
            *final(self) == *old(self),
    {
        apply_update(downloaded_path)
    }

    /// The status bar text of the current state (see `status_of`).
    pub fn status_text(&self) -> (r: Option<String>)
        ensures
            opt_view(r) == status_of(self.state_view()),
    {
        match &self.state {
            UpdateState::Idle => None,
            UpdateState::CheckingForUpdate => Some("Checking for updates…".to_string()),
            UpdateState::UpdateAvailable(info) => {
                let mut s = String::from_str("Update available: v");
                s.append(info.version.as_str());
                Some(s)
            },
            UpdateState::Downloading { percent } => {
                let mut s = String::from_str("Downloading update… ");
                let n = format_u64(*percent as u64);
                s.append(n.as_str());
                s.append("%");
                Some(s)
            },
            UpdateState::ReadyToInstall(info) => {
                let mut s = String::from_str("v");
                s.append(info.version.as_str());
                s.append(" ready — restart to update");
                Some(s)
            },
            UpdateState::Error(msg) => {
                let mut s = String::from_str("Update error: ");
                s.append(msg.as_str());
                Some(s)
            },
        }
    }

    /// Back to idle (after the user dismisses an error).
    pub fn dismiss(&mut self)
        ensures
            final(self).state_view() is Idle,
            final(self).mode_view() == old(self).mode_view(),
            final(self).last_check_view() == old(self).last_check_view(),
            final(self).download_dir_view() == old(self).download_dir_view(),
            final(self).version_view() == old(self).version_view(),
            final(self).url_view() == old(self).url_view(),
    {
        self.state = UpdateState::Idle;
    }
}

} // verus!
