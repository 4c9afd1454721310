use sidex_app::updater::{download_file_name, platform_string};
use sidex_app::updater::{
    apply_update, check_for_update, update_readiness, UpdateError, UpdateInfo, UpdateMode, UpdateState, Updater,
    DEFAULT_UPDATE_URL,
};

#[test]
fn default_mode_from_setting() {
    assert_eq!(UpdateMode::from_setting("default"), UpdateMode::Default);
    assert_eq!(UpdateMode::from_setting("manual"), UpdateMode::Manual);
    assert_eq!(UpdateMode::from_setting("none"), UpdateMode::Disabled);
    assert_eq!(UpdateMode::from_setting("garbage"), UpdateMode::Default);
}

#[test]
fn apply_update_missing_file() {
    let result = apply_update("/nonexistent/file.bin");
    assert!(result.is_err());
}

#[test]
fn mode_setting_ignores_case_and_defaults() {
    assert_eq!(UpdateMode::from_setting("MANUAL"), UpdateMode::Manual);
    assert_eq!(UpdateMode::from_setting("None"), UpdateMode::Disabled);
    assert_eq!(UpdateMode::default(), UpdateMode::Default);
}

#[test]
fn check_and_readiness() {
    assert!(matches!(check_for_update("0.2.0", DEFAULT_UPDATE_URL), Ok(None)));
    assert!(update_readiness(true, "/x").is_ok());
    let err = update_readiness(false, "/x/y.bin").unwrap_err();
    assert!(matches!(err, UpdateError::NotFound(ref p) if p == "/x/y.bin"));
    assert_eq!(err.message(), "downloaded update not found: /x/y.bin");
}

#[test]
fn download_names_and_platform_strings() {
    assert_eq!(download_file_name("https://x.dev/r/sidex-0.3.0.tar.gz"), "sidex-0.3.0.tar.gz");
    assert_eq!(download_file_name("update.bin"), "update.bin");
    assert_eq!(download_file_name("https://x.dev/r/"), "");
    assert_eq!(platform_string("macos", "aarch64"), "darwin-arm64");
    assert_eq!(platform_string("linux", "x86_64"), "linux-x64");
    assert_eq!(platform_string("windows", "aarch64"), "win32-arm64");
    assert_eq!(platform_string("freebsd", "x86_64"), "unknown");
}

#[test]
fn platform_string_is_known() {
    for os in ["macos", "linux", "windows"] {
        for arch in ["x86_64", "aarch64"] {
            assert!(["darwin-arm64", "darwin-x64", "linux-arm64", "linux-x64", "win32-arm64", "win32-x64"]
                .contains(&platform_string(os, arch)));
        }
    }
}

#[test]
fn new_updater_is_idle() {
    let u = Updater::new("0.2.0");
    assert!(matches!(u.state, UpdateState::Idle));
    assert_eq!(u.current_version, "0.2.0");
    assert!(u.should_check_now());
}

#[test]
fn should_check_now_false_when_none() {
    let mut u = Updater::new("0.2.0");
    u.mode = UpdateMode::Disabled;
    assert!(!u.should_check_now());
}

#[test]
fn check_for_update_returns_none_stub() {
    let mut u = Updater::new("0.2.0");
    let result = u.check_for_update().unwrap();
    assert!(result.is_none());
    assert!(matches!(u.state, UpdateState::Idle));
}

#[test]
fn status_text_idle_is_none() {
    let u = Updater::new("0.2.0");
    assert!(u.status_text().is_none());
}

fn release() -> UpdateInfo {
    UpdateInfo {
        version: "0.3.0".into(),
        release_date: "2025-01-01".into(),
        release_notes: "New stuff".into(),
        download_url: "https://example.com/update.tar.gz".into(),
        sha256: String::new(),
        size_bytes: 1024,
    }
}

#[test]
fn status_text_available() {
    let mut u = Updater::new("0.2.0");
    u.state = UpdateState::UpdateAvailable(release());
    let text = u.status_text().unwrap();
    assert!(text.contains("0.3.0"));
}

#[test]
fn status_text_downloading() {
    let mut u = Updater::new("0.2.0");
    u.state = UpdateState::Downloading { percent: 42 };
    let text = u.status_text().unwrap();
    assert!(text.contains("42%"));
}

#[test]
fn dismiss_returns_to_idle() {
    let mut u = Updater::new("0.2.0");
    u.state = UpdateState::Error("fail".into());
    u.dismiss();
    assert!(matches!(u.state, UpdateState::Idle));
}

#[test]
fn status_texts_exact() {
    let mut u = Updater::new("0.2.0");
    u.state = UpdateState::CheckingForUpdate;
    assert_eq!(u.status_text().unwrap(), "Checking for updates…");
    u.state = UpdateState::UpdateAvailable(release());
    assert_eq!(u.status_text().unwrap(), "Update available: v0.3.0");
    u.state = UpdateState::Downloading { percent: 7 };
    assert_eq!(u.status_text().unwrap(), "Downloading update… 7%");
    u.state = UpdateState::ReadyToInstall(release());
    assert_eq!(u.status_text().unwrap(), "v0.3.0 ready — restart to update");
    u.state = UpdateState::Error("disk full".into());
    assert_eq!(u.status_text().unwrap(), "Update error: disk full");
}

#[test]
fn disabled_check_changes_nothing_and_checked_updater_waits() {
    let mut u = Updater::new("0.2.0");
    u.mode = UpdateMode::Disabled;
    assert!(u.check_for_update().unwrap().is_none());
    assert!(matches!(u.state, UpdateState::Idle));
    u.mode = UpdateMode::Default;
    assert!(u.should_check_now());
    u.check_for_update().unwrap();
    assert!(!u.should_check_now());
}

#[test]
fn download_outcomes() {
    let mut u = Updater::new("0.2.0");
    u.begin_download();
    assert!(matches!(u.state, UpdateState::Downloading { percent: 0 }));
    u.download_finished(&release(), None);
    assert!(matches!(u.state, UpdateState::ReadyToInstall(ref i) if i.version == "0.3.0"));
    u.download_finished(&release(), Some("network down".into()));
    assert!(matches!(u.state, UpdateState::Error(ref m) if m == "network down"));
    assert!(u.apply_update("/nonexistent/file.bin").is_err());
}
