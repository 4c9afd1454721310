use sidex_app::telemetry::{format_hex16, TelemetryLevel, TelemetryService};

#[test]
fn off_by_default() {
    let svc = TelemetryService::default();
    assert_eq!(svc.level(), TelemetryLevel::Off);
    assert!(!svc.is_enabled());
}

#[test]
fn events_not_recorded_when_off() {
    let mut svc = TelemetryService::new(TelemetryLevel::Off);
    svc.log_event("test", &Vec::new());
    svc.log_error("err", "msg");
    svc.log_crash("crash", "msg");
    assert_eq!(svc.event_count(), 0);
}

#[test]
fn crash_level_records_crashes_only() {
    let mut svc = TelemetryService::new(TelemetryLevel::Crash);
    svc.log_event("test", &Vec::new());
    svc.log_error("err", "msg");
    svc.log_crash("crash", "msg");
    assert_eq!(svc.event_count(), 1);
    assert_eq!(svc.events()[0].classification, "crash");
}

#[test]
fn error_level_records_errors_and_crashes() {
    let mut svc = TelemetryService::new(TelemetryLevel::Error);
    svc.log_event("test", &Vec::new());
    svc.log_error("err", "msg");
    svc.log_crash("crash", "msg");
    assert_eq!(svc.event_count(), 2);
}

#[test]
fn all_level_records_everything() {
    let mut svc = TelemetryService::new(TelemetryLevel::All);
    svc.log_event("test", &Vec::new());
    svc.log_error("err", "msg");
    svc.log_crash("crash", "msg");
    assert_eq!(svc.event_count(), 3);
}

#[test]
fn level_from_setting() {
    assert_eq!(TelemetryLevel::from_setting("off"), TelemetryLevel::Off);
    assert_eq!(TelemetryLevel::from_setting("crash"), TelemetryLevel::Crash);
    assert_eq!(TelemetryLevel::from_setting("error"), TelemetryLevel::Error);
    assert_eq!(TelemetryLevel::from_setting("all"), TelemetryLevel::All);
    assert_eq!(TelemetryLevel::from_setting("garbage"), TelemetryLevel::Off);
}

#[test]
fn clear_removes_all() {
    let mut svc = TelemetryService::new(TelemetryLevel::All);
    svc.log_event("a", &Vec::new());
    svc.log_event("b", &Vec::new());
    assert_eq!(svc.event_count(), 2);
    svc.clear();
    assert_eq!(svc.event_count(), 0);
}

#[test]
fn set_level_works() {
    let mut svc = TelemetryService::new(TelemetryLevel::Off);
    svc.set_level(TelemetryLevel::All);
    assert!(svc.is_enabled());
    svc.log_event("test", &Vec::new());
    assert_eq!(svc.event_count(), 1);
}

#[test]
fn session_id_is_stable() {
    let svc = TelemetryService::new(TelemetryLevel::Off);
    let id = svc.session_id().to_owned();
    assert_eq!(id.len(), 16);
    assert_eq!(svc.session_id(), id);
}

// ── Further cases ────────────────────────────────────────────────────────────

#[test]
fn level_from_setting_ignores_case() {
    assert_eq!(TelemetryLevel::from_setting("CRASH"), TelemetryLevel::Crash);
    assert_eq!(TelemetryLevel::from_setting("All"), TelemetryLevel::All);
}

#[test]
fn event_properties_carry_ids_and_message() {
    let mut svc = TelemetryService::with_seeds(TelemetryLevel::All, 0xab, 0x1234_5678_9abc_def0);
    assert_eq!(svc.session_id(), "00000000000000ab");
    svc.log_error("boom", "bad thing");
    let e = &svc.events()[0];
    assert_eq!(e.event_name, "boom");
    assert_eq!(e.classification, "error");
    assert_eq!(
        e.properties,
        vec![
            ("message".to_string(), "bad thing".to_string()),
            ("sessionId".to_string(), "00000000000000ab".to_string()),
            ("machineId".to_string(), "123456789abcdef0".to_string()),
        ]
    );
}

#[test]
fn given_session_property_is_overwritten() {
    let mut svc = TelemetryService::with_seeds(TelemetryLevel::All, 1, 2);
    let props = vec![
        ("sessionId".to_string(), "mine".to_string()),
        ("lang".to_string(), "rust".to_string()),
    ];
    svc.log_event("editor.opened", &props);
    let e = &svc.events()[0];
    assert_eq!(e.classification, "usage");
    assert_eq!(e.properties[0], ("sessionId".to_string(), "0000000000000001".to_string()));
    assert_eq!(e.properties.len(), 3);
}

#[test]
fn hex16_formats_full_width() {
    assert_eq!(format_hex16(0), "0000000000000000");
    assert_eq!(format_hex16(u64::MAX), "ffffffffffffffff");
}

#[test]
fn a_long_run_at_off_records_nothing() {
    let mut svc = TelemetryService::new(TelemetryLevel::Off);
    let props = vec![("k".to_string(), "v".to_string())];
    for i in 0..20 {
        let name = format!("e{i}");
        svc.log_event(&name, &props);
        svc.log_error(&name, "boom");
        svc.log_crash(&name, "boom");
    }
    assert_eq!(svc.event_count(), 0);
    assert!(svc.events().is_empty());
    assert_eq!(svc.level(), TelemetryLevel::Off);
}
