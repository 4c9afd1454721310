use sidex_app::crash_reporter::{
    is_report_file, order_pending_reports, report_id_for, text_less, CrashReport, CrashReporter,
};

fn report(id: &str, timestamp: &str) -> CrashReport {
    CrashReport {
        id: id.into(),
        timestamp: timestamp.into(),
        version: "0.2.0".into(),
        os: "linux x86_64".into(),
        arch: "x86_64".into(),
        stack_trace: "test trace".into(),
        log_excerpt: String::new(),
        extensions: Vec::new(),
    }
}

#[test]
fn reporter_defaults() {
    let cr = CrashReporter::new("/tmp/sidex/crashes");
    assert!(cr.enabled);
    assert_eq!(cr.max_reports, 20);
    assert_eq!(cr.report_file_name("crash-abc"), "crash-abc.json");
}

#[test]
fn report_ids_and_files() {
    assert_eq!(report_id_for(0xab), "crash-00000000000000ab");
    assert!(is_report_file("/tmp/crash-1.json"));
    assert!(!is_report_file("/tmp/crash-1.json.bak"));
    assert!(!is_report_file("/tmp/README"));
}

#[test]
fn pending_reports_newest_first() {
    let reports = vec![
        report("a", "2025-01-01T00:00:00Z"),
        report("b", "2025-03-01T00:00:00Z"),
        report("c", "2025-02-01T00:00:00Z"),
        report("d", "2025-03-01T00:00:00Z"),
    ];
    let ordered = order_pending_reports(reports);
    let ids: Vec<&str> = ordered.iter().map(|r| r.id.as_str()).collect();
    assert_eq!(ids, vec!["b", "d", "c", "a"]);
    assert!(order_pending_reports(Vec::new()).is_empty());
}

#[test]
fn text_order_matches_string_order() {
    for (a, b) in [("a", "b"), ("ab", "a"), ("", "x"), ("x", ""), ("same", "same"), ("é", "z")] {
        assert_eq!(text_less(a, b), a < b, "{a} < {b}");
    }
}

#[test]
fn default_dir_is_populated() {
    let cr = CrashReporter::default_dir("/home/user/.local/share");
    assert!(cr.crash_dir.contains("sidex"));
    assert_eq!(cr.crash_dir, "/home/user/.local/share/sidex/crashes");
    assert!(cr.enabled);
    assert_eq!(cr.max_reports, 20);
}
