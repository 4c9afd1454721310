use sidex_app::logging::{
    channels, console_line, day_folder, file_line, push_bounded, LogEntry, LogLevel, LogOutput,
    LogService, MAX_CHANNEL_BUFFER,
};

#[test]
fn level_from_str() {
    assert_eq!(LogLevel::from_str_loose("trace"), LogLevel::Trace);
    assert_eq!(LogLevel::from_str_loose("debug"), LogLevel::Debug);
    assert_eq!(LogLevel::from_str_loose("info"), LogLevel::Info);
    assert_eq!(LogLevel::from_str_loose("warn"), LogLevel::Warning);
    assert_eq!(LogLevel::from_str_loose("warning"), LogLevel::Warning);
    assert_eq!(LogLevel::from_str_loose("error"), LogLevel::Error);
    assert_eq!(LogLevel::from_str_loose("critical"), LogLevel::Critical);
    assert_eq!(LogLevel::from_str_loose("off"), LogLevel::Off);
    assert_eq!(LogLevel::from_str_loose("garbage"), LogLevel::Info);
}

#[test]
fn level_ordering() {
    assert!(LogLevel::Trace < LogLevel::Debug);
    assert!(LogLevel::Debug < LogLevel::Info);
    assert!(LogLevel::Info < LogLevel::Warning);
    assert!(LogLevel::Warning < LogLevel::Error);
    assert!(LogLevel::Error < LogLevel::Critical);
    assert!(LogLevel::Critical < LogLevel::Off);
}

#[test]
fn level_case_and_aliases() {
    assert_eq!(LogLevel::from_str_loose("FATAL"), LogLevel::Critical);
    assert_eq!(LogLevel::from_str_loose("Warn"), LogLevel::Warning);
    assert_eq!(LogLevel::default(), LogLevel::Info);
    assert_eq!(LogLevel::Warning.label(), "WARN");
    assert_eq!(LogLevel::Critical.label(), "CRIT");
}

#[test]
fn threshold_filtering() {
    assert!(LogLevel::Warning.allows(LogLevel::Error));
    assert!(LogLevel::Warning.allows(LogLevel::Warning));
    assert!(!LogLevel::Warning.allows(LogLevel::Info));
    assert!(!LogLevel::Off.allows(LogLevel::Critical));
    assert!(!LogLevel::Off.allows(LogLevel::Off));
    assert!(LogLevel::Trace.allows(LogLevel::Trace));
}

#[test]
fn channel_buffer_drops_oldest_half() {
    let mut buf: Vec<usize> = Vec::new();
    for i in 0..MAX_CHANNEL_BUFFER {
        push_bounded(&mut buf, i);
    }
    assert_eq!(buf.len(), MAX_CHANNEL_BUFFER);
    push_bounded(&mut buf, MAX_CHANNEL_BUFFER);
    assert_eq!(buf.len(), MAX_CHANNEL_BUFFER / 2 + 1);
    assert_eq!(buf[0], MAX_CHANNEL_BUFFER / 2);
    assert_eq!(*buf.last().unwrap(), MAX_CHANNEL_BUFFER);
}

#[test]
fn outputs_and_channel_names() {
    let out = LogOutput::OutputChannel(channels::GIT.to_string());
    assert!(matches!(out, LogOutput::OutputChannel(ref n) if n == "Git"));
    assert_eq!(channels::DEBUG, "Debug Console");
}

#[test]
fn init_creates_dir() {
    let svc = LogService::init(LogLevel::Info, "/tmp/sidex-logs");
    assert!(svc.is_initialised());
    assert_eq!(svc.log_dir(), "/tmp/sidex-logs");
    assert_eq!(svc.outputs().len(), 2);
    assert!(matches!(svc.outputs()[0], LogOutput::Console));
}

#[test]
fn log_entry_buffered() {
    let mut svc = LogService::init(LogLevel::Trace, "/tmp/sidex-logs");
    svc.info("Git", "pull completed");
    svc.warn("LSP", "server slow");

    assert_eq!(svc.get_channel_log("Git").len(), 1);
    assert_eq!(svc.get_channel_log("LSP").len(), 1);
    assert_eq!(svc.get_channel_log("Unknown").len(), 0);
    assert_eq!(svc.total_entries(), 2);
    let e = &svc.get_channel_log("Git")[0];
    assert_eq!(e.message, "pull completed");
    assert_eq!(e.level, LogLevel::Info);
}

#[test]
fn below_level_discarded() {
    let mut svc = LogService::init(LogLevel::Warning, "/tmp/sidex-logs");
    svc.trace("SideX", "ignored");
    svc.debug("SideX", "ignored");
    svc.info("SideX", "ignored");
    svc.warn("SideX", "kept");
    svc.error("SideX", "kept");
    assert_eq!(svc.total_entries(), 2);
}

#[test]
fn off_discards_all() {
    let mut svc = LogService::init(LogLevel::Off, "/tmp/sidex-logs");
    assert!(!svc.critical("SideX", "nope"));
    assert_eq!(svc.total_entries(), 0);
}

#[test]
fn set_level_runtime() {
    let mut svc = LogService::init(LogLevel::Error, "/tmp/sidex-logs");
    svc.info("SideX", "hidden");
    assert_eq!(svc.total_entries(), 0);
    svc.set_level(LogLevel::Info);
    assert_eq!(svc.level(), LogLevel::Info);
    svc.info("SideX", "visible");
    assert_eq!(svc.total_entries(), 1);
}

#[test]
fn channels_list() {
    let mut svc = LogService::init(LogLevel::Trace, "/tmp/sidex-logs");
    svc.info("Git", "hi");
    svc.info("LSP", "hi");
    let chans = svc.channels();
    assert!(chans.contains(&"Git"));
    assert!(chans.contains(&"LSP"));
}

#[test]
fn clear_channel_works() {
    let mut svc = LogService::init(LogLevel::Trace, "/tmp/sidex-logs");
    svc.info("Git", "a");
    svc.info("Git", "b");
    svc.clear_channel("Git");
    assert_eq!(svc.get_channel_log("Git").len(), 0);
}

#[test]
fn buffer_truncation() {
    let mut svc = LogService::init(LogLevel::Trace, "/tmp/sidex-logs");
    for i in 0..MAX_CHANNEL_BUFFER + 100 {
        svc.info("flood", &format!("msg {i}"));
    }
    let len = svc.get_channel_log("flood").len();
    assert!(len <= MAX_CHANNEL_BUFFER, "buffer should have been trimmed");
    assert_eq!(svc.get_channel_log("flood").last().unwrap().message, format!("msg {}", MAX_CHANNEL_BUFFER + 99));
}

#[test]
fn structured_data_is_kept() {
    let mut svc = LogService::init(LogLevel::Trace, "/tmp/sidex-logs");
    let mut map = serde_json::Map::new();
    map.insert("branch".to_string(), serde_json::Value::String("main".to_string()));
    assert!(svc.log(LogLevel::Info, "Git", "pull", Some(serde_json::Value::Object(map))));
    let e = &svc.get_channel_log("Git")[0];
    assert!(e.data.is_some());
    assert_eq!(e.timestamp.len(), 20);
    svc.add_output(LogOutput::OutputChannel("Git".to_string()));
    assert_eq!(svc.outputs().len(), 3);
}

#[test]
fn log_lines_pad_the_level_and_cut_the_time() {
    let entry = LogEntry {
        timestamp: "2025-03-01T10:20:30Z".to_string(),
        level: LogLevel::Info,
        source: "Git".to_string(),
        message: "pull".to_string(),
        data: None,
    };
    assert_eq!(console_line(&entry), "[2025-03-01T10:20:30 INFO ] [Git] pull");
    assert_eq!(file_line(&entry), "[2025-03-01T10:20:30Z INFO ] [Git] pull");
    assert_eq!(day_folder(&entry), "2025-03-01");
    let short = LogEntry { timestamp: "t".to_string(), level: LogLevel::Critical, ..entry };
    assert_eq!(console_line(&short), "[t CRIT ] [Git] pull");
    assert_eq!(day_folder(&short), "t");
}
