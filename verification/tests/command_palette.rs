use sidex_app::command_palette::{
    record_usage, select_next_row, select_prev_row, CommandCategory, MAX_RECENT_COMMANDS,
};

#[test]
fn category_from_file_command() {
    assert_eq!(CommandCategory::from_command_id("workbench.action.files.save"), CommandCategory::File);
}

#[test]
fn category_from_edit_command() {
    assert_eq!(
        CommandCategory::from_command_id("editor.action.clipboardCopyAction"),
        CommandCategory::Edit
    );
}

#[test]
fn category_from_go_command() {
    assert_eq!(CommandCategory::from_command_id("workbench.action.quickOpen"), CommandCategory::Go);
}

#[test]
fn category_from_debug_command() {
    assert_eq!(CommandCategory::from_command_id("workbench.action.debug.start"), CommandCategory::Debug);
}

#[test]
fn category_from_terminal_command() {
    assert_eq!(
        CommandCategory::from_command_id("workbench.action.terminal.new"),
        CommandCategory::Terminal
    );
}

#[test]
fn category_from_unknown() {
    assert_eq!(CommandCategory::from_command_id("some.random.command"), CommandCategory::Other);
}

#[test]
fn category_labels_and_more_rules() {
    assert_eq!(CommandCategory::Preferences.as_str(), "Preferences");
    assert_eq!(CommandCategory::Go.as_str(), "Go");
    assert_eq!(CommandCategory::from_command_id("editor.action.smartSelect.expand"), CommandCategory::Selection);
    assert_eq!(CommandCategory::from_command_id("workbench.action.zoomIn"), CommandCategory::View);
    assert_eq!(CommandCategory::from_command_id("actions.find"), CommandCategory::Edit);
    assert_eq!(CommandCategory::from_command_id("editor.debug.action.toggleBreakpoint"), CommandCategory::Debug);
    assert_eq!(CommandCategory::from_command_id("workbench.action.findInFiles"), CommandCategory::Edit);
    assert_eq!(CommandCategory::from_command_id(""), CommandCategory::Other);
}

#[test]
fn record_usage_moves_to_front() {
    let mut recent: Vec<String> = Vec::new();
    record_usage(&mut recent, "cmd_a");
    record_usage(&mut recent, "cmd_b");
    record_usage(&mut recent, "cmd_a");
    assert_eq!(recent, vec!["cmd_a", "cmd_b"]);
}

#[test]
fn record_usage_is_bounded() {
    let mut recent: Vec<String> = Vec::new();
    for i in 0..60 {
        record_usage(&mut recent, &format!("cmd{i}"));
    }
    assert_eq!(recent.len(), MAX_RECENT_COMMANDS);
    assert_eq!(recent[0], "cmd59");
    assert_eq!(recent[49], "cmd10");
}

#[test]
fn selection_wraps() {
    assert_eq!(select_next_row(0, 2), 1);
    assert_eq!(select_next_row(1, 2), 0);
    assert_eq!(select_prev_row(0, 2), 1);
    assert_eq!(select_prev_row(1, 3), 0);
    assert_eq!(select_next_row(5, 0), 5);
}
