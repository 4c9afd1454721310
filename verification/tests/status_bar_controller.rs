use std::collections::HashMap;

use sidex_app::status_bar_controller::{
    update_status_bar, EditorStatus, ItemChange, LineEnding, SelectionSpan, StatusBarMode, StatusBarUpdate,
};

/// A status bar item as the bar holds it.
#[derive(Default, Clone)]
struct Item {
    text: String,
    visible: bool,
    tooltip: String,
    color: String,
}

/// A bar with every item hidden, to which the changes are applied in order.
fn apply(update: &StatusBarUpdate) -> (StatusBarMode, HashMap<&'static str, Item>) {
    let (mode, changes) = update_status_bar(update);
    let mut items: HashMap<&'static str, Item> = HashMap::new();
    for c in changes {
        match c {
            ItemChange::SetText(id, t) => items.entry(id).or_default().text = t,
            ItemChange::SetVisible(id, v) => items.entry(id).or_default().visible = v,
            ItemChange::SetTooltip(id, t) => items.entry(id).or_default().tooltip = t,
            ItemChange::SetColor(id, c) => items.entry(id).or_default().color = c.to_string(),
        }
    }
    (mode, items)
}

/// The snapshot of a new untitled document: cursor at the start, nothing
/// selected, plain text in UTF-8 with LF line endings, four-space indents.
fn untitled() -> EditorStatus {
    EditorStatus {
        line: 0,
        column: 0,
        selection: None,
        language_id: "plaintext".to_string(),
        encoding_label: "UTF-8".to_string(),
        line_ending: LineEnding::Lf,
        use_tabs: false,
        tab_size: 4,
    }
}

fn make_update(doc: Option<EditorStatus>) -> StatusBarUpdate {
    StatusBarUpdate {
        active_doc: doc,
        remote_labels: Vec::new(),
        branch: None,
        error_count: 0,
        warning_count: 0,
        is_debugging: false,
        has_folder: true,
        notification_count: 0,
    }
}

#[test]
fn update_hides_editor_items_with_no_doc() {
    let (_, items) = apply(&make_update(None));
    assert!(!items["cursor.position"].visible);
    assert!(!items["editor.language"].visible);
}

#[test]
fn update_shows_editor_items_with_doc() {
    let (_, items) = apply(&make_update(Some(untitled())));
    let cursor = &items["cursor.position"];
    assert!(cursor.visible);
    assert!(cursor.text.contains("Ln"));
    let lang = &items["editor.language"];
    assert!(lang.visible);
    assert_eq!(lang.text, "plaintext");
    let enc = &items["editor.encoding"];
    assert!(enc.visible);
    assert_eq!(enc.text, "UTF-8");
    let eol = &items["editor.eol"];
    assert!(eol.visible);
    assert_eq!(eol.text, "LF");
}

#[test]
fn debug_mode_sets_mode() {
    let mut upd = make_update(None);
    upd.is_debugging = true;
    let (mode, _) = apply(&upd);
    assert_eq!(mode, StatusBarMode::Debugging);
}

#[test]
fn no_folder_mode() {
    let mut upd = make_update(None);
    upd.has_folder = false;
    let (mode, _) = apply(&upd);
    assert_eq!(mode, StatusBarMode::NoFolder);
}

#[test]
fn notification_bell_hidden_when_zero() {
    let (_, items) = apply(&make_update(None));
    assert!(!items["notifications.bell"].visible);
}

#[test]
fn status_bar_texts_for_a_busy_state() {
    let mut doc = untitled();
    doc.line = 9;
    doc.column = 4;
    doc.selection = Some(SelectionSpan { start_line: 2, end_line: 4, start_offset: 10, end_offset: 35 });
    doc.line_ending = LineEnding::CrLf;
    doc.use_tabs = true;
    doc.tab_size = 8;
    let upd = StatusBarUpdate {
        active_doc: Some(doc),
        remote_labels: vec!["SSH: box".to_string(), "WSL".to_string()],
        branch: Some("main".to_string()),
        error_count: 3,
        warning_count: 0,
        is_debugging: false,
        has_folder: true,
        notification_count: 2,
    };
    let (mode, items) = apply(&upd);
    assert_eq!(mode, StatusBarMode::Remote);
    assert_eq!(items["remote.indicator"].text, "SSH: box");
    assert!(items["remote.indicator"].visible);
    assert_eq!(items["git.branch"].text, "main");
    assert_eq!(items["problems.errors"].text, "3");
    assert_eq!(items["problems.errors"].tooltip, "3 Error(s)");
    assert_eq!(items["problems.errors"].color, "#f14c4c");
    assert_eq!(items["problems.warnings"].tooltip, "0 Warning(s)");
    assert_eq!(items["problems.warnings"].color, "");
    assert_eq!(items["cursor.position"].text, "Ln 10, Col 5");
    assert_eq!(items["selection.info"].text, "25 selected (3 lines)");
    assert_eq!(items["editor.eol"].text, "CRLF");
    assert_eq!(items["editor.indent"].text, "Tab Size: 8");
    assert!(items["notifications.bell"].visible);
    assert_eq!(items["notifications.bell"].tooltip, "2 new notification(s)");
}

#[test]
fn status_bar_without_workspace_hides_branch_and_remote() {
    let (mode, items) = apply(&make_update(None));
    assert_eq!(mode, StatusBarMode::Normal);
    assert!(!items["git.branch"].visible);
    assert!(!items["remote.indicator"].visible);
    assert!(!items["selection.info"].visible);
    assert_eq!(items["editor.indent"].text, "");
}
