use sidex_app::app::{App, DocumentInfo, OpenOutcome};
use sidex_app::editor_group::AutoSaveMode;
use sidex_app::commands::CommandRegistry;

fn doc(path: &str, lang: &str, dirty: bool) -> DocumentInfo {
    DocumentInfo {
        file_path: Some(path.to_string()),
        language_id: lang.to_string(),
        is_dirty: dirty,
        has_selection: false,
        line_count: 10,
    }
}

#[test]
fn shell_starts_with_one_untitled_document() {
    let app = App::new();
    assert_eq!(app.documents.len(), 1);
    assert!(app.documents[0].file_path.is_none());
    assert_eq!(app.documents[0].language_id, "plaintext");
    assert_eq!(app.active_document, 0);
    assert_eq!(app.editor_groups.groups.len(), 1);
    assert_eq!(app.auto_save_mode, AutoSaveMode::Off);
    assert_eq!(app.auto_save_delay_ms, 1000);
    assert!(app.context_keys.editor_text_focus);
    assert_eq!(app.context_keys.editor_lang_id, "plaintext");
    assert_eq!(app.context_keys.in_quick_open, None);
    assert!(app.cursor_visible());
    assert!(app.needs_render);
}

#[test]
fn shell_open_file_activates_or_asks_to_load() {
    let mut app = App::new();
    assert_eq!(app.open_file("/src/a.rs"), OpenOutcome::NeedsLoad);
    assert_eq!(app.documents.len(), 1);
    app.document_loaded(doc("/src/a.rs", "rust", false));
    assert_eq!(app.active_document, 1);
    assert_eq!(app.context_keys.editor_lang_id, "rust");
    app.switch_to_document(0);
    assert_eq!(app.context_keys.editor_lang_id, "plaintext");
    assert_eq!(app.open_file("/src/a.rs"), OpenOutcome::Activated(1));
    assert_eq!(app.active_document, 1);
    app.switch_to_document(9);
    assert_eq!(app.active_document, 1);
}

#[test]
fn shell_close_active_editor_remembers_and_keeps_one() {
    let mut app = App::new();
    app.document_loaded(doc("/src/a.rs", "rust", false));
    app.close_active_editor();
    assert_eq!(app.documents.len(), 1);
    assert_eq!(app.active_document, 0);
    assert_eq!(app.commands.recently_closed, vec!["/src/a.rs".to_string()]);
    app.close_active_editor();
    assert_eq!(app.documents.len(), 1);
    assert!(app.documents[0].file_path.is_none());
    assert_eq!(app.commands.recently_closed.len(), 1);
}

#[test]
fn shell_close_all_editors_and_reopen() {
    let mut app = App::new();
    app.document_loaded(doc("/tmp", "plaintext", false));
    app.document_loaded(doc("/definitely/missing/file.rs", "rust", false));
    app.close_all_editors();
    assert_eq!(app.documents.len(), 1);
    assert_eq!(app.active_document, 0);
    assert_eq!(
        app.commands.recently_closed,
        vec!["/tmp".to_string(), "/definitely/missing/file.rs".to_string()]
    );
    assert!(app.reopen_closed_editor().is_none());
    assert_eq!(app.commands.recently_closed.len(), 1);
    let (path, outcome) = app.reopen_closed_editor().unwrap();
    assert_eq!(path, "/tmp");
    assert_eq!(outcome, OpenOutcome::NeedsLoad);
    assert!(app.reopen_closed_editor().is_none());
}

#[test]
fn shell_quick_pick_wraps_both_ways() {
    let mut app = App::new();
    app.document_loaded(doc("/a", "plaintext", false));
    app.document_loaded(doc("/b", "plaintext", false));
    app.quick_pick_move(1);
    assert_eq!(app.quick_pick_index, 1);
    app.quick_pick_move(2);
    assert_eq!(app.quick_pick_index, 0);
    app.quick_pick_move(-1);
    assert_eq!(app.quick_pick_index, 2);
    app.quick_pick_move(-7);
    assert_eq!(app.quick_pick_index, granted(2 - 7, 3));
}

fn granted(v: i64, n: i64) -> usize {
    v.rem_euclid(n) as usize
}

#[test]
fn shell_confirm_quick_pick_runs_command_or_switches_document() {
    let mut app = App::new();
    app.show_command_palette = true;
    app.quick_pick_index = 0;
    let id = app.confirm_quick_pick();
    assert_eq!(id.as_deref(), Some("workbench.action.files.newUntitledFile"));
    assert!(!app.show_command_palette);
    assert_eq!(app.context_keys.in_quick_open, Some(false));

    app.document_loaded(doc("/a", "rust", false));
    app.show_quick_open = true;
    app.quick_pick_index = 0;
    assert!(app.confirm_quick_pick().is_none());
    assert_eq!(app.active_document, 0);
    assert!(!app.show_quick_open);

    app.show_command_palette = true;
    app.quick_pick_index = 100_000;
    assert!(app.confirm_quick_pick().is_none());
    assert!(!app.show_command_palette);
}

#[test]
fn shell_goto_line_clamps_and_clears() {
    let mut app = App::new();
    app.document_loaded(DocumentInfo { line_count: 3, ..doc("/a", "rust", false) });
    app.show_goto_line = true;
    app.goto_line_input = " 5 ".to_string();
    assert_eq!(app.confirm_goto_line(), Some(2));
    assert!(!app.show_goto_line);
    assert!(app.goto_line_input.is_empty());
    app.goto_line_input = "2".to_string();
    assert_eq!(app.confirm_goto_line(), Some(1));
    app.goto_line_input = "0".to_string();
    assert_eq!(app.confirm_goto_line(), Some(0));
    app.goto_line_input = "abc".to_string();
    assert_eq!(app.confirm_goto_line(), None);
}

#[test]
fn shell_tab_operations_remember_closed_tabs() {
    let mut app = App::new();
    assert_eq!(app.open_file_in_active_group("/p/a.rs"), OpenOutcome::NeedsLoad);
    app.document_loaded(doc("/p/a.rs", "rust", false));
    app.open_file_in_active_group("/p/b.rs");
    app.document_loaded(doc("/p/b.rs", "rust", false));
    app.open_file_in_active_group("/p/c.rs");
    app.document_loaded(doc("/p/c.rs", "rust", false));
    assert_eq!(app.editor_groups.groups[0].tabs.len(), 3);

    app.close_other_tabs(0, 1);
    assert_eq!(app.editor_groups.groups[0].tabs.len(), 1);
    assert_eq!(app.editor_groups.groups[0].tabs[0].path.as_deref(), Some("/p/b.rs"));
    let remembered: Vec<(&str, usize, usize)> = app
        .editor_groups
        .recently_closed
        .iter()
        .map(|c| (c.path.as_str(), c.group, c.position))
        .collect();
    assert_eq!(remembered, vec![("/p/a.rs", 0, 0), ("/p/c.rs", 0, 0)]);

    app.close_tab(0, 0);
    assert!(app.editor_groups.groups[0].tabs.is_empty());
    assert_eq!(app.commands.recently_closed, vec!["/p/b.rs".to_string()]);
    app.close_tab(0, 5);
    app.close_tab(3, 0);
    assert_eq!(app.editor_groups.recently_closed.len(), 3);
}

#[test]
fn shell_next_tab_follows_the_document() {
    let mut app = App::new();
    app.open_file_in_active_group("/p/a.rs");
    app.document_loaded(doc("/p/a.rs", "rust", false));
    app.open_file_in_active_group("/p/b.md");
    app.document_loaded(doc("/p/b.md", "markdown", false));
    assert_eq!(app.active_document, 2);
    app.next_tab();
    assert_eq!(app.editor_groups.groups[0].active_tab, 0);
    assert_eq!(app.active_document, 1);
    assert_eq!(app.context_keys.editor_lang_id, "rust");
    app.prev_tab();
    assert_eq!(app.active_document, 2);
    app.move_tab_left();
    assert_eq!(app.editor_groups.groups[0].tabs[0].path.as_deref(), Some("/p/b.md"));
    app.move_tab_right();
    assert_eq!(app.editor_groups.groups[0].tabs[1].path.as_deref(), Some("/p/b.md"));
    app.pin_tab(0, 1);
    assert!(app.editor_groups.groups[0].tabs[0].is_pinned);
    app.unpin_tab(0, 0);
    assert!(!app.editor_groups.groups[0].tabs[0].is_pinned);
}

#[test]
fn shell_splits_and_focuses_groups() {
    let mut app = App::new();
    app.open_file_in_active_group("/p/a.rs");
    app.document_loaded(doc("/p/a.rs", "rust", false));
    let dup = app.split_editor_right();
    assert_eq!(dup.as_deref(), Some("/p/a.rs"));
    app.push_document(doc("/p/a.rs", "rust", false), false);
    assert_eq!(app.editor_groups.groups.len(), 2);
    assert_eq!(app.editor_groups.active_group, 1);
    assert_eq!(app.active_document, 1);
    assert_eq!(app.split_editor_down().as_deref(), Some("/p/a.rs"));
    assert_eq!(app.editor_groups.groups.len(), 3);
    app.focus_group(0);
    assert_eq!(app.editor_groups.active_group, 0);
    app.prev_group();
    assert_eq!(app.editor_groups.active_group, 2);
    app.next_group();
    assert_eq!(app.editor_groups.active_group, 0);
    assert_eq!(app.open_file_in_group("/p/z.rs", 1), Some(OpenOutcome::NeedsLoad));
    assert_eq!(app.editor_groups.active_group, 1);
    assert_eq!(app.open_file_in_group("/p/z.rs", 9), None);
    assert_eq!(app.split_editor().as_deref(), Some("/p/a.rs"));
    app.push_document(doc("/p/a.rs", "rust", false), true);
    assert_eq!(app.active_document, app.documents.len() - 1);
}

#[test]
fn shell_dirty_state_reaches_tabs_and_saves() {
    let mut app = App::new();
    app.open_file_in_active_group("/p/a.rs");
    app.document_loaded(doc("/p/a.rs", "rust", true));
    app.open_file_in_active_group("/p/b.rs");
    app.document_loaded(doc("/p/b.rs", "rust", false));
    app.sync_dirty_state();
    assert!(app.editor_groups.groups[0].tabs[0].is_modified);
    assert!(!app.editor_groups.groups[0].tabs[1].is_modified);
    assert_eq!(app.unsaved_tab_count(), 1);
    assert!(app.has_unsaved_changes());
    assert_eq!(app.save_all_files(), vec![1]);
    app.documents[0].is_dirty = true;
    assert_eq!(app.unsaved_tab_count(), 2);
    assert_eq!(app.save_all_files(), vec![1]);
}

#[test]
fn shell_auto_save_modes() {
    let mut app = App::new();
    app.document_loaded(doc("/p/a.rs", "rust", true));
    app.configure_auto_save("onFocusChange", 250);
    assert_eq!(app.auto_save_mode, AutoSaveMode::OnFocusChange);
    assert_eq!(app.auto_save_delay_ms, 250);
    assert_eq!(app.on_editor_focus_change(), vec![1]);
    assert!(app.on_window_focus_change().is_empty());
    app.configure_auto_save("onWindowChange", 0);
    assert_eq!(app.on_window_focus_change(), vec![1]);
    app.configure_auto_save("afterDelay", 60_000);
    app.on_document_edit();
    let tick = app.update();
    assert!(!tick.save_all);
    app.configure_auto_save("afterDelay", 0);
    app.on_document_edit();
    let tick = app.update();
    assert!(tick.save_all);
    assert!(!app.update().save_all);
    app.configure_auto_save("bogus", 0);
    assert_eq!(app.auto_save_mode, AutoSaveMode::Off);
}

#[test]
fn shell_tick_relayout_and_terminal() {
    let mut app = App::new();
    assert!(!app.update().relayout);
    app.new_terminal();
    assert!(app.panel_visible);
    assert!(app.needs_relayout);
    let tick = app.update();
    assert!(tick.relayout);
    assert!(!app.needs_relayout);
    assert!(app.needs_render);
    app.reset_cursor_blink();
    assert!(app.cursor_visible());
}

#[test]
fn shell_zoom_suggest_and_overlays() {
    let mut app = App::new();
    for _ in 0..20 {
        app.zoom_in();
    }
    assert_eq!(app.zoom_level, 10);
    for _ in 0..30 {
        app.zoom_out();
    }
    assert_eq!(app.zoom_level, -5);
    app.zoom_reset();
    assert_eq!(app.zoom_level, 0);

    app.trigger_suggest();
    assert_eq!(app.context_keys.suggest_widget_visible, Some(true));
    app.suggest_move(3);
    assert_eq!(app.suggest_index, 3);
    app.suggest_move(-10);
    assert_eq!(app.suggest_index, 0);
    app.accept_suggest();
    assert_eq!(app.context_keys.suggest_widget_visible, Some(false));

    app.show_quick_open = true;
    app.show_find_widget = true;
    app.find_replace_mode = true;
    app.dismiss_overlays();
    assert!(!app.show_quick_open && !app.show_find_widget && !app.find_replace_mode);
    assert_eq!(app.context_keys.find_widget_visible, Some(false));
    app.start_rename();
    assert_eq!(app.context_keys.rename_input_visible, Some(true));
}

#[test]
fn shell_context_keys_follow_layout_and_document() {
    let mut app = App::new();
    app.document_loaded(DocumentInfo { has_selection: true, ..doc("/a.py", "python", false) });
    app.sidebar_visible = false;
    app.update_context_keys();
    assert!(app.context_keys.editor_has_selection);
    assert_eq!(app.context_keys.editor_lang_id, "python");
    assert!(!app.context_keys.side_bar_visible);
    if let Some(d) = app.active_document_mut() {
        d.language_id = "rust".to_string();
    }
    assert_eq!(app.active_document_ref().unwrap().language_id, "rust");
    app.new_untitled_file();
    assert_eq!(app.active_document, 2);
    assert_eq!(app.context_keys.editor_lang_id, "plaintext");
}

#[test]
fn new_app_holds_the_builtin_commands() {
    let app = App::new();
    assert_eq!(app.commands.ids(), CommandRegistry::new().ids());
    assert!(app.commands.has("workbench.action.files.newUntitledFile"));
    assert_eq!(app.commands.label("workbench.action.files.newUntitledFile"), Some("New File"));
}
