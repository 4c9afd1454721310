use sidex_app::command_palette::{CommandPaletteItem, CommandPaletteState};

fn boost(state: &CommandPaletteState, id: &str) -> f64 {
    state.recency_position(id).map_or(0.0, |idx| 100.0 / (idx as f64 + 1.0))
}

#[test]
fn command_palette_show_and_cancel() {
    let mut state = CommandPaletteState::default();
    state.show();
    assert!(state.is_visible);

    state.cancel();
    assert!(!state.is_visible);
    assert!(state.items.is_empty());
}

#[test]
fn filter_resets_selection() {
    let mut state = CommandPaletteState::default();
    state.selected = 5;
    state.filter("save");
    assert_eq!(state.selected, 0);
    assert_eq!(state.input, "save");
}

#[test]
fn command_palette_select_navigation() {
    let mut state = CommandPaletteState::default();
    state.set_items(vec![
        CommandPaletteItem {
            id: "a".into(),
            label: "A".into(),
            keybinding: None,
            category: None,
            score: 100,
            match_positions: vec![],
        },
        CommandPaletteItem {
            id: "b".into(),
            label: "B".into(),
            keybinding: None,
            category: None,
            score: 90,
            match_positions: vec![],
        },
    ]);

    assert_eq!(state.selected, 0);
    state.select_next();
    assert_eq!(state.selected, 1);
    state.select_next();
    assert_eq!(state.selected, 0);
    state.select_prev();
    assert_eq!(state.selected, 1);
}

#[test]
fn record_usage() {
    let mut state = CommandPaletteState::default();
    state.record_usage("cmd_a");
    state.record_usage("cmd_b");
    state.record_usage("cmd_a");

    assert_eq!(state.recently_used[0], "cmd_a");
    assert_eq!(state.recently_used[1], "cmd_b");
    assert_eq!(state.recently_used.len(), 2);
}

#[test]
fn recency_boost() {
    let mut state = CommandPaletteState::default();
    state.record_usage("cmd_a");
    state.record_usage("cmd_b");

    assert!(boost(&state, "cmd_b") > boost(&state, "cmd_a"));
    assert_eq!(boost(&state, "cmd_unknown"), 0.0);
    assert_eq!(state.recency_position("cmd_b"), Some(0));
    assert_eq!(state.recency_position("cmd_a"), Some(1));
}

#[test]
fn selected_item() {
    let mut state = CommandPaletteState::default();
    assert!(state.selected_item().is_none());

    state.set_items(vec![CommandPaletteItem {
        id: "test".into(),
        label: "Test".into(),
        keybinding: Some("Ctrl+T".into()),
        category: Some("Edit".into()),
        score: 1,
        match_positions: vec![],
    }]);

    let item = state.selected_item().unwrap();
    assert_eq!(item.id, "test");
    assert_eq!(item.keybinding.as_deref(), Some("Ctrl+T"));
}

#[test]
fn palette_selection_clamps_and_placeholder() {
    let mut state = CommandPaletteState::default();
    state.selected = 3;
    state.set_items(Vec::new());
    assert_eq!(state.selected, 0);
    state.select_next();
    state.select_prev();
    assert_eq!(state.selected, 0);
    assert_eq!(state.items().len(), 0);
    assert_eq!(state.placeholder(), "Type a command name");
}
