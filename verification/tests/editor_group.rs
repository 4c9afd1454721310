use sidex_app::editor_group::{
    AutoSaveMode, EditorGroup, EditorGroupLayout, EditorGroupManager, EditorTab, GroupLayout,
    GroupOrientation, TabIcon, TabId, TabSizingMode,
};

fn test_path(name: &str) -> String {
    format!("/tmp/test/{name}")
}

#[test]
fn open_file_reuses_existing_tab() {
    let mut group = EditorGroup::new();
    let p = test_path("foo.rs");
    group.open_file(&p);
    group.open_file(&p);
    assert_eq!(group.tabs.len(), 1);
}

#[test]
fn preview_tab_is_replaced() {
    let mut group = EditorGroup::new();
    group.open_file_preview(&test_path("a.rs"));
    assert_eq!(group.tabs.len(), 1);
    assert!(group.tabs[0].is_preview);

    group.open_file_preview(&test_path("b.rs"));
    assert_eq!(group.tabs.len(), 1);
    assert_eq!(group.tabs[0].title, "b.rs");
}

#[test]
fn opening_file_promotes_preview() {
    let mut group = EditorGroup::new();
    let p = test_path("a.rs");
    group.open_file_preview(&p);
    assert!(group.tabs[0].is_preview);

    group.open_file(&p);
    assert!(!group.tabs[0].is_preview);
    assert_eq!(group.tabs.len(), 1);
}

#[test]
fn close_tab_adjusts_active() {
    let mut group = EditorGroup::new();
    group.open_file(&test_path("a.rs"));
    group.open_file(&test_path("b.rs"));
    group.open_file(&test_path("c.rs"));
    assert_eq!(group.active_tab, 2);

    group.close_tab(2);
    assert_eq!(group.active_tab, 1);
}

#[test]
fn close_others_keeps_one() {
    let mut group = EditorGroup::new();
    group.open_file(&test_path("a.rs"));
    group.open_file(&test_path("b.rs"));
    group.open_file(&test_path("c.rs"));

    let closed = group.close_others(1);
    assert_eq!(closed.len(), 2);
    assert_eq!(group.tabs.len(), 1);
    assert_eq!(group.tabs[0].title, "b.rs");
}

#[test]
fn close_to_right_works() {
    let mut group = EditorGroup::new();
    group.open_file(&test_path("a.rs"));
    group.open_file(&test_path("b.rs"));
    group.open_file(&test_path("c.rs"));

    let closed = group.close_to_right(0);
    assert_eq!(closed.len(), 2);
    assert_eq!(group.tabs.len(), 1);
}

#[test]
fn pin_tab_moves_to_front() {
    let mut group = EditorGroup::new();
    group.open_file(&test_path("a.rs"));
    group.open_file(&test_path("b.rs"));
    group.open_file(&test_path("c.rs"));

    group.pin_tab(2);
    assert!(group.tabs[0].is_pinned);
    assert_eq!(group.tabs[0].title, "c.rs");
}

#[test]
fn next_prev_tab_wraps() {
    let mut group = EditorGroup::new();
    group.open_file(&test_path("a.rs"));
    group.open_file(&test_path("b.rs"));
    group.open_file(&test_path("c.rs"));
    assert_eq!(group.active_tab, 2);

    group.next_tab();
    assert_eq!(group.active_tab, 0);

    group.prev_tab();
    assert_eq!(group.active_tab, 2);
}

#[test]
fn auto_save_mode_parsing() {
    assert_eq!(AutoSaveMode::from_setting("off"), AutoSaveMode::Off);
    assert_eq!(
        AutoSaveMode::from_setting("afterDelay"),
        AutoSaveMode::AfterDelay
    );
    assert_eq!(
        AutoSaveMode::from_setting("onFocusChange"),
        AutoSaveMode::OnFocusChange
    );
    assert_eq!(
        AutoSaveMode::from_setting("onWindowChange"),
        AutoSaveMode::OnWindowChange
    );
}

#[test]
fn tab_sizing_mode_parsing() {
    assert_eq!(TabSizingMode::from_setting("fit"), TabSizingMode::Fit);
    assert_eq!(TabSizingMode::from_setting("shrink"), TabSizingMode::Shrink);
    assert_eq!(TabSizingMode::from_setting("fixed"), TabSizingMode::Fixed);
}

#[test]
fn manager_open_editor() {
    let mut mgr = EditorGroupManager::new();
    mgr.open_editor(&test_path("main.rs"), None, false);
    assert_eq!(mgr.groups[0].tabs.len(), 1);
    assert_eq!(mgr.groups[0].tabs[0].title, "main.rs");
}

#[test]
fn manager_open_preview() {
    let mut mgr = EditorGroupManager::new();
    mgr.open_editor(&test_path("lib.rs"), None, true);
    assert!(mgr.groups[0].tabs[0].is_preview);
}

#[test]
fn manager_split_right() {
    let mut mgr = EditorGroupManager::new();
    mgr.open_editor(&test_path("main.rs"), None, false);
    mgr.split_right();
    assert_eq!(mgr.groups.len(), 2);
    assert_eq!(mgr.active_group, 1);
}

#[test]
fn manager_split_down() {
    let mut mgr = EditorGroupManager::new();
    mgr.open_editor(&test_path("main.rs"), None, false);
    mgr.split_down();
    assert_eq!(mgr.groups.len(), 2);
    assert_eq!(mgr.orientation, GroupOrientation::Vertical);
}

#[test]
fn manager_move_tab() {
    let mut mgr = EditorGroupManager::new();
    mgr.open_editor(&test_path("a.rs"), None, false);
    mgr.open_editor(&test_path("b.rs"), None, false);
    mgr.split_right();
    mgr.move_tab(0, 0, 1, 0);
    assert!(mgr.groups.len() >= 1);
}

#[test]
fn manager_grid_2x2() {
    let mut mgr = EditorGroupManager::new();
    mgr.set_grid(2, 2);
    assert_eq!(mgr.groups.len(), 4);
    assert_eq!(mgr.grid_cols, 2);
    assert_eq!(mgr.grid_rows, 2);
}

#[test]
fn manager_grid_clamped() {
    let mut mgr = EditorGroupManager::new();
    mgr.set_grid(10, 10);
    assert_eq!(mgr.groups.len(), 16); // 4x4 max
}

#[test]
fn manager_close_tab_records_closed() {
    let mut mgr = EditorGroupManager::new();
    mgr.open_editor(&test_path("x.rs"), None, false);
    mgr.close_tab(0, 0);
    assert_eq!(mgr.recently_closed.len(), 1);
}

#[test]
fn manager_pin_unpin() {
    let mut mgr = EditorGroupManager::new();
    mgr.open_editor(&test_path("a.rs"), None, false);
    mgr.open_editor(&test_path("b.rs"), None, false);
    mgr.pin_tab(0, 1);
    assert!(mgr.groups[0].tabs[0].is_pinned);
    mgr.unpin_tab(0, 0);
    assert!(!mgr.groups[0].tabs[0].is_pinned);
}

#[test]
fn manager_focus_group() {
    let mut mgr = EditorGroupManager::new();
    mgr.set_grid(2, 1);
    mgr.focus_group(1);
    assert_eq!(mgr.active_group, 1);
}

#[test]
fn tab_icon_default() {
    let icon = TabIcon::default();
    match icon {
        TabIcon::Language(lang) => assert_eq!(lang, "plaintext"),
        _ => panic!("expected Language variant"),
    }
}

#[test]
fn tab_from_path_has_description() {
    let tab = EditorTab::from_path("/projects/sidex/main.rs", TabId(1));
    assert!(tab.description.is_some());
    assert_eq!(tab.title, "main.rs");
}

// ── Further cases ────────────────────────────────────────────────────────────

#[test]
fn tab_from_path_fields() {
    let tab = EditorTab::from_path("/projects/sidex/main.rs", TabId(7));
    assert_eq!(tab.id, TabId(7));
    assert_eq!(tab.description.as_deref(), Some("/projects/sidex"));
    match tab.icon {
        TabIcon::Language(l) => assert_eq!(l, "rs"),
        _ => panic!("expected Language variant"),
    }
    let bare = EditorTab::from_path("Makefile", TabId(1));
    match bare.icon {
        TabIcon::Language(l) => assert_eq!(l, "plaintext"),
        _ => panic!("expected Language variant"),
    }
}

#[test]
fn next_then_prev_returns_to_start() {
    let mut group = EditorGroup::new();
    group.open_file(&test_path("a.rs"));
    group.open_file(&test_path("b.rs"));
    group.open_file(&test_path("c.rs"));
    for start in 0..3 {
        group.active_tab = start;
        group.next_tab();
        group.prev_tab();
        assert_eq!(group.active_tab, start);
        group.prev_tab();
        group.next_tab();
        assert_eq!(group.active_tab, start);
    }
}

#[test]
fn close_tab_out_of_range_is_none() {
    let mut group = EditorGroup::new();
    group.open_file(&test_path("a.rs"));
    assert!(group.close_tab(5).is_none());
    assert_eq!(group.tabs.len(), 1);
}

#[test]
fn close_tab_shifts_preview_index() {
    let mut group = EditorGroup::new();
    group.open_file(&test_path("a.rs"));
    group.open_file_preview(&test_path("b.rs"));
    assert_eq!(group.preview_tab, Some(1));
    group.close_tab(0);
    assert_eq!(group.preview_tab, Some(0));
    assert_eq!(group.tabs[0].title, "b.rs");
}

#[test]
fn move_tab_left_respects_pinned_region() {
    let mut group = EditorGroup::new();
    group.open_file(&test_path("a.rs"));
    group.open_file(&test_path("b.rs"));
    group.pin_tab(0);
    group.active_tab = 1;
    group.move_tab_left();
    assert_eq!(group.active_tab, 1);
    assert_eq!(group.tabs[1].title, "b.rs");
    group.active_tab = 0;
    group.move_tab_right();
    assert_eq!(group.active_tab, 1);
    assert_eq!(group.tabs[1].title, "a.rs");
}

#[test]
fn grid_shrink_folds_tabs_into_last_group() {
    let mut mgr = EditorGroupManager::new();
    mgr.set_grid(3, 1);
    mgr.groups[1].open_file(&test_path("b.rs"));
    mgr.groups[2].open_file(&test_path("c.rs"));
    mgr.active_group = 2;
    mgr.set_grid(1, 1);
    assert_eq!(mgr.groups.len(), 1);
    assert_eq!(mgr.active_group, 0);
    assert_eq!(mgr.groups[0].tabs.len(), 2);
    assert_eq!(mgr.groups[0].tabs[0].title, "b.rs");
    assert_eq!(mgr.groups[0].tabs[1].title, "c.rs");
}

#[test]
fn closing_last_tab_drops_empty_group() {
    let mut mgr = EditorGroupManager::new();
    mgr.open_editor(&test_path("a.rs"), None, false);
    mgr.split_right();
    assert_eq!(mgr.groups.len(), 2);
    mgr.close_tab(1, 0);
    assert_eq!(mgr.groups.len(), 1);
    assert_eq!(mgr.active_group, 0);
    assert_eq!(mgr.grid_cols, 1);
    assert_eq!(mgr.recently_closed[0].path, test_path("a.rs"));
    assert_eq!(mgr.recently_closed[0].group, 1);
}

#[test]
fn active_tab_mut_edits_the_active_tab() {
    let mut g = EditorGroup::new();
    assert!(g.active_tab_mut().is_none());
    g.open_file("/tmp/a.rs");
    g.open_file("/tmp/b.rs");
    if let Some(tab) = g.active_tab_mut() {
        tab.is_modified = true;
    }
    assert!(g.tabs[g.active_tab].is_modified);
    assert_eq!(g.tabs.iter().filter(|t| t.is_modified).count(), 1);
}

#[test]
fn split_right_creates_new_group() {
    let mut layout = EditorGroupLayout::new();
    layout.groups[0].open_file(&test_path("main.rs"));
    layout.split_right();

    assert_eq!(layout.groups.len(), 2);
    assert_eq!(layout.active_group, 1);
    assert!(!layout.groups[1].is_empty());
}

#[test]
fn close_group_merges_tabs() {
    let mut layout = EditorGroupLayout::new();
    layout.groups[0].open_file(&test_path("a.rs"));
    layout.split_right();
    layout.groups[1].open_file(&test_path("b.rs"));

    layout.close_group(1);
    assert_eq!(layout.groups.len(), 1);
    assert!(layout.groups[0].tabs.len() >= 2);
}

#[test]
fn move_tab_between_groups() {
    let mut layout = EditorGroupLayout::new();
    layout.groups[0].open_file(&test_path("a.rs"));
    layout.groups[0].open_file(&test_path("b.rs"));
    layout.split_right();

    layout.move_tab(0, 1, 1, 0);
    assert_eq!(layout.groups[0].tabs.len(), 1);
    assert!(layout.groups[1].tabs.len() >= 2);
}

#[test]
fn reopen_closed_editor() {
    let mut layout = EditorGroupLayout::new();
    let p = test_path("a.rs");
    layout.groups[0].open_file(&p);

    let tab = layout.groups[0].tabs[0].clone();
    layout.record_closed(&tab, 0, 0);
    layout.groups[0].close_tab(0);

    assert_eq!(layout.recently_closed.len(), 1);
    assert_eq!(layout.recently_closed[0].path, p);
}

#[test]
fn reopen_of_missing_file_uses_up_the_entry() {
    let mut layout = EditorGroupLayout::new();
    let p = test_path("does_not_exist_anywhere.rs");
    layout.groups[0].open_file(&p);
    let tab = layout.groups[0].tabs[0].clone();
    layout.record_closed(&tab, 0, 0);
    layout.groups[0].close_tab(0);
    assert_eq!(layout.reopen_closed(), None);
    assert!(layout.recently_closed.is_empty());
    assert!(layout.groups[0].is_empty());
}

#[test]
fn reopen_of_existing_file_opens_it_in_its_group() {
    let mut layout = EditorGroupLayout::new();
    let p = String::from("/");
    layout.groups[0].open_file(&p);
    let tab = layout.groups[0].tabs[0].clone();
    layout.record_closed(&tab, 5, 0);
    layout.groups[0].close_tab(0);
    assert_eq!(layout.reopen_closed(), Some(p.clone()));
    assert_eq!(layout.active_group, 0);
    assert_eq!(layout.groups[0].tabs.len(), 1);
}

#[test]
fn group_focus_wraps_both_ways() {
    let mut layout = EditorGroupLayout::new();
    layout.split_down();
    assert_eq!(layout.layout, GroupLayout::SplitVertical);
    layout.split_right();
    assert_eq!(layout.layout, GroupLayout::SplitHorizontal);
    assert_eq!(layout.active_group, 2);
    layout.next_group();
    assert_eq!(layout.active_group, 0);
    layout.prev_group();
    assert_eq!(layout.active_group, 2);
    layout.focus_group(7);
    assert_eq!(layout.active_group, 2);
}

#[test]
fn layout_counts_and_modified_paths() {
    let mut layout = EditorGroupLayout::new();
    layout.groups[0].open_file(&test_path("a.rs"));
    layout.split_right();
    layout.groups[1].open_file(&test_path("b.rs"));
    assert_eq!(layout.total_tab_count(), 3);
    assert!(!layout.has_unsaved_changes());
    layout.groups[1].tabs[1].is_modified = true;
    assert!(layout.has_unsaved_changes());
    assert_eq!(layout.modified_tab_paths(), vec![test_path("b.rs")]);
    layout.close_group(0);
    assert_eq!(layout.groups.len(), 1);
    assert_eq!(layout.layout, GroupLayout::Single);
}

#[test]
fn pin_tab_goes_to_end_of_pinned_region() {
    let mut g = EditorGroup::new();
    g.open_file(&test_path("a.rs"));
    g.open_file(&test_path("b.rs"));
    g.open_file(&test_path("c.rs"));
    g.pin_tab(2);
    g.pin_tab(2);
    let titles: Vec<&str> = g.tabs.iter().map(|t| t.title.as_str()).collect();
    assert_eq!(titles, vec!["c.rs", "b.rs", "a.rs"]);
    assert!(g.tabs[0].is_pinned && g.tabs[1].is_pinned && !g.tabs[2].is_pinned);
    assert_eq!(g.active_tab, 2);
}

#[test]
fn unpin_tab_keeps_pinned_tabs_at_the_left() {
    let mut g = EditorGroup::new();
    g.open_file(&test_path("p1.rs"));
    g.open_file(&test_path("p2.rs"));
    g.open_file(&test_path("u.rs"));
    g.pin_tab(0);
    g.pin_tab(1);
    g.unpin_tab(0);
    let titles: Vec<&str> = g.tabs.iter().map(|t| t.title.as_str()).collect();
    assert_eq!(titles, vec!["p2.rs", "p1.rs", "u.rs"]);
    assert!(g.tabs[0].is_pinned && !g.tabs[1].is_pinned && !g.tabs[2].is_pinned);
    g.unpin_tab(2);
    assert_eq!(g.tabs[2].title, "u.rs");
}

#[test]
fn open_editor_uses_the_requested_group() {
    let mut mgr = EditorGroupManager::new();
    mgr.set_grid(2, 1);
    mgr.focus_group(0);
    mgr.open_editor(&test_path("a.rs"), Some(1), false);
    assert!(mgr.groups[1].find_tab_by_path(&test_path("a.rs")).is_some());
    assert!(mgr.groups[0].is_empty());
    assert_eq!(mgr.active_group, 1);
    mgr.open_editor(&test_path("b.rs"), Some(9), false);
    assert!(mgr.groups[1].find_tab_by_path(&test_path("b.rs")).is_some());
}

#[test]
fn tab_ids_are_distinct_across_manager_groups() {
    let mut mgr = EditorGroupManager::new();
    mgr.set_grid(2, 1);
    mgr.open_editor(&test_path("a.rs"), Some(0), false);
    mgr.open_editor(&test_path("b.rs"), Some(1), false);
    let a = mgr.groups[0].tabs[0].id;
    let b = mgr.groups[1].tabs[0].id;
    assert_ne!(a, b);
    mgr.focus_group(1);
    mgr.split_right();
    let c = mgr.groups[mgr.active_group].tabs[0].id;
    assert_ne!(c, a);
    assert_ne!(c, b);
    mgr.open_editor(&test_path("c.rs"), Some(0), false);
    let i = mgr.groups[0].find_tab_by_path(&test_path("c.rs")).unwrap();
    let d = mgr.groups[0].tabs[i].id;
    assert!(d != a && d != b && d != c);
}

#[test]
fn tab_ids_are_distinct_across_layout_groups() {
    let mut layout = EditorGroupLayout::new();
    layout.open_in_group(0, &test_path("a.rs"), false);
    layout.split_right();
    assert_eq!(layout.active_group, 1);
    layout.open_in_group(1, &test_path("b.rs"), false);
    layout.open_in_group(0, &test_path("c.rs"), true);
    let mut ids = Vec::new();
    for g in &layout.groups {
        for t in &g.tabs {
            ids.push(t.id);
        }
    }
    assert_eq!(ids.len(), 4);
    for i in 0..ids.len() {
        for j in (i + 1)..ids.len() {
            assert_ne!(ids[i], ids[j]);
        }
    }
}
