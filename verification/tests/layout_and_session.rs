use sidex_app::commands::{navigate, NavigationEntry};
use sidex_app::document_state::{DiagnosticEntry, DiagnosticSeverity};
use sidex_app::event_bus::{EventType, ListenerId, ListenerIdAllocator};
use sidex_app::layout::{
    grid_dimensions, ActivityBarLayout, ActivityBarPosition, ChromeVisibility, StatusBarLayout,
    TitleBarLayout, TitleBarStyle,
};
use sidex_app::session::{collect_hot_exit_entries, OpenDocument};
use sidex_app::tauri_bridge::{FileDialogOptions, WebviewOptions, WindowHandle};

#[test]
fn layout_defaults() {
    let a = ActivityBarLayout::default();
    assert!(a.visible);
    assert_eq!(a.position, ActivityBarPosition::Left);
    assert!(StatusBarLayout::default().visible);
    assert_eq!(TitleBarLayout::default().style, TitleBarStyle::Custom);
}

#[test]
fn zen_mode_round_trip() {
    let start = ChromeVisibility {
        sidebar: true,
        panel: false,
        activity_bar: true,
        status_bar: true,
        title_bar: true,
        minimap: true,
        zen_mode: false,
    };
    let mut c = start;
    c.enter_zen_mode();
    assert!(c.zen_mode && !c.sidebar && !c.activity_bar && !c.status_bar && !c.minimap);
    assert!(c.title_bar);
    c.enter_zen_mode();
    assert!(c.zen_mode);
    c.toggle_zen_mode();
    assert_eq!(c, start);
}

#[test]
fn grid_sizes_are_clamped() {
    assert_eq!(grid_dimensions(2, 2), (2, 2, 4));
    assert_eq!(grid_dimensions(0, 9), (1, 4, 4));
    assert_eq!(grid_dimensions(7, 3), (4, 3, 12));
}

#[test]
fn hot_exit_entries_cover_unsaved_buffers() {
    let docs: Vec<OpenDocument> = vec![
        (Some("/tmp/a.rs".into()), "fn main() {}".into(), 1, 0, true),
        (None, "hello world".into(), 7, 5, true),
        (Some("/tmp/clean.rs".into()), "saved".into(), 0, 0, false),
    ];
    let entries = collect_hot_exit_entries(&docs);
    assert_eq!(entries.len(), 2);
    assert_eq!(entries[0].path, "/tmp/a.rs");
    assert!(!entries[0].is_untitled);
    assert_eq!(entries[1].path, "untitled:7");
    assert!(entries[1].is_untitled);
    assert_eq!(entries[1].cursor_column, 5);
}

#[test]
fn plain_descriptions() {
    let d = DiagnosticEntry {
        line: 3,
        col_start: 1,
        col_end: 4,
        severity: DiagnosticSeverity::Warning,
        message: "unused".into(),
        source: None,
    };
    assert_eq!(d.severity, DiagnosticSeverity::Warning);
    assert_eq!(EventType::Custom("x".into()), EventType::Custom("x".into()));
    let mut ids = ListenerIdAllocator::new();
    assert_eq!(ids.allocate(), ListenerId(1));
    assert_eq!(ids.allocate(), ListenerId(2));
    assert_eq!(WindowHandle(3), WindowHandle(3));
    assert!(FileDialogOptions::default().filters.is_empty());
    assert!(!WebviewOptions::default().resizable);
}

#[test]
fn navigation_back_and_forward() {
    let mut back = vec![NavigationEntry { doc_index: 1, line: 10 }];
    let mut forward: Vec<NavigationEntry> = Vec::new();
    let here = NavigationEntry { doc_index: 2, line: 5 };
    assert_eq!(navigate(&mut back, &mut forward, here), Some(1));
    assert!(back.is_empty());
    assert_eq!(forward, vec![here]);
    let there = NavigationEntry { doc_index: 1, line: 0 };
    assert_eq!(navigate(&mut forward, &mut back, there), Some(2));
    assert!(forward.is_empty());
    assert_eq!(navigate(&mut forward, &mut back, there), None);
    assert_eq!(back, vec![there]);
}
