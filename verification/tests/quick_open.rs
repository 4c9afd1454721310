use sidex_app::quick_open::{parse_mode, QuickOpenItem, QuickOpenMode, QuickOpenState};

#[test]
fn empty_input_is_recent_files() {
    assert_eq!(parse_mode(""), QuickOpenMode::RecentFiles);
    assert_eq!(parse_mode("   "), QuickOpenMode::RecentFiles);
}

#[test]
fn plain_text_is_file_search() {
    assert_eq!(parse_mode("main.rs"), QuickOpenMode::FileSearch("main.rs".into()));
}

#[test]
fn at_prefix_is_symbol_in_file() {
    assert_eq!(parse_mode("@handleClick"), QuickOpenMode::SymbolInFile("handleClick".into()));
}

#[test]
fn hash_prefix_is_symbol_in_workspace() {
    assert_eq!(parse_mode("#MyClass"), QuickOpenMode::SymbolInWorkspace("MyClass".into()));
}

#[test]
fn colon_prefix_is_goto_line() {
    assert_eq!(parse_mode(":42"), QuickOpenMode::GoToLine(42));
}

#[test]
fn colon_zero_is_recent() {
    assert_eq!(parse_mode(":0"), QuickOpenMode::RecentFiles);
}

#[test]
fn file_at_line() {
    assert_eq!(
        parse_mode("main.rs:42"),
        QuickOpenMode::FileAtLine { query: "main.rs".into(), line: 42 }
    );
}

#[test]
fn file_at_line_with_path() {
    assert_eq!(
        parse_mode("src/utils.rs:10"),
        QuickOpenMode::FileAtLine { query: "src/utils.rs".into(), line: 10 }
    );
}

#[test]
fn colon_with_non_numeric_is_file_search() {
    assert_eq!(parse_mode("main.rs:abc"), QuickOpenMode::FileSearch("main.rs:abc".into()));
}

#[test]
fn edge_cases_of_line_queries() {
    assert_eq!(parse_mode("  : 7 "), QuickOpenMode::GoToLine(7));
    assert_eq!(parse_mode(":x"), QuickOpenMode::RecentFiles);
    assert_eq!(parse_mode("a:b:3"), QuickOpenMode::FileAtLine { query: "a:b".into(), line: 3 });
    assert_eq!(parse_mode("main.rs:0"), QuickOpenMode::FileSearch("main.rs:0".into()));
    assert_eq!(parse_mode("main.rs:+5"), QuickOpenMode::FileAtLine { query: "main.rs".into(), line: 5 });
    assert_eq!(parse_mode("@"), QuickOpenMode::SymbolInFile(String::new()));
    assert_eq!(parse_mode("  #Type  "), QuickOpenMode::SymbolInWorkspace("Type".into()));
}

fn item(label: &str, description: &str, path: Option<&str>, score: u128) -> QuickOpenItem {
    QuickOpenItem {
        label: label.into(),
        description: description.into(),
        path: path.map(String::from),
        target_line: None,
        score,
        match_positions: vec![],
    }
}

#[test]
fn quick_open_show_and_cancel() {
    let mut state = QuickOpenState::default();
    assert!(!state.is_visible);

    state.show();
    assert!(state.is_visible);
    assert!(state.input.is_empty());
    assert_eq!(state.mode, QuickOpenMode::RecentFiles);

    state.cancel();
    assert!(!state.is_visible);
}

#[test]
fn filter_updates_mode() {
    let mut state = QuickOpenState::default();
    state.show();

    state.filter("main.rs");
    assert_eq!(state.mode, QuickOpenMode::FileSearch("main.rs".into()));

    state.filter("@foo");
    assert_eq!(state.mode, QuickOpenMode::SymbolInFile("foo".into()));

    state.filter(":100");
    assert_eq!(state.mode, QuickOpenMode::GoToLine(100));
}

#[test]
fn quick_open_select_navigation() {
    let mut state = QuickOpenState::default();
    state.set_items(vec![
        item("a.rs", "src/", Some("src/a.rs"), 100),
        item("b.rs", "src/", Some("src/b.rs"), 90),
        item("c.rs", "src/", Some("src/c.rs"), 80),
    ]);

    assert_eq!(state.selected, 0);

    state.select_next();
    assert_eq!(state.selected, 1);

    state.select_next();
    assert_eq!(state.selected, 2);

    state.select_next();
    assert_eq!(state.selected, 0);

    state.select_prev();
    assert_eq!(state.selected, 2);
}

#[test]
fn select_returns_current_item() {
    let mut state = QuickOpenState::default();
    assert!(state.select().is_none());

    state.set_items(vec![item("test.rs", "", Some("test.rs"), 1)]);

    let item = state.select().unwrap();
    assert_eq!(item.label, "test.rs");
}

#[test]
fn items_accessor() {
    let state = QuickOpenState::default();
    assert!(state.items().is_empty());
}

#[test]
fn set_items_clamps_selected() {
    let mut state = QuickOpenState::default();
    state.selected = 5;
    state.set_items(vec![item("only.rs", "", None, 1)]);
    assert_eq!(state.selected, 0);
}

#[test]
fn quick_open_placeholder_mentions_modes() {
    let state = QuickOpenState::default();
    assert_eq!(state.placeholder(), "Search files by name (append : to go to line, @ for symbols)");
}
