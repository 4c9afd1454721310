use std::time::Instant;

use sidex_app::navigation::{HistoryEntry, HistorySelection, NavigationHistory, Position, MAX_HISTORY};

fn entry(uri: &str, line: u32, col: u32) -> HistoryEntry {
    HistoryEntry {
        uri: uri.to_string(),
        position: Position::new(line, col),
        selection: None,
        timestamp: Instant::now(),
    }
}

#[test]
fn push_and_back() {
    let mut history = NavigationHistory::new();
    history.push(entry("a.rs", 0, 0));
    history.push(entry("a.rs", 10, 0));
    history.push(entry("b.rs", 5, 0));

    assert!(history.can_go_back());
    let e = history.back().unwrap();
    assert_eq!(e.uri, "b.rs");
    assert_eq!(e.position.line, 5);
}

#[test]
fn back_and_forward() {
    let mut history = NavigationHistory::new();
    history.push(entry("a.rs", 0, 0));
    history.push(entry("b.rs", 10, 0));

    let went_back = history.back().unwrap();
    history.push_forward(went_back);

    assert!(history.can_go_forward());
    let went_fwd = history.forward().unwrap();
    assert_eq!(went_fwd.uri, "b.rs");
}

#[test]
fn push_clears_forward() {
    let mut history = NavigationHistory::new();
    history.push(entry("a.rs", 0, 0));
    history.push(entry("b.rs", 10, 0));

    let went_back = history.back().unwrap();
    history.push_forward(went_back);
    assert!(history.can_go_forward());

    history.push(entry("c.rs", 20, 0));
    assert!(!history.can_go_forward());
}

#[test]
fn debounce_same_line() {
    let mut history = NavigationHistory::new();
    history.push(entry("a.rs", 5, 0));
    history.push(entry("a.rs", 5, 10));
    assert_eq!(history.back_len(), 1);

    let e = history.back().unwrap();
    assert_eq!(e.position.column, 10);
}

#[test]
fn different_line_not_debounced() {
    let mut history = NavigationHistory::new();
    history.push(entry("a.rs", 5, 0));
    history.push(entry("a.rs", 6, 0));
    assert_eq!(history.back_len(), 2);
}

#[test]
fn different_uri_not_debounced() {
    let mut history = NavigationHistory::new();
    history.push(entry("a.rs", 5, 0));
    history.push(entry("b.rs", 5, 0));
    assert_eq!(history.back_len(), 2);
}

#[test]
fn max_history_enforced() {
    let mut history = NavigationHistory::new();
    for i in 0..60 {
        history.push(entry("a.rs", i * 10, 0));
    }
    assert_eq!(history.back_len(), MAX_HISTORY);
}

#[test]
fn empty_history() {
    let history = NavigationHistory::new();
    assert!(!history.can_go_back());
    assert!(!history.can_go_forward());
}

#[test]
fn back_on_empty_returns_none() {
    let mut history = NavigationHistory::new();
    assert!(history.back().is_none());
}

#[test]
fn forward_on_empty_returns_none() {
    let mut history = NavigationHistory::new();
    assert!(history.forward().is_none());
}

#[test]
fn clear() {
    let mut history = NavigationHistory::new();
    history.push(entry("a.rs", 1, 0));
    history.push(entry("b.rs", 2, 0));
    let went_back = history.back().unwrap();
    history.push_forward(went_back);

    history.clear();
    assert!(!history.can_go_back());
    assert!(!history.can_go_forward());
}

#[test]
fn selection_preserved() {
    let mut history = NavigationHistory::new();
    let mut e = entry("a.rs", 5, 0);
    e.selection = Some(HistorySelection {
        anchor: Position::new(5, 0),
        active: Position::new(5, 10),
    });
    history.push(e);

    let restored = history.back().unwrap();
    assert!(restored.selection.is_some());
    let sel = restored.selection.unwrap();
    assert_eq!(sel.active, Position::new(5, 10));
}

#[test]
fn oldest_place_dropped_and_debounce_keeps_forward() {
    let mut history = NavigationHistory::default();
    for i in 0..51u32 {
        history.push(entry("a.rs", i, 0));
    }
    // The place on line 0 was dropped: the oldest left is line 1.
    let mut oldest = None;
    while let Some(e) = history.back() {
        oldest = Some(e.position.line);
    }
    assert_eq!(oldest, Some(1));

    history.push(entry("a.rs", 3, 0));
    history.push_forward(entry("b.rs", 1, 0));
    history.push(entry("a.rs", 3, 7));
    assert_eq!(history.forward_len(), 1);
    assert_eq!(history.back_len(), 1);
    for i in 0..60u32 {
        history.push_back(entry("c.rs", i, 0));
        history.push_forward(entry("d.rs", i, 0));
    }
    assert_eq!(history.back_len(), MAX_HISTORY);
    assert_eq!(history.forward_len(), MAX_HISTORY);
    assert_eq!(history.forward().unwrap().position.line, 59);
}
