use sidex_app::clipboard::{ClipboardEntry, ClipboardError, ClipboardService, ClipboardSource};

#[test]
fn history_ordering_and_cap() {
    let mut svc = ClipboardService::new().with_max_history(3);

    // Push entries directly (avoids needing real clipboard in CI)
    svc.push_entry(ClipboardEntry::single("a".into(), ClipboardSource::User));
    svc.push_entry(ClipboardEntry::single("b".into(), ClipboardSource::User));
    svc.push_entry(ClipboardEntry::single("c".into(), ClipboardSource::User));
    svc.push_entry(ClipboardEntry::single("d".into(), ClipboardSource::User));

    assert_eq!(svc.history().len(), 3);
    assert_eq!(svc.history()[0].text, "d");
    assert_eq!(svc.history()[2].text, "b");
}

#[test]
fn paste_from_history_bounds() {
    let svc = ClipboardService::new();
    assert!(svc.paste_from_history(0).is_err());
}

#[test]
fn multi_cursor_distribute() {
    let mut svc = ClipboardService::new();
    let pieces: Vec<String> = vec!["alpha".into(), "beta".into(), "gamma".into()];
    svc.push_entry(ClipboardEntry::multi_cursor(pieces.clone(), ClipboardSource::Editor));

    assert!(svc.should_distribute_paste(3));
    assert!(!svc.should_distribute_paste(2));

    let dist = svc.pieces_for_cursors(3);
    assert_eq!(dist, pieces);

    let fallback = svc.pieces_for_cursors(5);
    assert_eq!(fallback.len(), 5);
    assert!(fallback.iter().all(|p| p == "alpha\nbeta\ngamma"));
}

#[test]
fn whole_line_flag() {
    let entry = ClipboardEntry::whole_line("fn main() {}".into(), ClipboardSource::Editor);
    assert!(entry.is_whole_line);
    assert!(!entry.is_multi_cursor);
}

#[test]
fn clear_history() {
    let mut svc = ClipboardService::new();
    svc.push_entry(ClipboardEntry::single("x".into(), ClipboardSource::User));
    assert_eq!(svc.history().len(), 1);
    svc.clear_history();
    assert!(svc.history().is_empty());
}

// ── Further cases ────────────────────────────────────────────────────────────

#[test]
fn history_paste_and_latest() {
    let mut svc = ClipboardService::new();
    assert!(svc.latest().is_none());
    svc.push_entry(ClipboardEntry::single("one".into(), ClipboardSource::Terminal));
    svc.push_entry(ClipboardEntry::single("two".into(), ClipboardSource::External));
    assert_eq!(svc.latest().unwrap().text, "two");
    assert_eq!(svc.paste_from_history(1).unwrap(), "one");
    match svc.paste_from_history(2) {
        Err(e @ ClipboardError::HistoryIndexOutOfRange) => {
            assert_eq!(e.message(), "clipboard history index out of range")
        }
        other => panic!("unexpected {other:?}"),
    }
}

#[test]
fn empty_history_gives_empty_pieces() {
    let svc = ClipboardService::new();
    assert_eq!(svc.pieces_for_cursors(2), vec![String::new(), String::new()]);
    assert_eq!(svc.max_history(), 20);
}

#[test]
fn shrinking_capacity_drops_oldest() {
    let mut svc = ClipboardService::new();
    for t in ["a", "b", "c", "d"] {
        svc.push_entry(ClipboardEntry::single(t.into(), ClipboardSource::User));
    }
    svc.set_max_history(2);
    assert_eq!(svc.history().len(), 2);
    assert_eq!(svc.history()[0].text, "d");
    assert_eq!(svc.history()[1].text, "c");
    svc.set_max_history(0);
    assert!(svc.history().is_empty());
    svc.push_entry(ClipboardEntry::single("e".into(), ClipboardSource::User));
    assert!(svc.history().is_empty());
}

#[test]
fn multi_cursor_joins_with_newlines() {
    let e = ClipboardEntry::multi_cursor(vec!["x".into(), "y".into()], ClipboardSource::Editor);
    assert_eq!(e.text, "x\ny");
    assert_eq!(e.pieces.len(), 2);
    let single = ClipboardEntry::single("z".into(), ClipboardSource::User);
    assert_eq!(single.pieces, vec!["z".to_string()]);
}

#[test]
fn copy_outcome_records_only_on_success() {
    let mut svc = ClipboardService::new();
    let r = svc.record_copy(
        Err(ClipboardError::SetText("refused".into())),
        ClipboardEntry::single("x".into(), ClipboardSource::User),
    );
    assert!(matches!(r, Err(ClipboardError::SetText(ref m)) if m == "refused"));
    assert_eq!(svc.history().len(), 0);
    let r = svc.record_copy(Ok(()), ClipboardEntry::whole_line("line\n".into(), ClipboardSource::Editor));
    assert!(r.is_ok());
    assert_eq!(svc.history().len(), 1);
    assert!(svc.history()[0].is_whole_line);
    assert_eq!(sidex_app::clipboard::clipboard_text(Ok("t".into())).as_deref(), Some("t"));
    assert_eq!(sidex_app::clipboard::clipboard_text(Err(ClipboardError::GetText("none".into()))), None);
}
