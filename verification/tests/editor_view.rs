use sidex_app::editor_view::{build_styled_lines, HighlightStep, StyledSpan};

fn spans(lines: &[Vec<StyledSpan>]) -> Vec<Vec<(String, Option<usize>)>> {
    lines
        .iter()
        .map(|l| {
            l.iter()
                .map(|s| (String::from_utf8(s.text.clone()).unwrap(), s.style))
                .collect()
        })
        .collect()
}

fn owned(v: &[&[(&str, Option<usize>)]]) -> Vec<Vec<(String, Option<usize>)>> {
    v.iter().map(|l| l.iter().map(|(t, s)| (t.to_string(), *s)).collect()).collect()
}

#[test]
fn empty_text_is_one_empty_line() {
    let r = build_styled_lines(b"", &[HighlightStep::Start { style: 1 }]);
    assert_eq!(r.len(), 1);
    assert!(r[0].is_empty());
}

#[test]
fn without_events_lines_are_plain() {
    let r = build_styled_lines(b"a\r\nb\n", &[]);
    assert_eq!(spans(&r), owned(&[&[("a", None)], &[("b", None)]]));
    let r = build_styled_lines(b"x\r", &[]);
    assert_eq!(spans(&r), owned(&[&[("x\r", None)]]));
    let r = build_styled_lines(b"\n\n", &[]);
    assert_eq!(spans(&r), owned(&[&[("", None)], &[("", None)]]));
}

#[test]
fn highlights_style_their_spans_and_lines_break_at_line_feeds() {
    let events = [
        HighlightStep::Start { style: 0 },
        HighlightStep::Source { start: 0, end: 2 },
        HighlightStep::End,
        HighlightStep::Source { start: 2, end: 9 },
    ];
    let r = build_styled_lines(b"fn main\nx", &events);
    assert_eq!(
        spans(&r),
        owned(&[&[("fn", Some(0)), (" main", None)], &[("x", None)]])
    );
}

#[test]
fn nested_highlights_use_the_innermost() {
    let events = [
        HighlightStep::Start { style: 3 },
        HighlightStep::Start { style: 7 },
        HighlightStep::Source { start: 0, end: 1 },
        HighlightStep::End,
        HighlightStep::Source { start: 1, end: 2 },
        HighlightStep::End,
        HighlightStep::End,
        HighlightStep::Source { start: 2, end: 3 },
    ];
    let r = build_styled_lines(b"abc", &events);
    assert_eq!(spans(&r), owned(&[&[("a", Some(7)), ("b", Some(3)), ("c", None)]]));
}

#[test]
fn carriage_returns_before_line_feeds_are_dropped() {
    let r = build_styled_lines(b"a\r\n\r\nb", &[HighlightStep::Source { start: 0, end: 6 }]);
    assert_eq!(spans(&r), owned(&[&[("a", None)], &[], &[("b", None)]]));
}

#[test]
fn ranges_are_clamped_to_the_text() {
    let r = build_styled_lines(
        b"abc",
        &[HighlightStep::Source { start: 5, end: 100 }, HighlightStep::Source { start: 1, end: 100 }],
    );
    assert_eq!(spans(&r), owned(&[&[("bc", None)]]));
    let r = build_styled_lines(b"abc", &[HighlightStep::Source { start: 2, end: 1 }]);
    assert_eq!(r.len(), 1);
    assert!(r[0].is_empty());
}
