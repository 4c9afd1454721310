//! Styled lines for the editor view: the source text cut into lines of
//! spans, each span carrying the style of the innermost highlight open
//! around it. Resolving a highlight to colours and fonts (the theme) and
//! drawing the spans are the renderer's part; here a style is the index the
//! renderer gave the highlight, and `None` is the default style.

use vstd::prelude::*;

verus! {

/// One step of a syntax highlighter's event stream over the text's bytes.
#[derive(Debug, Clone, Copy, PartialEq, Eq, Structural)]
pub enum HighlightStep {
    /// The bytes `start..end` of the text, in the current style.
    Source { start: usize, end: usize },
    /// A highlight opens; `style` is the renderer's index for it.
    Start { style: usize },
    /// The innermost open highlight closes.
    End,
}

/// A run of text on one line in one style.
#[derive(Debug, Clone)]
pub struct StyledSpan {
    /// The span's bytes (no line break in them).
    pub text: Vec<u8>,
    /// The style: the innermost open highlight, or `None` for the default.
    pub style: Option<usize>,
}

/// A span as a value: its bytes and style.
pub open spec fn span_view(s: StyledSpan) -> (Seq<u8>, Option<usize>) {
    (s.text@, s.style)
}

/// A line of spans as values.
pub open spec fn line_view(l: Seq<StyledSpan>) -> Seq<(Seq<u8>, Option<usize>)> {
    l.map_values(|s: StyledSpan| span_view(s))
}

/// Lines of spans as values.
pub open spec fn lines_view(ls: Seq<Vec<StyledSpan>>) -> Seq<Seq<(Seq<u8>, Option<usize>)>> {
    ls.map_values(|l: Vec<StyledSpan>| line_view(l@))
}

/// The line-feed byte.
pub const LF: u8 = 10;

/// The carriage-return byte.
pub const CR: u8 = 13;

/// A piece of a line without one trailing carriage return.
pub open spec fn without_cr(part: Seq<u8>) -> Seq<u8> {
    if part.len() > 0 && part.last() == CR {
        part.drop_last()
    } else {
        part
    }
}

/// The line `current` after the piece `part` ends: a span of `part`
/// (without a trailing carriage return) in `style` joins it unless that is
/// empty.
pub open spec fn flushed(
    current: Seq<(Seq<u8>, Option<usize>)>,
    part: Seq<u8>,
    style: Option<usize>,
) -> Seq<(Seq<u8>, Option<usize>)> {
    if without_cr(part).len() > 0 {
        current.push((without_cr(part), style))
    } else {
        current
    }
}

/// The finished lines, the line being built and the piece being read after
/// reading `bytes` in `style` from the given state: a line feed ends the
/// piece and the line; any other byte extends the piece.
pub open spec fn scan(
    lines: Seq<Seq<(Seq<u8>, Option<usize>)>>,
    current: Seq<(Seq<u8>, Option<usize>)>,
    bytes: Seq<u8>,
    style: Option<usize>,
) -> (Seq<Seq<(Seq<u8>, Option<usize>)>>, Seq<(Seq<u8>, Option<usize>)>, Seq<u8>)
    decreases bytes.len(),
{
    if bytes.len() == 0 {
        (lines, current, Seq::empty())
    } else {
        let (l, c, p) = scan(lines, current, bytes.drop_last(), style);
        if bytes.last() == LF {
            (l.push(flushed(c, p, style)), Seq::empty(), Seq::empty())
        } else {
            (l, c, p.push(bytes.last()))
        }
    }
}

/// The style of the innermost open highlight.
pub open spec fn top(stack: Seq<usize>) -> Option<usize> {
    if stack.len() > 0 {
        Some(stack.last())
    } else {
        None
    }
}

/// `x`, but no more than `n`.
pub open spec fn clamp(x: usize, n: int) -> int {
    if x < n {
        x as int
    } else {
        n
    }
}

/// The finished lines, the line being built and the open highlights after
/// the steps `events` over `text`. A source step reads its clamped byte
/// range (nothing when that is empty) and ends its last piece; a start
/// opens a highlight; an end closes the innermost one, if any.
pub open spec fn walk(text: Seq<u8>, events: Seq<HighlightStep>) -> (
    Seq<Seq<(Seq<u8>, Option<usize>)>>,
    Seq<(Seq<u8>, Option<usize>)>,
    Seq<usize>,
)
    decreases events.len(),
{
    if events.len() == 0 {
        (Seq::empty(), Seq::empty(), Seq::empty())
    } else {
        let (l, c, st) = walk(text, events.drop_last());
        match events.last() {
            HighlightStep::Source { start, end } => {
                let s = clamp(start, text.len() as int);
                let e = clamp(end, text.len() as int);
                if s >= e {
                    (l, c, st)
                } else {
                    let (l2, c2, p) = scan(l, c, text.subrange(s, e), top(st));
                    (l2, flushed(c2, p, top(st)), st)
                }
            },
            HighlightStep::Start { style } => (l, c, st.push(style)),
            HighlightStep::End => (l, c, if st.len() > 0 {
                st.drop_last()
            } else {
                st
            }),
        }
    }
}

/// The lines and the line being read after reading `bytes` as `str::lines`
/// does: a line feed ends a line (dropping a carriage return just before
/// it); the last line needs no line feed.
pub open spec fn plain_scan(bytes: Seq<u8>) -> (Seq<Seq<(Seq<u8>, Option<usize>)>>, Seq<u8>)
    decreases bytes.len(),
{
    if bytes.len() == 0 {
        (Seq::empty(), Seq::empty())
    } else {
        let (l, p) = plain_scan(bytes.drop_last());
        if bytes.last() == LF {
            (l.push(seq![(without_cr(p), None::<usize>)]), Seq::empty())
        } else {
            (l, p.push(bytes.last()))
        }
    }
}

/// The text's lines (as `str::lines` cuts them), each one span in the
/// default style.
pub open spec fn plain_lines(text: Seq<u8>) -> Seq<Seq<(Seq<u8>, Option<usize>)>> {
    let (l, p) = plain_scan(text);
    if p.len() > 0 {
        l.push(seq![(p, None::<usize>)])
    } else {
        l
    }
}

/// The styled lines of `text` under the highlighter's `events`: one empty
/// line for an empty text, the plain lines when there are no events, else
/// the walk's lines and the line it ends on.
pub open spec fn styled_lines_of(text: Seq<u8>, events: Seq<HighlightStep>) -> Seq<Seq<(Seq<u8>, Option<usize>)>> {
    if text.len() == 0 {
        seq![Seq::empty()]
    } else if events.len() == 0 {
        plain_lines(text)
    } else {
        let (l, c, st) = walk(text, events);
        l.push(c)
    }
}

/// `part` without one trailing carriage return.
fn strip_cr(part: Vec<u8>) -> (r: Vec<u8>)
    ensures
        r@ == without_cr(part@),
{
    let mut clean = part;
    if clean.len() > 0 && clean[clean.len() - 1] == CR {
        clean.pop();
    }
    clean
}

/// Ends the piece `part` of the line `current` (see `flushed`).
fn flush(current: &mut Vec<StyledSpan>, part: Vec<u8>, style: Option<usize>)
    ensures
        line_view(final(current)@) == flushed(line_view(old(current)@), part@, style),
{
    let clean = strip_cr(part);
    if clean.len() > 0 {
        let ghost before = current@;
        let ghost v = clean@;
        current.push(StyledSpan { text: clean, style });
        assert(line_view(current@) =~= line_view(before).push((v, style)));
    }
}

/// Reads the bytes `s..e` of `text` in `style` onto the lines (see `scan`)
/// and ends the last piece.
fn read_source(
    lines: &mut Vec<Vec<StyledSpan>>,
    current: &mut Vec<StyledSpan>,
    text: &[u8],
    s: usize,
    e: usize,
    style: Option<usize>,
)
    requires
        s < e <= text@.len(),
    ensures
        ({
            let r = scan(lines_view(old(lines)@), line_view(old(current)@), text@.subrange(s as int, e as int), style);
            &&& lines_view(final(lines)@) == r.0
            &&& line_view(final(current)@) == flushed(r.1, r.2, style)
        }),
{
    let ghost l0 = lines_view(lines@);
    let ghost c0 = line_view(current@);
    let mut part: Vec<u8> = Vec::new();
    let mut i: usize = s;
    while i < e
        invariant
            s <= i <= e,
            e <= text@.len(),
            lines_view(lines@) == scan(l0, c0, text@.subrange(s as int, i as int), style).0,
            line_view(current@) == scan(l0, c0, text@.subrange(s as int, i as int), style).1,
            part@ == scan(l0, c0, text@.subrange(s as int, i as int), style).2,
        decreases e - i,
    {
        let b = text[i];
        let ghost read = text@.subrange(s as int, i + 1);
        assert(read.drop_last() =~= text@.subrange(s as int, i as int));
        assert(read.last() == b);
        if b == LF {
            let mut p: Vec<u8> = Vec::new();
            std::mem::swap(&mut part, &mut p);
            flush(current, p, style);
            let mut done: Vec<StyledSpan> = Vec::new();
            std::mem::swap(current, &mut done);
            let ghost before = lines@;
            let ghost dv = line_view(done@);
            lines.push(done);
            assert(lines_view(lines@) =~= lines_view(before).push(dv));
            assert(line_view(current@) =~= Seq::<(Seq<u8>, Option<usize>)>::empty());
            assert(part@ =~= Seq::<u8>::empty());
        } else {
            part.push(b);
        }
        i = i + 1;
    }
    flush(current, part, style);
}

/// The text's lines in the default style, as `str::lines` cuts them (see
/// `plain_lines`).
fn plain_styled_lines(text: &[u8]) -> (r: Vec<Vec<StyledSpan>>)
    ensures
        lines_view(r@) == plain_lines(text@),
{
    let mut lines: Vec<Vec<StyledSpan>> = Vec::new();
    let mut part: Vec<u8> = Vec::new();
    let mut i: usize = 0;
    while i < text.len()
        invariant
            i <= text@.len(),
            lines_view(lines@) == plain_scan(text@.subrange(0, i as int)).0,
            part@ == plain_scan(text@.subrange(0, i as int)).1,
        decreases text@.len() - i,
    {
        let b = text[i];
        let ghost read = text@.subrange(0, i + 1);
        assert(read.drop_last() =~= text@.subrange(0, i as int));
        assert(read.last() == b);
        if b == LF {
            let mut p: Vec<u8> = Vec::new();
            std::mem::swap(&mut part, &mut p);
            let clean = strip_cr(p);
            let ghost v = clean@;
            let mut line: Vec<StyledSpan> = Vec::new();
            line.push(StyledSpan { text: clean, style: None });
            let ghost before = lines@;
            assert(line_view(line@) =~= seq![(v, None::<usize>)]);
            lines.push(line);
            assert(lines_view(lines@) =~= lines_view(before).push(seq![(v, None::<usize>)]));
            assert(part@ =~= Seq::<u8>::empty());
        } else {
            part.push(b);
        }
        i = i + 1;
    }
    assert(text@.subrange(0, text@.len() as int) =~= text@);
    if part.len() > 0 {
        let ghost v = part@;
        let mut line: Vec<StyledSpan> = Vec::new();
        line.push(StyledSpan { text: part, style: None });
        let ghost before = lines@;
        assert(line_view(line@) =~= seq![(v, None::<usize>)]);
        lines.push(line);
        assert(lines_view(lines@) =~= lines_view(before).push(seq![(v, None::<usize>)]));
    }
    lines
}

/// The styled lines of `text` under the highlighter's `events` (see
/// `styled_lines_of`): source steps are cut at line feeds into spans in
/// the style of the innermost open highlight, empty pieces dropped and a
/// carriage return before a line feed left out.
pub fn build_styled_lines(text: &[u8], events: &[HighlightStep]) -> (r: Vec<Vec<StyledSpan>>)
    ensures
        lines_view(r@) == styled_lines_of(text@, events@),
{
    if text.len() == 0 {
        let mut r: Vec<Vec<StyledSpan>> = Vec::new();
        let empty: Vec<StyledSpan> = Vec::new();
        assert(line_view(empty@) =~= Seq::<(Seq<u8>, Option<usize>)>::empty());
        r.push(empty);
        assert(lines_view(r@) =~= seq![Seq::<(Seq<u8>, Option<usize>)>::empty()]);
        return r;
    }
    if events.len() == 0 {
        return plain_styled_lines(text);
    }
    let mut lines: Vec<Vec<StyledSpan>> = Vec::new();
    let mut current: Vec<StyledSpan> = Vec::new();
    let mut stack: Vec<usize> = Vec::new();
    let mut k: usize = 0;
    assert(lines_view(lines@) =~= Seq::<Seq<(Seq<u8>, Option<usize>)>>::empty());
    assert(line_view(current@) =~= Seq::<(Seq<u8>, Option<usize>)>::empty());
    while k < events.len()
        invariant
            k <= events@.len(),
            lines_view(lines@) == walk(text@, events@.subrange(0, k as int)).0,
            line_view(current@) == walk(text@, events@.subrange(0, k as int)).1,
            stack@ == walk(text@, events@.subrange(0, k as int)).2,
        decreases events@.len() - k,
    {
        let ghost done = events@.subrange(0, k + 1);
        assert(done.drop_last() =~= events@.subrange(0, k as int));
        assert(done.last() == events@[k as int]);
        match events[k] {
            HighlightStep::Source { start, end } => {
                let s = if start < text.len() {
                    start
                } else {
                    text.len()
                };
                let e = if end < text.len() {
                    end
                } else {
                    text.len()
                };
                if s < e {
                    let style = if stack.len() > 0 {
                        Some(stack[stack.len() - 1])
                    } else {
                        None
                    };
                    read_source(&mut lines, &mut current, text, s, e, style);
                }
            },
            HighlightStep::Start { style } => {
                stack.push(style);
            },
            HighlightStep::End => {
                if stack.len() > 0 {
                    stack.pop();
                }
            },
        }
        k = k + 1;
    }
    assert(events@.subrange(0, events@.len() as int) =~= events@);
    let ghost before = lines@;
    let ghost cv = line_view(current@);
    lines.push(current);
    assert(lines_view(lines@) =~= lines_view(before).push(cv));
    lines
}

} // verus!
