//! Status bar binding: what each status bar item shows for a snapshot of
//! the application state (mode, remote indicator, git branch, problem
//! counts, the active editor's cursor, selection, language, encoding, line
//! ending and indentation, and notifications). Reading that state from the
//! editor, the language servers, git and the remote connections, and
//! drawing the bar, are the caller's part: it applies the changes in order.

use vstd::prelude::*;

use crate::text::{decimal, format_u64};

verus! {

/// How the bar is coloured.
#[derive(Debug, Clone, Copy, PartialEq, Eq, Structural)]
pub enum StatusBarMode {
    Normal,
    Debugging,
    Remote,
    NoFolder,
}

/// The line ending of a document.
#[derive(Debug, Clone, Copy, PartialEq, Eq, Structural)]
pub enum LineEnding {
    Lf,
    CrLf,
    Cr,
    Mixed,
}

/// The primary selection of the active editor, when it is not empty: the
/// lines it starts and ends on and its start and end as buffer offsets.
#[derive(Debug, Clone, Copy, PartialEq, Eq, Structural)]
pub struct SelectionSpan {
    pub start_line: u32,
    pub end_line: u32,
    pub start_offset: usize,
    pub end_offset: usize,
}

/// What the bar shows of the active editor.
#[derive(Debug, Clone)]
pub struct EditorStatus {
    /// Cursor line, counted from zero.
    pub line: u32,
    /// Cursor column, counted from zero.
    pub column: u32,
    /// The primary selection, none when it is empty.
    pub selection: Option<SelectionSpan>,
    pub language_id: String,
    pub encoding_label: String,
    pub line_ending: LineEnding,
    /// Whether the buffer is indented with tabs.
    pub use_tabs: bool,
    pub tab_size: u32,
}

/// A snapshot of the state the bar reflects.
#[derive(Debug, Clone)]
pub struct StatusBarUpdate {
    /// The active editor, if any.
    pub active_doc: Option<EditorStatus>,
    /// The labels of the active remote connections, first one shown.
    pub remote_labels: Vec<String>,
    /// The current git branch of the workspace, none when there is no
    /// workspace or no branch could be read.
    pub branch: Option<String>,
    pub error_count: usize,
    pub warning_count: usize,
    pub is_debugging: bool,
    pub has_folder: bool,
    pub notification_count: u32,
}

/// One change to a status bar item.
#[derive(Debug, Clone)]
pub enum ItemChange {
    /// Sets the item's text.
    SetText(&'static str, String),
    /// Shows or hides the item.
    SetVisible(&'static str, bool),
    /// Sets the item's tooltip.
    SetTooltip(&'static str, String),
    /// Sets the item's colour (as `#rrggbb`).
    SetColor(&'static str, &'static str),
}

/// The kind of an item change.
#[derive(Debug, Clone, Copy, PartialEq, Eq, Structural)]
pub enum ChangeKind {
    Text,
    Visible,
    Tooltip,
    Color,
}

/// A change as plain values: its kind, the item, the text (tooltip, colour)
/// and the visibility.
pub open spec fn change_view(c: ItemChange) -> (ChangeKind, Seq<char>, Seq<char>, bool) {
    match c {
        ItemChange::SetText(id, t) => (ChangeKind::Text, id@, t@, false),
        ItemChange::SetVisible(id, v) => (ChangeKind::Visible, id@, Seq::empty(), v),
        ItemChange::SetTooltip(id, t) => (ChangeKind::Tooltip, id@, t@, false),
        ItemChange::SetColor(id, c) => (ChangeKind::Color, id@, c@, false),
    }
}

/// The changes as plain values.
pub open spec fn change_views(s: Seq<ItemChange>) -> Seq<(ChangeKind, Seq<char>, Seq<char>, bool)> {
    s.map_values(|c: ItemChange| change_view(c))
}

/// A text change as plain values.
pub open spec fn text(id: Seq<char>, t: Seq<char>) -> (ChangeKind, Seq<char>, Seq<char>, bool) {
    (ChangeKind::Text, id, t, false)
}

/// A visibility change as plain values.
pub open spec fn visible(id: Seq<char>, v: bool) -> (ChangeKind, Seq<char>, Seq<char>, bool) {
    (ChangeKind::Visible, id, Seq::empty(), v)
}

/// A tooltip change as plain values.
pub open spec fn tooltip(id: Seq<char>, t: Seq<char>) -> (ChangeKind, Seq<char>, Seq<char>, bool) {
    (ChangeKind::Tooltip, id, t, false)
}

/// A colour change as plain values.
pub open spec fn color(id: Seq<char>, c: Seq<char>) -> (ChangeKind, Seq<char>, Seq<char>, bool) {
    (ChangeKind::Color, id, c, false)
}

/// The mode: debugging first, then remote, then no folder.
pub open spec fn mode_for(u: StatusBarUpdate) -> StatusBarMode {
    if u.is_debugging {
        StatusBarMode::Debugging
    } else if u.remote_labels@.len() > 0 {
        StatusBarMode::Remote
    } else if !u.has_folder {
        StatusBarMode::NoFolder
    } else {
        StatusBarMode::Normal
    }
}

/// The remote indicator: the first connection's label while connected.
pub open spec fn remote_changes(u: StatusBarUpdate) -> Seq<(ChangeKind, Seq<char>, Seq<char>, bool)> {
    if u.remote_labels@.len() > 0 {
        seq![text("remote.indicator"@, u.remote_labels@[0]@), visible("remote.indicator"@, true)]
    } else {
        seq![visible("remote.indicator"@, false)]
    }
}

/// The branch item: shown with the branch name when there is one.
pub open spec fn branch_changes(u: StatusBarUpdate) -> Seq<(ChangeKind, Seq<char>, Seq<char>, bool)> {
    match u.branch {
        Some(b) => seq![text("git.branch"@, b@), visible("git.branch"@, true)],
        None => seq![visible("git.branch"@, false)],
    }
}

/// The problem counts, their tooltips, and their colours when non-zero.
pub open spec fn problem_changes(u: StatusBarUpdate) -> Seq<(ChangeKind, Seq<char>, Seq<char>, bool)> {
    let e = decimal(u.error_count as nat);
    let w = decimal(u.warning_count as nat);
    seq![
        text("problems.errors"@, e),
        text("problems.warnings"@, w),
        tooltip("problems.errors"@, e + " Error(s)"@),
        tooltip("problems.warnings"@, w + " Warning(s)"@),
    ] + (if u.error_count > 0 {
        seq![color("problems.errors"@, "#f14c4c"@)]
    } else {
        Seq::empty()
    }) + (if u.warning_count > 0 {
        seq![color("problems.warnings"@, "#cca700"@)]
    } else {
        Seq::empty()
    })
}

/// The label of a line ending.
pub open spec fn eol_label(e: LineEnding) -> Seq<char> {
    match e {
        LineEnding::Lf => "LF"@,
        LineEnding::CrLf => "CRLF"@,
        LineEnding::Cr => "CR"@,
        LineEnding::Mixed => "Mixed"@,
    }
}

/// The indentation label.
pub open spec fn indent_label(use_tabs: bool, tab_size: u32) -> Seq<char> {
    if use_tabs {
        "Tab Size: "@ + decimal(tab_size as nat)
    } else {
        "Spaces: "@ + decimal(tab_size as nat)
    }
}

/// The selection item: `N selected (L lines)`, where `N` is the number of
/// offsets the selection spans (none when the end is before the start).
pub open spec fn selection_label(s: SelectionSpan) -> Seq<char> {
    let chars: nat = if s.end_offset >= s.start_offset {
        (s.end_offset - s.start_offset) as nat
    } else {
        0
    };
    decimal(chars) + " selected ("@ + decimal((s.end_line - s.start_line + 1) as nat) + " lines)"@
}

/// The editor items, shown for the active editor and hidden without one.
pub open spec fn editor_changes(u: StatusBarUpdate) -> Seq<(ChangeKind, Seq<char>, Seq<char>, bool)> {
    match u.active_doc {
        Some(d) => seq![
            text(
                "cursor.position"@,
                "Ln "@ + decimal((d.line + 1) as nat) + ", Col "@ + decimal((d.column + 1) as nat),
            ),
            visible("cursor.position"@, true),
        ] + match d.selection {
            Some(s) => seq![text("selection.info"@, selection_label(s)), visible("selection.info"@, true)],
            None => seq![visible("selection.info"@, false)],
        } + seq![
            text("editor.language"@, d.language_id@),
            visible("editor.language"@, true),
            text("editor.encoding"@, d.encoding_label@),
            visible("editor.encoding"@, true),
            text("editor.eol"@, eol_label(d.line_ending)),
            visible("editor.eol"@, true),
            text("editor.indent"@, indent_label(d.use_tabs, d.tab_size)),
            visible("editor.indent"@, true),
        ],
        None => seq![
            visible("cursor.position"@, false),
            visible("selection.info"@, false),
            visible("editor.language"@, false),
            visible("editor.encoding"@, false),
            visible("editor.eol"@, false),
            visible("editor.indent"@, false),
        ],
    }
}

/// The notification bell: shown, with a count tooltip, while there are
/// notifications.
pub open spec fn notification_changes(u: StatusBarUpdate) -> Seq<(ChangeKind, Seq<char>, Seq<char>, bool)> {
    seq![visible("notifications.bell"@, u.notification_count > 0)] + if u.notification_count > 0 {
        seq![tooltip("notifications.bell"@, decimal(u.notification_count as nat) + " new notification(s)"@)]
    } else {
        Seq::empty()
    }
}

/// All changes, in the order they are applied.
pub open spec fn bar_changes(u: StatusBarUpdate) -> Seq<(ChangeKind, Seq<char>, Seq<char>, bool)> {
    remote_changes(u) + branch_changes(u) + problem_changes(u) + editor_changes(u) + notification_changes(u)
}

/// Whether the snapshot's numbers can be shown: the cursor position and
/// the selection's line count, counted from one, fit their integers.
pub open spec fn showable(u: StatusBarUpdate) -> bool {
    u.active_doc matches Some(d) ==> {
        &&& d.line < u32::MAX
        &&& d.column < u32::MAX
        &&& d.selection matches Some(s) ==> s.start_line <= s.end_line && s.end_line - s.start_line < u32::MAX
    }
}

/// Appends one change.
fn push_change(out: &mut Vec<ItemChange>, c: ItemChange)
    ensures
        change_views(final(out)@) == change_views(old(out)@).push(change_view(c)),
{
    out.push(c);
    assert(change_views(out@) =~= change_views(old(out)@).push(change_view(c)));
}

/// `a` followed by `b`.
fn concat(a: &str, b: &str) -> (r: String)
    ensures
        r@ == a@ + b@,
{
    let mut s = a.to_string();
    s.append(b);
    s
}

/// `n` in decimal.
fn dec(n: u64) -> (r: String)
    ensures
        r@ == decimal(n as nat),
{
    format_u64(n)
}

/// Appends the remote indicator's changes.
fn push_remote(out: &mut Vec<ItemChange>, u: &StatusBarUpdate)
    ensures
        change_views(final(out)@) == change_views(old(out)@) + remote_changes(*u),
{
    let ghost start = change_views(out@);
    if u.remote_labels.len() > 0 {
        let label = u.remote_labels[0].clone();
        push_change(out, ItemChange::SetText("remote.indicator", label));
        push_change(out, ItemChange::SetVisible("remote.indicator", true));
    } else {
        push_change(out, ItemChange::SetVisible("remote.indicator", false));
    }
    assert(change_views(out@) =~= start + remote_changes(*u));
}

/// Appends the branch item's changes.
fn push_branch(out: &mut Vec<ItemChange>, u: &StatusBarUpdate)
    ensures
        change_views(final(out)@) == change_views(old(out)@) + branch_changes(*u),
{
    let ghost start = change_views(out@);
    match &u.branch {
        Some(b) => {
            push_change(out, ItemChange::SetText("git.branch", b.clone()));
            push_change(out, ItemChange::SetVisible("git.branch", true));
        },
        None => {
            push_change(out, ItemChange::SetVisible("git.branch", false));
        },
    }
    assert(change_views(out@) =~= start + branch_changes(*u));
}

/// Appends the problem items' changes.
fn push_problems(out: &mut Vec<ItemChange>, u: &StatusBarUpdate)
    ensures
        change_views(final(out)@) == change_views(old(out)@) + problem_changes(*u),
{
    let ghost start = change_views(out@);
    let e = dec(u.error_count as u64);
    let w = dec(u.warning_count as u64);
    let e_tip = concat(e.as_str(), " Error(s)");
    let w_tip = concat(w.as_str(), " Warning(s)");
    push_change(out, ItemChange::SetText("problems.errors", e));
    push_change(out, ItemChange::SetText("problems.warnings", w));
    push_change(out, ItemChange::SetTooltip("problems.errors", e_tip));
    push_change(out, ItemChange::SetTooltip("problems.warnings", w_tip));
    let ghost mid = change_views(out@);
    if u.error_count > 0 {
        push_change(out, ItemChange::SetColor("problems.errors", "#f14c4c"));
    }
    let ghost mid2 = change_views(out@);
    if u.warning_count > 0 {
        push_change(out, ItemChange::SetColor("problems.warnings", "#cca700"));
    }
    let ghost e_seq = if u.error_count > 0 {
        seq![color("problems.errors"@, "#f14c4c"@)]
    } else {
        Seq::<(ChangeKind, Seq<char>, Seq<char>, bool)>::empty()
    };
    let ghost w_seq = if u.warning_count > 0 {
        seq![color("problems.warnings"@, "#cca700"@)]
    } else {
        Seq::<(ChangeKind, Seq<char>, Seq<char>, bool)>::empty()
    };
    assert(mid2 =~= mid + e_seq);
    assert(change_views(out@) =~= mid2 + w_seq);
    assert(change_views(out@) =~= start + problem_changes(*u));
}

/// The selection label (see `selection_label`).
fn selection_text(s: &SelectionSpan) -> (r: String)
    requires
        s.start_line <= s.end_line,
        s.end_line - s.start_line < u32::MAX,
    ensures
        r@ == selection_label(*s),
{
    let chars: usize = if s.end_offset >= s.start_offset {
        s.end_offset - s.start_offset
    } else {
        0
    };
    let lines: u32 = s.end_line - s.start_line + 1;
    let a = concat(dec(chars as u64).as_str(), " selected (");
    let b = concat(a.as_str(), dec(lines as u64).as_str());
    concat(b.as_str(), " lines)")
}

/// Appends the editor items' changes.
fn push_editor(out: &mut Vec<ItemChange>, u: &StatusBarUpdate)
    requires
        showable(*u),
    ensures
        change_views(final(out)@) == change_views(old(out)@) + editor_changes(*u),
{
    let ghost start = change_views(out@);
    match &u.active_doc {
        Some(d) => {
            let ln = dec(d.line as u64 + 1);
            let col = dec(d.column as u64 + 1);
            let a = concat("Ln ", ln.as_str());
            let b = concat(a.as_str(), ", Col ");
            let pos = concat(b.as_str(), col.as_str());
            push_change(out, ItemChange::SetText("cursor.position", pos));
            push_change(out, ItemChange::SetVisible("cursor.position", true));
            let ghost after_cursor = change_views(out@);
            match &d.selection {
                Some(s) => {
                    push_change(out, ItemChange::SetText("selection.info", selection_text(s)));
                    push_change(out, ItemChange::SetVisible("selection.info", true));
                },
                None => {
                    push_change(out, ItemChange::SetVisible("selection.info", false));
                },
            }
            let ghost after_selection = change_views(out@);
            let eol: &'static str = match d.line_ending {
                LineEnding::Lf => "LF",
                LineEnding::CrLf => "CRLF",
                LineEnding::Cr => "CR",
                LineEnding::Mixed => "Mixed",
            };
            let size = dec(d.tab_size as u64);
            let indent = if d.use_tabs {
                concat("Tab Size: ", size.as_str())
            } else {
                concat("Spaces: ", size.as_str())
            };
            push_change(out, ItemChange::SetText("editor.language", d.language_id.clone()));
            push_change(out, ItemChange::SetVisible("editor.language", true));
            push_change(out, ItemChange::SetText("editor.encoding", d.encoding_label.clone()));
            push_change(out, ItemChange::SetVisible("editor.encoding", true));
            push_change(out, ItemChange::SetText("editor.eol", eol.to_string()));
            push_change(out, ItemChange::SetVisible("editor.eol", true));
            push_change(out, ItemChange::SetText("editor.indent", indent));
            push_change(out, ItemChange::SetVisible("editor.indent", true));
            proof {
                let sel = match d.selection {
                    Some(s) => seq![text("selection.info"@, selection_label(s)), visible("selection.info"@, true)],
                    None => seq![visible("selection.info"@, false)],
                };
                let cursor = seq![
                    text(
                        "cursor.position"@,
                        "Ln "@ + decimal((d.line + 1) as nat) + ", Col "@ + decimal((d.column + 1) as nat),
                    ),
                    visible("cursor.position"@, true),
                ];
                assert(after_cursor =~= start + cursor);
                assert(after_selection =~= after_cursor + sel);
            }
        },
        None => {
            push_change(out, ItemChange::SetVisible("cursor.position", false));
            push_change(out, ItemChange::SetVisible("selection.info", false));
            push_change(out, ItemChange::SetVisible("editor.language", false));
            push_change(out, ItemChange::SetVisible("editor.encoding", false));
            push_change(out, ItemChange::SetVisible("editor.eol", false));
            push_change(out, ItemChange::SetVisible("editor.indent", false));
        },
    }
    assert(change_views(out@) =~= start + editor_changes(*u));
}

/// Appends the notification bell's changes.
fn push_notifications(out: &mut Vec<ItemChange>, u: &StatusBarUpdate)
    ensures
        change_views(final(out)@) == change_views(old(out)@) + notification_changes(*u),
{
    let ghost start = change_views(out@);
    push_change(out, ItemChange::SetVisible("notifications.bell", u.notification_count > 0));
    if u.notification_count > 0 {
        let n = dec(u.notification_count as u64);
        push_change(out, ItemChange::SetTooltip("notifications.bell", concat(n.as_str(), " new notification(s)")));
    }
    assert(change_views(out@) =~= start + notification_changes(*u));
}

/// The bar's mode and the item changes that bring it in line with `update`
/// (see `mode_for` and `bar_changes`).
pub fn update_status_bar(update: &StatusBarUpdate) -> (r: (StatusBarMode, Vec<ItemChange>))
    requires
        showable(*update),
    ensures
        r.0 == mode_for(*update),
        change_views(r.1@) == bar_changes(*update),
{
    let mode = if update.is_debugging {
        StatusBarMode::Debugging
    } else if update.remote_labels.len() > 0 {
        StatusBarMode::Remote
    } else if !update.has_folder {
        StatusBarMode::NoFolder
    } else {
        StatusBarMode::Normal
    };
    let mut out: Vec<ItemChange> = Vec::new();
    assert(change_views(out@) =~= Seq::empty());
    push_remote(&mut out, update);
    push_branch(&mut out, update);
    push_problems(&mut out, update);
    push_editor(&mut out, update);
    push_notifications(&mut out, update);
    assert(change_views(out@) =~= bar_changes(*update));
    (mode, out)
}

} // verus!
