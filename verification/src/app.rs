//! The application shell's state: the open documents and which one is
//! active, the editor groups and their tabs, the overlays (quick open,
//! command palette, go to line, find, suggest), the zoom level, auto-save
//! and the context keys that keybindings test. Every operation here is a
//! decision on that state; loading and saving files, dialogs, rendering,
//! language servers and terminals are the caller's part, asked for through
//! the values these operations return.

use vstd::prelude::*;

use std::time::Instant;

use crate::clipboard::now;
use crate::clock::instant_elapsed_nanos;
use crate::commands::{builtin_commands, first_ids, CommandRegistry, NavigationEntry};
use crate::editor_group::{
    next_index, prev_index, all_closed, auto_save_mode_named, closed_tab, id_drawn, moved_left, moved_right, opened_file, opened_preview,
    others_closed, pinned, right_closed, split_copy, stepped, unpinned, AutoSaveMode, ClosedTabInfo,
    EditorGroup, EditorGroupLayout, EditorTab, GroupLayout,
};
use crate::paths::{path_exists, paths_equal, same_path};
use crate::text::{parse_u32, spec_parse_u32, spec_trim, trim};

verus! {

/// How long the cursor stays in one blink phase, in nanoseconds (530 ms).
pub const BLINK_INTERVAL_NS: u128 = 530_000_000;

/// What a tick decides from the clock: whether the cursor blink toggles
/// (its phase has lasted `BLINK_INTERVAL_NS`) and whether a pending
/// auto-save is due (auto-save after a delay, armed `save_elapsed_ns` ago,
/// at least `delay_ms` milliseconds).
pub open spec fn tick_spec(
    blink_elapsed_ns: u128,
    save_elapsed_ns: Option<u128>,
    mode: AutoSaveMode,
    delay_ms: u64,
) -> (bool, bool) {
    (
        blink_elapsed_ns >= BLINK_INTERVAL_NS,
        mode == AutoSaveMode::AfterDelay && match save_elapsed_ns {
            Some(e) => e >= delay_ms * 1_000_000,
            None => false,
        },
    )
}

/// The decisions of a tick from the time elapsed (see `tick_spec`).
pub fn tick(blink_elapsed_ns: u128, save_elapsed_ns: Option<u128>, mode: AutoSaveMode, delay_ms: u64) -> (r: (
    bool,
    bool,
))
    ensures
        r == tick_spec(blink_elapsed_ns, save_elapsed_ns, mode, delay_ms),
{
    let toggle = blink_elapsed_ns >= BLINK_INTERVAL_NS;
    let save = match mode {
        AutoSaveMode::AfterDelay => match save_elapsed_ns {
            Some(e) => e >= (delay_ms as u128) * 1_000_000,
            None => false,
        },
        _ => false,
    };
    (toggle, save)
}

// ── Documents ────────────────────────────────────────────────────────────────

/// What the shell reads of an open document.
#[derive(Debug, Clone)]
pub struct DocumentInfo {
    /// Where the document is saved; none while it is untitled.
    pub file_path: Option<String>,
    /// The language mode (such as `"rust"` or `"plaintext"`).
    pub language_id: String,
    /// Whether the buffer differs from what was last saved.
    pub is_dirty: bool,
    /// Whether the primary selection is non-empty.
    pub has_selection: bool,
    /// How many lines the buffer has.
    pub line_count: usize,
}

impl DocumentInfo {
    /// A new, empty, untitled plain-text document: one empty line, clean.
    pub fn new_untitled() -> (r: Self)
        ensures
            r.file_path is None,
            r.language_id@ == "plaintext"@,
            !r.is_dirty,
            !r.has_selection,
            r.line_count == 1,
    {
        DocumentInfo {
            file_path: None,
            language_id: "plaintext".to_string(),
            is_dirty: false,
            has_selection: false,
            line_count: 1,
        }
    }
}

/// Whether document `d` is saved at the path spelled `p`.
pub open spec fn shows_path(d: DocumentInfo, p: Seq<char>) -> bool {
    match d.file_path {
        Some(q) => same_path(q@, p),
        None => false,
    }
}

/// The first document at or after `i` saved at `p`.
pub open spec fn find_doc_from(docs: Seq<DocumentInfo>, p: Seq<char>, i: int) -> Option<int>
    decreases docs.len() - i,
{
    if i < 0 || i >= docs.len() {
        None
    } else if shows_path(docs[i], p) {
        Some(i)
    } else {
        find_doc_from(docs, p, i + 1)
    }
}

/// The first document saved at `p`.
pub open spec fn find_doc(docs: Seq<DocumentInfo>, p: Seq<char>) -> Option<int> {
    find_doc_from(docs, p, 0)
}

/// Whether `d` is a fresh untitled document.
pub open spec fn is_untitled_blank(d: DocumentInfo) -> bool {
    &&& d.file_path is None
    &&& d.language_id@ == "plaintext"@
    &&& !d.is_dirty
    &&& !d.has_selection
    &&& d.line_count == 1
}

/// How many documents have unsaved changes.
pub open spec fn dirty_count(docs: Seq<DocumentInfo>) -> nat
    decreases docs.len(),
{
    if docs.len() == 0 {
        0
    } else {
        dirty_count(docs.drop_last()) + if docs.last().is_dirty {
            1nat
        } else {
            0nat
        }
    }
}

// ── Context keys ─────────────────────────────────────────────────────────────

/// The context keys the shell sets for keybinding `when` clauses. Keys the
/// shell has not set yet are `None`.
#[derive(Debug, Clone)]
pub struct ContextKeys {
    pub editor_text_focus: bool,
    pub editor_has_selection: bool,
    pub editor_readonly: bool,
    pub terminal_focus: bool,
    pub side_bar_visible: bool,
    pub panel_visible: bool,
    pub editor_lang_id: String,
    pub suggest_widget_visible: Option<bool>,
    pub find_widget_visible: Option<bool>,
    pub in_quick_open: Option<bool>,
    pub rename_input_visible: Option<bool>,
}

/// Whether `k` is `old` with the shell's state written in: the active
/// document's selection and language (when there is an active document),
/// and the side bar's and panel's visibility.
pub open spec fn keys_refreshed(
    old: ContextKeys,
    k: ContextKeys,
    docs: Seq<DocumentInfo>,
    active: usize,
    side_bar: bool,
    panel: bool,
) -> bool {
    &&& k.side_bar_visible == side_bar
    &&& k.panel_visible == panel
    &&& k.editor_text_focus == old.editor_text_focus
    &&& k.terminal_focus == old.terminal_focus
    &&& k.suggest_widget_visible == old.suggest_widget_visible
    &&& k.find_widget_visible == old.find_widget_visible
    &&& k.in_quick_open == old.in_quick_open
    &&& k.rename_input_visible == old.rename_input_visible
    &&& if active < docs.len() {
        &&& k.editor_has_selection == docs[active as int].has_selection
        &&& k.editor_lang_id@ == docs[active as int].language_id@
        &&& !k.editor_readonly
    } else {
        &&& k.editor_has_selection == old.editor_has_selection
        &&& k.editor_lang_id == old.editor_lang_id
        &&& k.editor_readonly == old.editor_readonly
    }
}

// ── Timers ───────────────────────────────────────────────────────────────────

/// The shell's clocks: the pending auto-save, and the cursor blink.
#[derive(Debug, Clone)]
pub struct ShellTimers {
    auto_save_since: Option<Instant>,
    cursor_visible: bool,
    blink_since: Instant,
}

impl ShellTimers {
    /// When an auto-save was last armed (after an edit), if one is pending.
    pub closed spec fn auto_save_view(&self) -> Option<Instant> {
        self.auto_save_since
    }

    /// Whether the cursor is drawn in this blink phase.
    pub closed spec fn cursor_visible_view(&self) -> bool {
        self.cursor_visible
    }
}

/// What the caller does after a tick.
#[derive(Debug, Clone, Copy, PartialEq, Eq, Structural)]
pub struct TickOutcome {
    /// Save every dirty document that has a path (the auto-save delay ran
    /// out).
    pub save_all: bool,
    /// Recompute the layout for the surface size (it was marked stale).
    pub relayout: bool,
}

/// What opening a file comes to.
#[derive(Debug, Clone, Copy, PartialEq, Eq, Structural)]
pub enum OpenOutcome {
    /// The file was already open: this document is now active.
    Activated(usize),
    /// The file is not open: the caller loads it and hands it to
    /// `document_loaded` (or reports the failure).
    NeedsLoad,
}

// ── The shell ────────────────────────────────────────────────────────────────

/// The application shell's state.
pub struct App {
    pub documents: Vec<DocumentInfo>,
    pub active_document: usize,
    pub context_keys: ContextKeys,
    pub commands: CommandRegistry,
    /// Whether the layout shows the side bar.
    pub sidebar_visible: bool,
    /// Whether the layout shows the panel.
    pub panel_visible: bool,
    pub navigation_stack_back: Vec<NavigationEntry>,
    pub navigation_stack_forward: Vec<NavigationEntry>,
    pub editor_groups: EditorGroupLayout,
    pub auto_save_mode: AutoSaveMode,
    pub auto_save_delay_ms: u64,
    pub show_quick_open: bool,
    pub show_command_palette: bool,
    pub show_goto_line: bool,
    pub show_find_widget: bool,
    pub find_replace_mode: bool,
    pub show_search_panel: bool,
    pub zoom_level: i32,
    pub needs_relayout: bool,
    pub needs_render: bool,
    pub quick_pick_index: usize,
    pub suggest_index: usize,
    pub goto_line_input: String,
    pub find_query: String,
    pub timers: ShellTimers,
}

/// The zoom level one step in (at most 10).
pub open spec fn zoomed_in(level: i32) -> i32 {
    if level + 1 < 10 {
        (level + 1) as i32
    } else {
        10
    }
}

/// The zoom level one step out (at least -5).
pub open spec fn zoomed_out(level: i32) -> i32 {
    if level - 1 > -5 {
        (level - 1) as i32
    } else {
        -5i32
    }
}

/// The line a go-to-line input leads to in a document of `line_count`
/// lines: the number typed (counted from one) as a line counted from zero,
/// kept within the document; none when the input is not a number.
pub open spec fn goto_target(input: Seq<char>, line_count: usize) -> Option<u32> {
    match spec_parse_u32(spec_trim(input)) {
        Some(n) => {
            let target: int = if n >= 1 { n - 1 } else { 0 };
            let max_line: int = if line_count >= 1 { line_count - 1 } else { 0 };
            let max_u32: int = max_line % 0x1_0000_0000;
            Some((if target < max_u32 { target } else { max_u32 }) as u32)
        },
        None => None,
    }
}

/// The paths of the documents that have one, in order.
pub open spec fn doc_paths(docs: Seq<DocumentInfo>) -> Seq<String>
    decreases docs.len(),
{
    if docs.len() == 0 {
        Seq::empty()
    } else {
        doc_paths(docs.drop_last()) + match docs.last().file_path {
            Some(p) => seq![p],
            None => Seq::empty(),
        }
    }
}

/// The indices of the documents an auto-save or Save All writes: dirty
/// ones that have a path, in order.
pub open spec fn to_save(docs: Seq<DocumentInfo>) -> Seq<usize>
    decreases docs.len(),
{
    if docs.len() == 0 {
        Seq::empty()
    } else {
        to_save(docs.drop_last()) + if docs.last().file_path is Some && docs.last().is_dirty {
            seq![(docs.len() - 1) as usize]
        } else {
            Seq::empty()
        }
    }
}

/// How many entries the quick pick lists: the commands in the command
/// palette, the documents (at least one) in quick open.
pub open spec fn pick_count(app: App) -> int {
    if app.show_command_palette {
        first_ids(app.commands.table()).len() as int
    } else if app.documents@.len() >= 1 {
        app.documents@.len() as int
    } else {
        1
    }
}

/// What "Reopen Closed Editor" remembers of closed tabs: each one that has
/// a path, with the group and position given.
pub open spec fn closed_records(tabs: Seq<EditorTab>, group: usize, position: usize) -> Seq<(Seq<char>, usize, usize)>
    decreases tabs.len(),
{
    if tabs.len() == 0 {
        Seq::empty()
    } else {
        closed_records(tabs.drop_last(), group, position) + match tabs.last().path {
            Some(p) => seq![(p@, group, position)],
            None => Seq::empty(),
        }
    }
}

/// The remembered closed tabs as plain values.
pub open spec fn record_views(rc: Seq<ClosedTabInfo>) -> Seq<(Seq<char>, usize, usize)> {
    rc.map_values(|c: ClosedTabInfo| (c.path@, c.group, c.position))
}

/// The group layout `l` with group `g` replaced by `new`.
pub open spec fn with_group(l: EditorGroupLayout, g: int, new: EditorGroup) -> Seq<EditorGroup> {
    l.groups@.update(g, new)
}

/// Whether `after` is `before` with the active document following the
/// active group's active tab: when that tab has a path some document is
/// saved at, that document becomes active and the context keys are
/// refreshed; otherwise nothing changes.
pub open spec fn synced_from_group(before: App, after: App) -> bool {
    let l = before.editor_groups;
    let g = l.groups@[l.active_group as int];
    let path = if g.active_tab < g.tabs@.len() {
        g.tabs@[g.active_tab as int].path
    } else {
        None
    };
    match path {
        Some(p) => match find_doc(before.documents@, p@) {
            Some(i) => {
                &&& after.active_document == i
                &&& keys_refreshed(
                    before.context_keys,
                    after.context_keys,
                    before.documents@,
                    i as usize,
                    before.sidebar_visible,
                    before.panel_visible,
                )
                &&& after == (App {
                    active_document: after.active_document,
                    context_keys: after.context_keys,
                    ..before
                })
            },
            None => after == before,
        },
        None => after == before,
    }
}

/// A tab with its modified flag following the first document saved at its
/// path (tabs without such a document are left as they are).
pub open spec fn tab_synced(t: EditorTab, docs: Seq<DocumentInfo>) -> EditorTab {
    match t.path {
        Some(p) => match find_doc(docs, p@) {
            Some(i) => EditorTab { is_modified: docs[i].is_dirty, ..t },
            None => t,
        },
        None => t,
    }
}

/// A group with every tab's modified flag synced (see `tab_synced`).
pub open spec fn group_synced(g: EditorGroup, h: EditorGroup, docs: Seq<DocumentInfo>) -> bool {
    &&& h == EditorGroup { tabs: h.tabs, ..g }
    &&& h.tabs@.len() == g.tabs@.len()
    &&& forall|k: int| 0 <= k < g.tabs@.len() ==> #[trigger] h.tabs@[k] == tab_synced(g.tabs@[k], docs)
}

/// Whether layout `new` is `old` after opening `p` in group `g`: only that
/// group and the shared tab identifiers changed, a new tab taking the
/// layout's next identifier.
pub open spec fn opened_in_group(old: EditorGroupLayout, new: EditorGroupLayout, g: int, p: Seq<char>) -> bool {
    &&& new.groups@ == old.groups@.update(g, new.groups@[g])
    &&& new == EditorGroupLayout { groups: new.groups, tab_ids: new.tab_ids, ..old }
    &&& id_drawn((EditorGroup { ids: old.tab_ids, ..old.groups@[g] }), new.groups@[g], p)
    &&& new.tab_ids == new.groups@[g].ids
}

/// Whether layout `new` is `old` with only group `g` changed.
pub open spec fn only_group_changed(old: EditorGroupLayout, new: EditorGroupLayout, g: int) -> bool {
    &&& new.groups@ == old.groups@.update(g, new.groups@[g])
    &&& new == EditorGroupLayout { groups: new.groups, ..old }
}

/// Whether `after` is `old` after a change to the editor groups (to
/// `after`'s), followed by the active document following the active tab
/// (see `synced_from_group`) and a redraw.
pub open spec fn then_synced(old: App, after: App) -> bool {
    &&& after.needs_render
    &&& synced_from_group(
        App { editor_groups: after.editor_groups, ..old },
        App { needs_render: old.needs_render, ..after },
    )
}

/// What opening the file at `p` does to the shell (see `App::open_file`).
pub open spec fn open_result(before: App, after: App, p: Seq<char>, r: OpenOutcome) -> bool {
    match find_doc(before.documents@, p) {
        Some(i) => {
            &&& r == OpenOutcome::Activated(i as usize)
            &&& after.active_document == i
            &&& keys_refreshed(
                before.context_keys,
                after.context_keys,
                before.documents@,
                i as usize,
                before.sidebar_visible,
                before.panel_visible,
            )
            &&& after == (App {
                active_document: after.active_document,
                context_keys: after.context_keys,
                needs_render: true,
                ..before
            })
        },
        None => r == OpenOutcome::NeedsLoad && after == before,
    }
}

/// Whether layout `new` is `old` with its active group split (downward
/// when `vertical`), as `EditorGroupLayout::split_right` and `split_down`
/// do.
pub open spec fn split_done(old: EditorGroupLayout, new: EditorGroupLayout, vertical: bool) -> bool {
    &&& new.wf()
    &&& new.groups@.len() == old.groups@.len() + 1
    &&& new.groups@.remove(old.active_group + 1) == old.groups@
    &&& split_copy(old.groups@[old.active_group as int], new.groups@[old.active_group + 1])
    &&& new.active_group == old.active_group + 1
    &&& new.layout == if vertical {
        GroupLayout::SplitVertical
    } else {
        GroupLayout::SplitHorizontal
    }
    &&& new.recently_closed == old.recently_closed
}

/// The path of the active document, if it has one.
pub open spec fn active_path(app: App) -> Option<String> {
    if app.active_document < app.documents@.len() {
        app.documents@[app.active_document as int].file_path
    } else {
        None
    }
}

/// Whether group `g` of the layout can take another tab.
pub open spec fn group_has_room(l: EditorGroupLayout, g: int) -> bool {
    &&& 0 <= g < l.groups@.len()
    &&& l.groups@[g].tabs@.len() < usize::MAX
    &&& l.groups@[g].preview_tab != Some(usize::MAX)
}

/// Zooming in and then out, or out and then in, comes back to the level one
/// started from, away from the limits.
pub proof fn lemma_zoom_round_trip(level: i32)
    ensures
        -5 <= level < 10 ==> zoomed_out(zoomed_in(level)) == level,
        -5 < level <= 10 ==> zoomed_in(zoomed_out(level)) == level,
{
}

impl App {
    /// The shell at start-up: one untitled document, one empty editor
    /// group, the built-in commands, no overlay, zoom 0, auto-save off with
    /// a one-second delay, and the initial context keys.
    pub fn new() -> (r: Self)
        ensures
            r.documents@.len() == 1,
            is_untitled_blank(r.documents@[0]),
            r.active_document == 0,
            r.editor_groups.wf(),
            r.editor_groups.groups@.len() == 1,
            r.editor_groups.groups@[0].tabs@.len() == 0,
            r.auto_save_mode == AutoSaveMode::Off,
            r.auto_save_delay_ms == 1000,
            !r.show_quick_open && !r.show_command_palette && !r.show_goto_line,
            !r.show_find_widget && !r.find_replace_mode && !r.show_search_panel,
            r.zoom_level == 0,
            !r.needs_relayout && r.needs_render,
            r.quick_pick_index == 0 && r.suggest_index == 0,
            r.goto_line_input@.len() == 0 && r.find_query@.len() == 0,
            r.sidebar_visible && r.panel_visible,
            r.context_keys.editor_text_focus,
            !r.context_keys.editor_has_selection && !r.context_keys.editor_readonly,
            !r.context_keys.terminal_focus,
            r.context_keys.side_bar_visible && r.context_keys.panel_visible,
            r.context_keys.editor_lang_id@ == "plaintext"@,
            r.context_keys.suggest_widget_visible is None && r.context_keys.find_widget_visible is None,
            r.context_keys.in_quick_open is None && r.context_keys.rename_input_visible is None,
            r.timers.auto_save_view() is None,
            r.timers.cursor_visible_view(),
            r.navigation_stack_back@.len() == 0 && r.navigation_stack_forward@.len() == 0,
            r.commands.table() == builtin_commands(),
            r.commands.closed_editors().len() == 0,
    {
        let mut documents: Vec<DocumentInfo> = Vec::new();
        documents.push(DocumentInfo::new_untitled());
        App {
            documents,
            active_document: 0,
            context_keys: ContextKeys {
                editor_text_focus: true,
                editor_has_selection: false,
                editor_readonly: false,
                terminal_focus: false,
                side_bar_visible: true,
                panel_visible: true,
                editor_lang_id: "plaintext".to_string(),
                suggest_widget_visible: None,
                find_widget_visible: None,
                in_quick_open: None,
                rename_input_visible: None,
            },
            commands: CommandRegistry::new(),
            sidebar_visible: true,
            panel_visible: true,
            navigation_stack_back: Vec::new(),
            navigation_stack_forward: Vec::new(),
            editor_groups: EditorGroupLayout::new(),
            auto_save_mode: AutoSaveMode::Off,
            auto_save_delay_ms: 1000,
            show_quick_open: false,
            show_command_palette: false,
            show_goto_line: false,
            show_find_widget: false,
            find_replace_mode: false,
            show_search_panel: false,
            zoom_level: 0,
            needs_relayout: false,
            needs_render: true,
            quick_pick_index: 0,
            suggest_index: 0,
            goto_line_input: String::new(),
            find_query: String::new(),
            timers: ShellTimers { auto_save_since: None, cursor_visible: true, blink_since: now() },
        }
    }

    /// The active document, if the active index points at one.
    pub fn active_document_ref(&self) -> (r: Option<&DocumentInfo>)
        ensures
            self.active_document < self.documents@.len() ==> r == Some(&self.documents@[self.active_document as int]),
            self.active_document >= self.documents@.len() ==> r is None,
    {
        if self.active_document < self.documents.len() {
            Some(&self.documents[self.active_document])
        } else {
            None
        }
    }

    /// The active document, for changing it, if the active index points at
    /// one.
    pub fn active_document_mut(&mut self) -> (r: Option<&mut DocumentInfo>)
        ensures
            old(self).active_document < old(self).documents@.len() ==> (r matches Some(d) && *d
                == old(self).documents@[old(self).active_document as int] && *final(self) == (App {
                documents: final(self).documents,
                ..*old(self)
            }) && final(self).documents@ == old(self).documents@.update(old(self).active_document as int, *final(d))),
            old(self).active_document >= old(self).documents@.len() ==> r is None && *final(self) == *old(self),
    {
        if self.active_document < self.documents.len() {
            Some(&mut self.documents[self.active_document])
        } else {
            None
        }
    }

    /// Writes the active document's selection and language and the side
    /// bar's and panel's visibility into the context keys.
    pub fn update_context_keys(&mut self)
        ensures
            keys_refreshed(
                old(self).context_keys,
                final(self).context_keys,
                old(self).documents@,
                old(self).active_document,
                old(self).sidebar_visible,
                old(self).panel_visible,
            ),
            *final(self) == (App { context_keys: final(self).context_keys, ..*old(self) }),
    {
        if self.active_document < self.documents.len() {
            let has_selection = self.documents[self.active_document].has_selection;
            let lang = self.documents[self.active_document].language_id.clone();
            self.context_keys.editor_has_selection = has_selection;
            self.context_keys.editor_lang_id = lang;
            self.context_keys.editor_readonly = false;
        }
        self.context_keys.side_bar_visible = self.sidebar_visible;
        self.context_keys.panel_visible = self.panel_visible;
    }

    /// Opens a new untitled document and makes it active.
    pub fn new_untitled_file(&mut self)
        ensures
            final(self).documents@.len() == old(self).documents@.len() + 1,
            final(self).documents@.drop_last() == old(self).documents@,
            is_untitled_blank(final(self).documents@.last()),
            final(self).active_document == old(self).documents@.len(),
            keys_refreshed(
                old(self).context_keys,
                final(self).context_keys,
                final(self).documents@,
                final(self).active_document,
                old(self).sidebar_visible,
                old(self).panel_visible,
            ),
            final(self).needs_render,
            *final(self) == (App {
                documents: final(self).documents,
                active_document: final(self).active_document,
                context_keys: final(self).context_keys,
                needs_render: true,
                ..*old(self)
            }),
    {
        self.documents.push(DocumentInfo::new_untitled());
        assert(self.documents@.drop_last() =~= old(self).documents@);
        self.active_document = self.documents.len() - 1;
        self.update_context_keys();
        self.needs_render = true;
    }

    /// The index of the first document saved at `path`.
    fn find_document(&self, path: &str) -> (r: Option<usize>)
        ensures
            r matches Some(k) ==> find_doc(self.documents@, path@) == Some(k as int),
            match find_doc(self.documents@, path@) {
                Some(i) => 0 <= i < self.documents@.len() && r == Some(i as usize),
                None => r is None,
            },
    {
        let n = self.documents.len();
        let mut i: usize = 0;
        while i < n
            invariant
                i <= n,
                n == self.documents@.len(),
                find_doc_from(self.documents@, path@, i as int) == find_doc(self.documents@, path@),
            decreases n - i,
        {
            let hit = match &self.documents[i].file_path {
                Some(q) => paths_equal(q.as_str(), path),
                None => false,
            };
            if hit {
                return Some(i);
            }
            i = i + 1;
        }
        None
    }

    /// Opens the file at `path`: when a document is already saved there it
    /// becomes active; otherwise the caller is asked to load it.
    pub fn open_file(&mut self, path: &str) -> (r: OpenOutcome)
        ensures
            open_result(*old(self), *final(self), path@, r),
    {
        match self.find_document(path) {
            Some(i) => {
                self.active_document = i;
                self.update_context_keys();
                self.needs_render = true;
                OpenOutcome::Activated(i)
            },
            None => OpenOutcome::NeedsLoad,
        }
    }

    /// A document the caller loaded (after `NeedsLoad`) joins the open
    /// documents and becomes active.
    pub fn document_loaded(&mut self, doc: DocumentInfo)
        ensures
            final(self).documents@ == old(self).documents@.push(doc),
            final(self).active_document == old(self).documents@.len(),
            keys_refreshed(
                old(self).context_keys,
                final(self).context_keys,
                final(self).documents@,
                final(self).active_document,
                old(self).sidebar_visible,
                old(self).panel_visible,
            ),
            *final(self) == (App {
                documents: final(self).documents,
                active_document: final(self).active_document,
                context_keys: final(self).context_keys,
                needs_render: true,
                ..*old(self)
            }),
    {
        self.documents.push(doc);
        self.active_document = self.documents.len() - 1;
        self.update_context_keys();
        self.needs_render = true;
    }

    /// Closes the active document, remembering its path for reopening. The
    /// next document takes its place (the last one when it was last); when
    /// none is left a new untitled document opens. Nothing happens without
    /// documents.
    #[verifier::rlimit(40)]
    pub fn close_active_editor(&mut self)
        requires
            old(self).active_document < old(self).documents@.len() || old(self).documents@.len() == 0,
        ensures
            old(self).documents@.len() == 0 ==> *final(self) == *old(self),
            old(self).documents@.len() > 0 ==> {
                let idx = old(self).active_document as int;
                let rest = old(self).documents@.remove(idx);
                &&& match old(self).documents@[idx].file_path {
                    Some(p) => final(self).commands.closed_editors().len() == old(self).commands.closed_editors().len() + 1
                        && final(self).commands.closed_editors().drop_last() == old(self).commands.closed_editors()
                        && final(self).commands.closed_editors().last()@ == p@,
                    None => final(self).commands.closed_editors() == old(self).commands.closed_editors(),
                }
                &&& if rest.len() == 0 {
                    &&& final(self).documents@.len() == 1
                    &&& is_untitled_blank(final(self).documents@[0])
                    &&& final(self).active_document == 0
                } else {
                    &&& final(self).documents@ == rest
                    &&& final(self).active_document == if idx < rest.len() {
                        idx
                    } else {
                        rest.len() - 1
                    }
                }
                &&& keys_refreshed(
                    old(self).context_keys,
                    final(self).context_keys,
                    final(self).documents@,
                    final(self).active_document,
                    old(self).sidebar_visible,
                    old(self).panel_visible,
                )
                &&& final(self).needs_render
                &&& final(self).commands.table() == old(self).commands.table()
                &&& *final(self) == (App {
                    documents: final(self).documents,
                    active_document: final(self).active_document,
                    context_keys: final(self).context_keys,
                    commands: final(self).commands,
                    needs_render: true,
                    ..*old(self)
                })
            },
    {
        if self.documents.len() == 0 {
            return;
        }
        let idx = self.active_document;
        match &self.documents[idx].file_path {
            Some(p) => {
                let closed = p.clone();
                self.commands.remember_closed(closed);
            },
            None => {},
        }
        self.documents.remove(idx);
        if self.documents.len() == 0 {
            self.documents.push(DocumentInfo::new_untitled());
            self.active_document = 0;
        } else if self.active_document >= self.documents.len() {
            self.active_document = self.documents.len() - 1;
        }
        self.update_context_keys();
        self.needs_render = true;
    }

    /// Makes document `index` active, if there is one.
    pub fn switch_to_document(&mut self, index: usize)
        ensures
            index >= old(self).documents@.len() ==> *final(self) == *old(self),
            index < old(self).documents@.len() ==> {
                &&& final(self).active_document == index
                &&& keys_refreshed(
                    old(self).context_keys,
                    final(self).context_keys,
                    old(self).documents@,
                    index,
                    old(self).sidebar_visible,
                    old(self).panel_visible,
                )
                &&& *final(self) == (App {
                    active_document: index,
                    context_keys: final(self).context_keys,
                    needs_render: true,
                    ..*old(self)
                })
            },
    {
        if index < self.documents.len() {
            self.active_document = index;
            self.update_context_keys();
            self.needs_render = true;
        }
    }

    /// Closes every overlay (quick open, command palette, go to line, find
    /// and replace, search) and says so in the context keys.
    pub fn dismiss_overlays(&mut self)
        ensures
            *final(self) == (App {
                show_quick_open: false,
                show_command_palette: false,
                show_goto_line: false,
                show_find_widget: false,
                find_replace_mode: false,
                show_search_panel: false,
                context_keys: ContextKeys {
                    suggest_widget_visible: Some(false),
                    find_widget_visible: Some(false),
                    in_quick_open: Some(false),
                    ..old(self).context_keys
                },
                ..*old(self)
            }),
    {
        self.show_quick_open = false;
        self.show_command_palette = false;
        self.show_goto_line = false;
        self.show_find_widget = false;
        self.find_replace_mode = false;
        self.show_search_panel = false;
        self.context_keys.suggest_widget_visible = Some(false);
        self.context_keys.find_widget_visible = Some(false);
        self.context_keys.in_quick_open = Some(false);
    }

    /// Shows the suggest widget with its first item selected.
    pub fn trigger_suggest(&mut self)
        ensures
            *final(self) == (App {
                suggest_index: 0,
                needs_render: true,
                context_keys: ContextKeys { suggest_widget_visible: Some(true), ..old(self).context_keys },
                ..*old(self)
            }),
    {
        self.context_keys.suggest_widget_visible = Some(true);
        self.suggest_index = 0;
        self.needs_render = true;
    }

    /// Accepts the selected suggestion: the widget closes.
    pub fn accept_suggest(&mut self)
        ensures
            *final(self) == (App {
                needs_render: true,
                context_keys: ContextKeys { suggest_widget_visible: Some(false), ..old(self).context_keys },
                ..*old(self)
            }),
    {
        self.context_keys.suggest_widget_visible = Some(false);
        self.needs_render = true;
    }

    /// Starts a rename: the rename input shows.
    pub fn start_rename(&mut self)
        ensures
            *final(self) == (App {
                needs_render: true,
                context_keys: ContextKeys { rename_input_visible: Some(true), ..old(self).context_keys },
                ..*old(self)
            }),
    {
        self.context_keys.rename_input_visible = Some(true);
        self.needs_render = true;
    }

    /// Moves the suggestion selection by `delta`, not before the first.
    pub fn suggest_move(&mut self, delta: i32)
        requires
            old(self).suggest_index <= i32::MAX,
            i32::MIN <= old(self).suggest_index + delta <= i32::MAX,
        ensures
            *final(self) == (App {
                suggest_index: if old(self).suggest_index + delta > 0 {
                    (old(self).suggest_index + delta) as usize
                } else {
                    0
                },
                needs_render: true,
                ..*old(self)
            }),
    {
        let moved: i32 = self.suggest_index as i32 + delta;
        self.suggest_index = if moved > 0 {
            moved as usize
        } else {
            0
        };
        self.needs_render = true;
    }

    /// One zoom step in (at most level 10).
    pub fn zoom_in(&mut self)
        ensures
            *final(self) == (App { zoom_level: zoomed_in(old(self).zoom_level), needs_render: true, ..*old(self) }),
    {
        self.zoom_level = if self.zoom_level < 9 {
            self.zoom_level + 1
        } else {
            10
        };
        self.needs_render = true;
    }

    /// One zoom step out (at least level -5).
    pub fn zoom_out(&mut self)
        ensures
            *final(self) == (App { zoom_level: zoomed_out(old(self).zoom_level), needs_render: true, ..*old(self) }),
    {
        self.zoom_level = if self.zoom_level > -4 {
            self.zoom_level - 1
        } else {
            -5
        };
        self.needs_render = true;
    }

    /// Back to zoom level 0.
    pub fn zoom_reset(&mut self)
        ensures
            *final(self) == (App { zoom_level: 0, needs_render: true, ..*old(self) }),
    {
        self.zoom_level = 0;
        self.needs_render = true;
    }

    /// How many documents have unsaved changes.
    pub fn unsaved_tab_count(&self) -> (r: usize)
        ensures
            r == dirty_count(self.documents@),
    {
        let mut count: usize = 0;
        let mut i: usize = 0;
        while i < self.documents.len()
            invariant
                i <= self.documents@.len(),
                count == dirty_count(self.documents@.subrange(0, i as int)),
                count <= i,
            decreases self.documents@.len() - i,
        {
            assert(self.documents@.subrange(0, i + 1).drop_last() =~= self.documents@.subrange(0, i as int));
            if self.documents[i].is_dirty {
                count = count + 1;
            }
            i = i + 1;
        }
        assert(self.documents@.subrange(0, self.documents@.len() as int) =~= self.documents@);
        count
    }

    /// Whether any document has unsaved changes.
    pub fn has_unsaved_changes(&self) -> (r: bool)
        ensures
            r == exists|i: int| 0 <= i < self.documents@.len() && #[trigger] self.documents@[i].is_dirty,
    {
        let mut i: usize = 0;
        while i < self.documents.len()
            invariant
                i <= self.documents@.len(),
                forall|k: int| 0 <= k < i ==> !(#[trigger] self.documents@[k].is_dirty),
            decreases self.documents@.len() - i,
        {
            if self.documents[i].is_dirty {
                return true;
            }
            i = i + 1;
        }
        false
    }

    /// Reads the auto-save settings (`files.autoSave` and its delay).
    pub fn configure_auto_save(&mut self, mode: &str, delay_ms: u64)
        ensures
            *final(self) == (App {
                auto_save_mode: auto_save_mode_named(mode@),
                auto_save_delay_ms: delay_ms,
                ..*old(self)
            }),
    {
        self.auto_save_mode = AutoSaveMode::from_setting(mode);
        self.auto_save_delay_ms = delay_ms;
    }

    /// Closes every document, remembering the paths of those that have
    /// one; a new untitled document opens in their place.
    pub fn close_all_editors(&mut self)
        ensures
            final(self).commands.closed_editors() == old(self).commands.closed_editors() + doc_paths(old(self).documents@),
            final(self).commands.table() == old(self).commands.table(),
            final(self).documents@.len() == 1,
            is_untitled_blank(final(self).documents@[0]),
            final(self).active_document == 0,
            keys_refreshed(
                old(self).context_keys,
                final(self).context_keys,
                final(self).documents@,
                0,
                old(self).sidebar_visible,
                old(self).panel_visible,
            ),
            *final(self) == (App {
                documents: final(self).documents,
                active_document: 0,
                context_keys: final(self).context_keys,
                commands: final(self).commands,
                needs_render: true,
                ..*old(self)
            }),
    {
        let mut i: usize = 0;
        while i < self.documents.len()
            invariant
                i <= self.documents@.len(),
                self.documents == old(self).documents,
                self.commands.closed_editors() == old(self).commands.closed_editors() + doc_paths(
                    self.documents@.subrange(0, i as int),
                ),
                self.commands.table() == old(self).commands.table(),
                *self == (App { commands: self.commands, ..*old(self) }),
            decreases self.documents@.len() - i,
        {
            assert(self.documents@.subrange(0, i + 1).drop_last() =~= self.documents@.subrange(0, i as int));
            match &self.documents[i].file_path {
                Some(p) => {
                    let closed = p.clone();
                    self.commands.remember_closed(closed);
                },
                None => {},
            }
            i = i + 1;
        }
        assert(self.documents@.subrange(0, self.documents@.len() as int) =~= self.documents@);
        self.documents.clear();
        self.documents.push(DocumentInfo::new_untitled());
        self.active_document = 0;
        self.update_context_keys();
        self.needs_render = true;
    }

    /// Reopens the most recently closed document: its path is taken off the
    /// list and, when the file still exists, opened (see `open_file`).
    /// Answers the path and what opening it came to; none when the list was
    /// empty or the file is gone.
    pub fn reopen_closed_editor(&mut self) -> (r: Option<(String, OpenOutcome)>)
        ensures
            final(self).commands.table() == old(self).commands.table(),
            old(self).commands.closed_editors().len() == 0 ==> r is None && *final(self) == *old(self),
            old(self).commands.closed_editors().len() > 0 ==> {
                let p = old(self).commands.closed_editors().last();
                &&& final(self).commands.closed_editors() == old(self).commands.closed_editors().drop_last()
                &&& r matches Some((q, _)) ==> q == p
                &&& r matches Some((_, o)) ==> match find_doc(old(self).documents@, p@) {
                    Some(i) => o == OpenOutcome::Activated(i as usize) && final(self).active_document == i
                        && keys_refreshed(
                            old(self).context_keys,
                            final(self).context_keys,
                            old(self).documents@,
                            i as usize,
                            old(self).sidebar_visible,
                            old(self).panel_visible,
                        ) && *final(self) == (App {
                            active_document: final(self).active_document,
                            context_keys: final(self).context_keys,
                            commands: final(self).commands,
                            needs_render: true,
                            ..*old(self)
                        }),
                    None => o == OpenOutcome::NeedsLoad && *final(self) == (App {
                        commands: final(self).commands,
                        ..*old(self)
                    }),
                }
                &&& r is None ==> *final(self) == (App { commands: final(self).commands, ..*old(self) })
            },
    {
        match self.commands.take_last_closed() {
            None => None,
            Some(path) => {
                if path_exists(path.as_str()) {
                    let outcome = self.open_file(path.as_str());
                    Some((path, outcome))
                } else {
                    None
                }
            },
        }
    }

    /// Moves the quick pick selection by `delta`, wrapping around the
    /// entries listed (see `pick_count`); nothing happens when there are
    /// none.
    pub fn quick_pick_move(&mut self, delta: i32)
        requires
            old(self).quick_pick_index <= i32::MAX,
            i32::MIN <= old(self).quick_pick_index + delta <= i32::MAX,
            pick_count(*old(self)) <= i32::MAX,
        ensures
            pick_count(*old(self)) == 0 ==> *final(self) == *old(self),
            pick_count(*old(self)) > 0 ==> *final(self) == (App {
                quick_pick_index: ((old(self).quick_pick_index + delta) % pick_count(*old(self))) as usize,
                needs_render: true,
                ..*old(self)
            }),
    {
        let count: usize = if self.show_command_palette {
            let ids = self.commands.ids();
            proof {
                assert(ids@.map_values(|s: &str| s@).len() == ids@.len());
            }
            ids.len()
        } else if self.documents.len() >= 1 {
            self.documents.len()
        } else {
            1
        };
        if count == 0 {
            return;
        }
        let s: i64 = self.quick_pick_index as i64 + delta as i64;
        let c: i64 = count as i64;
        let m: i64 = if s >= 0 {
            (s % c) as i64
        } else {
            let t: i64 = (-s) % c;
            if t == 0 {
                0
            } else {
                c - t
            }
        };
        proof {
            let si = s as int;
            let ci = c as int;
            if si < 0 {
                let t = (-si) % ci;
                let q = (-si) / ci;
                assert((-si) == q * ci + t) by (nonlinear_arith)
                    requires
                        ci > 0,
                        t == (-si) % ci,
                        q == (-si) / ci,
                ;
                if t == 0 {
                    assert(si == (-q) * ci) by (nonlinear_arith)
                        requires
                            (-si) == q * ci,
                    ;
                    assert(si % ci == 0) by (nonlinear_arith)
                        requires
                            si == (-q) * ci,
                            ci > 0,
                    ;
                } else {
                    assert(si == (-q - 1) * ci + (ci - t)) by (nonlinear_arith)
                        requires
                            (-si) == q * ci + t,
                    ;
                    assert(0 <= t < ci) by (nonlinear_arith)
                        requires
                            ci > 0,
                            t == (-si) % ci,
                    ;
                    assert(si % ci == ci - t) by (nonlinear_arith)
                        requires
                            si == (-q - 1) * ci + (ci - t),
                            0 < ci - t < ci,
                    ;
                }
            }
        }
        self.quick_pick_index = m as usize;
        self.needs_render = true;
    }

    /// Confirms the quick pick. In the command palette the selected command
    /// is answered, for the caller to run, and the palette closes (the
    /// palette just closes when nothing is selected); in quick open the
    /// selected document becomes active and quick open closes.
    pub fn confirm_quick_pick(&mut self) -> (r: Option<String>)
        ensures
            final(self).commands == old(self).commands,
            old(self).show_command_palette ==> {
                let ids = first_ids(old(self).commands.table());
                if old(self).quick_pick_index < ids.len() {
                    &&& r matches Some(id) && id@ == ids[old(self).quick_pick_index as int]
                    &&& *final(self) == (App {
                        show_command_palette: false,
                        context_keys: ContextKeys { in_quick_open: Some(false), ..old(self).context_keys },
                        ..*old(self)
                    })
                } else {
                    &&& r is None
                    &&& *final(self) == (App { show_command_palette: false, needs_render: true, ..*old(self) })
                }
            },
            !old(self).show_command_palette && old(self).show_quick_open ==> {
                let idx = old(self).quick_pick_index;
                &&& r is None
                &&& final(self).active_document == if idx < old(self).documents@.len() {
                    idx
                } else {
                    old(self).active_document
                }
                &&& idx < old(self).documents@.len() ==> keys_refreshed(
                    old(self).context_keys,
                    ContextKeys { in_quick_open: old(self).context_keys.in_quick_open, ..final(self).context_keys },
                    old(self).documents@,
                    idx,
                    old(self).sidebar_visible,
                    old(self).panel_visible,
                )
                &&& idx >= old(self).documents@.len() ==> final(self).context_keys == ContextKeys {
                    in_quick_open: Some(false),
                    ..old(self).context_keys
                }
                &&& final(self).context_keys.in_quick_open == Some(false)
                &&& *final(self) == (App {
                    active_document: final(self).active_document,
                    context_keys: final(self).context_keys,
                    show_quick_open: false,
                    needs_render: true,
                    ..*old(self)
                })
            },
            !old(self).show_command_palette && !old(self).show_quick_open ==> r is None && *final(self) == (App {
                needs_render: true,
                ..*old(self)
            }),
    {
        if self.show_command_palette {
            let ids = self.commands.ids();
            proof {
                assert(ids@.map_values(|s: &str| s@).len() == ids@.len());
            }
            if self.quick_pick_index < ids.len() {
                let id = ids[self.quick_pick_index].to_string();
                proof {
                    assert(ids@.map_values(|s: &str| s@)[self.quick_pick_index as int] == ids@[self.quick_pick_index as int]@);
                }
                self.show_command_palette = false;
                self.context_keys.in_quick_open = Some(false);
                return Some(id);
            }
            self.show_command_palette = false;
        } else if self.show_quick_open {
            let idx = self.quick_pick_index;
            if idx < self.documents.len() {
                self.active_document = idx;
                self.update_context_keys();
            }
            self.show_quick_open = false;
            self.context_keys.in_quick_open = Some(false);
        }
        self.needs_render = true;
        None
    }

    /// Confirms the go-to-line input: answers the line (counted from zero)
    /// the active document's cursor moves to (see `goto_target`), none when
    /// the input is not a number or there is no active document. The input
    /// closes and is cleared either way.
    pub fn confirm_goto_line(&mut self) -> (r: Option<u32>)
        ensures
            r == if old(self).active_document < old(self).documents@.len() {
                goto_target(old(self).goto_line_input@, old(self).documents@[old(self).active_document as int].line_count)
            } else {
                None
            },
            final(self).goto_line_input@.len() == 0,
            *final(self) == (App {
                show_goto_line: false,
                goto_line_input: final(self).goto_line_input,
                needs_render: true,
                ..*old(self)
            }),
    {
        let mut target: Option<u32> = None;
        match parse_u32(trim(self.goto_line_input.as_str())) {
            Some(n) => {
                let line: u32 = if n >= 1 {
                    n - 1
                } else {
                    0
                };
                if self.active_document < self.documents.len() {
                    let count = self.documents[self.active_document].line_count;
                    let max_line: usize = if count >= 1 {
                        count - 1
                    } else {
                        0
                    };
                    let max_u32: u32 = ((max_line as u64) % 0x1_0000_0000u64) as u32;
                    target = Some(
                        if line < max_u32 {
                            line
                        } else {
                            max_u32
                        },
                    );
                }
            },
            None => {},
        }
        self.show_goto_line = false;
        self.goto_line_input = String::new();
        self.needs_render = true;
        target
    }

    /// The documents Save All writes: answers the dirty documents that have
    /// a path (see `to_save`), for the caller to save.
    pub fn save_all_files(&mut self) -> (r: Vec<usize>)
        ensures
            r@ == to_save(old(self).documents@),
            *final(self) == (App { needs_render: true, ..*old(self) }),
    {
        let mut out: Vec<usize> = Vec::new();
        let mut i: usize = 0;
        while i < self.documents.len()
            invariant
                i <= self.documents@.len(),
                out@ == to_save(self.documents@.subrange(0, i as int)),
            decreases self.documents@.len() - i,
        {
            assert(self.documents@.subrange(0, i + 1).drop_last() =~= self.documents@.subrange(0, i as int));
            if self.documents[i].file_path.is_some() && self.documents[i].is_dirty {
                out.push(i);
            }
            i = i + 1;
        }
        assert(self.documents@.subrange(0, self.documents@.len() as int) =~= self.documents@);
        self.needs_render = true;
        out
    }

    /// Makes the document shown by the active group's active tab active
    /// (see `synced_from_group`).
    fn sync_active_document_from_group(&mut self)
        requires
            old(self).editor_groups.active_group < old(self).editor_groups.groups@.len(),
        ensures
            synced_from_group(*old(self), *final(self)),
    {
        let group = self.editor_groups.active_group();
        let path = match group.active_tab_ref() {
            Some(tab) => match &tab.path {
                Some(p) => Some(p.clone()),
                None => None,
            },
            None => None,
        };
        match path {
            Some(p) => match self.find_document(p.as_str()) {
                Some(i) => {
                    self.active_document = i;
                    self.update_context_keys();
                },
                None => {},
            },
            None => {},
        }
    }

    /// Remembers closed tabs for reopening, at `group`, position 0.
    fn record_all_closed(&mut self, closed: &Vec<EditorTab>, group: usize)
        ensures
            record_views(final(self).editor_groups.recently_closed@) == record_views(
                old(self).editor_groups.recently_closed@,
            ) + closed_records(closed@, group, 0),
            *final(self) == (App {
                editor_groups: EditorGroupLayout {
                    recently_closed: final(self).editor_groups.recently_closed,
                    ..old(self).editor_groups
                },
                ..*old(self)
            }),
    {
        let mut i: usize = 0;
        while i < closed.len()
            invariant
                i <= closed@.len(),
                record_views(self.editor_groups.recently_closed@) == record_views(
                    old(self).editor_groups.recently_closed@,
                ) + closed_records(closed@.subrange(0, i as int), group, 0),
                *self == (App {
                    editor_groups: EditorGroupLayout {
                        recently_closed: self.editor_groups.recently_closed,
                        ..old(self).editor_groups
                    },
                    ..*old(self)
                }),
            decreases closed@.len() - i,
        {
            let ghost before = self.editor_groups.recently_closed@;
            self.editor_groups.record_closed(&closed[i], group, 0);
            proof {
                assert(closed@.subrange(0, i + 1).drop_last() =~= closed@.subrange(0, i as int));
                assert(closed@.subrange(0, i + 1).last() == closed@[i as int]);
                match closed@[i as int].path {
                    Some(p) => {
                        assert(self.editor_groups.recently_closed@ =~= before.push(self.editor_groups.recently_closed@.last()));
                        assert(record_views(self.editor_groups.recently_closed@) =~= record_views(before).push(
                            (p@, group, 0usize),
                        ));
                    },
                    None => {},
                }
            }
            i = i + 1;
        }
        assert(closed@.subrange(0, closed@.len() as int) =~= closed@);
    }

    /// Closes tab `tab` of group `group`, remembering it for reopening (in
    /// the group and, when it has a path, among the closed editors).
    /// Nothing happens when there is no such tab.
    pub fn close_tab(&mut self, group: usize, tab: usize)
        ensures
            group >= old(self).editor_groups.groups@.len() || tab >= old(self).editor_groups.groups@[group as int].tabs@.len()
                ==> *final(self) == *old(self),
            group < old(self).editor_groups.groups@.len() && tab < old(self).editor_groups.groups@[group as int].tabs@.len()
                ==> {
                let t = old(self).editor_groups.groups@[group as int].tabs@[tab as int];
                let l = final(self).editor_groups;
                &&& closed_tab(old(self).editor_groups.groups@[group as int], l.groups@[group as int], tab)
                &&& l.groups@ == with_group(old(self).editor_groups, group as int, l.groups@[group as int])
                &&& l.active_group == old(self).editor_groups.active_group
                &&& l.layout == old(self).editor_groups.layout
                &&& match t.path {
                    Some(p) => {
                        &&& record_views(l.recently_closed@) == record_views(old(self).editor_groups.recently_closed@).push(
                            (p@, group, tab),
                        )
                        &&& final(self).commands.closed_editors() == old(self).commands.closed_editors().push(p)
                    },
                    None => {
                        &&& l.recently_closed@ == old(self).editor_groups.recently_closed@
                        &&& final(self).commands.closed_editors() == old(self).commands.closed_editors()
                    },
                }
                &&& final(self).commands.table() == old(self).commands.table()
                &&& *final(self) == (App {
                    editor_groups: final(self).editor_groups,
                    commands: final(self).commands,
                    needs_render: true,
                    ..*old(self)
                })
            },
    {
        if group >= self.editor_groups.groups.len() {
            return;
        }
        if tab >= self.editor_groups.groups[group].tabs.len() {
            return;
        }
        let editor_tab = self.editor_groups.groups[group].tabs[tab].duplicate();
        let ghost rc0 = self.editor_groups.recently_closed@;
        self.editor_groups.record_closed(&editor_tab, group, tab);
        proof {
            match &editor_tab.path {
                Some(p) => {
                    assert(self.editor_groups.recently_closed@ =~= rc0.push(self.editor_groups.recently_closed@.last()));
                    assert(record_views(self.editor_groups.recently_closed@) =~= record_views(rc0).push((p@, group, tab)));
                },
                None => {},
            }
        }
        self.editor_groups.groups[group].close_tab(tab);
        match &editor_tab.path {
            Some(p) => {
                self.commands.remember_closed(p.clone());
            },
            None => {},
        }
        self.needs_render = true;
    }

    /// Closes every tab of group `group` but tab `except`, remembering them
    /// for reopening (at position 0). Nothing is closed when there is no
    /// such group or tab.
    pub fn close_other_tabs(&mut self, group: usize, except: usize)
        ensures
            group >= old(self).editor_groups.groups@.len() ==> *final(self) == *old(self),
            group < old(self).editor_groups.groups@.len() ==> exists|closed: Seq<EditorTab>| {
                &&& #[trigger] others_closed(old(self).editor_groups.groups@[group as int], final(self).editor_groups.groups@[group as int], except, closed)
                &&& final(self).editor_groups.groups@ == with_group(old(self).editor_groups, group as int, final(self).editor_groups.groups@[group as int])
                &&& record_views(final(self).editor_groups.recently_closed@) == record_views(old(self).editor_groups.recently_closed@)
                    + closed_records(closed, group, 0)
                &&& *final(self) == (App {
                    editor_groups: EditorGroupLayout {
                        groups: final(self).editor_groups.groups,
                        recently_closed: final(self).editor_groups.recently_closed,
                        ..old(self).editor_groups
                    },
                    needs_render: true,
                    ..*old(self)
                })
            },
    {
        if group >= self.editor_groups.groups.len() {
            return;
        }
        let closed = self.editor_groups.groups[group].close_others(except);
        self.record_all_closed(&closed, group);
        self.needs_render = true;
        assert(others_closed(
            old(self).editor_groups.groups@[group as int],
            self.editor_groups.groups@[group as int],
            except,
            closed@,
        ));
    }

    /// Closes the tabs right of tab `tab` in group `group`, remembering
    /// them for reopening (at position 0). Nothing happens when there is no
    /// such group.
    pub fn close_tabs_to_right(&mut self, group: usize, tab: usize)
        requires
            tab < usize::MAX,
        ensures
            group >= old(self).editor_groups.groups@.len() ==> *final(self) == *old(self),
            group < old(self).editor_groups.groups@.len() ==> exists|closed: Seq<EditorTab>| {
                &&& #[trigger] right_closed(old(self).editor_groups.groups@[group as int], final(self).editor_groups.groups@[group as int], tab, closed)
                &&& final(self).editor_groups.groups@ == with_group(old(self).editor_groups, group as int, final(self).editor_groups.groups@[group as int])
                &&& record_views(final(self).editor_groups.recently_closed@) == record_views(old(self).editor_groups.recently_closed@)
                    + closed_records(closed, group, 0)
                &&& *final(self) == (App {
                    editor_groups: EditorGroupLayout {
                        groups: final(self).editor_groups.groups,
                        recently_closed: final(self).editor_groups.recently_closed,
                        ..old(self).editor_groups
                    },
                    needs_render: true,
                    ..*old(self)
                })
            },
    {
        if group >= self.editor_groups.groups.len() {
            return;
        }
        let closed = self.editor_groups.groups[group].close_to_right(tab);
        self.record_all_closed(&closed, group);
        self.needs_render = true;
        assert(right_closed(
            old(self).editor_groups.groups@[group as int],
            self.editor_groups.groups@[group as int],
            tab,
            closed@,
        ));
    }

    /// Closes every tab of group `group`, remembering them for reopening (at
    /// position 0). Nothing happens when there is no such group.
    pub fn close_all_tabs(&mut self, group: usize)
        ensures
            group >= old(self).editor_groups.groups@.len() ==> *final(self) == *old(self),
            group < old(self).editor_groups.groups@.len() ==> exists|closed: Seq<EditorTab>| {
                &&& #[trigger] all_closed(old(self).editor_groups.groups@[group as int], final(self).editor_groups.groups@[group as int], closed)
                &&& final(self).editor_groups.groups@ == with_group(old(self).editor_groups, group as int, final(self).editor_groups.groups@[group as int])
                &&& record_views(final(self).editor_groups.recently_closed@) == record_views(old(self).editor_groups.recently_closed@)
                    + closed_records(closed, group, 0)
                &&& *final(self) == (App {
                    editor_groups: EditorGroupLayout {
                        groups: final(self).editor_groups.groups,
                        recently_closed: final(self).editor_groups.recently_closed,
                        ..old(self).editor_groups
                    },
                    needs_render: true,
                    ..*old(self)
                })
            },
    {
        if group >= self.editor_groups.groups.len() {
            return;
        }
        let closed = self.editor_groups.groups[group].close_all();
        self.record_all_closed(&closed, group);
        self.needs_render = true;
        assert(all_closed(old(self).editor_groups.groups@[group as int], self.editor_groups.groups@[group as int], closed@));
    }

    /// Activates the next tab of the active group (wrapping), and the
    /// document it shows.
    pub fn next_tab(&mut self)
        requires
            old(self).editor_groups.active_group < old(self).editor_groups.groups@.len(),
            old(self).editor_groups.groups@[old(self).editor_groups.active_group as int].active_tab < usize::MAX,
        ensures
            ({
                let g = old(self).editor_groups.active_group as int;
                &&& stepped(old(self).editor_groups.groups@[g], final(self).editor_groups.groups@[g], true)
                &&& only_group_changed(old(self).editor_groups, final(self).editor_groups, g)
            }),
            then_synced(*old(self), *final(self)),
    {
        self.editor_groups.active_group_mut().next_tab();
        self.sync_active_document_from_group();
        self.needs_render = true;
    }

    /// Activates the previous tab of the active group (wrapping), and the
    /// document it shows.
    pub fn prev_tab(&mut self)
        requires
            old(self).editor_groups.active_group < old(self).editor_groups.groups@.len(),
        ensures
            ({
                let g = old(self).editor_groups.active_group as int;
                &&& stepped(old(self).editor_groups.groups@[g], final(self).editor_groups.groups@[g], false)
                &&& only_group_changed(old(self).editor_groups, final(self).editor_groups, g)
            }),
            then_synced(*old(self), *final(self)),
    {
        self.editor_groups.active_group_mut().prev_tab();
        self.sync_active_document_from_group();
        self.needs_render = true;
    }

    /// Moves the active tab of the active group one place left.
    pub fn move_tab_left(&mut self)
        requires
            old(self).editor_groups.active_group < old(self).editor_groups.groups@.len(),
        ensures
            ({
                let g = old(self).editor_groups.active_group as int;
                &&& moved_left(old(self).editor_groups.groups@[g], final(self).editor_groups.groups@[g])
                &&& only_group_changed(old(self).editor_groups, final(self).editor_groups, g)
            }),
            *final(self) == (App { editor_groups: final(self).editor_groups, needs_render: true, ..*old(self) }),
    {
        self.editor_groups.active_group_mut().move_tab_left();
        self.needs_render = true;
    }

    /// Moves the active tab of the active group one place right.
    pub fn move_tab_right(&mut self)
        requires
            old(self).editor_groups.active_group < old(self).editor_groups.groups@.len(),
            old(self).editor_groups.groups@[old(self).editor_groups.active_group as int].active_tab < usize::MAX,
        ensures
            ({
                let g = old(self).editor_groups.active_group as int;
                &&& moved_right(old(self).editor_groups.groups@[g], final(self).editor_groups.groups@[g])
                &&& only_group_changed(old(self).editor_groups, final(self).editor_groups, g)
            }),
            *final(self) == (App { editor_groups: final(self).editor_groups, needs_render: true, ..*old(self) }),
    {
        self.editor_groups.active_group_mut().move_tab_right();
        self.needs_render = true;
    }

    /// Pins tab `tab` of group `group` (see `EditorGroup::pin_tab`);
    /// nothing happens when there is no such group.
    pub fn pin_tab(&mut self, group: usize, tab: usize)
        ensures
            group >= old(self).editor_groups.groups@.len() ==> *final(self) == *old(self),
            group < old(self).editor_groups.groups@.len() ==> {
                &&& pinned(
                    old(self).editor_groups.groups@[group as int],
                    final(self).editor_groups.groups@[group as int],
                    tab,
                )
                &&& only_group_changed(old(self).editor_groups, final(self).editor_groups, group as int)
                &&& *final(self) == (App { editor_groups: final(self).editor_groups, needs_render: true, ..*old(self) })
            },
    {
        if group < self.editor_groups.groups.len() {
            self.editor_groups.groups[group].pin_tab(tab);
            self.needs_render = true;
        }
    }

    /// Unpins tab `tab` of group `group`; nothing happens when there is no
    /// such group.
    pub fn unpin_tab(&mut self, group: usize, tab: usize)
        ensures
            group >= old(self).editor_groups.groups@.len() ==> *final(self) == *old(self),
            group < old(self).editor_groups.groups@.len() ==> {
                &&& unpinned(
                    old(self).editor_groups.groups@[group as int],
                    final(self).editor_groups.groups@[group as int],
                    tab,
                )
                &&& only_group_changed(old(self).editor_groups, final(self).editor_groups, group as int)
                &&& *final(self) == (App { editor_groups: final(self).editor_groups, needs_render: true, ..*old(self) })
            },
    {
        if group < self.editor_groups.groups.len() {
            self.editor_groups.groups[group].unpin_tab(tab);
            self.needs_render = true;
        }
    }

    /// Focuses group `index` (if there is one), and the document its active
    /// tab shows.
    pub fn focus_group(&mut self, index: usize)
        requires
            old(self).editor_groups.wf(),
        ensures
            final(self).editor_groups == (EditorGroupLayout {
                active_group: if index < old(self).editor_groups.groups@.len() {
                    index
                } else {
                    old(self).editor_groups.active_group
                },
                ..old(self).editor_groups
            }),
            then_synced(*old(self), *final(self)),
    {
        self.editor_groups.focus_group(index);
        self.sync_active_document_from_group();
        self.needs_render = true;
    }

    /// Focuses the next group (wrapping), and the document its active tab
    /// shows.
    pub fn next_group(&mut self)
        requires
            old(self).editor_groups.wf(),
        ensures
            final(self).editor_groups == (EditorGroupLayout {
                active_group: next_index(
                    old(self).editor_groups.active_group as int,
                    old(self).editor_groups.groups@.len() as int,
                ) as usize,
                ..old(self).editor_groups
            }),
            then_synced(*old(self), *final(self)),
    {
        let n = self.editor_groups.groups.len();
        assert(self.editor_groups.active_group < n);
        self.editor_groups.next_group();
        self.sync_active_document_from_group();
        self.needs_render = true;
    }

    /// Focuses the previous group (wrapping), and the document its active
    /// tab shows.
    pub fn prev_group(&mut self)
        requires
            old(self).editor_groups.wf(),
        ensures
            final(self).editor_groups == (EditorGroupLayout {
                active_group: prev_index(
                    old(self).editor_groups.active_group as int,
                    old(self).editor_groups.groups@.len() as int,
                ) as usize,
                ..old(self).editor_groups
            }),
            then_synced(*old(self), *final(self)),
    {
        self.editor_groups.prev_group();
        self.sync_active_document_from_group();
        self.needs_render = true;
    }

    /// Marks each tab modified exactly when the first document saved at its
    /// path has unsaved changes (tabs with no such document keep their
    /// mark).
    pub fn sync_dirty_state(&mut self)
        ensures
            final(self).editor_groups.groups@.len() == old(self).editor_groups.groups@.len(),
            forall|k: int|
                0 <= k < old(self).editor_groups.groups@.len() ==> group_synced(
                    old(self).editor_groups.groups@[k],
                    #[trigger] final(self).editor_groups.groups@[k],
                    old(self).documents@,
                ),
            *final(self) == (App {
                editor_groups: EditorGroupLayout { groups: final(self).editor_groups.groups, ..old(self).editor_groups },
                ..*old(self)
            }),
    {
        let mut gi: usize = 0;
        while gi < self.editor_groups.groups.len()
            invariant
                gi <= self.editor_groups.groups@.len(),
                self.editor_groups.groups@.len() == old(self).editor_groups.groups@.len(),
                forall|k: int|
                    0 <= k < gi ==> group_synced(
                        old(self).editor_groups.groups@[k],
                        #[trigger] self.editor_groups.groups@[k],
                        old(self).documents@,
                    ),
                forall|k: int|
                    gi <= k < self.editor_groups.groups@.len() ==> #[trigger] self.editor_groups.groups@[k]
                        == old(self).editor_groups.groups@[k],
                *self == (App {
                    editor_groups: EditorGroupLayout { groups: self.editor_groups.groups, ..old(self).editor_groups },
                    ..*old(self)
                }),
            decreases self.editor_groups.groups@.len() - gi,
        {
            let ghost g0 = self.editor_groups.groups@[gi as int];
            let mut ti: usize = 0;
            while ti < self.editor_groups.groups[gi].tabs.len()
                invariant
                    gi < self.editor_groups.groups@.len(),
                    ti <= self.editor_groups.groups@[gi as int].tabs@.len(),
                    self.editor_groups.groups@.len() == old(self).editor_groups.groups@.len(),
                    g0 == old(self).editor_groups.groups@[gi as int],
                    self.editor_groups.groups@[gi as int] == (EditorGroup {
                        tabs: self.editor_groups.groups@[gi as int].tabs,
                        ..g0
                    }),
                    self.editor_groups.groups@[gi as int].tabs@.len() == g0.tabs@.len(),
                    forall|k: int|
                        0 <= k < ti ==> #[trigger] self.editor_groups.groups@[gi as int].tabs@[k] == tab_synced(
                            g0.tabs@[k],
                            old(self).documents@,
                        ),
                    forall|k: int|
                        ti <= k < g0.tabs@.len() ==> #[trigger] self.editor_groups.groups@[gi as int].tabs@[k]
                            == g0.tabs@[k],
                    forall|k: int|
                        0 <= k < gi ==> group_synced(
                            old(self).editor_groups.groups@[k],
                            #[trigger] self.editor_groups.groups@[k],
                            old(self).documents@,
                        ),
                    forall|k: int|
                        gi < k < self.editor_groups.groups@.len() ==> #[trigger] self.editor_groups.groups@[k]
                            == old(self).editor_groups.groups@[k],
                    *self == (App {
                        editor_groups: EditorGroupLayout { groups: self.editor_groups.groups, ..old(self).editor_groups },
                        ..*old(self)
                    }),
                decreases self.editor_groups.groups@[gi as int].tabs@.len() - ti,
            {
                let path = match &self.editor_groups.groups[gi].tabs[ti].path {
                    Some(p) => Some(p.clone()),
                    None => None,
                };
                match path {
                    Some(p) => match self.find_document(p.as_str()) {
                        Some(i) => {
                            let dirty = self.documents[i].is_dirty;
                            self.editor_groups.groups[gi].tabs[ti].is_modified = dirty;
                        },
                        None => {},
                    },
                    None => {},
                }
                proof {
                    assert(self.editor_groups.groups@[gi as int] == (EditorGroup {
                        tabs: self.editor_groups.groups@[gi as int].tabs,
                        ..g0
                    }));
                }
                ti = ti + 1;
            }
            gi = gi + 1;
        }
    }

    /// An edit happened: with auto-save after a delay the delay starts over,
    /// and the tabs' modified marks are synced (see `sync_dirty_state`).
    pub fn on_document_edit(&mut self)
        ensures
            final(self).editor_groups.groups@.len() == old(self).editor_groups.groups@.len(),
            forall|k: int|
                0 <= k < old(self).editor_groups.groups@.len() ==> group_synced(
                    old(self).editor_groups.groups@[k],
                    #[trigger] final(self).editor_groups.groups@[k],
                    old(self).documents@,
                ),
            old(self).auto_save_mode == AutoSaveMode::AfterDelay ==> final(self).timers.auto_save_view() is Some,
            old(self).auto_save_mode != AutoSaveMode::AfterDelay ==> final(self).timers == old(self).timers,
            final(self).timers.cursor_visible_view() == old(self).timers.cursor_visible_view(),
            *final(self) == (App {
                editor_groups: EditorGroupLayout { groups: final(self).editor_groups.groups, ..old(self).editor_groups },
                timers: final(self).timers,
                ..*old(self)
            }),
    {
        match self.auto_save_mode {
            AutoSaveMode::AfterDelay => {
                self.timers.auto_save_since = Some(now());
            },
            _ => {},
        }
        self.sync_dirty_state();
    }

    /// The editor lost focus: with auto-save on focus change, answers the
    /// documents to save (see `save_all_files`); otherwise none.
    pub fn on_editor_focus_change(&mut self) -> (r: Vec<usize>)
        ensures
            old(self).auto_save_mode == AutoSaveMode::OnFocusChange ==> r@ == to_save(old(self).documents@)
                && *final(self) == (App { needs_render: true, ..*old(self) }),
            old(self).auto_save_mode != AutoSaveMode::OnFocusChange ==> r@.len() == 0 && *final(self) == *old(self),
    {
        match self.auto_save_mode {
            AutoSaveMode::OnFocusChange => self.save_all_files(),
            _ => Vec::new(),
        }
    }

    /// The window lost focus: with auto-save on window change, answers the
    /// documents to save (see `save_all_files`); otherwise none.
    pub fn on_window_focus_change(&mut self) -> (r: Vec<usize>)
        ensures
            old(self).auto_save_mode == AutoSaveMode::OnWindowChange ==> r@ == to_save(old(self).documents@)
                && *final(self) == (App { needs_render: true, ..*old(self) }),
            old(self).auto_save_mode != AutoSaveMode::OnWindowChange ==> r@.len() == 0 && *final(self) == *old(self),
    {
        match self.auto_save_mode {
            AutoSaveMode::OnWindowChange => self.save_all_files(),
            _ => Vec::new(),
        }
    }

    /// One tick of the main loop: the cursor blinks every 530 ms; with
    /// auto-save after a delay, a pending save whose delay has run out is
    /// answered (and no longer pending); a stale layout is answered for
    /// recomputing. The time elapsed is the clock's answer; what follows
    /// from it is `tick`'s.
    pub fn update(&mut self) -> (r: TickOutcome)
        ensures
            r.relayout == old(self).needs_relayout,
            !final(self).needs_relayout,
            exists|blink_ns: u128, save_ns: Option<u128>| {
                let (toggle, save) = #[trigger] tick_spec(
                    blink_ns,
                    save_ns,
                    old(self).auto_save_mode,
                    old(self).auto_save_delay_ms,
                );
                &&& (old(self).timers.auto_save_view() is None ==> save_ns is None)
                &&& r.save_all == save
                &&& final(self).timers.cursor_visible_view() == (old(self).timers.cursor_visible_view() != toggle)
                &&& final(self).timers.auto_save_view() == if save {
                    None
                } else {
                    old(self).timers.auto_save_view()
                }
                &&& final(self).needs_render == (old(self).needs_render || toggle || old(self).needs_relayout)
            },
            *final(self) == (App {
                needs_relayout: false,
                needs_render: final(self).needs_render,
                timers: final(self).timers,
                ..*old(self)
            }),
    {
        let blink_ns = instant_elapsed_nanos(&self.timers.blink_since);
        let save_ns: Option<u128> = match &self.timers.auto_save_since {
            Some(t) => Some(instant_elapsed_nanos(t)),
            None => None,
        };
        let (toggle, save_all) = tick(blink_ns, save_ns, self.auto_save_mode, self.auto_save_delay_ms);
        if toggle {
            self.timers.cursor_visible = !self.timers.cursor_visible;
            self.timers.blink_since = now();
            self.needs_render = true;
        }
        if save_all {
            self.timers.auto_save_since = None;
        }
        let relayout = self.needs_relayout;
        if relayout {
            self.needs_relayout = false;
            self.needs_render = true;
        }
        assert(tick_spec(blink_ns, save_ns, old(self).auto_save_mode, old(self).auto_save_delay_ms) == (toggle, save_all));
        TickOutcome { save_all, relayout }
    }

    /// Whether the cursor is drawn in this blink phase.
    pub fn cursor_visible(&self) -> (r: bool)
        ensures
            r == self.timers.cursor_visible_view(),
    {
        self.timers.cursor_visible
    }

    /// Shows the cursor at once and restarts the blink (after typing).
    pub fn reset_cursor_blink(&mut self)
        ensures
            final(self).timers.cursor_visible_view(),
            final(self).timers.auto_save_view() == old(self).timers.auto_save_view(),
            *final(self) == (App { timers: final(self).timers, ..*old(self) }),
    {
        self.timers.cursor_visible = true;
        self.timers.blink_since = now();
    }

    /// A terminal was opened: the panel shows, and the layout is stale.
    pub fn new_terminal(&mut self)
        ensures
            *final(self) == (App { panel_visible: true, needs_relayout: true, ..*old(self) }),
    {
        self.panel_visible = true;
        self.needs_relayout = true;
    }

    /// Opens the file at `path` in the active group (reusing its tab there)
    /// and then as a document (see `open_file`).
    pub fn open_file_in_active_group(&mut self, path: &str) -> (r: OpenOutcome)
        requires
            group_has_room(old(self).editor_groups, old(self).editor_groups.active_group as int),
        ensures
            ({
                let g = old(self).editor_groups.active_group as int;
                &&& opened_file(old(self).editor_groups.groups@[g], final(self).editor_groups.groups@[g], path@)
                &&& opened_in_group(old(self).editor_groups, final(self).editor_groups, g, path@)
            }),
            open_result(App { editor_groups: final(self).editor_groups, ..*old(self) }, *final(self), path@, r),
    {
        let a = self.editor_groups.active_group;
        self.editor_groups.open_in_group(a, path, false);
        self.open_file(path)
    }

    /// Opens the file at `path` as a preview tab in the active group and
    /// then as a document (see `open_file`).
    pub fn open_file_preview(&mut self, path: &str) -> (r: OpenOutcome)
        requires
            group_has_room(old(self).editor_groups, old(self).editor_groups.active_group as int),
        ensures
            ({
                let g = old(self).editor_groups.active_group as int;
                &&& opened_preview(old(self).editor_groups.groups@[g], final(self).editor_groups.groups@[g], path@)
                &&& opened_in_group(old(self).editor_groups, final(self).editor_groups, g, path@)
            }),
            open_result(App { editor_groups: final(self).editor_groups, ..*old(self) }, *final(self), path@, r),
    {
        let a = self.editor_groups.active_group;
        self.editor_groups.open_in_group(a, path, true);
        self.open_file(path)
    }

    /// Opens the file at `path` in group `group`, which becomes active, and
    /// then as a document (see `open_file`); none when there is no such
    /// group.
    pub fn open_file_in_group(&mut self, path: &str, group: usize) -> (r: Option<OpenOutcome>)
        requires
            group < old(self).editor_groups.groups@.len() ==> group_has_room(old(self).editor_groups, group as int),
        ensures
            group >= old(self).editor_groups.groups@.len() ==> r is None && *final(self) == *old(self),
            group < old(self).editor_groups.groups@.len() ==> {
                &&& opened_file(
                    old(self).editor_groups.groups@[group as int],
                    final(self).editor_groups.groups@[group as int],
                    path@,
                )
                &&& final(self).editor_groups.groups@ == old(self).editor_groups.groups@.update(
                    group as int,
                    final(self).editor_groups.groups@[group as int],
                )
                &&& final(self).editor_groups == (EditorGroupLayout {
                    groups: final(self).editor_groups.groups,
                    active_group: group,
                    tab_ids: final(self).editor_groups.tab_ids,
                    ..old(self).editor_groups
                })
                &&& id_drawn(
                    (EditorGroup { ids: old(self).editor_groups.tab_ids, ..old(self).editor_groups.groups@[group as int] }),
                    final(self).editor_groups.groups@[group as int],
                    path@,
                )
                &&& final(self).editor_groups.tab_ids == final(self).editor_groups.groups@[group as int].ids
                &&& r matches Some(o) && open_result(
                    App { editor_groups: final(self).editor_groups, ..*old(self) },
                    *final(self),
                    path@,
                    o,
                )
            },
    {
        if group < self.editor_groups.groups.len() {
            self.editor_groups.open_in_group(group, path, false);
            self.editor_groups.active_group = group;
            Some(self.open_file(path))
        } else {
            None
        }
    }

    /// Splits the active group (downward when `vertical`); answers the path
    /// of the active document, when it has one, for the caller to open a
    /// second view of (see `push_document`).
    fn split(&mut self, vertical: bool) -> (r: Option<String>)
        requires
            old(self).editor_groups.wf(),
            old(self).editor_groups.groups@.len() < usize::MAX,
        ensures
            r == active_path(*old(self)),
            split_done(old(self).editor_groups, final(self).editor_groups, vertical),
            *final(self) == (App { editor_groups: final(self).editor_groups, needs_render: true, ..*old(self) }),
    {
        let dup = if self.active_document < self.documents.len() {
            match &self.documents[self.active_document].file_path {
                Some(p) => Some(p.clone()),
                None => None,
            }
        } else {
            None
        };
        if vertical {
            self.editor_groups.split_down();
        } else {
            self.editor_groups.split_right();
        }
        self.needs_render = true;
        dup
    }

    /// Splits the editor to the right (see `split_editor_right`); the second
    /// view of the document, once pushed, becomes active.
    pub fn split_editor(&mut self) -> (r: Option<String>)
        requires
            old(self).editor_groups.wf(),
            old(self).editor_groups.groups@.len() < usize::MAX,
        ensures
            r == active_path(*old(self)),
            split_done(old(self).editor_groups, final(self).editor_groups, false),
            *final(self) == (App { editor_groups: final(self).editor_groups, needs_render: true, ..*old(self) }),
    {
        self.split(false)
    }

    /// Splits the active group to the right; answers the path of the active
    /// document, when it has one, for the caller to open a second view of.
    pub fn split_editor_right(&mut self) -> (r: Option<String>)
        requires
            old(self).editor_groups.wf(),
            old(self).editor_groups.groups@.len() < usize::MAX,
        ensures
            r == active_path(*old(self)),
            split_done(old(self).editor_groups, final(self).editor_groups, false),
            *final(self) == (App { editor_groups: final(self).editor_groups, needs_render: true, ..*old(self) }),
    {
        self.split(false)
    }

    /// Splits the active group downward; answers the path of the active
    /// document, when it has one, for the caller to open a second view of.
    pub fn split_editor_down(&mut self) -> (r: Option<String>)
        requires
            old(self).editor_groups.wf(),
            old(self).editor_groups.groups@.len() < usize::MAX,
        ensures
            r == active_path(*old(self)),
            split_done(old(self).editor_groups, final(self).editor_groups, true),
            *final(self) == (App { editor_groups: final(self).editor_groups, needs_render: true, ..*old(self) }),
    {
        self.split(true)
    }

    /// Adds a document (the second view a split asked for), making it active
    /// when `activate`.
    pub fn push_document(&mut self, doc: DocumentInfo, activate: bool)
        ensures
            *final(self) == (App {
                documents: final(self).documents,
                active_document: if activate {
                    old(self).documents@.len() as usize
                } else {
                    old(self).active_document
                },
                ..*old(self)
            }),
            final(self).documents@ == old(self).documents@.push(doc),
    {
        self.documents.push(doc);
        if activate {
            self.active_document = self.documents.len() - 1;
        }
    }
}

} // verus!
