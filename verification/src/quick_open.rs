//! Quick Open (Ctrl+P): what the typed query asks for.
//!
//! - an empty query lists recently opened files;
//! - plain text searches workspace files;
//! - `path:line` opens a file at a line (such as `main.rs:42`);
//! - `@symbol` searches symbols in the current file;
//! - `#symbol` searches symbols across the workspace;
//! - `:line` goes to a line in the current file.

use vstd::prelude::*;

use crate::command_palette::{next_row, prev_row};
use crate::text::{parse_u32, rfind_char, spec_parse_u32, spec_rfind, spec_trim, trim};

verus! {

/// The kind of query the user has typed.
#[derive(Debug, Clone, PartialEq, Eq)]
pub enum QuickOpenMode {
    /// Empty query: show recent files.
    RecentFiles,
    /// Normal text: fuzzy match workspace files.
    FileSearch(String),
    /// `path:line`: open a file at a line.
    FileAtLine { query: String, line: u32 },
    /// `@symbol`: search symbols in the current file.
    SymbolInFile(String),
    /// `#symbol`: search symbols across the workspace.
    SymbolInWorkspace(String),
    /// `:line`: go to a line in the current file.
    GoToLine(u32),
}

/// A query mode with its texts as character sequences.
pub enum ModeView {
    RecentFiles,
    FileSearch(Seq<char>),
    FileAtLine(Seq<char>, u32),
    SymbolInFile(Seq<char>),
    SymbolInWorkspace(Seq<char>),
    GoToLine(u32),
}

impl View for QuickOpenMode {
    type V = ModeView;

    open spec fn view(&self) -> ModeView {
        match self {
            QuickOpenMode::RecentFiles => ModeView::RecentFiles,
            QuickOpenMode::FileSearch(s) => ModeView::FileSearch(s@),
            QuickOpenMode::FileAtLine { query, line } => ModeView::FileAtLine(query@, *line),
            QuickOpenMode::SymbolInFile(s) => ModeView::SymbolInFile(s@),
            QuickOpenMode::SymbolInWorkspace(s) => ModeView::SymbolInWorkspace(s@),
            QuickOpenMode::GoToLine(n) => ModeView::GoToLine(*n),
        }
    }
}

/// A positive line number read from `s` (trimmed), if there is one.
pub open spec fn positive_line(s: Seq<char>) -> Option<u32> {
    match spec_parse_u32(spec_trim(s)) {
        Some(n) => if n > 0 {
            Some(n)
        } else {
            None
        },
        None => None,
    }
}

/// The mode of the query `input`.
pub open spec fn mode_of(input: Seq<char>) -> ModeView {
    let t = spec_trim(input);
    if t.len() == 0 {
        ModeView::RecentFiles
    } else if t[0] == '@' {
        ModeView::SymbolInFile(t.drop_first())
    } else if t[0] == '#' {
        ModeView::SymbolInWorkspace(t.drop_first())
    } else if t[0] == ':' {
        match positive_line(t.drop_first()) {
            Some(n) => ModeView::GoToLine(n),
            None => ModeView::RecentFiles,
        }
    } else {
        match spec_rfind(t, ':') {
            Some(k) => if k > 0 {
                match positive_line(t.subrange(k + 1, t.len() as int)) {
                    Some(n) => ModeView::FileAtLine(t.subrange(0, k), n),
                    None => ModeView::FileSearch(t),
                }
            } else {
                ModeView::FileSearch(t)
            },
            None => ModeView::FileSearch(t),
        }
    }
}

/// A positive line number read from `s` (trimmed), if there is one.
fn read_line_number(s: &str) -> (r: Option<u32>)
    ensures
        r == positive_line(s@),
{
    match parse_u32(trim(s)) {
        Some(n) => if n > 0 {
            Some(n)
        } else {
            None
        },
        None => None,
    }
}

/// Parses the raw input into a [`QuickOpenMode`].
pub fn parse_mode(input: &str) -> (r: QuickOpenMode)
    ensures
        r@ == mode_of(input@),
{
    let t = trim(input);
    let n = t.unicode_len();
    if n == 0 {
        return QuickOpenMode::RecentFiles;
    }
    let first = t.get_char(0);
    if first == '@' {
        let rest = t.substring_char(1, n);
        assert(rest@ =~= t@.drop_first());
        return QuickOpenMode::SymbolInFile(rest.to_string());
    }
    if first == '#' {
        let rest = t.substring_char(1, n);
        assert(rest@ =~= t@.drop_first());
        return QuickOpenMode::SymbolInWorkspace(rest.to_string());
    }
    if first == ':' {
        let rest = t.substring_char(1, n);
        assert(rest@ =~= t@.drop_first());
        return match read_line_number(rest) {
            Some(line) => QuickOpenMode::GoToLine(line),
            None => QuickOpenMode::RecentFiles,
        };
    }
    if let Some(k) = rfind_char(t, ':') {
        if k > 0 {
            if let Some(line) = read_line_number(t.substring_char(k + 1, n)) {
                return QuickOpenMode::FileAtLine { query: t.substring_char(0, k).to_string(), line };
            }
        }
    }
    QuickOpenMode::FileSearch(t.to_string())
}

// ── Dialog state ─────────────────────────────────────────────────────────────

/// One row of the Quick Open list.
#[derive(Debug, Clone)]
pub struct QuickOpenItem {
    pub label: String,
    pub description: String,
    pub path: Option<String>,
    pub target_line: Option<u32>,
    /// Fuzzy match score (higher is better).
    pub score: u128,
    pub match_positions: Vec<usize>,
}

/// The state of the Quick Open dialog.
#[derive(Debug, Clone)]
pub struct QuickOpenState {
    pub is_visible: bool,
    pub input: String,
    pub mode: QuickOpenMode,
    pub items: Vec<QuickOpenItem>,
    pub selected: usize,
}

impl Default for QuickOpenState {
    fn default() -> (r: Self)
        ensures
            !r.is_visible,
            r.input@.len() == 0,
            r.mode == QuickOpenMode::RecentFiles,
            r.items@.len() == 0,
            r.selected == 0,
    {
        QuickOpenState {
            is_visible: false,
            input: String::new(),
            mode: QuickOpenMode::RecentFiles,
            items: Vec::new(),
            selected: 0,
        }
    }
}

impl QuickOpenState {
    /// Opens the dialog on the recent files, first row selected.
    pub fn show(&mut self)
        ensures
            final(self).is_visible,
            final(self).input@.len() == 0,
            final(self).mode == QuickOpenMode::RecentFiles,
            final(self).selected == 0,
            final(self).items == old(self).items,
    {
        self.is_visible = true;
        self.input = String::new();
        self.mode = QuickOpenMode::RecentFiles;
        self.selected = 0;
    }

    /// Closes the dialog and drops its rows.
    pub fn cancel(&mut self)
        ensures
            !final(self).is_visible,
            final(self).input@.len() == 0,
            final(self).mode == QuickOpenMode::RecentFiles,
            final(self).items@.len() == 0,
            final(self).selected == 0,
    {
        self.is_visible = false;
        self.input = String::new();
        self.mode = QuickOpenMode::RecentFiles;
        self.items = Vec::new();
        self.selected = 0;
    }

    /// Takes a new query: its mode is parsed and the selection returns to
    /// the first row.
    pub fn filter(&mut self, query: &str)
        ensures
            final(self).input@ == query@,
            final(self).mode@ == mode_of(query@),
            final(self).selected == 0,
            final(self).is_visible == old(self).is_visible,
            final(self).items == old(self).items,
    {
        self.input = query.to_string();
        self.mode = parse_mode(query);
        self.selected = 0;
    }

    /// Replaces the rows; a selection past the end returns to the first.
    pub fn set_items(&mut self, items: Vec<QuickOpenItem>)
        ensures
            final(self).items == items,
            final(self).selected == (if old(self).selected >= items@.len() {
                0
            } else {
                old(self).selected
            }),
            final(self).is_visible == old(self).is_visible,
            final(self).input == old(self).input,
            final(self).mode == old(self).mode,
    {
        self.items = items;
        if self.selected >= self.items.len() {
            self.selected = 0;
        }
    }

    /// The selected row, if the selection points at one.
    pub fn select(&self) -> (r: Option<&QuickOpenItem>)
        ensures
            self.selected < self.items@.len() ==> r == Some(&self.items@[self.selected as int]),
            self.selected >= self.items@.len() ==> r is None,
    {
        if self.selected < self.items.len() {
            Some(&self.items[self.selected])
        } else {
            None
        }
    }

    /// The rows shown.
    pub fn items(&self) -> (r: &[QuickOpenItem])
        ensures
            r@ == self.items@,
    {
        self.items.as_slice()
    }

    /// Selects the next row, wrapping to the first.
    pub fn select_next(&mut self)
        requires
            old(self).selected < usize::MAX,
        ensures
            final(self).selected == next_row(old(self).selected as int, old(self).items@.len() as int),
            final(self).items == old(self).items,
            final(self).input == old(self).input,
            final(self).mode == old(self).mode,
            final(self).is_visible == old(self).is_visible,
    {
        if self.items.len() > 0 {
            self.selected = (self.selected + 1) % self.items.len();
        }
    }

    /// Selects the previous row, wrapping to the last.
    pub fn select_prev(&mut self)
        ensures
            final(self).selected == prev_row(old(self).selected as int, old(self).items@.len() as int),
            final(self).items == old(self).items,
            final(self).input == old(self).input,
            final(self).mode == old(self).mode,
            final(self).is_visible == old(self).is_visible,
    {
        if self.items.len() > 0 {
            self.selected = if self.selected == 0 {
                self.items.len() - 1
            } else {
                self.selected - 1
            };
        }
    }

    /// The hint shown in the empty input.
    pub fn placeholder(&self) -> (r: &'static str)
        ensures
            r@ == "Search files by name (append : to go to line, @ for symbols)"@,
    {
        "Search files by name (append : to go to line, @ for symbols)"
    }
}

} // verus!
