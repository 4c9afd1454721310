//! Clipboard service: the system clipboard plus an in-process history with
//! whole-line and multi-cursor semantics.

use vstd::prelude::*;

use crate::text::{join, spec_join, views};

verus! {

// ── Outside items ────────────────────────────────────────────────────────────

#[verifier::external_type_specification]
#[verifier::external_body]
pub struct ExClipboard(arboard::Clipboard);

#[verifier::external_type_specification]
#[verifier::external_body]
pub struct ExClipboardError(arboard::Error);

#[verifier::external_type_specification]
#[verifier::external_body]
pub struct ExInstant(std::time::Instant);

/// `Instant` is `Copy`: its `clone` is a copy, so the clone equals the
/// original.
pub assume_specification[ <std::time::Instant as Clone>::clone ](i: &std::time::Instant) -> (r: std::time::Instant)
    ensures
        r == *i,
;

/// Calls `arboard::Clipboard::new`. Whether a clipboard is available depends
/// on the desktop session, so nothing is claimed of the result.
#[verifier::external_body]
fn os_clipboard() -> Result<arboard::Clipboard, arboard::Error> {
    arboard::Clipboard::new()
}

/// Calls `arboard::Clipboard::set_text`. Whether the system accepts the text
/// depends on the desktop session, so nothing is claimed of the result.
#[verifier::external_body]
fn os_set_text(cb: &mut arboard::Clipboard, text: &str) -> Result<(), arboard::Error> {
    cb.set_text(text)
}

/// Calls `arboard::Clipboard::get_text`. What the system clipboard holds is
/// outside this process, so nothing is claimed of the result.
#[verifier::external_body]
fn os_get_text(cb: &mut arboard::Clipboard) -> Result<String, arboard::Error> {
    cb.get_text()
}

/// Renders an `arboard::Error` with its `Display` implementation; nothing is
/// claimed of the text.
#[verifier::external_body]
fn os_error_text(e: &arboard::Error) -> String {
    e.to_string()
}

/// Calls `std::time::Instant::now`; nothing is claimed of the instant.
#[verifier::external_body]
pub(crate) fn now() -> std::time::Instant {
    std::time::Instant::now()
}

// ── Errors ───────────────────────────────────────────────────────────────────

/// Why a clipboard operation failed.
#[derive(Debug, Clone)]
pub enum ClipboardError {
    /// No system clipboard could be opened (with the system's reason).
    Init(String),
    /// The system clipboard refused the text.
    SetText(String),
    /// The system clipboard holds no text.
    GetText(String),
    /// A history index beyond the stored entries.
    HistoryIndexOutOfRange,
}

impl ClipboardError {
    /// The headline of the error.
    pub fn message(&self) -> (r: String)
        ensures
            r@ == (match self {
                ClipboardError::Init(_) => "failed to init clipboard"@,
                ClipboardError::SetText(_) => "failed to set clipboard text"@,
                ClipboardError::GetText(_) => "clipboard does not contain text"@,
                ClipboardError::HistoryIndexOutOfRange => "clipboard history index out of range"@,
            }),
    {
        match self {
            ClipboardError::Init(_) => "failed to init clipboard".to_owned(),
            ClipboardError::SetText(_) => "failed to set clipboard text".to_owned(),
            ClipboardError::GetText(_) => "clipboard does not contain text".to_owned(),
            ClipboardError::HistoryIndexOutOfRange => "clipboard history index out of range".to_owned(),
        }
    }
}

// ── Clipboard source ─────────────────────────────────────────────────────────

/// Where a clipboard entry came from.
#[derive(Clone, Copy, Debug, PartialEq, Eq)]
pub enum ClipboardSource {
    User,
    Editor,
    Terminal,
    External,
}

// ── Clipboard entry ──────────────────────────────────────────────────────────

/// One item of the clipboard history.
#[derive(Clone, Debug)]
pub struct ClipboardEntry {
    pub text: String,
    pub timestamp: std::time::Instant,
    pub source: ClipboardSource,
    /// Copied with no selection (a whole line): paste inserts above the
    /// current line rather than at the cursor.
    pub is_whole_line: bool,
    /// Copied from several cursors: `pieces` holds each cursor's text and
    /// `text` their newline-joined form.
    pub is_multi_cursor: bool,
    /// Per-cursor pieces; one piece equal to `text` for a single cursor.
    pub pieces: Vec<String>,
}

impl ClipboardEntry {
    /// An entry for a single selection.
    pub fn single(text: String, source: ClipboardSource) -> (r: Self)
        ensures
            r.text == text,
            r.pieces@ == seq![text],
            r.source == source,
            !r.is_whole_line,
            !r.is_multi_cursor,
    {
        let mut pieces = Vec::new();
        pieces.push(text.clone());
        ClipboardEntry {
            text,
            timestamp: now(),
            source,
            is_whole_line: false,
            is_multi_cursor: false,
            pieces,
        }
    }

    /// An entry for a whole line copied without a selection.
    pub fn whole_line(text: String, source: ClipboardSource) -> (r: Self)
        ensures
            r.text == text,
            r.pieces@ == seq![text],
            r.source == source,
            r.is_whole_line,
            !r.is_multi_cursor,
    {
        let mut pieces = Vec::new();
        pieces.push(text.clone());
        ClipboardEntry {
            text,
            timestamp: now(),
            source,
            is_whole_line: true,
            is_multi_cursor: false,
            pieces,
        }
    }

    /// An entry for the selections of several cursors.
    pub fn multi_cursor(pieces: Vec<String>, source: ClipboardSource) -> (r: Self)
        ensures
            r.text@ == spec_join(views(pieces@), "\n"@),
            r.pieces == pieces,
            r.source == source,
            !r.is_whole_line,
            r.is_multi_cursor,
    {
        let text = join(pieces.as_slice(), "\n");
        ClipboardEntry {
            text,
            timestamp: now(),
            source,
            is_whole_line: false,
            is_multi_cursor: true,
            pieces,
        }
    }
}

// ── Clipboard service ────────────────────────────────────────────────────────

/// Entry `e` records a single text `t` from `source` (as a whole line when
/// `whole_line`).
pub open spec fn text_entry(e: ClipboardEntry, t: Seq<char>, source: ClipboardSource, whole_line: bool) -> bool {
    &&& e.text@ == t
    &&& e.pieces@.len() == 1
    &&& e.pieces@[0]@ == t
    &&& e.source == source
    &&& e.is_whole_line == whole_line
    &&& !e.is_multi_cursor
}

/// Default number of history entries kept.
pub const DEFAULT_MAX_HISTORY: usize = 20;

/// `entries` cut down to at most `max` entries.
pub open spec fn capped(entries: Seq<ClipboardEntry>, max: usize) -> Seq<ClipboardEntry> {
    if entries.len() > max {
        entries.take(max as int)
    } else {
        entries
    }
}

/// System clipboard access with a newest-first history.
#[derive(Debug)]
pub struct ClipboardService {
    history: Vec<ClipboardEntry>,
    max_history: usize,
}

/// Writes `text` to the system clipboard.
fn write_os_clipboard(text: &str) -> (r: Result<(), ClipboardError>)
    ensures
        r matches Err(e) ==> (e matches ClipboardError::Init(_) || e matches ClipboardError::SetText(_)),
{
    match os_clipboard() {
        Ok(mut cb) => match os_set_text(&mut cb, text) {
            Ok(()) => Ok(()),
            Err(e) => Err(ClipboardError::SetText(os_error_text(&e))),
        },
        Err(e) => Err(ClipboardError::Init(os_error_text(&e))),
    }
}

/// Reads text from the system clipboard.
fn read_os_clipboard() -> (r: Result<String, ClipboardError>)
    ensures
        r matches Err(e) ==> (e matches ClipboardError::Init(_) || e matches ClipboardError::GetText(_)),
{
    match os_clipboard() {
        Ok(mut cb) => match os_get_text(&mut cb) {
            Ok(s) => Ok(s),
            Err(e) => Err(ClipboardError::GetText(os_error_text(&e))),
        },
        Err(e) => Err(ClipboardError::Init(os_error_text(&e))),
    }
}

impl Default for ClipboardService {
    fn default() -> (r: Self)
        ensures
            r.history_view().len() == 0,
            r.max_history_view() == DEFAULT_MAX_HISTORY,
    {
        Self::new()
    }
}

impl ClipboardService {
    /// The stored entries, newest first.
    pub closed spec fn history_view(&self) -> Seq<ClipboardEntry> {
        self.history@
    }

    /// The capacity of the history.
    pub closed spec fn max_history_view(&self) -> usize {
        self.max_history
    }

    pub fn new() -> (r: Self)
        ensures
            r.history_view().len() == 0,
            r.max_history_view() == DEFAULT_MAX_HISTORY,
    {
        ClipboardService { history: Vec::new(), max_history: DEFAULT_MAX_HISTORY }
    }

    /// The same service with a different capacity (existing entries are
    /// kept until the next push).
    pub fn with_max_history(self, max: usize) -> (r: Self)
        ensures
            r.history_view() == self.history_view(),
            r.max_history_view() == max,
    {
        let mut s = self;
        s.max_history = max;
        s
    }

    /// What a copy comes to once the system clipboard has answered
    /// `written`: on success `entry` becomes the newest history entry (the
    /// oldest beyond the capacity dropping out); a failure is passed on and
    /// the history is left as it was.
    pub fn record_copy(&mut self, written: Result<(), ClipboardError>, entry: ClipboardEntry) -> (r: Result<(), ClipboardError>)
        ensures
            r == written,
            final(self).max_history_view() == old(self).max_history_view(),
            written is Ok ==> final(self).history_view() == capped(
                seq![entry] + old(self).history_view(),
                old(self).max_history_view(),
            ),
            written is Err ==> final(self).history_view() == old(self).history_view(),
    {
        if written.is_ok() {
            self.push_entry(entry);
        }
        written
    }

    /// Puts `text` on the system clipboard and, when that succeeds, records
    /// it as the newest history entry (see `record_copy`).
    pub fn copy(&mut self, text: &str, source: ClipboardSource) -> (r: Result<(), ClipboardError>)
        ensures
            r matches Err(e) ==> (e matches ClipboardError::Init(_) || e matches ClipboardError::SetText(_)),
            final(self).max_history_view() == old(self).max_history_view(),
            r is Err ==> final(self).history_view() == old(self).history_view(),
            r is Ok ==> exists|e: ClipboardEntry|
                {
                    &&& final(self).history_view() == capped(
                        seq![e] + old(self).history_view(),
                        old(self).max_history_view(),
                    )
                    &&& text_entry(e, text@, source, false)
                },
    {
        let written = write_os_clipboard(text);
        let entry = ClipboardEntry::single(text.to_owned(), source);
        let ghost e = entry;
        assert(text_entry(e, text@, source, false));
        self.record_copy(written, entry)
    }

    /// Copies a whole line (no selection): paste will insert it above the
    /// current line.
    pub fn copy_whole_line(&mut self, text: &str, source: ClipboardSource) -> (r: Result<(), ClipboardError>)
        ensures
            r matches Err(e) ==> (e matches ClipboardError::Init(_) || e matches ClipboardError::SetText(_)),
            final(self).max_history_view() == old(self).max_history_view(),
            r is Err ==> final(self).history_view() == old(self).history_view(),
            r is Ok ==> exists|e: ClipboardEntry|
                {
                    &&& final(self).history_view() == capped(
                        seq![e] + old(self).history_view(),
                        old(self).max_history_view(),
                    )
                    &&& text_entry(e, text@, source, true)
                },
    {
        let written = write_os_clipboard(text);
        let entry = ClipboardEntry::whole_line(text.to_owned(), source);
        let ghost e = entry;
        assert(text_entry(e, text@, source, true));
        self.record_copy(written, entry)
    }

    /// Copies the selections of several cursors: the system clipboard gets
    /// them joined by newlines, the history keeps each piece.
    pub fn copy_multi_cursor(&mut self, pieces: Vec<String>, source: ClipboardSource) -> (r: Result<
        (),
        ClipboardError,
    >)
        ensures
            r matches Err(e) ==> (e matches ClipboardError::Init(_) || e matches ClipboardError::SetText(_)),
            final(self).max_history_view() == old(self).max_history_view(),
            r is Err ==> final(self).history_view() == old(self).history_view(),
            r is Ok ==> exists|e: ClipboardEntry|
                {
                    &&& final(self).history_view() == capped(
                        seq![e] + old(self).history_view(),
                        old(self).max_history_view(),
                    )
                    &&& e.text@ == spec_join(views(pieces@), "\n"@)
                    &&& e.pieces == pieces
                    &&& e.source == source
                    &&& !e.is_whole_line && e.is_multi_cursor
                },
    {
        let joined = join(pieces.as_slice(), "\n");
        let written = write_os_clipboard(joined.as_str());
        let ghost p = pieces;
        let entry = ClipboardEntry::multi_cursor(pieces, source);
        let ghost e = entry;
        assert(e.pieces == p);
        self.record_copy(written, entry)
    }

    /// Same as `copy`; the caller deletes the source text afterwards.
    pub fn cut(&mut self, text: &str, source: ClipboardSource) -> (r: Result<(), ClipboardError>)
        ensures
            final(self).max_history_view() == old(self).max_history_view(),
            r is Err ==> final(self).history_view() == old(self).history_view(),
            r is Ok ==> exists|e: ClipboardEntry|
                {
                    &&& final(self).history_view() == capped(
                        seq![e] + old(self).history_view(),
                        old(self).max_history_view(),
                    )
                    &&& text_entry(e, text@, source, false)
                },
    {
        self.copy(text, source)
    }

    /// Reads the system clipboard.
    pub fn paste(&self) -> (r: Result<String, ClipboardError>)
        ensures
            r matches Err(e) ==> (e matches ClipboardError::Init(_) || e matches ClipboardError::GetText(_)),
    {
        read_os_clipboard()
    }

    /// The text of history entry `index` (0 = newest).
    pub fn paste_from_history(&self, index: usize) -> (r: Result<String, ClipboardError>)
        ensures
            index < self.history_view().len() ==> (r matches Ok(s) && s@
                == self.history_view()[index as int].text@),
            index >= self.history_view().len() ==> r matches Err(
                ClipboardError::HistoryIndexOutOfRange,
            ),
    {
        if index < self.history.len() {
            Ok(self.history[index].text.clone())
        } else {
            Err(ClipboardError::HistoryIndexOutOfRange)
        }
    }

    /// The newest entry.
    pub fn latest(&self) -> (r: Option<&ClipboardEntry>)
        ensures
            self.history_view().len() == 0 ==> r is None,
            self.history_view().len() > 0 ==> r == Some(&self.history_view()[0]),
    {
        if self.history.len() > 0 {
            Some(&self.history[0])
        } else {
            None
        }
    }

    /// Whether the newest entry is a multi-cursor copy with exactly one
    /// piece per cursor.
    pub fn should_distribute_paste(&self, cursor_count: usize) -> (r: bool)
        ensures
            r == (self.history_view().len() > 0 && self.history_view()[0].is_multi_cursor
                && self.history_view()[0].pieces@.len() == cursor_count),
    {
        if self.history.len() > 0 {
            let e = &self.history[0];
            e.is_multi_cursor && e.pieces.len() == cursor_count
        } else {
            false
        }
    }

    /// The text each of `cursor_count` cursors pastes: one piece per cursor
    /// when the newest entry distributes, else its whole text for each
    /// cursor (the empty text when there is no entry).
    pub fn pieces_for_cursors(&self, cursor_count: usize) -> (r: Vec<String>)
        ensures
            r@.len() == cursor_count,
            forall|i: int|
                0 <= i < cursor_count ==> #[trigger] r@[i]@ == (if self.history_view().len() == 0 {
                    Seq::<char>::empty()
                } else if self.history_view()[0].is_multi_cursor
                    && self.history_view()[0].pieces@.len() == cursor_count {
                    self.history_view()[0].pieces@[i]@
                } else {
                    self.history_view()[0].text@
                }),
    {
        let mut out: Vec<String> = Vec::new();
        let mut i: usize = 0;
        while i < cursor_count
            invariant
                i <= cursor_count,
                out@.len() == i,
                forall|j: int|
                    0 <= j < i ==> #[trigger] out@[j]@ == (if self.history@.len() == 0 {
                        Seq::<char>::empty()
                    } else if self.history@[0].is_multi_cursor && self.history@[0].pieces@.len()
                        == cursor_count {
                        self.history@[0].pieces@[j]@
                    } else {
                        self.history@[0].text@
                    }),
            decreases cursor_count - i,
        {
            let piece = if self.history.len() == 0 {
                String::new()
            } else if self.history[0].is_multi_cursor && self.history[0].pieces.len() == cursor_count {
                self.history[0].pieces[i].clone()
            } else {
                self.history[0].text.clone()
            };
            out.push(piece);
            i = i + 1;
        }
        out
    }

    /// The stored entries, newest first.
    pub fn history(&self) -> (r: &[ClipboardEntry])
        ensures
            r@ == self.history_view(),
    {
        self.history.as_slice()
    }

    pub fn clear_history(&mut self)
        ensures
            final(self).history_view().len() == 0,
            final(self).max_history_view() == old(self).max_history_view(),
    {
        self.history.clear();
    }

    pub fn max_history(&self) -> (r: usize)
        ensures
            r == self.max_history_view(),
    {
        self.max_history
    }

    /// Changes the capacity, dropping the oldest entries beyond it.
    pub fn set_max_history(&mut self, max: usize)
        ensures
            final(self).max_history_view() == max,
            final(self).history_view() == capped(old(self).history_view(), max),
    {
        self.max_history = max;
        self.trim();
    }

    /// Records `entry` as the newest entry, dropping the oldest beyond the
    /// capacity.
    pub fn push_entry(&mut self, entry: ClipboardEntry)
        ensures
            final(self).history_view() == capped(
                seq![entry] + old(self).history_view(),
                old(self).max_history_view(),
            ),
            final(self).max_history_view() == old(self).max_history_view(),
    {
        self.history.insert(0, entry);
        assert(self.history@ =~= seq![entry] + old(self).history@);
        self.trim();
    }

    /// Drops the oldest entries beyond the capacity.
    fn trim(&mut self)
        ensures
            final(self).history@ == capped(old(self).history@, old(self).max_history),
            final(self).max_history == old(self).max_history,
    {
        if self.history.len() > self.max_history {
            self.history.truncate(self.max_history);
        }
    }
}

// ── Free functions ───────────────────────────────────────────────────────────

/// Puts `text` on the system clipboard.
pub fn copy_to_clipboard(text: &str) -> (r: Result<(), ClipboardError>)
    ensures
        r matches Err(e) ==> (e matches ClipboardError::Init(_) || e matches ClipboardError::SetText(_)),
{
    write_os_clipboard(text)
}

/// The text a paste gets from what reading the system clipboard answered:
/// the text read, or none when the read failed.
pub fn clipboard_text(read: Result<String, ClipboardError>) -> (r: Option<String>)
    ensures
        match read {
            Ok(s) => r == Some(s),
            Err(_) => r is None,
        },
{
    match read {
        Ok(s) => Some(s),
        Err(_) => None,
    }
}

/// Reads the system clipboard; `None` when it holds no text (see
/// `clipboard_text`). What the clipboard holds is outside this process.
pub fn paste_from_clipboard() -> (r: Option<String>) {
    clipboard_text(read_os_clipboard())
}

/// Puts `text` on the system clipboard (the caller deletes it from the
/// document).
pub fn cut_to_clipboard(text: &str) -> (r: Result<(), ClipboardError>)
    ensures
        r matches Err(e) ==> (e matches ClipboardError::Init(_) || e matches ClipboardError::SetText(_)),
{
    write_os_clipboard(text)
}

// ── Laws ─────────────────────────────────────────────────────────────────────

/// The history never holds more entries than its capacity once an entry has
/// been pushed, and the pushed entry is the newest (unless the capacity is
/// zero).
pub proof fn lemma_push_respects_capacity(entry: ClipboardEntry, old_history: Seq<ClipboardEntry>, max: usize)
    ensures
        capped(seq![entry] + old_history, max).len() <= max,
        max > 0 ==> capped(seq![entry] + old_history, max)[0] == entry,
        max > 0 ==> capped(seq![entry] + old_history, max).len() == if old_history.len() + 1 <= max {
            old_history.len() + 1
        } else {
            max as nat
        },
{
}

} // verus!
