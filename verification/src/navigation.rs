//! Navigation history: the editor positions behind Go Back (Alt+Left) and
//! Go Forward (Alt+Right).
//!
//! A new place on the same line of the same document replaces the last one
//! rather than piling up, and each stack keeps at most `MAX_HISTORY`
//! places, dropping the oldest.

use vstd::prelude::*;

use std::time::Instant;

pub use crate::position::Position;
use crate::text::str_eq;

verus! {

/// A selection stored with a history entry.
#[derive(Debug, Clone, Copy, PartialEq, Eq, Structural)]
pub struct HistorySelection {
    pub anchor: Position,
    pub active: Position,
}

/// One place in the navigation history.
#[derive(Debug, Clone)]
pub struct HistoryEntry {
    /// File URI or path.
    pub uri: String,
    /// Cursor position when the place was recorded.
    pub position: Position,
    /// The selection at that time, if any.
    pub selection: Option<HistorySelection>,
    /// When the place was recorded.
    pub timestamp: Instant,
}

/// How many places each stack keeps.
pub const MAX_HISTORY: usize = 50;

/// Whether `b` is on the same line of the same document as `a`.
pub open spec fn same_line(a: HistoryEntry, b: HistoryEntry) -> bool {
    a.uri@ == b.uri@ && a.position.line == b.position.line
}

/// `s` with `e` on top, the oldest place dropped when that makes more than
/// `MAX_HISTORY`.
pub open spec fn capped_push(s: Seq<HistoryEntry>, e: HistoryEntry) -> Seq<HistoryEntry> {
    let grown = s.push(e);
    if grown.len() > MAX_HISTORY {
        grown.drop_first()
    } else {
        grown
    }
}

/// The top of `s` moved to where `e` is (same document and line), with
/// `e`'s selection and time.
pub open spec fn retouched(s: Seq<HistoryEntry>, e: HistoryEntry) -> Seq<HistoryEntry> {
    let top = s.last();
    s.update(
        s.len() - 1,
        HistoryEntry {
            uri: top.uri,
            position: e.position,
            selection: e.selection,
            timestamp: e.timestamp,
        },
    )
}

/// The back and forward stacks after recording `e`: a place on the line
/// of the last one replaces it and keeps the forward stack; any other is
/// pushed and empties the forward stack.
pub open spec fn recorded(
    back: Seq<HistoryEntry>,
    forward: Seq<HistoryEntry>,
    e: HistoryEntry,
) -> (Seq<HistoryEntry>, Seq<HistoryEntry>) {
    if back.len() > 0 && same_line(back.last(), e) {
        (retouched(back, e), forward)
    } else {
        (capped_push(back, e), Seq::empty())
    }
}

/// The back and forward stacks of places, newest last.
#[derive(Debug)]
pub struct NavigationHistory {
    back_stack: Vec<HistoryEntry>,
    forward_stack: Vec<HistoryEntry>,
}

impl NavigationHistory {
    /// The places Go Back visits, newest last.
    pub closed spec fn back_view(&self) -> Seq<HistoryEntry> {
        self.back_stack@
    }

    /// The places Go Forward visits, newest last.
    pub closed spec fn forward_view(&self) -> Seq<HistoryEntry> {
        self.forward_stack@
    }

    /// Neither stack holds more than `MAX_HISTORY` places.
    pub open spec fn wf(&self) -> bool {
        self.back_view().len() <= MAX_HISTORY && self.forward_view().len() <= MAX_HISTORY
    }

    /// An empty history.
    pub fn new() -> (r: Self)
        ensures
            r.back_view().len() == 0,
            r.forward_view().len() == 0,
            r.wf(),
    {
        NavigationHistory { back_stack: Vec::new(), forward_stack: Vec::new() }
    }

    /// Records a place (see `recorded`).
    pub fn push(&mut self, entry: HistoryEntry)
        ensures
            (final(self).back_view(), final(self).forward_view()) == recorded(
                old(self).back_view(),
                old(self).forward_view(),
                entry,
            ),
    {
        let n = self.back_stack.len();
        if n > 0 && str_eq(self.back_stack[n - 1].uri.as_str(), entry.uri.as_str())
            && self.back_stack[n - 1].position.line == entry.position.line {
            self.back_stack[n - 1].position = entry.position;
            self.back_stack[n - 1].selection = entry.selection;
            self.back_stack[n - 1].timestamp = entry.timestamp;
            assert(self.back_stack@ =~= retouched(old(self).back_view(), entry));
            return;
        }
        self.forward_stack.clear();
        Self::push_capped(&mut self.back_stack, entry);
    }

    /// Pushes `entry` on `stack`, dropping the oldest place beyond
    /// `MAX_HISTORY`.
    fn push_capped(stack: &mut Vec<HistoryEntry>, entry: HistoryEntry)
        ensures
            final(stack)@ == capped_push(old(stack)@, entry),
    {
        stack.push(entry);
        if stack.len() > MAX_HISTORY {
            stack.remove(0);
            assert(stack@ =~= old(stack)@.push(entry).drop_first());
        }
    }

    /// Go Back: takes the newest place of the back stack. The caller puts
    /// the place it leaves on the forward stack with `push_forward`.
    pub fn back(&mut self) -> (r: Option<HistoryEntry>)
        ensures
            old(self).back_view().len() == 0 ==> r is None && final(self).back_view()
                == old(self).back_view(),
            old(self).back_view().len() > 0 ==> r == Some(old(self).back_view().last())
                && final(self).back_view() == old(self).back_view().drop_last(),
            final(self).forward_view() == old(self).forward_view(),
    {
        self.back_stack.pop()
    }

    /// Go Forward: takes the newest place of the forward stack.
    pub fn forward(&mut self) -> (r: Option<HistoryEntry>)
        ensures
            old(self).forward_view().len() == 0 ==> r is None && final(self).forward_view()
                == old(self).forward_view(),
            old(self).forward_view().len() > 0 ==> r == Some(old(self).forward_view().last())
                && final(self).forward_view() == old(self).forward_view().drop_last(),
            final(self).back_view() == old(self).back_view(),
    {
        self.forward_stack.pop()
    }

    /// Puts a place on the forward stack (when going back).
    pub fn push_forward(&mut self, entry: HistoryEntry)
        ensures
            final(self).forward_view() == capped_push(old(self).forward_view(), entry),
            final(self).back_view() == old(self).back_view(),
    {
        Self::push_capped(&mut self.forward_stack, entry);
    }

    /// Puts a place on the back stack (when going forward).
    pub fn push_back(&mut self, entry: HistoryEntry)
        ensures
            final(self).back_view() == capped_push(old(self).back_view(), entry),
            final(self).forward_view() == old(self).forward_view(),
    {
        Self::push_capped(&mut self.back_stack, entry);
    }

    /// Whether Go Back has somewhere to go.
    pub fn can_go_back(&self) -> (r: bool)
        ensures
            r == (self.back_view().len() > 0),
    {
        !self.back_stack.is_empty()
    }

    /// Whether Go Forward has somewhere to go.
    pub fn can_go_forward(&self) -> (r: bool)
        ensures
            r == (self.forward_view().len() > 0),
    {
        !self.forward_stack.is_empty()
    }

    /// How many places the back stack holds.
    pub fn back_len(&self) -> (r: usize)
        ensures
            r == self.back_view().len(),
    {
        self.back_stack.len()
    }

    /// How many places the forward stack holds.
    pub fn forward_len(&self) -> (r: usize)
        ensures
            r == self.forward_view().len(),
    {
        self.forward_stack.len()
    }

    /// Forgets every place.
    pub fn clear(&mut self)
        ensures
            final(self).back_view().len() == 0,
            final(self).forward_view().len() == 0,
    {
        self.back_stack.clear();
        self.forward_stack.clear();
    }
}

impl Default for NavigationHistory {
    fn default() -> (r: Self)
        ensures
            r.back_view().len() == 0,
            r.forward_view().len() == 0,
    {
        NavigationHistory::new()
    }
}

// ── Laws ─────────────────────────────────────────────────────────────────────

/// A capped push puts the place on top and never takes a stack that was
/// within `MAX_HISTORY` beyond it.
pub proof fn lemma_capped_push(s: Seq<HistoryEntry>, e: HistoryEntry)
    requires
        s.len() <= MAX_HISTORY,
    ensures
        capped_push(s, e).len() <= MAX_HISTORY,
        capped_push(s, e).last() == e,
        s.len() < MAX_HISTORY ==> capped_push(s, e) == s.push(e),
{
}

/// Recording a place keeps both stacks within `MAX_HISTORY`, leaves it on
/// top of the back stack (its position, selection and time), and empties
/// the forward stack unless the place only moved along the last line.
pub proof fn lemma_recorded(back: Seq<HistoryEntry>, forward: Seq<HistoryEntry>, e: HistoryEntry)
    requires
        back.len() <= MAX_HISTORY,
        forward.len() <= MAX_HISTORY,
    ensures
        ({
            let (b, f) = recorded(back, forward, e);
            &&& b.len() <= MAX_HISTORY
            &&& f.len() <= MAX_HISTORY
            &&& b.len() > 0
            &&& same_line(b.last(), e)
            &&& b.last().position == e.position
            &&& b.last().selection == e.selection
            &&& (back.len() > 0 && same_line(back.last(), e) ==> b.len() == back.len() && f == forward)
            &&& (!(back.len() > 0 && same_line(back.last(), e)) ==> f.len() == 0)
        }),
{
    lemma_capped_push(back, e);
}

/// Going back to a place and remembering it on the forward stack lets Go
/// Forward return to that same place, with the back stack as going back
/// left it.
pub proof fn lemma_back_then_forward(back: Seq<HistoryEntry>, forward: Seq<HistoryEntry>)
    requires
        back.len() > 0,
        forward.len() <= MAX_HISTORY,
    ensures
        ({
            let went_back = back.last();
            let forward1 = capped_push(forward, went_back);
            &&& forward1.len() > 0
            &&& forward1.last() == went_back
            &&& forward1.drop_last().len() <= MAX_HISTORY
        }),
{
    lemma_capped_push(forward, back.last());
}

} // verus!
