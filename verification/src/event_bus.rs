//! The application-wide event bus: the kinds of events the editor emits,
//! listener registrations per event type (lasting or one-shot), and the
//! queue of deferred events. The bus hands back the listeners an event
//! reaches, in registration order; calling them is the caller's part.

use vstd::prelude::*;

use std::time::Instant;

use crate::clipboard::now;
use crate::text::str_eq;

verus! {

/// Categories of events the editor can produce.
#[derive(Debug, Clone, PartialEq, Eq, Hash)]
pub enum EventType {
    // File events
    FileCreated,
    FileChanged,
    FileDeleted,
    FileRenamed,
    FileSaved,
    FileOpened,
    FileClosed,

    // Editor events
    ActiveEditorChanged,
    EditorSelectionChanged,
    EditorScrollChanged,
    EditorVisibleRangesChanged,
    TextDocumentChanged,

    // Workspace events
    WorkspaceOpened,
    WorkspaceClosed,
    FoldersChanged,
    ConfigurationChanged,

    // Window events
    WindowFocusChanged,
    WindowStateChanged,
    ColorThemeChanged,

    // Terminal events
    TerminalCreated,
    TerminalClosed,
    TerminalDataWritten,

    // Extension events
    ExtensionInstalled,
    ExtensionUninstalled,
    ExtensionEnabled,
    ExtensionDisabled,
    ExtensionActivated,

    // Debug events
    DebugSessionStarted,
    DebugSessionStopped,
    BreakpointChanged,

    // Git events
    GitStatusChanged,
    GitBranchChanged,
    GitRepositoryChanged,

    // Task events
    TaskStarted,
    TaskCompleted,
    TaskFailed,

    // Custom (from extensions)
    Custom(String),
}

/// Handle of a registered listener, used to unsubscribe it.
#[derive(Debug, Clone, Copy, PartialEq, Eq, Structural, Hash)]
pub struct ListenerId(pub u64);

/// Hands out listener handles, each once.
#[derive(Debug, Clone, Copy, PartialEq, Eq, Structural)]
pub struct ListenerIdAllocator {
    pub next: u64,
}

impl ListenerIdAllocator {
    /// An allocator whose first handle is 1.
    pub fn new() -> (r: Self)
        ensures
            r.next == 1,
    {
        ListenerIdAllocator { next: 1 }
    }

    /// The next handle; the counter wraps around after `u64::MAX`.
    pub fn allocate(&mut self) -> (r: ListenerId)
        ensures
            r == ListenerId(old(self).next),
            final(self).next == if old(self).next == u64::MAX {
                0
            } else {
                (old(self).next + 1) as u64
            },
    {
        let id = ListenerId(self.next);
        self.next = self.next.wrapping_add(1);
        id
    }
}

// ── Event type matching ──────────────────────────────────────────────────────

/// The position of a built-in event type in the list above; `36` for a
/// custom one.
pub open spec fn tag_of(t: EventType) -> int {
    match t {
        EventType::FileCreated => 0,
        EventType::FileChanged => 1,
        EventType::FileDeleted => 2,
        EventType::FileRenamed => 3,
        EventType::FileSaved => 4,
        EventType::FileOpened => 5,
        EventType::FileClosed => 6,
        EventType::ActiveEditorChanged => 7,
        EventType::EditorSelectionChanged => 8,
        EventType::EditorScrollChanged => 9,
        EventType::EditorVisibleRangesChanged => 10,
        EventType::TextDocumentChanged => 11,
        EventType::WorkspaceOpened => 12,
        EventType::WorkspaceClosed => 13,
        EventType::FoldersChanged => 14,
        EventType::ConfigurationChanged => 15,
        EventType::WindowFocusChanged => 16,
        EventType::WindowStateChanged => 17,
        EventType::ColorThemeChanged => 18,
        EventType::TerminalCreated => 19,
        EventType::TerminalClosed => 20,
        EventType::TerminalDataWritten => 21,
        EventType::ExtensionInstalled => 22,
        EventType::ExtensionUninstalled => 23,
        EventType::ExtensionEnabled => 24,
        EventType::ExtensionDisabled => 25,
        EventType::ExtensionActivated => 26,
        EventType::DebugSessionStarted => 27,
        EventType::DebugSessionStopped => 28,
        EventType::BreakpointChanged => 29,
        EventType::GitStatusChanged => 30,
        EventType::GitBranchChanged => 31,
        EventType::GitRepositoryChanged => 32,
        EventType::TaskStarted => 33,
        EventType::TaskCompleted => 34,
        EventType::TaskFailed => 35,
        EventType::Custom(_) => 36,
    }
}

/// Whether two event types are the same: the same built-in type, or custom
/// types of the same name.
pub open spec fn same_type(a: EventType, b: EventType) -> bool {
    match a {
        EventType::Custom(x) => b matches EventType::Custom(y) && x@ == y@,
        _ => !(b is Custom) && tag_of(a) == tag_of(b),
    }
}

fn tag(t: &EventType) -> (r: u8)
    ensures
        r == tag_of(*t),
{
    match t {
            EventType::FileCreated => 0,
            EventType::FileChanged => 1,
            EventType::FileDeleted => 2,
            EventType::FileRenamed => 3,
            EventType::FileSaved => 4,
            EventType::FileOpened => 5,
            EventType::FileClosed => 6,
            EventType::ActiveEditorChanged => 7,
            EventType::EditorSelectionChanged => 8,
            EventType::EditorScrollChanged => 9,
            EventType::EditorVisibleRangesChanged => 10,
            EventType::TextDocumentChanged => 11,
            EventType::WorkspaceOpened => 12,
            EventType::WorkspaceClosed => 13,
            EventType::FoldersChanged => 14,
            EventType::ConfigurationChanged => 15,
            EventType::WindowFocusChanged => 16,
            EventType::WindowStateChanged => 17,
            EventType::ColorThemeChanged => 18,
            EventType::TerminalCreated => 19,
            EventType::TerminalClosed => 20,
            EventType::TerminalDataWritten => 21,
            EventType::ExtensionInstalled => 22,
            EventType::ExtensionUninstalled => 23,
            EventType::ExtensionEnabled => 24,
            EventType::ExtensionDisabled => 25,
            EventType::ExtensionActivated => 26,
            EventType::DebugSessionStarted => 27,
            EventType::DebugSessionStopped => 28,
            EventType::BreakpointChanged => 29,
            EventType::GitStatusChanged => 30,
            EventType::GitBranchChanged => 31,
            EventType::GitRepositoryChanged => 32,
            EventType::TaskStarted => 33,
            EventType::TaskCompleted => 34,
            EventType::TaskFailed => 35,
            EventType::Custom(_) => 36,
    }
}

/// Compares two event types (see `same_type`).
pub fn same_event_type(a: &EventType, b: &EventType) -> (r: bool)
    ensures
        r == same_type(*a, *b),
{
    match (a, b) {
        (EventType::Custom(x), EventType::Custom(y)) => str_eq(x.as_str(), y.as_str()),
        (EventType::Custom(_), _) => false,
        (_, EventType::Custom(_)) => false,
        _ => tag(a) == tag(b),
    }
}

// ── Events ───────────────────────────────────────────────────────────────────

/// Reads `serde_json::Value::Null`. The value is opaque to the verifier,
/// so nothing is claimed of it.
#[verifier::external_body]
fn null_value() -> serde_json::Value {
    serde_json::Value::Null
}

/// One event.
#[derive(Debug, Clone)]
pub struct Event {
    pub event_type: EventType,
    /// The payload (`null` unless given).
    pub data: serde_json::Value,
    pub timestamp: Instant,
    /// The emitting subsystem.
    pub source: String,
}

impl Event {
    /// An event of `event_type` from `source`, now, without data.
    pub fn new(event_type: EventType, source: &str) -> (r: Self)
        ensures
            r.event_type == event_type,
            r.source@ == source@,
    {
        Event { event_type, data: null_value(), timestamp: now(), source: source.to_string() }
    }

    /// The event with `data` as payload.
    pub fn with_data(self, data: serde_json::Value) -> (r: Self)
        ensures
            r.data == data,
            r.event_type == self.event_type,
            r.timestamp == self.timestamp,
            r.source == self.source,
    {
        Event { data, ..self }
    }
}

// ── Event bus ────────────────────────────────────────────────────────────────

/// One registration: the event type, the handle, the listener, and whether
/// it is removed after its first call.
pub struct ListenerEntry<L> {
    pub event_type: EventType,
    pub id: ListenerId,
    pub listener: L,
    pub once: bool,
}

/// The registrations of type `t`, in order.
pub open spec fn matching<L>(entries: Seq<ListenerEntry<L>>, t: EventType) -> Seq<ListenerEntry<L>>
    decreases entries.len(),
{
    if entries.len() == 0 {
        Seq::empty()
    } else {
        let init = matching(entries.drop_last(), t);
        if same_type(entries.last().event_type, t) {
            init.push(entries.last())
        } else {
            init
        }
    }
}

/// The registrations left after an event of type `t` is dispatched: the
/// one-shot registrations of `t` go.
pub open spec fn after_dispatch<L>(entries: Seq<ListenerEntry<L>>, t: EventType) -> Seq<ListenerEntry<L>>
    decreases entries.len(),
{
    if entries.len() == 0 {
        Seq::empty()
    } else {
        let init = after_dispatch(entries.drop_last(), t);
        let e = entries.last();
        if e.once && same_type(e.event_type, t) {
            init
        } else {
            init.push(e)
        }
    }
}

/// The registrations other than those with handle `id`.
pub open spec fn without_id<L>(entries: Seq<ListenerEntry<L>>, id: ListenerId) -> Seq<ListenerEntry<L>>
    decreases entries.len(),
{
    if entries.len() == 0 {
        Seq::empty()
    } else {
        let init = without_id(entries.drop_last(), id);
        if entries.last().id == id {
            init
        } else {
            init.push(entries.last())
        }
    }
}

/// Whether `calls` are clones of the listeners of `regs`, in order.
pub open spec fn clones_of<L: Clone>(regs: Seq<ListenerEntry<L>>, calls: Seq<L>) -> bool {
    &&& calls.len() == regs.len()
    &&& forall|i: int| 0 <= i < calls.len() ==> cloned(regs[i].listener, #[trigger] calls[i])
}

/// The publish-subscribe bus: listeners registered per event type, and
/// events queued for later dispatch. `emit` hands back the listeners to
/// call, in registration order; calling them is the caller's part.
pub struct EventBus<L> {
    listeners: Vec<ListenerEntry<L>>,
    pending_events: Vec<Event>,
    ids: ListenerIdAllocator,
}

impl<L: Clone> EventBus<L> {
    /// The registrations, in order.
    pub closed spec fn entries(&self) -> Seq<ListenerEntry<L>> {
        self.listeners@
    }

    /// The queued events, oldest first.
    pub closed spec fn pending(&self) -> Seq<Event> {
        self.pending_events@
    }

    /// The next handle to hand out.
    pub closed spec fn next_handle(&self) -> u64 {
        self.ids.next
    }

    /// An empty bus.
    pub fn new() -> (r: Self)
        ensures
            r.entries().len() == 0,
            r.pending().len() == 0,
            r.next_handle() == 1,
    {
        EventBus { listeners: Vec::new(), pending_events: Vec::new(), ids: ListenerIdAllocator::new() }
    }

    fn register(&mut self, event_type: EventType, listener: L, once: bool) -> (r: ListenerId)
        ensures
            r == ListenerId(old(self).next_handle()),
            final(self).entries() == old(self).entries().push(
                ListenerEntry { event_type, id: r, listener, once },
            ),
            final(self).pending() == old(self).pending(),
            final(self).next_handle() == (if old(self).next_handle() == u64::MAX {
                0
            } else {
                (old(self).next_handle() + 1) as u64
            }),
    {
        let id = self.ids.allocate();
        self.listeners.push(ListenerEntry { event_type, id, listener, once });
        id
    }

    /// Registers `listener` for events of `event_type`; returns its handle.
    pub fn on(&mut self, event_type: EventType, listener: L) -> (r: ListenerId)
        ensures
            r == ListenerId(old(self).next_handle()),
            final(self).entries() == old(self).entries().push(
                ListenerEntry { event_type, id: r, listener, once: false },
            ),
            final(self).pending() == old(self).pending(),
            final(self).next_handle() == (if old(self).next_handle() == u64::MAX {
                0
            } else {
                (old(self).next_handle() + 1) as u64
            }),
    {
        self.register(event_type, listener, false)
    }

    /// Registers `listener` for the next event of `event_type` only.
    pub fn once(&mut self, event_type: EventType, listener: L) -> (r: ListenerId)
        ensures
            r == ListenerId(old(self).next_handle()),
            final(self).entries() == old(self).entries().push(
                ListenerEntry { event_type, id: r, listener, once: true },
            ),
            final(self).pending() == old(self).pending(),
            final(self).next_handle() == (if old(self).next_handle() == u64::MAX {
                0
            } else {
                (old(self).next_handle() + 1) as u64
            }),
    {
        self.register(event_type, listener, true)
    }

    /// Removes the listener with handle `id`.
    pub fn off(&mut self, id: ListenerId)
        ensures
            final(self).entries() == without_id(old(self).entries(), id),
            final(self).pending() == old(self).pending(),
            final(self).next_handle() == old(self).next_handle(),
    {
        let mut rest: Vec<ListenerEntry<L>> = Vec::new();
        std::mem::swap(&mut rest, &mut self.listeners);
        let ghost all = rest@;
        let n = rest.len();
        let mut i: usize = 0;
        while i < n
            invariant
                n == all.len(),
                i <= n,
                all == old(self).listeners@,
                rest@ == all.subrange(i as int, n as int),
                self.listeners@ == without_id(all.subrange(0, i as int), id),
                self.pending_events == old(self).pending_events,
                self.ids == old(self).ids,
            decreases n - i,
        {
            let e = rest.remove(0);
            assert(rest@ =~= all.subrange(i + 1, n as int));
            assert(all.subrange(0, i + 1).drop_last() =~= all.subrange(0, i as int));
            if e.id != id {
                self.listeners.push(e);
            }
            i = i + 1;
        }
        assert(all.subrange(0, n as int) =~= all);
    }

    /// Dispatches `event`: hands back the event and clones of the listeners
    /// of its type, in registration order, and drops the one-shot ones.
    pub fn emit(&mut self, event: Event) -> (r: (Event, Vec<L>))
        ensures
            r.0 == event,
            clones_of(matching(old(self).entries(), event.event_type), r.1@),
            final(self).entries() == after_dispatch(old(self).entries(), event.event_type),
            final(self).pending() == old(self).pending(),
            final(self).next_handle() == old(self).next_handle(),
    {
        let mut calls: Vec<L> = Vec::new();
        let mut rest: Vec<ListenerEntry<L>> = Vec::new();
        std::mem::swap(&mut rest, &mut self.listeners);
        let ghost all = rest@;
        let ghost t = event.event_type;
        let n = rest.len();
        let mut i: usize = 0;
        while i < n
            invariant
                n == all.len(),
                i <= n,
                all == old(self).listeners@,
                t == event.event_type,
                rest@ == all.subrange(i as int, n as int),
                self.listeners@ == after_dispatch(all.subrange(0, i as int), t),
                clones_of(matching(all.subrange(0, i as int), t), calls@),
                self.pending_events == old(self).pending_events,
                self.ids == old(self).ids,
            decreases n - i,
        {
            let e = rest.remove(0);
            assert(e == all[i as int]);
            assert(rest@ =~= all.subrange(i + 1, n as int));
            assert(all.subrange(0, i + 1).drop_last() =~= all.subrange(0, i as int));
            let ghost m = matching(all.subrange(0, i as int), t);
            if same_event_type(&e.event_type, &event.event_type) {
                let c = e.listener.clone();
                let ghost before = calls@;
                calls.push(c);
                assert(m.push(e).drop_last() =~= m);
                assert(clones_of(m.push(e), calls@)) by {
                    assert forall|k: int| 0 <= k < calls@.len() implies cloned(m.push(e)[k].listener, #[trigger] calls@[k]) by {
                        if k < before.len() {
                            assert(calls@[k] == before[k]);
                        }
                    }
                }
                if !e.once {
                    self.listeners.push(e);
                }
            } else {
                self.listeners.push(e);
            }
            i = i + 1;
        }
        assert(all.subrange(0, n as int) =~= all);
        (event, calls)
    }

    /// Queues `event` for `flush`.
    pub fn emit_async(&mut self, event: Event)
        ensures
            final(self).pending() == old(self).pending().push(event),
            final(self).entries() == old(self).entries(),
            final(self).next_handle() == old(self).next_handle(),
    {
        self.pending_events.push(event);
    }

    /// Takes the queued events, oldest first, leaving the queue empty.
    pub fn drain(&mut self) -> (r: Vec<Event>)
        ensures
            r@ == old(self).pending(),
            final(self).pending().len() == 0,
            final(self).entries() == old(self).entries(),
            final(self).next_handle() == old(self).next_handle(),
    {
        let mut out: Vec<Event> = Vec::new();
        std::mem::swap(&mut out, &mut self.pending_events);
        out
    }

    /// Dispatches the queued events in order (see `emit`), emptying the
    /// queue; hands back each event with the listeners to call for it.
    pub fn flush(&mut self) -> (r: Vec<(Event, Vec<L>)>)
        ensures
            r@.len() == old(self).pending().len(),
            forall|k: int| 0 <= k < r@.len() ==> (#[trigger] r@[k]).0 == old(self).pending()[k],
            final(self).pending().len() == 0,
            final(self).next_handle() == old(self).next_handle(),
    {
        let events = self.drain();
        let ghost evs = events@;
        let mut out: Vec<(Event, Vec<L>)> = Vec::new();
        let mut rest = events;
        let n = rest.len();
        let mut i: usize = 0;
        while i < n
            invariant
                n == evs.len(),
                i <= n,
                evs == old(self).pending(),
                rest@ == evs.subrange(i as int, n as int),
                out@.len() == i,
                forall|k: int| 0 <= k < i ==> (#[trigger] out@[k]).0 == evs[k],
                self.pending_events@.len() == 0,
                self.ids == old(self).ids,
            decreases n - i,
        {
            let ev = rest.remove(0);
            assert(ev == evs[i as int]);
            assert(rest@ =~= evs.subrange(i + 1, n as int));
            let dispatched = self.emit(ev);
            out.push(dispatched);
            i = i + 1;
        }
        out
    }

    /// How many listeners are registered for `event_type`.
    pub fn listener_count(&self, event_type: &EventType) -> (r: usize)
        ensures
            r == matching(self.entries(), *event_type).len(),
    {
        let mut count: usize = 0;
        let mut i: usize = 0;
        while i < self.listeners.len()
            invariant
                i <= self.listeners@.len(),
                count == matching(self.listeners@.subrange(0, i as int), *event_type).len(),
                count <= i,
            decreases self.listeners@.len() - i,
        {
            assert(self.listeners@.subrange(0, i + 1).drop_last() =~= self.listeners@.subrange(0, i as int));
            if same_event_type(&self.listeners[i].event_type, event_type) {
                count = count + 1;
            }
            i = i + 1;
        }
        assert(self.listeners@.subrange(0, self.listeners@.len() as int) =~= self.listeners@);
        count
    }

    /// Whether events are queued.
    pub fn has_pending(&self) -> (r: bool)
        ensures
            r == (self.pending().len() > 0),
    {
        self.pending_events.len() > 0
    }
}

// ── Laws ─────────────────────────────────────────────────────────────────────

/// After an event of type `t` is dispatched, no one-shot listener of `t`
/// is left, and every other registration stays, in order.
pub proof fn lemma_once_listeners_fire_once<L>(entries: Seq<ListenerEntry<L>>, t: EventType)
    ensures
        forall|k: int|
            0 <= k < matching(after_dispatch(entries, t), t).len() ==> !(#[trigger] matching(
                after_dispatch(entries, t),
                t,
            )[k]).once,
        forall|k: int|
            0 <= k < after_dispatch(entries, t).len() ==> {
                let e = #[trigger] after_dispatch(entries, t)[k];
                !(e.once && same_type(e.event_type, t))
            },
    decreases entries.len(),
{
    if entries.len() > 0 {
        lemma_once_listeners_fire_once(entries.drop_last(), t);
        let init = after_dispatch(entries.drop_last(), t);
        let e = entries.last();
        if !(e.once && same_type(e.event_type, t)) {
            assert(init.push(e).drop_last() =~= init);
            lemma_matching_push(init, e, t);
        }
    }
}

proof fn lemma_matching_push<L>(s: Seq<ListenerEntry<L>>, e: ListenerEntry<L>, t: EventType)
    ensures
        matching(s.push(e), t) == if same_type(e.event_type, t) {
            matching(s, t).push(e)
        } else {
            matching(s, t)
        },
{
    assert(s.push(e).drop_last() =~= s);
}

/// After `off(id)` no registration has handle `id`, and the others stay.
pub proof fn lemma_off_removes<L>(entries: Seq<ListenerEntry<L>>, id: ListenerId)
    ensures
        forall|k: int| 0 <= k < without_id(entries, id).len() ==> (#[trigger] without_id(entries, id)[k]).id != id,
        without_id(entries, id).len() <= entries.len(),
    decreases entries.len(),
{
    if entries.len() > 0 {
        lemma_off_removes(entries.drop_last(), id);
    }
}

/// A listener just registered for `t` is called last when a `t` event is
/// dispatched.
pub proof fn lemma_registered_listener_is_called<L>(entries: Seq<ListenerEntry<L>>, e: ListenerEntry<L>)
    ensures
        matching(entries.push(e), e.event_type).len() > 0,
        matching(entries.push(e), e.event_type).last() == e,
{
    lemma_matching_push(entries, e, e.event_type);
    lemma_same_type_reflexive(e.event_type);
}

proof fn lemma_same_type_reflexive(t: EventType)
    ensures
        same_type(t, t),
{
}

} // verus!
