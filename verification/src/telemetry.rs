//! Telemetry: opt-in, local-only recording of usage, error and crash events.
//!
//! Nothing is recorded while the level is `Off` (the default). Events are
//! kept in memory for the user to review or export.

use vstd::prelude::*;

use std::hash::{Hash, Hasher};

use crate::text::{lower_eq, push_char, spec_ascii_lower};

verus! {

// ── Outside items ────────────────────────────────────────────────────────────

/// Hashes a `std::time::SystemTime` with a fresh
/// `std::collections::hash_map::DefaultHasher`. `SystemTime` is opaque to
/// the verifier, so nothing is claimed of the value.
#[verifier::external_body]
fn time_hash(t: &std::time::SystemTime) -> u64 {
    let mut hasher = std::collections::hash_map::DefaultHasher::new();
    t.hash(&mut hasher);
    hasher.finish()
}

/// Hashes the host name returned by `hostname::get` (nothing when that call
/// fails) with `DefaultHasher`. The value depends on the machine, so nothing
/// is claimed of it.
#[verifier::external_body]
fn host_hash() -> u64 {
    let mut hasher = std::collections::hash_map::DefaultHasher::new();
    if let Ok(name) = hostname::get() {
        name.hash(&mut hasher);
    }
    hasher.finish()
}

// ── Levels ───────────────────────────────────────────────────────────────────

/// Which events are recorded.
#[derive(Debug, Clone, Copy, PartialEq, Eq)]
pub enum TelemetryLevel {
    /// Nothing (the default).
    Off,
    /// Crash reports only.
    Crash,
    /// Crashes and errors.
    Error,
    /// Crashes, errors and usage events.
    All,
}

impl Default for TelemetryLevel {
    fn default() -> (r: Self)
        ensures
            r == TelemetryLevel::Off,
    {
        TelemetryLevel::Off
    }
}

impl TelemetryLevel {
    /// Reads `telemetry.telemetryLevel`, ignoring ASCII case; anything
    /// unrecognised means `Off`.
    pub fn from_setting(s: &str) -> (r: Self)
        ensures
            r == (if spec_ascii_lower(s@) == "crash"@ {
                TelemetryLevel::Crash
            } else if spec_ascii_lower(s@) == "error"@ {
                TelemetryLevel::Error
            } else if spec_ascii_lower(s@) == "all"@ {
                TelemetryLevel::All
            } else {
                TelemetryLevel::Off
            }),
    {
        if lower_eq(s, "crash") {
            TelemetryLevel::Crash
        } else if lower_eq(s, "error") {
            TelemetryLevel::Error
        } else if lower_eq(s, "all") {
            TelemetryLevel::All
        } else {
            TelemetryLevel::Off
        }
    }
}

/// The three kinds of event.
pub enum EventKind {
    Usage,
    Error,
    Crash,
}

/// Rank of a level: `Off < Crash < Error < All`.
pub open spec fn rank(l: TelemetryLevel) -> int {
    match l {
        TelemetryLevel::Off => 0,
        TelemetryLevel::Crash => 1,
        TelemetryLevel::Error => 2,
        TelemetryLevel::All => 3,
    }
}

/// Whether events of `kind` are recorded at `level`.
pub open spec fn records(level: TelemetryLevel, kind: EventKind) -> bool {
    match kind {
        EventKind::Usage => level == TelemetryLevel::All,
        EventKind::Error => level == TelemetryLevel::Error || level == TelemetryLevel::All,
        EventKind::Crash => level != TelemetryLevel::Off,
    }
}

/// The classification recorded for `kind`.
pub open spec fn classification_of(kind: EventKind) -> Seq<char> {
    match kind {
        EventKind::Usage => "usage"@,
        EventKind::Error => "error"@,
        EventKind::Crash => "crash"@,
    }
}

// ── Properties ───────────────────────────────────────────────────────────────

/// Event properties as key/value text.
pub open spec fn prop_views(p: Seq<(String, String)>) -> Seq<(Seq<char>, Seq<char>)> {
    p.map_values(|kv: (String, String)| (kv.0@, kv.1@))
}

/// First index at or after `i` whose key is `k`.
pub open spec fn key_index_from(p: Seq<(Seq<char>, Seq<char>)>, k: Seq<char>, i: int) -> Option<int>
    decreases p.len() - i,
{
    if i < 0 || i >= p.len() {
        None
    } else if p[i].0 == k {
        Some(i)
    } else {
        key_index_from(p, k, i + 1)
    }
}

/// `p` with `k` set to `v`: an existing entry is overwritten, otherwise one
/// is added at the end.
pub open spec fn set_prop(p: Seq<(Seq<char>, Seq<char>)>, k: Seq<char>, v: Seq<char>) -> Seq<
    (Seq<char>, Seq<char>),
> {
    match key_index_from(p, k, 0) {
        Some(i) => p.update(i, (k, v)),
        None => p.push((k, v)),
    }
}

/// No key occurs twice.
pub open spec fn unique_keys(p: Seq<(Seq<char>, Seq<char>)>) -> bool {
    forall|i: int, j: int| 0 <= i < j < p.len() ==> p[i].0 != p[j].0
}

fn text_eq(a: &String, b: &str) -> (r: bool)
    ensures
        r == (a@ == b@),
{
    crate::text::str_eq(a.as_str(), b)
}

/// Sets `key` to `value` in `props`.
fn set_property(props: &mut Vec<(String, String)>, key: &str, value: &str)
    ensures
        prop_views(final(props)@) == set_prop(prop_views(old(props)@), key@, value@),
{
    let ghost pv = prop_views(props@);
    let n = props.len();
    let mut i: usize = 0;
    while i < n
        invariant
            i <= n,
            n == props@.len(),
            props@ == old(props)@,
            pv == prop_views(props@),
            key_index_from(pv, key@, i as int) == key_index_from(pv, key@, 0),
        decreases n - i,
    {
        if text_eq(&props[i].0, key) {
            props.set(i, (key.to_owned(), value.to_owned()));
            assert(prop_views(props@) =~= pv.update(i as int, (key@, value@)));
            return;
        }
        i = i + 1;
    }
    props.push((key.to_owned(), value.to_owned()));
    assert(prop_views(props@) =~= pv.push((key@, value@)));
}

// ── Events ───────────────────────────────────────────────────────────────────

/// A recorded telemetry event.
#[derive(Debug, Clone)]
pub struct TelemetryEvent {
    /// Machine-readable event name (e.g. `"editor.opened"`).
    pub event_name: String,
    /// Properties attached to the event.
    pub properties: Vec<(String, String)>,
    /// RFC 3339 timestamp.
    pub timestamp: String,
    /// `"usage"`, `"error"` or `"crash"`.
    pub classification: String,
}

/// Standard event names.
pub const EDITOR_OPENED: &'static str = "editor.opened";
pub const FILE_TYPE: &'static str = "editor.fileType";
pub const EXTENSION_INSTALLED: &'static str = "extension.installed";
pub const EXTENSION_UNINSTALLED: &'static str = "extension.uninstalled";
pub const COMMAND_EXECUTED: &'static str = "command.executed";
pub const FEATURE_USED: &'static str = "feature.used";
pub const WORKSPACE_OPENED: &'static str = "workspace.opened";
pub const TERMINAL_CREATED: &'static str = "terminal.created";
pub const DEBUG_SESSION_STARTED: &'static str = "debug.sessionStarted";
pub const SEARCH_PERFORMED: &'static str = "search.performed";

// ── Identifiers ──────────────────────────────────────────────────────────────

/// The hexadecimal digit for `n < 16`.
pub open spec fn hex_digit(n: u64) -> char {
    if n < 10 {
        ((n + 48) as u8) as char
    } else {
        ((n + 87) as u8) as char
    }
}

/// The nibble of `x` printed at position `i` of its 16-digit form.
pub open spec fn nibble(x: u64, i: int) -> u64 {
    (x >> ((60 - 4 * i) as u64)) & 15
}

/// `x` printed as 16 lower-case hexadecimal digits (`{:016x}`).
pub open spec fn hex16(x: u64) -> Seq<char> {
    Seq::new(16, |i: int| hex_digit(nibble(x, i)))
}

fn hex_char(n: u64) -> (r: char)
    requires
        n < 16,
    ensures
        r == hex_digit(n),
{
    if n < 10 {
        ((n + 48) as u8) as char
    } else {
        ((n + 87) as u8) as char
    }
}

/// `x` printed as 16 lower-case hexadecimal digits.
pub fn format_hex16(x: u64) -> (r: String)
    ensures
        r@ == hex16(x),
        r@.len() == 16,
{
    let mut out = String::new();
    let mut i: u64 = 0;
    while i < 16
        invariant
            i <= 16,
            out@ == hex16(x).take(i as int),
        decreases 16 - i,
    {
        let sh: u64 = 60 - 4 * i;
        let n = (x >> sh) & 15;
        assert(n < 16) by (bit_vector)
            requires
                n == (x >> sh) & 15,
        ;
        assert(n == nibble(x, i as int));
        let c = hex_char(n);
        push_char(&mut out, c);
        assert(hex16(x).take(i + 1) =~= hex16(x).take(i as int).push(c));
        i = i + 1;
    }
    assert(hex16(x).take(16) =~= hex16(x));
    out
}

// ── Service ──────────────────────────────────────────────────────────────────

/// Collects telemetry events locally.
pub struct TelemetryService {
    level: TelemetryLevel,
    events: Vec<TelemetryEvent>,
    session_id: String,
    machine_id: String,
}

/// Event `e` is `name`, of `kind`, with properties `props` plus the session
/// and machine identifiers.
pub open spec fn is_event(
    e: TelemetryEvent,
    name: Seq<char>,
    kind: EventKind,
    props: Seq<(Seq<char>, Seq<char>)>,
    session: Seq<char>,
    machine: Seq<char>,
) -> bool {
    &&& e.event_name@ == name
    &&& e.classification@ == classification_of(kind)
    &&& prop_views(e.properties@) == set_prop(set_prop(props, "sessionId"@, session), "machineId"@, machine)
}

impl TelemetryService {
    pub closed spec fn level_view(&self) -> TelemetryLevel {
        self.level
    }

    pub closed spec fn events_view(&self) -> Seq<TelemetryEvent> {
        self.events@
    }

    pub closed spec fn session_view(&self) -> Seq<char> {
        self.session_id@
    }

    pub closed spec fn machine_view(&self) -> Seq<char> {
        self.machine_id@
    }

    /// A service at `level` with the given session and machine seeds,
    /// printed as 16 hexadecimal digits each.
    pub fn with_seeds(level: TelemetryLevel, session_seed: u64, machine_seed: u64) -> (r: Self)
        ensures
            r.level_view() == level,
            r.events_view().len() == 0,
            r.session_view() == hex16(session_seed),
            r.machine_view() == hex16(machine_seed),
    {
        TelemetryService {
            level,
            events: Vec::new(),
            session_id: format_hex16(session_seed),
            machine_id: format_hex16(machine_seed),
        }
    }

    /// A service at `level`, identified by a hash of the clock (session) and
    /// of the host name (machine).
    pub fn new(level: TelemetryLevel) -> (r: Self)
        ensures
            r.level_view() == level,
            r.events_view().len() == 0,
            r.session_view().len() == 16,
            r.machine_view().len() == 16,
    {
        let now = crate::clock::system_now();
        Self::with_seeds(level, time_hash(&now), host_hash())
    }

    pub fn level(&self) -> (r: TelemetryLevel)
        ensures
            r == self.level_view(),
    {
        self.level
    }

    /// Changes the level (mirrors the user setting).
    pub fn set_level(&mut self, level: TelemetryLevel)
        ensures
            final(self).level_view() == level,
            final(self).events_view() == old(self).events_view(),
            final(self).session_view() == old(self).session_view(),
            final(self).machine_view() == old(self).machine_view(),
    {
        self.level = level;
    }

    /// Whether anything is recorded.
    pub fn is_enabled(&self) -> (r: bool)
        ensures
            r == (self.level_view() != TelemetryLevel::Off),
    {
        match self.level {
            TelemetryLevel::Off => false,
            _ => true,
        }
    }

    /// Records a usage event (at level `All` only).
    pub fn log_event(&mut self, event_name: &str, properties: &Vec<(String, String)>)
        ensures
            logged(*old(self), *final(self), event_name@, EventKind::Usage, prop_views(properties@)),
    {
        match self.level {
            TelemetryLevel::All => {},
            _ => {
                return;
            },
        }
        self.record(event_name, properties, "usage");
    }

    /// Records an error event (at levels `Error` and `All`), with the
    /// message as the `message` property.
    pub fn log_error(&mut self, error_name: &str, message: &str)
        ensures
            logged(
                *old(self),
                *final(self),
                error_name@,
                EventKind::Error,
                seq![("message"@, message@)],
            ),
    {
        match self.level {
            TelemetryLevel::Off | TelemetryLevel::Crash => {
                return;
            },
            _ => {},
        }
        let mut props = Vec::new();
        props.push(("message".to_owned(), message.to_owned()));
        assert(prop_views(props@) =~= seq![("message"@, message@)]);
        self.record(error_name, &props, "error");
    }

    /// Records a crash event (at every level but `Off`), with the message
    /// as the `message` property.
    pub fn log_crash(&mut self, error_name: &str, message: &str)
        ensures
            logged(
                *old(self),
                *final(self),
                error_name@,
                EventKind::Crash,
                seq![("message"@, message@)],
            ),
    {
        match self.level {
            TelemetryLevel::Off => {
                return;
            },
            _ => {},
        }
        let mut props = Vec::new();
        props.push(("message".to_owned(), message.to_owned()));
        assert(prop_views(props@) =~= seq![("message"@, message@)]);
        self.record(error_name, &props, "crash");
    }

    /// The recorded events, oldest first.
    pub fn events(&self) -> (r: &[TelemetryEvent])
        ensures
            r@ == self.events_view(),
    {
        self.events.as_slice()
    }

    /// Forgets all recorded events.
    pub fn clear(&mut self)
        ensures
            final(self).events_view().len() == 0,
            final(self).level_view() == old(self).level_view(),
            final(self).session_view() == old(self).session_view(),
            final(self).machine_view() == old(self).machine_view(),
    {
        self.events.clear();
    }

    pub fn event_count(&self) -> (r: usize)
        ensures
            r == self.events_view().len(),
    {
        self.events.len()
    }

    /// The session identifier chosen at start-up.
    pub fn session_id(&self) -> (r: &str)
        ensures
            r@ == self.session_view(),
    {
        self.session_id.as_str()
    }

    /// Appends an event with the session and machine identifiers added to
    /// its properties.
    pub fn record(&mut self, event_name: &str, properties: &Vec<(String, String)>, classification: &str)
        ensures
            final(self).events_view().len() == old(self).events_view().len() + 1,
            final(self).events_view().drop_last() == old(self).events_view(),
            final(self).events_view().last().event_name@ == event_name@,
            final(self).events_view().last().classification@ == classification@,
            prop_views(final(self).events_view().last().properties@) == set_prop(
                set_prop(prop_views(properties@), "sessionId"@, old(self).session_view()),
                "machineId"@,
                old(self).machine_view(),
            ),
            final(self).level_view() == old(self).level_view(),
            final(self).session_view() == old(self).session_view(),
            final(self).machine_view() == old(self).machine_view(),
    {
        let mut props: Vec<(String, String)> = Vec::new();
        let n = properties.len();
        let mut i: usize = 0;
        while i < n
            invariant
                i <= n,
                n == properties@.len(),
                prop_views(props@) =~= prop_views(properties@.take(i as int)),
            decreases n - i,
        {
            let kv = (properties[i].0.clone(), properties[i].1.clone());
            props.push(kv);
            assert(prop_views(properties@.take(i + 1)) =~= prop_views(properties@.take(i as int)).push(
                (properties@[i as int].0@, properties@[i as int].1@),
            ));
            i = i + 1;
        }
        assert(properties@.take(n as int) =~= properties@);
        set_property(&mut props, "sessionId", self.session_id.as_str());
        set_property(&mut props, "machineId", self.machine_id.as_str());
        self.events.push(
            TelemetryEvent {
                event_name: event_name.to_owned(),
                properties: props,
                timestamp: crate::clock::rfc3339_now(),
                classification: classification.to_owned(),
            },
        );
    }
}

impl Default for TelemetryService {
    fn default() -> (r: Self)
        ensures
            r.level_view() == TelemetryLevel::Off,
            r.events_view().len() == 0,
    {
        Self::new(TelemetryLevel::Off)
    }
}

/// `new` is `old` after logging `name` of `kind` with properties `props`: one
/// event is appended when the level records that kind, none otherwise.
pub open spec fn logged(
    old: TelemetryService,
    new: TelemetryService,
    name: Seq<char>,
    kind: EventKind,
    props: Seq<(Seq<char>, Seq<char>)>,
) -> bool {
    &&& new.level_view() == old.level_view()
    &&& new.session_view() == old.session_view()
    &&& new.machine_view() == old.machine_view()
    &&& if records(old.level_view(), kind) {
        &&& new.events_view().len() == old.events_view().len() + 1
        &&& new.events_view().drop_last() == old.events_view()
        &&& is_event(
            new.events_view().last(),
            name,
            kind,
            props,
            old.session_view(),
            old.machine_view(),
        )
    } else {
        new.events_view() == old.events_view()
    }
}

// ── Laws ─────────────────────────────────────────────────────────────────────

/// Levels are nested: whatever a level records, every higher level records
/// too; `Off` records nothing.
pub proof fn lemma_levels_nested(lo: TelemetryLevel, hi: TelemetryLevel, kind: EventKind)
    requires
        rank(lo) <= rank(hi),
        records(lo, kind),
    ensures
        records(hi, kind),
        lo != TelemetryLevel::Off,
{
}

/// `new` is `old` after one logging call (`log_event`, `log_error` or
/// `log_crash`), whatever its name, kind and properties.
pub open spec fn logging_step(old: TelemetryService, new: TelemetryService) -> bool {
    exists|name: Seq<char>, kind: EventKind, props: Seq<(Seq<char>, Seq<char>)>|
        #[trigger] logged(old, new, name, kind, props)
}

/// Nothing is recorded while telemetry is off: over any run of logging
/// calls that starts at level `Off`, every state is still at `Off` and
/// holds the events of the first.
pub proof fn lemma_off_records_nothing(states: Seq<TelemetryService>)
    requires
        states.len() > 0,
        states[0].level_view() == TelemetryLevel::Off,
        forall|i: int| 0 <= i < states.len() - 1 ==> #[trigger] logging_step(states[i], states[i + 1]),
    ensures
        forall|i: int|
            0 <= i < states.len() ==> (#[trigger] states[i]).level_view() == TelemetryLevel::Off
                && states[i].events_view() == states[0].events_view(),
    decreases states.len(),
{
    if states.len() > 1 {
        let init = states.drop_last();
        assert forall|i: int| 0 <= i < init.len() - 1 implies #[trigger] logging_step(init[i], init[i + 1]) by {
            assert(logging_step(states[i], states[i + 1]));
        }
        lemma_off_records_nothing(init);
        let n = states.len() - 1;
        assert(init[n - 1] == states[n - 1]);
        let j = n - 1;
        assert(logging_step(states[j], states[j + 1]));
        assert(states[j + 1] == states[n]);
        let (name, kind, props) = choose|name: Seq<char>, kind: EventKind, props: Seq<(Seq<char>, Seq<char>)>|
            #[trigger] logged(states[n - 1], states[n], name, kind, props);
        assert forall|i: int| 0 <= i < states.len() implies (#[trigger] states[i]).level_view()
            == TelemetryLevel::Off && states[i].events_view() == states[0].events_view() by {
            if i < n {
                assert(states[i] == init[i]);
            }
        }
    }
}

/// Setting a property keeps keys unique and leaves the key holding exactly
/// the new value.
pub proof fn lemma_set_prop_unique(p: Seq<(Seq<char>, Seq<char>)>, k: Seq<char>, v: Seq<char>)
    requires
        unique_keys(p),
    ensures
        unique_keys(set_prop(p, k, v)),
        set_prop(p, k, v).contains((k, v)),
        key_index_from(set_prop(p, k, v), k, 0) is Some,
{
    lemma_key_index(p, k, 0);
    let q = set_prop(p, k, v);
    match key_index_from(p, k, 0) {
        Some(i) => {
            assert(q[i] == (k, v));
            lemma_key_found(q, k, 0, i);
        },
        None => {
            assert(q[p.len() as int] == (k, v));
            lemma_key_found(q, k, 0, p.len() as int);
        },
    }
}

/// A result of `key_index_from` is an in-range index with that key, and no
/// index before it (from `i`) has the key.
pub proof fn lemma_key_index(p: Seq<(Seq<char>, Seq<char>)>, k: Seq<char>, i: int)
    requires
        0 <= i,
    ensures
        key_index_from(p, k, i) matches Some(j) ==> i <= j < p.len() && p[j].0 == k,
        key_index_from(p, k, i) is None ==> forall|j: int| i <= j < p.len() ==> p[j].0 != k,
    decreases p.len() - i,
{
    if i < p.len() && p[i].0 != k {
        lemma_key_index(p, k, i + 1);
    }
}

/// When an index at or after `i` holds key `k`, the search finds one.
pub proof fn lemma_key_found(p: Seq<(Seq<char>, Seq<char>)>, k: Seq<char>, i: int, j: int)
    requires
        0 <= i <= j < p.len(),
        p[j].0 == k,
    ensures
        key_index_from(p, k, i) is Some,
    decreases j - i,
{
    if p[i].0 != k {
        lemma_key_found(p, k, i + 1, j);
    }
}

} // verus!
