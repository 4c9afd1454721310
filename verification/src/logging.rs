//! Structured logging: severity levels, where entries go, which entries a
//! level lets through, and the bounded in-memory buffer of each channel.
//! Writing to the console and to files is the application's part.

use vstd::prelude::*;

pub mod channels;

use crate::text::{spec_ascii_lower, str_eq, to_ascii_lowercase};

verus! {

/// How many entries a channel buffers before the older half is dropped.
pub const MAX_CHANNEL_BUFFER: usize = 2000;

/// How many days of log files are kept.
pub const LOG_RETENTION_DAYS: u64 = 30;

/// Severity of a log entry, from least to most severe; `Off` is above all.
#[derive(Debug, Clone, Copy, PartialEq, Eq, Structural, PartialOrd, Ord, Hash)]
pub enum LogLevel {
    Trace,
    Debug,
    Info,
    Warning,
    Error,
    Critical,
    Off,
}

/// The position of a level in the severity order.
pub open spec fn severity(l: LogLevel) -> int {
    match l {
        LogLevel::Trace => 0,
        LogLevel::Debug => 1,
        LogLevel::Info => 2,
        LogLevel::Warning => 3,
        LogLevel::Error => 4,
        LogLevel::Critical => 5,
        LogLevel::Off => 6,
    }
}

/// The level a setting names, ignoring ASCII case (`Info` when it names
/// none).
pub open spec fn level_named(lower: Seq<char>) -> LogLevel {
    if lower == "trace"@ {
        LogLevel::Trace
    } else if lower == "debug"@ {
        LogLevel::Debug
    } else if lower == "info"@ {
        LogLevel::Info
    } else if lower == "warn"@ || lower == "warning"@ {
        LogLevel::Warning
    } else if lower == "error"@ {
        LogLevel::Error
    } else if lower == "critical"@ || lower == "fatal"@ {
        LogLevel::Critical
    } else if lower == "off"@ {
        LogLevel::Off
    } else {
        LogLevel::Info
    }
}

/// The tag printed for a level.
pub open spec fn level_tag(l: LogLevel) -> Seq<char> {
    match l {
        LogLevel::Trace => "TRACE"@,
        LogLevel::Debug => "DEBUG"@,
        LogLevel::Info => "INFO"@,
        LogLevel::Warning => "WARN"@,
        LogLevel::Error => "ERROR"@,
        LogLevel::Critical => "CRIT"@,
        LogLevel::Off => "OFF"@,
    }
}

impl LogLevel {
    /// The level a setting names, ignoring ASCII case; anything else is
    /// `Info`.
    pub fn from_str_loose(s: &str) -> (r: Self)
        ensures
            r == level_named(spec_ascii_lower(s@)),
    {
        let lower = to_ascii_lowercase(s);
        let t = lower.as_str();
        if str_eq(t, "trace") {
            LogLevel::Trace
        } else if str_eq(t, "debug") {
            LogLevel::Debug
        } else if str_eq(t, "info") {
            LogLevel::Info
        } else if str_eq(t, "warn") || str_eq(t, "warning") {
            LogLevel::Warning
        } else if str_eq(t, "error") {
            LogLevel::Error
        } else if str_eq(t, "critical") || str_eq(t, "fatal") {
            LogLevel::Critical
        } else if str_eq(t, "off") {
            LogLevel::Off
        } else {
            LogLevel::Info
        }
    }

    /// The tag printed for this level.
    pub fn label(self) -> (r: &'static str)
        ensures
            r@ == level_tag(self),
    {
        match self {
            LogLevel::Trace => "TRACE",
            LogLevel::Debug => "DEBUG",
            LogLevel::Info => "INFO",
            LogLevel::Warning => "WARN",
            LogLevel::Error => "ERROR",
            LogLevel::Critical => "CRIT",
            LogLevel::Off => "OFF",
        }
    }

    /// The position of this level in the severity order.
    pub fn severity(self) -> (r: u8)
        ensures
            r == severity(self),
    {
        match self {
            LogLevel::Trace => 0,
            LogLevel::Debug => 1,
            LogLevel::Info => 2,
            LogLevel::Warning => 3,
            LogLevel::Error => 4,
            LogLevel::Critical => 5,
            LogLevel::Off => 6,
        }
    }

    /// Whether a service at this level records an entry of `level`: the
    /// entry is at least as severe, and the service is not `Off`.
    pub fn allows(self, level: LogLevel) -> (r: bool)
        ensures
            r == (severity(level) >= severity(self) && self != LogLevel::Off),
    {
        level.severity() >= self.severity() && self != LogLevel::Off
    }
}

impl Default for LogLevel {
    fn default() -> (r: Self)
        ensures
            r == LogLevel::Info,
    {
        LogLevel::Info
    }
}

/// Where log entries are written.
#[derive(Debug, Clone)]
pub enum LogOutput {
    /// Standard error (console).
    Console,
    /// Daily-rotating files under a directory.
    File(String),
    /// A named output channel, kept in memory and shown in the Output panel.
    OutputChannel(String),
}

/// A channel buffer after `entry` is appended: when it then holds more than
/// `MAX_CHANNEL_BUFFER` entries, the oldest `MAX_CHANNEL_BUFFER / 2` go.
pub open spec fn buffer_after_push<T>(buf: Seq<T>, entry: T) -> Seq<T> {
    let l = buf.push(entry);
    if l.len() > MAX_CHANNEL_BUFFER {
        l.subrange((MAX_CHANNEL_BUFFER / 2) as int, l.len() as int)
    } else {
        l
    }
}

/// Appends `entry` to a channel buffer, dropping the oldest half of the
/// bound when the buffer grows past it.
pub fn push_bounded<T>(buf: &mut Vec<T>, entry: T)
    ensures
        final(buf)@ == buffer_after_push(old(buf)@, entry),
{
    buf.push(entry);
    if buf.len() > MAX_CHANNEL_BUFFER {
        let tail = buf.split_off(MAX_CHANNEL_BUFFER / 2);
        *buf = tail;
    }
}

/// A buffer that starts within the bound stays within it.
pub proof fn lemma_buffer_stays_bounded<T>(buf: Seq<T>, entry: T)
    requires
        buf.len() <= MAX_CHANNEL_BUFFER,
    ensures
        buffer_after_push(buf, entry).len() <= MAX_CHANNEL_BUFFER,
        buffer_after_push(buf, entry).last() == entry,
{
}

/// A higher threshold lets through no more than a lower one.
pub proof fn lemma_allows_monotone(low: LogLevel, high: LogLevel, level: LogLevel)
    requires
        severity(low) <= severity(high),
        severity(level) >= severity(high) && high != LogLevel::Off,
    ensures
        severity(level) >= severity(low) && low != LogLevel::Off,
{
}

// ── Log service ──────────────────────────────────────────────────────────────

#[verifier::external_type_specification]
#[verifier::external_body]
pub struct ExJsonValue(serde_json::Value);

/// `serde_json::Value::clone` (derived): a deep copy. Values are only
/// carried through, so nothing is claimed of the copy.
pub assume_specification[ <serde_json::Value as Clone>::clone ](v: &serde_json::Value) -> serde_json::Value;

/// One structured log entry.
#[derive(Debug, Clone)]
pub struct LogEntry {
    /// When the entry was created (RFC 3339).
    pub timestamp: String,
    pub level: LogLevel,
    /// The emitting subsystem, which is also the channel name.
    pub source: String,
    pub message: String,
    /// An optional structured payload.
    pub data: Option<serde_json::Value>,
}

/// The first channel, from `i` on, named `name`.
pub open spec fn channel_index_from(chs: Seq<(Seq<char>, Seq<LogEntry>)>, name: Seq<char>, i: int) -> Option<int>
    decreases chs.len() - i,
{
    if i < 0 || i >= chs.len() {
        None
    } else if chs[i].0 == name {
        Some(i)
    } else {
        channel_index_from(chs, name, i + 1)
    }
}

/// The channel named `name`.
pub open spec fn channel_index(chs: Seq<(Seq<char>, Seq<LogEntry>)>, name: Seq<char>) -> Option<int> {
    channel_index_from(chs, name, 0)
}

/// The channels after `e` is buffered in channel `name` (a new channel at
/// the end if there was none).
pub open spec fn logged(chs: Seq<(Seq<char>, Seq<LogEntry>)>, name: Seq<char>, e: LogEntry) -> Seq<(Seq<char>, Seq<LogEntry>)> {
    match channel_index(chs, name) {
        Some(i) => chs.update(i, (chs[i].0, buffer_after_push(chs[i].1, e))),
        None => chs.push((name, seq![e])),
    }
}

/// The number of entries buffered in the channels from `i` on.
pub open spec fn entries_from(chs: Seq<(Seq<char>, Seq<LogEntry>)>, i: int) -> int
    decreases chs.len() - i,
{
    if i < 0 || i >= chs.len() {
        0
    } else {
        chs[i].1.len() + entries_from(chs, i + 1)
    }
}

proof fn lemma_channel_index(chs: Seq<(Seq<char>, Seq<LogEntry>)>, name: Seq<char>, i: int)
    requires
        0 <= i,
    ensures
        channel_index_from(chs, name, i) matches Some(k) ==> i <= k < chs.len() && chs[k].0 == name,
        channel_index_from(chs, name, i) is None ==> forall|j: int| i <= j < chs.len() ==> chs[j].0 != name,
    decreases chs.len() - i,
{
    if i < chs.len() && chs[i].0 != name {
        lemma_channel_index(chs, name, i + 1);
    }
}

proof fn lemma_entries_from_bounded(chs: Seq<(Seq<char>, Seq<LogEntry>)>, i: int)
    requires
        0 <= i < chs.len(),
    ensures
        entries_from(chs, i) <= entries_from(chs, 0),
    decreases i,
{
    if i > 0 {
        lemma_entries_from_bounded(chs, i - 1);
    }
}

/// The logging service: the level, the outputs, and the entries buffered
/// per channel for the Output panel. Writing to the console and to files
/// is the application's part.
pub struct LogService {
    level: LogLevel,
    outputs: Vec<LogOutput>,
    channel_logs: Vec<(String, Vec<LogEntry>)>,
    log_dir: String,
    initialised: bool,
}

impl LogService {
    /// The level below which entries are dropped.
    pub closed spec fn level_view(&self) -> LogLevel {
        self.level
    }

    /// The output sinks.
    pub closed spec fn outputs_view(&self) -> Seq<LogOutput> {
        self.outputs@
    }

    /// The channels in the order they were first written, with their
    /// buffered entries.
    pub closed spec fn channels_view(&self) -> Seq<(Seq<char>, Seq<LogEntry>)> {
        self.channel_logs@.map_values(|c: (String, Vec<LogEntry>)| (c.0@, c.1@))
    }

    /// The directory of the log files.
    pub closed spec fn dir_view(&self) -> Seq<char> {
        self.log_dir@
    }

    /// Whether the service was initialised.
    pub closed spec fn initialised_view(&self) -> bool {
        self.initialised
    }

    /// A service at `level` writing to the console and to files under
    /// `log_dir` (which the application has created), with no channels.
    pub fn init(level: LogLevel, log_dir: &str) -> (r: Self)
        ensures
            r.level_view() == level,
            r.outputs_view().len() == 2,
            r.outputs_view()[0] is Console,
            r.outputs_view()[1] matches LogOutput::File(d) && d@ == log_dir@,
            r.channels_view().len() == 0,
            r.dir_view() == log_dir@,
            r.initialised_view(),
    {
        let mut outputs: Vec<LogOutput> = Vec::new();
        outputs.push(LogOutput::Console);
        outputs.push(LogOutput::File(log_dir.to_string()));
        let r = LogService {
            level,
            outputs,
            channel_logs: Vec::new(),
            log_dir: log_dir.to_string(),
            initialised: true,
        };
        assert(r.channels_view() =~= Seq::<(Seq<char>, Seq<LogEntry>)>::empty());
        r
    }

    /// The current level.
    pub fn level(&self) -> (r: LogLevel)
        ensures
            r == self.level_view(),
    {
        self.level
    }

    /// Changes the level at run time.
    pub fn set_level(&mut self, level: LogLevel)
        ensures
            final(self).level_view() == level,
            final(self).outputs_view() == old(self).outputs_view(),
            final(self).channels_view() == old(self).channels_view(),
            final(self).dir_view() == old(self).dir_view(),
    {
        self.level = level;
    }

    /// The output sinks.
    pub fn outputs(&self) -> (r: &[LogOutput])
        ensures
            r@ == self.outputs_view(),
    {
        self.outputs.as_slice()
    }

    /// Adds an output sink.
    pub fn add_output(&mut self, output: LogOutput)
        ensures
            final(self).outputs_view() == old(self).outputs_view().push(output),
            final(self).level_view() == old(self).level_view(),
            final(self).channels_view() == old(self).channels_view(),
            final(self).dir_view() == old(self).dir_view(),
    {
        self.outputs.push(output);
    }

    fn channel_position(&self, name: &str) -> (r: Option<usize>)
        ensures
            r matches Some(i) ==> channel_index(self.channels_view(), name@) == Some(i as int)
                && i < self.channel_logs@.len(),
            r is None ==> channel_index(self.channels_view(), name@) is None,
    {
        proof {
            lemma_channel_index(self.channels_view(), name@, 0);
        }
        let mut i: usize = 0;
        while i < self.channel_logs.len()
            invariant
                i <= self.channel_logs@.len(),
                channel_index_from(self.channels_view(), name@, i as int) == channel_index(self.channels_view(), name@),
            decreases self.channel_logs@.len() - i,
        {
            if str_eq(self.channel_logs[i].0.as_str(), name) {
                return Some(i);
            }
            i = i + 1;
        }
        None
    }

    /// Logs an entry: one below the level (or any, at `Off`) is dropped;
    /// otherwise it is stamped with the current time and buffered in the
    /// channel of `source`. Returns whether it was kept, in which case the
    /// application writes it (the last entry of that channel) to the
    /// outputs.
    pub fn log(&mut self, level: LogLevel, source: &str, message: &str, data: Option<serde_json::Value>) -> (r: bool)
        ensures
            r == (severity(level) >= severity(old(self).level_view()) && old(self).level_view() != LogLevel::Off),
            !r ==> final(self).channels_view() == old(self).channels_view(),
            r ==> exists|e: LogEntry|
                e.level == level && e.source@ == source@ && e.message@ == message@ && e.data == data
                    && #[trigger] final(self).channels_view() == logged(old(self).channels_view(), source@, e),
            final(self).level_view() == old(self).level_view(),
            final(self).outputs_view() == old(self).outputs_view(),
            final(self).dir_view() == old(self).dir_view(),
    {
        if !self.level.allows(level) {
            return false;
        }
        let entry = LogEntry {
            timestamp: crate::clock::rfc3339_now(),
            level,
            source: source.to_string(),
            message: message.to_string(),
            data,
        };
        let ghost e = entry;
        let ghost before = self.channels_view();
        match self.channel_position(source) {
            Some(i) => {
                let mut buf: Vec<LogEntry> = Vec::new();
                std::mem::swap(&mut buf, &mut self.channel_logs[i].1);
                push_bounded(&mut buf, entry);
                std::mem::swap(&mut buf, &mut self.channel_logs[i].1);
                assert(self.channels_view() =~= before.update(i as int, (before[i as int].0, buffer_after_push(before[i as int].1, e))));
            },
            None => {
                let mut buf: Vec<LogEntry> = Vec::new();
                buf.push(entry);
                self.channel_logs.push((source.to_string(), buf));
                assert(self.channels_view() =~= before.push((source@, seq![e])));
            },
        }
        assert(self.channels_view() == logged(before, source@, e));
        true
    }

    /// Logs at `Trace` (see `log`).
    pub fn trace(&mut self, source: &str, message: &str) -> (r: bool)
        ensures
            r == (severity(LogLevel::Trace) >= severity(old(self).level_view()) && old(self).level_view() != LogLevel::Off),
            !r ==> final(self).channels_view() == old(self).channels_view(),
            r ==> exists|e: LogEntry|
                e.level == LogLevel::Trace && e.source@ == source@ && e.message@ == message@ && e.data is None
                    && #[trigger] final(self).channels_view() == logged(old(self).channels_view(), source@, e),
            final(self).level_view() == old(self).level_view(),
    {
        self.log(LogLevel::Trace, source, message, None)
    }

    /// Logs at `Debug` (see `log`).
    pub fn debug(&mut self, source: &str, message: &str) -> (r: bool)
        ensures
            r == (severity(LogLevel::Debug) >= severity(old(self).level_view()) && old(self).level_view() != LogLevel::Off),
            !r ==> final(self).channels_view() == old(self).channels_view(),
            r ==> exists|e: LogEntry|
                e.level == LogLevel::Debug && e.source@ == source@ && e.message@ == message@ && e.data is None
                    && #[trigger] final(self).channels_view() == logged(old(self).channels_view(), source@, e),
            final(self).level_view() == old(self).level_view(),
    {
        self.log(LogLevel::Debug, source, message, None)
    }

    /// Logs at `Info` (see `log`).
    pub fn info(&mut self, source: &str, message: &str) -> (r: bool)
        ensures
            r == (severity(LogLevel::Info) >= severity(old(self).level_view()) && old(self).level_view() != LogLevel::Off),
            !r ==> final(self).channels_view() == old(self).channels_view(),
            r ==> exists|e: LogEntry|
                e.level == LogLevel::Info && e.source@ == source@ && e.message@ == message@ && e.data is None
                    && #[trigger] final(self).channels_view() == logged(old(self).channels_view(), source@, e),
            final(self).level_view() == old(self).level_view(),
    {
        self.log(LogLevel::Info, source, message, None)
    }

    /// Logs at `Warning` (see `log`).
    pub fn warn(&mut self, source: &str, message: &str) -> (r: bool)
        ensures
            r == (severity(LogLevel::Warning) >= severity(old(self).level_view()) && old(self).level_view() != LogLevel::Off),
            !r ==> final(self).channels_view() == old(self).channels_view(),
            r ==> exists|e: LogEntry|
                e.level == LogLevel::Warning && e.source@ == source@ && e.message@ == message@ && e.data is None
                    && #[trigger] final(self).channels_view() == logged(old(self).channels_view(), source@, e),
            final(self).level_view() == old(self).level_view(),
    {
        self.log(LogLevel::Warning, source, message, None)
    }

    /// Logs at `Error` (see `log`).
    pub fn error(&mut self, source: &str, message: &str) -> (r: bool)
        ensures
            r == (severity(LogLevel::Error) >= severity(old(self).level_view()) && old(self).level_view() != LogLevel::Off),
            !r ==> final(self).channels_view() == old(self).channels_view(),
            r ==> exists|e: LogEntry|
                e.level == LogLevel::Error && e.source@ == source@ && e.message@ == message@ && e.data is None
                    && #[trigger] final(self).channels_view() == logged(old(self).channels_view(), source@, e),
            final(self).level_view() == old(self).level_view(),
    {
        self.log(LogLevel::Error, source, message, None)
    }

    /// Logs at `Critical` (see `log`).
    pub fn critical(&mut self, source: &str, message: &str) -> (r: bool)
        ensures
            r == (severity(LogLevel::Critical) >= severity(old(self).level_view()) && old(self).level_view() != LogLevel::Off),
            !r ==> final(self).channels_view() == old(self).channels_view(),
            r ==> exists|e: LogEntry|
                e.level == LogLevel::Critical && e.source@ == source@ && e.message@ == message@ && e.data is None
                    && #[trigger] final(self).channels_view() == logged(old(self).channels_view(), source@, e),
            final(self).level_view() == old(self).level_view(),
    {
        self.log(LogLevel::Critical, source, message, None)
    }

    /// The entries buffered in `channel` (none for an unknown channel).
    pub fn get_channel_log(&self, channel: &str) -> (r: &[LogEntry])
        ensures
            match channel_index(self.channels_view(), channel@) {
                Some(i) => r@ == self.channels_view()[i].1,
                None => r@.len() == 0,
            },
    {
        match self.channel_position(channel) {
            Some(i) => self.channel_logs[i].1.as_slice(),
            None => {
                let r: &[LogEntry] = &[];
                r
            },
        }
    }

    /// The channel names, in the order they were first written.
    pub fn channels(&self) -> (r: Vec<&str>)
        ensures
            r@.len() == self.channels_view().len(),
            forall|i: int| 0 <= i < r@.len() ==> #[trigger] r@[i]@ == self.channels_view()[i].0,
    {
        let mut out: Vec<&str> = Vec::new();
        let mut i: usize = 0;
        while i < self.channel_logs.len()
            invariant
                i <= self.channel_logs@.len(),
                out@.len() == i,
                forall|j: int| 0 <= j < i ==> #[trigger] out@[j]@ == self.channels_view()[j].0,
            decreases self.channel_logs@.len() - i,
        {
            out.push(self.channel_logs[i].0.as_str());
            i = i + 1;
        }
        out
    }

    /// Empties the buffer of `channel` (which stays listed).
    pub fn clear_channel(&mut self, channel: &str)
        ensures
            match channel_index(old(self).channels_view(), channel@) {
                Some(i) => final(self).channels_view() == old(self).channels_view().update(
                    i,
                    (old(self).channels_view()[i].0, Seq::empty()),
                ),
                None => final(self).channels_view() == old(self).channels_view(),
            },
            final(self).level_view() == old(self).level_view(),
            final(self).outputs_view() == old(self).outputs_view(),
            final(self).dir_view() == old(self).dir_view(),
    {
        let ghost before = self.channels_view();
        if let Some(i) = self.channel_position(channel) {
            self.channel_logs[i].1.clear();
            assert(self.channels_view() =~= before.update(i as int, (before[i as int].0, Seq::empty())));
        }
    }

    /// How many entries are buffered over all channels.
    pub fn total_entries(&self) -> (r: usize)
        requires
            entries_from(self.channels_view(), 0) <= usize::MAX,
        ensures
            r == entries_from(self.channels_view(), 0),
    {
        let ghost chs = self.channels_view();
        let mut total: usize = 0;
        let mut i: usize = self.channel_logs.len();
        while i > 0
            invariant
                i <= self.channel_logs@.len(),
                chs == self.channels_view(),
                chs.len() == self.channel_logs@.len(),
                total == entries_from(chs, i as int),
                entries_from(chs, 0) <= usize::MAX,
            decreases i,
        {
            proof {
                lemma_entries_from_bounded(chs, (i - 1) as int);
            }
            assert(chs[i - 1].1.len() == self.channel_logs@[i - 1].1@.len());
            total = total + self.channel_logs[i - 1].1.len();
            i = i - 1;
        }
        total
    }

    /// Whether the service was initialised.
    pub fn is_initialised(&self) -> (r: bool)
        ensures
            r == self.initialised_view(),
    {
        self.initialised
    }

    /// The directory of the log files.
    pub fn log_dir(&self) -> (r: &str)
        ensures
            r@ == self.dir_view(),
    {
        self.log_dir.as_str()
    }
}

// ── Log lines ────────────────────────────────────────────────────────────────

/// `s` padded with spaces on the right to at least `width` characters.
pub open spec fn padded(s: Seq<char>, width: nat) -> Seq<char> {
    if s.len() >= width {
        s
    } else {
        s + Seq::new((width - s.len()) as nat, |i: int| ' ')
    }
}

/// The first `n` characters of `s` (all of it when shorter).
pub open spec fn prefix_of(s: Seq<char>, n: nat) -> Seq<char> {
    if s.len() <= n {
        s
    } else {
        s.subrange(0, n as int)
    }
}

/// `[STAMP LEVEL] [SOURCE] MESSAGE`, the level padded to five characters.
pub open spec fn log_line(stamp: Seq<char>, e: LogEntry) -> Seq<char> {
    "["@ + stamp + " "@ + padded(level_tag(e.level), 5) + "] ["@ + e.source@ + "] "@ + e.message@
}

fn pad_to(s: &str, width: usize) -> (r: String)
    ensures
        r@ == padded(s@, width as nat),
{
    let mut out = s.to_string();
    let mut n = s.unicode_len();
    if n >= width {
        return out;
    }
    let ghost base = s@;
    while n < width
        invariant
            base == s@,
            base.len() <= n <= width,
            out@ == base + Seq::new((n - base.len()) as nat, |i: int| ' '),
        decreases width - n,
    {
        let ghost before = out@;
        out.append(" ");
        proof {
            reveal_strlit(" ");
        }
        assert(out@ =~= base + Seq::new((n + 1 - base.len()) as nat, |i: int| ' '));
        n = n + 1;
    }
    out
}

fn take_chars(s: &str, n: usize) -> (r: &str)
    ensures
        r@ == prefix_of(s@, n as nat),
{
    let len = s.unicode_len();
    if len <= n {
        s
    } else {
        s.substring_char(0, n)
    }
}

fn line_with_stamp(stamp: &str, entry: &LogEntry) -> (r: String)
    ensures
        r@ == log_line(stamp@, *entry),
{
    let mut out = String::from_str("[");
    out.append(stamp);
    out.append(" ");
    let level = pad_to(entry.level.label(), 5);
    out.append(level.as_str());
    out.append("] [");
    out.append(entry.source.as_str());
    out.append("] ");
    out.append(entry.message.as_str());
    proof {
        reveal_strlit("[");
        reveal_strlit(" ");
        reveal_strlit("] [");
        reveal_strlit("] ");
    }
    out
}

/// The console line of an entry: its time cut to the first 19 characters
/// (`YYYY-MM-DDTHH:MM:SS`).
pub fn console_line(entry: &LogEntry) -> (r: String)
    ensures
        r@ == log_line(prefix_of(entry.timestamp@, 19), *entry),
{
    line_with_stamp(take_chars(entry.timestamp.as_str(), 19), entry)
}

/// The log-file line of an entry, with its whole timestamp.
pub fn file_line(entry: &LogEntry) -> (r: String)
    ensures
        r@ == log_line(entry.timestamp@, *entry),
{
    line_with_stamp(entry.timestamp.as_str(), entry)
}

/// The daily folder an entry is filed under: the first ten characters of
/// its timestamp (`YYYY-MM-DD`).
pub fn day_folder(entry: &LogEntry) -> (r: &str)
    ensures
        r@ == prefix_of(entry.timestamp@, 10),
{
    take_chars(entry.timestamp.as_str(), 10)
}

/// A service logs an entry exactly when its level allows it, and the
/// channel it lands in stays within `MAX_CHANNEL_BUFFER` entries.
pub proof fn lemma_logged_channel_bounded(chs: Seq<(Seq<char>, Seq<LogEntry>)>, name: Seq<char>, e: LogEntry)
    requires
        forall|i: int| 0 <= i < chs.len() ==> (#[trigger] chs[i]).1.len() <= MAX_CHANNEL_BUFFER,
    ensures
        forall|i: int|
            0 <= i < logged(chs, name, e).len() ==> (#[trigger] logged(chs, name, e)[i]).1.len()
                <= MAX_CHANNEL_BUFFER,
        logged(chs, name, e).len() >= chs.len(),
{
    lemma_channel_index(chs, name, 0);
    match channel_index(chs, name) {
        Some(k) => {
            lemma_buffer_stays_bounded(chs[k].1, e);
        },
        None => {},
    }
}

} // verus!
