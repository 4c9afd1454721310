//! Crash reports: what a report holds, how report files are named and
//! recognised, and the newest-first order in which pending reports are
//! offered. Installing the panic hook and reading or deleting report files
//! are the application's part.

use vstd::prelude::*;

use crate::paths::{extension, join_path, path_extension, path_join};
use crate::telemetry::{format_hex16, hex16};
use crate::text::str_eq;

verus! {

/// Where crash reports are kept, and whether they are collected.
pub struct CrashReporter {
    pub enabled: bool,
    pub crash_dir: String,
    pub max_reports: usize,
}

impl CrashReporter {
    /// An enabled reporter keeping up to 20 reports in `crash_dir`.
    pub fn new(crash_dir: &str) -> (r: Self)
        ensures
            r.enabled,
            r.crash_dir@ == crash_dir@,
            r.max_reports == 20,
    {
        CrashReporter { enabled: true, crash_dir: crash_dir.to_string(), max_reports: 20 }
    }

    /// The reporter for the default directory, `{data_dir}/sidex/crashes`
    /// (`data_dir` is the platform's data directory, or the temporary
    /// directory without one).
    pub fn default_dir(data_dir: &str) -> (r: Self)
        ensures
            r.enabled,
            r.crash_dir@ == path_join(path_join(data_dir@, "sidex"@), "crashes"@),
            r.max_reports == 20,
    {
        let dir = join_path(data_dir, "sidex");
        let dir = join_path(dir.as_str(), "crashes");
        Self::new(dir.as_str())
    }

    /// The file of report `report_id`: `ID.json`.
    pub fn report_file_name(&self, report_id: &str) -> (r: String)
        ensures
            r@ == report_id@ + ".json"@,
    {
        let mut s = report_id.to_string();
        s.append(".json");
        s
    }
}

/// One crash report, as saved on disk.
#[derive(Debug, Clone)]
pub struct CrashReport {
    /// Unique id (`crash-` and a hex hash).
    pub id: String,
    /// When the crash happened (RFC 3339).
    pub timestamp: String,
    /// Application version at the time.
    pub version: String,
    /// Operating system.
    pub os: String,
    /// CPU architecture.
    pub arch: String,
    /// The panic message and location.
    pub stack_trace: String,
    /// The last lines of the log.
    pub log_excerpt: String,
    /// Extensions loaded at the time.
    pub extensions: Vec<String>,
}

/// The id of a report whose hash is `hash`: `crash-` and 16 hex digits.
pub fn report_id_for(hash: u64) -> (r: String)
    ensures
        r@ == "crash-"@ + hex16(hash),
{
    let mut s = String::from_str("crash-");
    let h = format_hex16(hash);
    s.append(h.as_str());
    s
}

/// Whether a file at `path` is a report (its extension is `json`).
pub fn is_report_file(path: &str) -> (r: bool)
    ensures
        r == (path_extension(path@) == Some("json"@)),
{
    match extension(path) {
        Some(e) => str_eq(e.as_str(), "json"),
        None => false,
    }
}

/// Whether `a` sorts before `b` (character by character, a proper prefix
/// first), as `String`'s order does.
pub open spec fn text_before(a: Seq<char>, b: Seq<char>) -> bool
    decreases a.len(),
{
    if a.len() == 0 {
        b.len() > 0
    } else if b.len() == 0 {
        false
    } else if a[0] != b[0] {
        (a[0] as u32) < (b[0] as u32)
    } else {
        text_before(a.drop_first(), b.drop_first())
    }
}

/// Whether `a` sorts before `b`.
pub fn text_less(a: &str, b: &str) -> (r: bool)
    ensures
        r == text_before(a@, b@),
{
    let n = a.unicode_len();
    let m = b.unicode_len();
    let mut i: usize = 0;
    assert(a@.subrange(0, n as int) =~= a@);
    assert(b@.subrange(0, m as int) =~= b@);
    while i < n && i < m
        invariant
            i <= n,
            i <= m,
            n == a@.len(),
            m == b@.len(),
            text_before(a@.subrange(i as int, n as int), b@.subrange(i as int, m as int))
                == text_before(a@, b@),
        decreases n - i,
    {
        let x = a.get_char(i);
        let y = b.get_char(i);
        assert(a@.subrange(i as int, n as int)[0] == x);
        assert(b@.subrange(i as int, m as int)[0] == y);
        if x != y {
            return (x as u32) < (y as u32);
        }
        assert(a@.subrange(i as int, n as int).drop_first() =~= a@.subrange(i + 1, n as int));
        assert(b@.subrange(i as int, m as int).drop_first() =~= b@.subrange(i + 1, m as int));
        i = i + 1;
    }
    i == n && i < m
}

/// Stable insertion of `x` into reports ordered newest first.
pub open spec fn insert_newest_first(sorted: Seq<CrashReport>, x: CrashReport) -> Seq<CrashReport>
    decreases sorted.len(),
{
    if sorted.len() == 0 {
        seq![x]
    } else if text_before(sorted.last().timestamp@, x.timestamp@) {
        insert_newest_first(sorted.drop_last(), x).push(sorted.last())
    } else {
        sorted.push(x)
    }
}

/// Reports ordered newest first by timestamp, ties in their given order.
pub open spec fn newest_first(s: Seq<CrashReport>) -> Seq<CrashReport>
    decreases s.len(),
{
    if s.len() == 0 {
        Seq::empty()
    } else {
        insert_newest_first(newest_first(s.drop_last()), s.last())
    }
}

/// Inserts `x` into `sorted` as `insert_newest_first` does.
fn insert_report(sorted: &mut Vec<CrashReport>, x: CrashReport)
    ensures
        final(sorted)@ == insert_newest_first(old(sorted)@, x),
    decreases old(sorted)@.len(),
{
    if sorted.len() == 0 {
        sorted.push(x);
        assert(sorted@ =~= seq![x]);
        return;
    }
    let last_index = sorted.len() - 1;
    if text_less(sorted[last_index].timestamp.as_str(), x.timestamp.as_str()) {
        let last = sorted.pop().unwrap();
        insert_report(sorted, x);
        sorted.push(last);
    } else {
        sorted.push(x);
    }
}

/// The pending reports, newest first (ties keep the order they were read).
pub fn order_pending_reports(reports: Vec<CrashReport>) -> (r: Vec<CrashReport>)
    ensures
        r@ == newest_first(reports@),
{
    let mut sorted: Vec<CrashReport> = Vec::new();
    let mut rest = reports;
    let ghost all = rest@;
    let mut taken: usize = 0;
    let n = rest.len();
    while taken < n
        invariant
            n == all.len(),
            taken <= n,
            rest@ == all.subrange(taken as int, n as int),
            sorted@ == newest_first(all.subrange(0, taken as int)),
        decreases n - taken,
    {
        let x = rest.remove(0);
        assert(x == all[taken as int]);
        assert(all.subrange(0, taken + 1).drop_last() =~= all.subrange(0, taken as int));
        insert_report(&mut sorted, x);
        taken = taken + 1;
        assert(rest@ =~= all.subrange(taken as int, n as int));
    }
    assert(all.subrange(0, n as int) =~= all);
    sorted
}

} // verus!
