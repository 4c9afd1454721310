//! Backups of unsaved buffers (hot exit): where each backup is stored, how
//! its content is fingerprinted, and the registry of backups that are
//! live. Writing, reading and deleting the files is the application's part.

use vstd::prelude::*;

use std::hash::{Hash, Hasher};

use crate::paths::{file_name, join_path, path_file_name, path_join, paths_equal, same_path};
use crate::text::{starts_with, str_eq};
use crate::crash_reporter::{text_before, text_less};
use crate::telemetry::{format_hex16, hex16};

verus! {

// ── Outside items ────────────────────────────────────────────────────────────

/// The `DefaultHasher` (SipHash with fixed keys) digest of a string.
pub uninterp spec fn text_digest(s: Seq<char>) -> u64;

/// The `DefaultHasher` digest of a path, hashed component by component as
/// `Path`'s `Hash` does.
pub uninterp spec fn path_digest(p: Seq<char>) -> u64;

/// Hashes `s` with a fresh `std::collections::hash_map::DefaultHasher`
/// (whose keys are fixed, not per process). Claims only that the result is
/// the named `text_digest` of the argument.
#[verifier::external_body]
fn digest_text(s: &str) -> (r: u64)
    ensures
        r == text_digest(s@),
{
    let mut hasher = std::collections::hash_map::DefaultHasher::new();
    s.hash(&mut hasher);
    hasher.finish()
}

/// Hashes the path spelled by `p` with a fresh `DefaultHasher`, through
/// `Path`'s `Hash`. Claims only that the result is the named `path_digest`
/// of the argument.
#[verifier::external_body]
fn digest_path(p: &str) -> (r: u64)
    ensures
        r == path_digest(p@),
{
    let mut hasher = std::collections::hash_map::DefaultHasher::new();
    std::path::Path::new(p).hash(&mut hasher);
    hasher.finish()
}

// ── Naming ───────────────────────────────────────────────────────────────────

/// Seconds between backup passes.
pub const BACKUP_INTERVAL_SECS: u64 = 1;

/// Age in seconds after which a backup is stale (seven days).
pub const STALE_BACKUP_AGE_SECS: u64 = 604800;

/// The fingerprint of a buffer's content: its digest as 16 hex digits.
pub fn hash_content(content: &str) -> (r: String)
    ensures
        r@ == hex16(text_digest(content@)),
{
    format_hex16(digest_text(content))
}

/// The fingerprint of a path: its digest as 16 hex digits.
pub fn hash_path(path: &str) -> (r: String)
    ensures
        r@ == hex16(path_digest(path@)),
{
    format_hex16(digest_path(path))
}

/// `base` followed by `suffix`.
fn concat(base: &str, suffix: &str) -> (r: String)
    ensures
        r@ == base@ + suffix@,
{
    let mut s = base.to_string();
    s.append(suffix);
    s
}

/// The backup file of the file at `path`: `HASH.bak`.
pub fn backup_file_name(path: &str) -> (r: String)
    ensures
        r@ == hex16(path_digest(path@)) + ".bak"@,
{
    let h = hash_path(path);
    concat(h.as_str(), ".bak")
}

/// The metadata file of the file at `path`: `HASH.meta.json`.
pub fn meta_file_name(path: &str) -> (r: String)
    ensures
        r@ == hex16(path_digest(path@)) + ".meta.json"@,
{
    let h = hash_path(path);
    concat(h.as_str(), ".meta.json")
}

/// The backup file of untitled buffer `id`: `untitled-ID.bak`.
pub fn untitled_file_name(id: &str) -> (r: String)
    ensures
        r@ == "untitled-"@ + id@ + ".bak"@,
{
    let s = concat("untitled-", id);
    concat(s.as_str(), ".bak")
}

/// The metadata file of untitled buffer `id`: `untitled-ID.meta.json`.
pub fn untitled_meta_name(id: &str) -> (r: String)
    ensures
        r@ == "untitled-"@ + id@ + ".meta.json"@,
{
    let s = concat("untitled-", id);
    concat(s.as_str(), ".meta.json")
}

/// The registry key of untitled buffer `id`: `untitled:ID`.
pub fn untitled_key(id: &str) -> (r: String)
    ensures
        r@ == "untitled:"@ + id@,
{
    concat("untitled:", id)
}

/// The directory, under the backups root, of a workspace's backups: the
/// root's fingerprint, or `no-workspace` without a workspace.
pub fn workspace_folder_name(workspace_root: Option<&str>) -> (r: String)
    ensures
        match workspace_root {
            Some(root) => r@ == hex16(path_digest(root@)),
            None => r@ == "no-workspace"@,
        },
{
    match workspace_root {
        Some(root) => hash_path(root),
        None => String::from_str("no-workspace"),
    }
}

/// Whether a directory entry named `name` is backup metadata.
pub fn is_meta_file_name(name: &str) -> (r: bool)
    ensures
        r == (".meta.json"@.is_suffix_of(name@)),
{
    let n = name.unicode_len();
    let m: usize = 10;
    proof {
        reveal_strlit(".meta.json");
    }
    if n < m {
        return false;
    }
    let tail = name.substring_char(n - m, n);
    let r = crate::text::str_eq(tail, ".meta.json");
    proof {
        if ".meta.json"@.is_suffix_of(name@) {
            assert(name@.subrange(n - m, n as int) =~= ".meta.json"@);
        }
    }
    r
}

// ── Entries and the registry ─────────────────────────────────────────────────

/// Metadata of one backed-up buffer.
#[derive(Debug, Clone)]
pub struct BackupEntry {
    /// The file's path (`None` for an untitled buffer).
    pub original_path: Option<String>,
    /// Where the backup content is stored.
    pub backup_path: String,
    /// Fingerprint of the backup content.
    pub content_hash: String,
    /// When the backup was written.
    pub timestamp: String,
    /// Whether the buffer was never saved to a file.
    pub is_untitled: bool,
}

/// The entry `save_backup` writes for the file at `path`.
pub fn file_entry(path: &str, backup_path: &str, content: &str, timestamp: &str) -> (r: BackupEntry)
    ensures
        r.original_path matches Some(p) && p@ == path@,
        r.backup_path@ == backup_path@,
        r.content_hash@ == hex16(text_digest(content@)),
        r.timestamp@ == timestamp@,
        !r.is_untitled,
{
    BackupEntry {
        original_path: Some(path.to_string()),
        backup_path: backup_path.to_string(),
        content_hash: hash_content(content),
        timestamp: timestamp.to_string(),
        is_untitled: false,
    }
}

/// The entry `save_untitled_backup` writes for an untitled buffer.
pub fn untitled_entry(backup_path: &str, content: &str, timestamp: &str) -> (r: BackupEntry)
    ensures
        r.original_path is None,
        r.backup_path@ == backup_path@,
        r.content_hash@ == hex16(text_digest(content@)),
        r.timestamp@ == timestamp@,
        r.is_untitled,
{
    BackupEntry {
        original_path: None,
        backup_path: backup_path.to_string(),
        content_hash: hash_content(content),
        timestamp: timestamp.to_string(),
        is_untitled: true,
    }
}

/// The id of an untitled buffer, read back from its backup file's name
/// `untitled-ID.bak`; a backup file named otherwise is identified by its
/// whole path.
pub open spec fn untitled_id(backup_path: Seq<char>) -> Seq<char> {
    match path_file_name(backup_path) {
        Some(n) => if n.len() >= 13 && "untitled-"@.is_prefix_of(n) && n.subrange(n.len() - 4, n.len() as int)
            == ".bak"@ {
            n.subrange(9, n.len() - 4)
        } else {
            backup_path
        },
        None => backup_path,
    }
}

/// The id of the untitled buffer backed up at `backup_path` (see
/// `untitled_id`).
pub fn untitled_id_of(backup_path: &str) -> (r: String)
    ensures
        r@ == untitled_id(backup_path@),
{
    proof {
        reveal_strlit("untitled-");
        reveal_strlit(".bak");
    }
    match file_name(backup_path) {
        Some(n) => {
            let len = n.unicode_len();
            if len >= 13 && starts_with(n.as_str(), "untitled-") {
                let tail = n.as_str().substring_char(len - 4, len);
                if str_eq(tail, ".bak") {
                    return n.as_str().substring_char(9, len - 4).to_string();
                }
            }
            backup_path.to_string()
        },
        None => backup_path.to_string(),
    }
}

/// The registry key of a listed entry: its file's path, or `untitled:ID`
/// for an untitled buffer, as `save_untitled_backup` keys it (see
/// `entry_key_view`).
pub fn entry_key(entry: &BackupEntry) -> (r: String)
    ensures
        r@ == entry_key_view(*entry),
{
    match &entry.original_path {
        Some(p) => p.clone(),
        None => {
            let id = untitled_id_of(entry.backup_path.as_str());
            untitled_key(id.as_str())
        },
    }
}

/// Stable insertion of `x` into entries ordered newest first.
pub open spec fn insert_newest_entry(sorted: Seq<BackupEntry>, x: BackupEntry) -> Seq<BackupEntry>
    decreases sorted.len(),
{
    if sorted.len() == 0 {
        seq![x]
    } else if text_before(sorted.last().timestamp@, x.timestamp@) {
        insert_newest_entry(sorted.drop_last(), x).push(sorted.last())
    } else {
        sorted.push(x)
    }
}

/// Entries ordered newest first by timestamp, ties in their given order.
pub open spec fn entries_newest_first(s: Seq<BackupEntry>) -> Seq<BackupEntry>
    decreases s.len(),
{
    if s.len() == 0 {
        Seq::empty()
    } else {
        insert_newest_entry(entries_newest_first(s.drop_last()), s.last())
    }
}

fn insert_entry(sorted: &mut Vec<BackupEntry>, x: BackupEntry)
    ensures
        final(sorted)@ == insert_newest_entry(old(sorted)@, x),
    decreases old(sorted)@.len(),
{
    if sorted.len() == 0 {
        sorted.push(x);
        assert(sorted@ =~= seq![x]);
        return;
    }
    let last_index = sorted.len() - 1;
    if text_less(sorted[last_index].timestamp.as_str(), x.timestamp.as_str()) {
        let last = sorted.pop().unwrap();
        insert_entry(sorted, x);
        sorted.push(last);
    } else {
        sorted.push(x);
    }
}

/// The entries listed from the backup directory, newest first (ties keep
/// the order they were read in).
pub fn order_listed_backups(entries: Vec<BackupEntry>) -> (r: Vec<BackupEntry>)
    ensures
        r@ == entries_newest_first(entries@),
{
    let mut sorted: Vec<BackupEntry> = Vec::new();
    let mut rest = entries;
    let ghost all = rest@;
    let mut taken: usize = 0;
    let n = rest.len();
    while taken < n
        invariant
            n == all.len(),
            taken <= n,
            rest@ == all.subrange(taken as int, n as int),
            sorted@ == entries_newest_first(all.subrange(0, taken as int)),
        decreases n - taken,
    {
        let x = rest.remove(0);
        assert(x == all[taken as int]);
        assert(all.subrange(0, taken + 1).drop_last() =~= all.subrange(0, taken as int));
        insert_entry(&mut sorted, x);
        taken = taken + 1;
        assert(rest@ =~= all.subrange(taken as int, n as int));
    }
    assert(all.subrange(0, n as int) =~= all);
    sorted
}

/// The registry with its keys as character sequences.
pub open spec fn key_views(s: Seq<(String, BackupEntry)>) -> Seq<(Seq<char>, BackupEntry)> {
    s.map_values(|p: (String, BackupEntry)| (p.0@, p.1))
}

/// Whether no key names the same path as a key recorded before it.
pub open spec fn keys_distinct(s: Seq<(String, BackupEntry)>) -> bool {
    forall|i: int, j: int| 0 <= i < j < s.len() ==> !same_path(s[i].0@, s[j].0@)
}

/// The first index from `i` on whose key names the same path as `key`.
pub open spec fn key_position_from(s: Seq<(Seq<char>, BackupEntry)>, key: Seq<char>, i: int) -> Option<int>
    decreases s.len() - i,
{
    if i < 0 || i >= s.len() {
        None
    } else if same_path(s[i].0, key) {
        Some(i)
    } else {
        key_position_from(s, key, i + 1)
    }
}

/// Where the key naming the same path as `key` sits, if any.
pub open spec fn key_position(s: Seq<(String, BackupEntry)>, key: Seq<char>) -> Option<int> {
    key_position_from(key_views(s), key, 0)
}

/// The registry after `entry` is recorded under `key`: it replaces the
/// entry of the key naming the same path, or joins at the end.
pub open spec fn recorded_view(s: Seq<(Seq<char>, BackupEntry)>, key: Seq<char>, entry: BackupEntry) -> Seq<(Seq<char>, BackupEntry)> {
    match key_position_from(s, key, 0) {
        Some(i) => s.update(i, (s[i].0, entry)),
        None => s.push((key, entry)),
    }
}

/// The registry key of a listed entry: its file's path, or `untitled:ID`
/// with the id read back from the backup file's name.
pub open spec fn entry_key_view(e: BackupEntry) -> Seq<char> {
    match e.original_path {
        Some(p) => p@,
        None => "untitled:"@ + untitled_id(e.backup_path@),
    }
}

/// The registry after the listed entries are recorded in order, each under
/// its `entry_key`.
pub open spec fn loaded(s: Seq<(Seq<char>, BackupEntry)>, listed: Seq<BackupEntry>) -> Seq<(Seq<char>, BackupEntry)>
    decreases listed.len(),
{
    if listed.len() == 0 {
        s
    } else {
        recorded_view(loaded(s, listed.drop_last()), entry_key_view(listed.last()), listed.last())
    }
}

/// A position found is a key naming that path.
proof fn lemma_key_position(s: Seq<(String, BackupEntry)>, key: Seq<char>, i: int)
    requires
        0 <= i,
    ensures
        key_position_from(key_views(s), key, i) matches Some(k) ==> i <= k < s.len() && same_path(s[k].0@, key),
        key_position_from(key_views(s), key, i) is None ==> forall|j: int| i <= j < s.len() ==> !same_path(#[trigger] s[j].0@, key),
    decreases s.len() - i,
{
    if i < s.len() && !same_path(s[i].0@, key) {
        lemma_key_position(s, key, i + 1);
    }
}

/// The live backups, keyed by path (a map from path to entry).
pub struct BackupService {
    pub backup_dir: String,
    pub backups: Vec<(String, BackupEntry)>,
    pub interval_secs: u64,
}

impl BackupService {
    /// The registry, in the order keys were first recorded.
    pub open spec fn registry(&self) -> Seq<(String, BackupEntry)> {
        self.backups@
    }

    /// Whether the registry lists each path once.
    pub open spec fn wf(&self) -> bool {
        keys_distinct(self.backups@)
    }

    /// A service for `backup_dir` with no backups.
    pub fn new(backup_dir: &str) -> (r: Self)
        ensures
            r.wf(),
            r.backup_dir@ == backup_dir@,
            r.registry() == Seq::<(String, BackupEntry)>::empty(),
            r.interval_secs == BACKUP_INTERVAL_SECS,
    {
        BackupService {
            backup_dir: backup_dir.to_string(),
            backups: Vec::new(),
            interval_secs: BACKUP_INTERVAL_SECS,
        }
    }

    /// A service for the backups of a workspace, under
    /// `{data_dir}/sidex/backups/{workspace_folder_name}` (`data_dir` is the
    /// platform's data directory, or the temporary directory without one).
    pub fn for_workspace(data_dir: &str, workspace_root: Option<&str>) -> (r: Self)
        ensures
            r.wf(),
            r.registry() == Seq::<(String, BackupEntry)>::empty(),
            r.interval_secs == BACKUP_INTERVAL_SECS,
            r.backup_dir@ == path_join(
                path_join(path_join(data_dir@, "sidex"@), "backups"@),
                match workspace_root {
                    Some(root) => hex16(path_digest(root@)),
                    None => "no-workspace"@,
                },
            ),
    {
        let base = join_path(data_dir, "sidex");
        let base = join_path(base.as_str(), "backups");
        let folder = workspace_folder_name(workspace_root);
        let dir = join_path(base.as_str(), folder.as_str());
        Self::new(dir.as_str())
    }

    /// The index of the first key naming the same path as `key`, if any.
    fn position(&self, key: &str) -> (r: Option<usize>)
        ensures
            r matches Some(i) ==> key_position(self.backups@, key@) == Some(i as int),
            r is None ==> key_position(self.backups@, key@) is None,
    {
        let mut i: usize = 0;
        while i < self.backups.len()
            invariant
                i <= self.backups@.len(),
                key_position_from(key_views(self.backups@), key@, i as int) == key_position(self.backups@, key@),
            decreases self.backups@.len() - i,
        {
            if paths_equal(self.backups[i].0.as_str(), key) {
                return Some(i);
            }
            i = i + 1;
        }
        None
    }

    /// Records `entry` under `key`, replacing the entry of the key that
    /// names the same path (which keeps its place and spelling).
    pub fn record(&mut self, key: &str, entry: BackupEntry)
        requires
            old(self).wf(),
        ensures
            final(self).wf(),
            final(self).backup_dir == old(self).backup_dir,
            match key_position(old(self).registry(), key@) {
                Some(i) => final(self).registry() == old(self).registry().update(
                    i,
                    (old(self).registry()[i].0, entry),
                ),
                None => final(self).registry() == old(self).registry().push((final(self).registry().last().0, entry))
                    && final(self).registry().last().0@ == key@,
            },
            key_views(final(self).registry()) == recorded_view(key_views(old(self).registry()), key@, entry),
    {
        proof {
            lemma_key_position(self.backups@, key@, 0);
        }
        match self.position(key) {
            Some(i) => {
                assert(key_position(old(self).backups@, key@) == Some(i as int));
                let k = self.backups[i].0.clone();
                assert(k == old(self).backups@[i as int].0);
                self.backups.set(i, (k, entry));
                assert(self.backups@ == old(self).backups@.update(i as int, (old(self).backups@[i as int].0, entry)));
                assert(key_views(self.backups@) =~= recorded_view(key_views(old(self).backups@), key@, entry));
                assert forall|a: int, b: int| 0 <= a < b < self.backups@.len() implies !same_path(
                    self.backups@[a].0@,
                    self.backups@[b].0@,
                ) by {
                    assert(self.backups@[a].0 == old(self).backups@[a].0);
                    assert(self.backups@[b].0 == old(self).backups@[b].0);
                }
            },
            None => {
                self.backups.push((key.to_string(), entry));
                assert(key_views(self.backups@) =~= recorded_view(key_views(old(self).backups@), key@, entry));
                assert forall|a: int, b: int| 0 <= a < b < self.backups@.len() implies !same_path(
                    self.backups@[a].0@,
                    self.backups@[b].0@,
                ) by {
                    assert(self.backups@[a].0 == old(self).backups@[a].0);
                    if b < old(self).backups@.len() {
                        assert(self.backups@[b].0 == old(self).backups@[b].0);
                    }
                }
            },
        }
    }

    /// Forgets the backup of `key` and returns it, so that its file can be
    /// deleted.
    pub fn discard(&mut self, key: &str) -> (r: Option<BackupEntry>)
        requires
            old(self).wf(),
        ensures
            final(self).wf(),
            final(self).backup_dir == old(self).backup_dir,
            match key_position(old(self).registry(), key@) {
                Some(i) => r == Some(old(self).registry()[i].1) && final(self).registry()
                    == old(self).registry().remove(i),
                None => r is None && final(self).registry() == old(self).registry(),
            },
    {
        proof {
            lemma_key_position(self.backups@, key@, 0);
        }
        match self.position(key) {
            Some(i) => {
                let ghost before = self.backups@;
                let (_, e) = self.backups.remove(i);
                assert(self.backups@ == before.remove(i as int));
                assert forall|a: int, b: int| 0 <= a < b < self.backups@.len() implies !same_path(
                    self.backups@[a].0@,
                    self.backups@[b].0@,
                ) by {
                    let a0 = if a < i { a } else { a + 1 };
                    let b0 = if b < i { b } else { b + 1 };
                    assert(self.backups@[a] == before[a0]);
                    assert(self.backups@[b] == before[b0]);
                }
                Some(e)
            },
            None => None,
        }
    }

    /// Takes in the entries listed from the backup directory (crash
    /// recovery), each recorded under its `entry_key` in turn.
    pub fn load_existing(&mut self, listed: Vec<BackupEntry>)
        requires
            old(self).wf(),
        ensures
            final(self).wf(),
            final(self).backup_dir == old(self).backup_dir,
            key_views(final(self).registry()) == loaded(key_views(old(self).registry()), listed@),
    {
        let mut rest = listed;
        let ghost all = rest@;
        let mut i: usize = 0;
        let n = rest.len();
        while i < n
            invariant
                n == all.len(),
                i <= n,
                self.wf(),
                self.backup_dir == old(self).backup_dir,
                rest@ == all.subrange(i as int, n as int),
                key_views(self.backups@) == loaded(key_views(old(self).backups@), all.subrange(0, i as int)),
            decreases n - i,
        {
            let entry = rest.remove(0);
            assert(entry == all[i as int]);
            assert(rest@ =~= all.subrange(i + 1, n as int));
            let key = entry_key(&entry);
            assert(all.subrange(0, i + 1).drop_last() =~= all.subrange(0, i as int));
            assert(all.subrange(0, i + 1).last() == entry);
            self.record(key.as_str(), entry);
            i = i + 1;
        }
        assert(all.subrange(0, n as int) =~= all);
    }

    /// The live backup entries.
    pub fn entries(&self) -> (r: Vec<&BackupEntry>)
        ensures
            r@.len() == self.registry().len(),
            forall|i: int| 0 <= i < r@.len() ==> *r@[i] == self.registry()[i].1,
    {
        let mut out: Vec<&BackupEntry> = Vec::new();
        let mut i: usize = 0;
        while i < self.backups.len()
            invariant
                i <= self.backups@.len(),
                out@.len() == i,
                forall|j: int| 0 <= j < i ==> *out@[j] == self.backups@[j].1,
            decreases self.backups@.len() - i,
        {
            out.push(&self.backups[i].1);
            i = i + 1;
        }
        out
    }

    /// How many backups are live.
    pub fn count(&self) -> (r: usize)
        ensures
            r == self.registry().len(),
    {
        self.backups.len()
    }

    /// Forgets every backup.
    pub fn clear(&mut self)
        ensures
            final(self).wf(),
            final(self).backup_dir == old(self).backup_dir,
            final(self).registry() == Seq::<(String, BackupEntry)>::empty(),
    {
        self.backups.clear();
    }
}

/// Saving a file's backup leaves it to be looked up: when `entry` is what
/// `file_entry` gives for `path` and `content`, and `after` is `before`
/// with `entry` recorded under `path`, the key naming `path` holds an entry
/// that names `path`, is not untitled and carries `content`'s hash. That
/// key is the one that named `path` before (which keeps its spelling and
/// place, the registry keeping its size) or, when there was none, a new
/// last key spelled `path`; every other key keeps its entry, and no path is
/// listed twice.
pub proof fn lemma_saved_backup_recorded(
    before: Seq<(String, BackupEntry)>,
    after: Seq<(String, BackupEntry)>,
    path: Seq<char>,
    content: Seq<char>,
    entry: BackupEntry,
)
    requires
        keys_distinct(before),
        entry.original_path matches Some(p) && p@ == path,
        entry.content_hash@ == hex16(text_digest(content)),
        !entry.is_untitled,
        key_views(after) == recorded_view(key_views(before), path, entry),
    ensures
        keys_distinct(after),
        match key_position(before, path) {
            Some(i) => {
                &&& after.len() == before.len()
                &&& after[i].0@ == before[i].0@
                &&& same_path(after[i].0@, path)
                &&& after[i].1 == entry
                &&& forall|j: int| 0 <= j < after.len() && j != i ==> #[trigger] key_views(after)[j] == key_views(before)[j]
            },
            None => {
                &&& after.len() == before.len() + 1
                &&& after.last().0@ == path
                &&& after.last().1 == entry
                &&& forall|j: int| 0 <= j < before.len() ==> #[trigger] key_views(after)[j] == key_views(before)[j]
            },
        },
{
    lemma_key_position(before, path, 0);
    let kb = key_views(before);
    let ka = key_views(after);
    assert(after.len() == ka.len());
    match key_position(before, path) {
        Some(i) => {
            assert(ka == kb.update(i, (kb[i].0, entry)));
            assert(ka.len() == kb.len());
            assert forall|j: int| 0 <= j < after.len() implies after[j].0@ == before[j].0@ && (j != i ==> after[j].1
                == before[j].1) by {
                assert(ka[j] == (after[j].0@, after[j].1));
                assert(kb[j] == (before[j].0@, before[j].1));
            }
            assert(ka[i] == (after[i].0@, after[i].1));
            assert forall|a: int, b: int| 0 <= a < b < after.len() implies !same_path(after[a].0@, after[b].0@) by {
                assert(after[a].0@ == before[a].0@);
                assert(after[b].0@ == before[b].0@);
            }
        },
        None => {
            assert(ka == kb.push((path, entry)));
            assert(ka.len() == kb.len() + 1);
            assert forall|j: int| 0 <= j < before.len() implies after[j].0@ == before[j].0@ by {
                assert(ka[j] == (after[j].0@, after[j].1));
                assert(kb[j] == (before[j].0@, before[j].1));
            }
            let n = before.len() as int;
            assert(ka[n] == (after[n].0@, after[n].1));
            assert(ka[n] == kb.push((path, entry))[n]);
            assert forall|a: int, b: int| 0 <= a < b < after.len() implies !same_path(after[a].0@, after[b].0@) by {
                assert(after[a].0@ == before[a].0@);
                if b < n {
                    assert(after[b].0@ == before[b].0@);
                }
            }
        },
    }
}

} // verus!
