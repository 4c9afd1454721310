//! Recently opened files and workspaces, as the Welcome page and
//! **File > Open Recent** show them: most recent first, each path once,
//! within a per-category bound. Resolving paths and persisting the lists
//! are the application's part.

use vstd::prelude::*;

use crate::clock::{since_epoch_nanos, system_now};
use crate::paths::{file_name, path_file_name, paths_equal, same_path};

verus! {

/// How many recent files are kept.
pub const MAX_RECENT_FILES: usize = 50;

/// How many recent workspaces are kept.
pub const MAX_RECENT_WORKSPACES: usize = 20;

/// A recent file or workspace with what is shown of it.
#[derive(Debug, Clone)]
pub struct RecentItem {
    /// Absolute path.
    pub path: String,
    /// Display label: the file or folder name.
    pub label: String,
    /// The full path, shown as subtitle.
    pub description: String,
    /// When it was last opened, in nanoseconds since the Unix epoch.
    pub last_opened: u128,
}

/// The label of a path: its file name, or the whole path when it has none.
pub open spec fn label_of(path: Seq<char>) -> Seq<char> {
    match path_file_name(path) {
        Some(n) => n,
        None => path,
    }
}

/// Whether `item` describes `path` as `RecentItem::from_path` does.
pub open spec fn describes(item: RecentItem, path: Seq<char>) -> bool {
    &&& item.path@ == path
    &&& item.label@ == label_of(path)
    &&& item.description@ == path
}

/// Now, in nanoseconds since the Unix epoch (0 for a clock set before it).
fn opened_now() -> u128 {
    let now = system_now();
    match since_epoch_nanos(&now) {
        Some(n) => n,
        None => 0,
    }
}

impl RecentItem {
    /// A copy of this item.
    fn duplicate(&self) -> (r: Self)
        ensures
            r == *self,
    {
        RecentItem {
            path: self.path.clone(),
            label: self.label.clone(),
            description: self.description.clone(),
            last_opened: self.last_opened,
        }
    }

    /// The item for `path`, opened now.
    pub fn from_path(path: &str) -> (r: Self)
        ensures
            describes(r, path@),
    {
        let label = match file_name(path) {
            Some(n) => n,
            None => path.to_string(),
        };
        RecentItem {
            path: path.to_string(),
            label,
            description: path.to_string(),
            last_opened: opened_now(),
        }
    }
}

/// The paths of a list of items.
pub open spec fn paths_of(s: Seq<RecentItem>) -> Seq<Seq<char>> {
    s.map_values(|i: RecentItem| i.path@)
}

/// The test "is not the item for `path`" (paths compared as `Path`s).
pub open spec fn other_path(path: Seq<char>) -> spec_fn(RecentItem) -> bool {
    |i: RecentItem| !same_path(i.path@, path)
}

/// `s` without the items for `path`.
pub open spec fn without_path(s: Seq<RecentItem>, path: Seq<char>) -> Seq<RecentItem> {
    s.filter(other_path(path))
}

/// The first `n` items of `s` (all of them when there are fewer).
pub open spec fn first_n<T>(s: Seq<T>, n: int) -> Seq<T> {
    if s.len() > n {
        s.subrange(0, n)
    } else {
        s
    }
}

/// Whether `after` is `before` with `item` put in front, any earlier item
/// for the same path dropped, and at most `max` items kept.
pub open spec fn recorded(before: Seq<RecentItem>, item: RecentItem, max: int, after: Seq<RecentItem>) -> bool {
    after == first_n(seq![item] + without_path(before, item.path@), max)
}

/// Drops the items for `path` from `list`.
fn drop_path(list: &mut Vec<RecentItem>, path: &str)
    ensures
        final(list)@ == without_path(old(list)@, path@),
{
    let ghost old_list = list@;
    let mut kept: Vec<RecentItem> = Vec::new();
    let mut i: usize = 0;
    while i < list.len()
        invariant
            i <= list@.len(),
            old_list == list@,
            kept@ == without_path(old_list.subrange(0, i as int), path@),
        decreases list@.len() - i,
    {
        proof {
            reveal(Seq::filter);
        }
        assert(old_list.subrange(0, i + 1).drop_last() =~= old_list.subrange(0, i as int));
        if !paths_equal(list[i].path.as_str(), path) {
            kept.push(list[i].duplicate());
        }
        i = i + 1;
    }
    assert(old_list.subrange(0, list@.len() as int) =~= old_list);
    *list = kept;
}

/// Puts `item` in front of `list`, dropping any earlier item for its path
/// and keeping at most `max`.
fn record(list: &mut Vec<RecentItem>, item: RecentItem, max: usize)
    requires
        max > 0,
    ensures
        recorded(old(list)@, item, max as int, final(list)@),
{
    drop_path(list, item.path.as_str());
    let ghost rest = list@;
    list.insert(0, item);
    assert(list@ =~= seq![item] + rest);
    if list.len() > max {
        list.truncate(max);
    }
}

/// The most recent file and workspace lists.
pub struct RecentManager {
    files: Vec<RecentItem>,
    workspaces: Vec<RecentItem>,
}

/// Stable insertion of `x` into a list ordered from most to least recent:
/// after every item opened no earlier than `x`.
pub open spec fn insert_by_recency<'a>(sorted: Seq<&'a RecentItem>, x: &'a RecentItem) -> Seq<&'a RecentItem>
    decreases sorted.len(),
{
    if sorted.len() == 0 {
        seq![x]
    } else if sorted.last().last_opened < x.last_opened {
        insert_by_recency(sorted.drop_last(), x).push(sorted.last())
    } else {
        sorted.push(x)
    }
}

/// `s` ordered from most to least recent, ties in their original order (a
/// stable sort).
pub open spec fn by_recency<'a>(s: Seq<&'a RecentItem>) -> Seq<&'a RecentItem>
    decreases s.len(),
{
    if s.len() == 0 {
        Seq::empty()
    } else {
        insert_by_recency(by_recency(s.drop_last()), s.last())
    }
}

impl RecentManager {
    /// The recent files, most recent first.
    pub closed spec fn files_view(&self) -> Seq<RecentItem> {
        self.files@
    }

    /// The recent workspaces, most recent first.
    pub closed spec fn workspaces_view(&self) -> Seq<RecentItem> {
        self.workspaces@
    }

    /// Each list holds every path at most once.
    pub open spec fn wf(&self) -> bool {
        &&& distinct_paths(self.files_view())
        &&& distinct_paths(self.workspaces_view())
    }

    /// An empty manager.
    pub fn new() -> (r: Self)
        ensures
            r.files_view() == Seq::<RecentItem>::empty(),
            r.workspaces_view() == Seq::<RecentItem>::empty(),
            r.wf(),
    {
        RecentManager { files: Vec::new(), workspaces: Vec::new() }
    }

    /// Replaces both lists with the stored paths (most recent first), each
    /// list cut to its bound. Stored lists without repeated paths give a
    /// well-formed manager.
    pub fn load_paths(&mut self, files: &[String], workspaces: &[String])
        ensures
            distinct_path_texts(crate::text::views(files@)) && distinct_path_texts(
                crate::text::views(workspaces@),
            ) ==> final(self).wf(),
            paths_of(final(self).files_view()) == first_n(crate::text::views(files@), MAX_RECENT_FILES as int),
            paths_of(final(self).workspaces_view()) == first_n(
                crate::text::views(workspaces@),
                MAX_RECENT_WORKSPACES as int,
            ),
            forall|i: int|
                0 <= i < final(self).files_view().len() ==> describes(
                    #[trigger] final(self).files_view()[i],
                    files@[i]@,
                ),
            forall|i: int|
                0 <= i < final(self).workspaces_view().len() ==> describes(
                    #[trigger] final(self).workspaces_view()[i],
                    workspaces@[i]@,
                ),
    {
        self.files = items_for(files, MAX_RECENT_FILES);
        self.workspaces = items_for(workspaces, MAX_RECENT_WORKSPACES);
        proof {
            if distinct_path_texts(crate::text::views(files@)) && distinct_path_texts(
                crate::text::views(workspaces@),
            ) {
                lemma_first_n_distinct(crate::text::views(files@), MAX_RECENT_FILES as int);
                lemma_first_n_distinct(crate::text::views(workspaces@), MAX_RECENT_WORKSPACES as int);
            }
        }
    }

    /// Records `path` (already made absolute) as the most recently opened
    /// file.
    pub fn add_recent_file(&mut self, path: &str)
        ensures
            old(self).wf() ==> final(self).wf(),
            final(self).workspaces_view() == old(self).workspaces_view(),
            exists|item: RecentItem|
                describes(item, path@) && recorded(
                    old(self).files_view(),
                    item,
                    MAX_RECENT_FILES as int,
                    final(self).files_view(),
                ),
    {
        let item = RecentItem::from_path(path);
        let ghost before = self.files@;
        record(&mut self.files, item, MAX_RECENT_FILES);
        proof {
            if distinct_paths(before) {
                lemma_record_keeps_paths_distinct(before, item, MAX_RECENT_FILES as int, self.files@);
            }
        }
    }

    /// Records `path` (already made absolute) as the most recently opened
    /// workspace.
    pub fn add_recent_workspace(&mut self, path: &str)
        ensures
            old(self).wf() ==> final(self).wf(),
            final(self).files_view() == old(self).files_view(),
            exists|item: RecentItem|
                describes(item, path@) && recorded(
                    old(self).workspaces_view(),
                    item,
                    MAX_RECENT_WORKSPACES as int,
                    final(self).workspaces_view(),
                ),
    {
        let item = RecentItem::from_path(path);
        let ghost before = self.workspaces@;
        record(&mut self.workspaces, item, MAX_RECENT_WORKSPACES);
        proof {
            if distinct_paths(before) {
                lemma_record_keeps_paths_distinct(before, item, MAX_RECENT_WORKSPACES as int, self.workspaces@);
            }
        }
    }

    /// The `limit` most recently opened files.
    pub fn recent_files(&self, limit: usize) -> (r: &[RecentItem])
        ensures
            r@ == first_n(self.files_view(), limit as int),
            self.wf() ==> distinct_paths(r@),
    {
        let end = if limit < self.files.len() {
            limit
        } else {
            self.files.len()
        };
        let r = vstd::slice::slice_subrange(self.files.as_slice(), 0, end);
        assert(r@ =~= first_n(self.files@, limit as int));
        proof {
            if distinct_paths(self.files@) {
                lemma_first_n_distinct(paths_of(self.files@), limit as int);
                assert(paths_of(r@) =~= first_n(paths_of(self.files@), limit as int));
            }
        }
        r
    }

    /// The `limit` most recently opened workspaces.
    pub fn recent_workspaces(&self, limit: usize) -> (r: &[RecentItem])
        ensures
            r@ == first_n(self.workspaces_view(), limit as int),
            self.wf() ==> distinct_paths(r@),
    {
        let end = if limit < self.workspaces.len() {
            limit
        } else {
            self.workspaces.len()
        };
        let r = vstd::slice::slice_subrange(self.workspaces.as_slice(), 0, end);
        assert(r@ =~= first_n(self.workspaces@, limit as int));
        proof {
            if distinct_paths(self.workspaces@) {
                lemma_first_n_distinct(paths_of(self.workspaces@), limit as int);
                assert(paths_of(r@) =~= first_n(paths_of(self.workspaces@), limit as int));
            }
        }
        r
    }

    /// Forgets the file at `path` (already made absolute).
    pub fn remove_recent_file(&mut self, path: &str)
        ensures
            final(self).files_view() == without_path(old(self).files_view(), path@),
            old(self).wf() ==> final(self).wf(),
            final(self).workspaces_view() == old(self).workspaces_view(),
    {
        drop_path(&mut self.files, path);
        proof {
            if distinct_paths(old(self).files@) {
                lemma_without_path(old(self).files@, path@);
            }
        }
    }

    /// Forgets the workspace at `path` (already made absolute).
    pub fn remove_recent_workspace(&mut self, path: &str)
        ensures
            final(self).workspaces_view() == without_path(old(self).workspaces_view(), path@),
            old(self).wf() ==> final(self).wf(),
            final(self).files_view() == old(self).files_view(),
    {
        drop_path(&mut self.workspaces, path);
        proof {
            if distinct_paths(old(self).workspaces@) {
                lemma_without_path(old(self).workspaces@, path@);
            }
        }
    }

    /// Forgets every file and workspace.
    pub fn clear_recent(&mut self)
        ensures
            final(self).files_view() == Seq::<RecentItem>::empty(),
            final(self).workspaces_view() == Seq::<RecentItem>::empty(),
            final(self).wf(),
    {
        self.files.clear();
        self.workspaces.clear();
    }

    /// How many recent files there are.
    pub fn file_count(&self) -> (r: usize)
        ensures
            r == self.files_view().len(),
    {
        self.files.len()
    }

    /// How many recent workspaces there are.
    pub fn workspace_count(&self) -> (r: usize)
        ensures
            r == self.workspaces_view().len(),
    {
        self.workspaces.len()
    }

    /// Files and workspaces together, most recent first (files before
    /// workspaces opened at the same instant), at most `limit`.
    pub fn all_recent(&self, limit: usize) -> (r: Vec<&RecentItem>)
        ensures
            r@ == first_n(
                by_recency(
                    self.files_view().map_values(|i: RecentItem| &i) + self.workspaces_view().map_values(
                        |i: RecentItem| &i,
                    ),
                ),
                limit as int,
            ),
    {
        let ghost all = self.files@.map_values(|i: RecentItem| &i) + self.workspaces@.map_values(
            |i: RecentItem| &i,
        );
        let mut sorted: Vec<&RecentItem> = Vec::new();
        let n = self.files.len();
        let m = self.workspaces.len();
        let mut k: usize = 0;
        while k < n
            invariant
                n == self.files@.len(),
                m == self.workspaces@.len(),
                k <= n,
                all == self.files@.map_values(|i: RecentItem| &i) + self.workspaces@.map_values(
                    |i: RecentItem| &i,
                ),
                sorted@ == by_recency(all.subrange(0, k as int)),
            decreases n - k,
        {
            let x: &RecentItem = &self.files[k];
            assert(x == all[k as int]);
            assert(all.subrange(0, k + 1).drop_last() =~= all.subrange(0, k as int));
            insert_sorted(&mut sorted, x);
            k = k + 1;
        }
        let mut j: usize = 0;
        while j < m
            invariant
                n == self.files@.len(),
                m == self.workspaces@.len(),
                j <= m,
                all == self.files@.map_values(|i: RecentItem| &i) + self.workspaces@.map_values(
                    |i: RecentItem| &i,
                ),
                sorted@ == by_recency(all.subrange(0, n + j)),
            decreases m - j,
        {
            let x: &RecentItem = &self.workspaces[j];
            assert(x == all[n + j]);
            assert(all.subrange(0, n + j + 1).drop_last() =~= all.subrange(0, n + j));
            insert_sorted(&mut sorted, x);
            j = j + 1;
        }
        assert(all.subrange(0, n + m) =~= all);
        if sorted.len() > limit {
            sorted.truncate(limit);
        }
        sorted
    }
}

/// Inserts `x` into `sorted` as `insert_by_recency` does.
fn insert_sorted<'a>(sorted: &mut Vec<&'a RecentItem>, x: &'a RecentItem)
    ensures
        final(sorted)@ == insert_by_recency(old(sorted)@, x),
    decreases old(sorted)@.len(),
{
    if sorted.len() == 0 {
        sorted.push(x);
        assert(sorted@ =~= seq![x]);
        return;
    }
    let last_index = sorted.len() - 1;
    if sorted[last_index].last_opened < x.last_opened {
        let last = sorted.pop().unwrap();
        insert_sorted(sorted, x);
        sorted.push(last);
    } else {
        sorted.push(x);
    }
}

/// Items for the first `max` of `paths`, in order.
fn items_for(paths: &[String], max: usize) -> (r: Vec<RecentItem>)
    ensures
        paths_of(r@) == first_n(crate::text::views(paths@), max as int),
        forall|i: int| 0 <= i < r@.len() ==> describes(#[trigger] r@[i], paths@[i]@),
{
    let mut out: Vec<RecentItem> = Vec::new();
    let mut i: usize = 0;
    while i < paths.len() && i < max
        invariant
            i <= paths@.len(),
            i <= max,
            out@.len() == i,
            paths_of(out@) =~= crate::text::views(paths@).subrange(0, i as int),
            forall|j: int| 0 <= j < i ==> describes(#[trigger] out@[j], paths@[j]@),
        decreases paths@.len() - i,
    {
        out.push(RecentItem::from_path(paths[i].as_str()));
        assert(paths_of(out@) =~= crate::text::views(paths@).subrange(0, i + 1));
        i = i + 1;
    }
    assert(paths_of(out@) =~= first_n(crate::text::views(paths@), max as int));
    out
}

/// Whether no path occurs twice in a list of path texts: no entry is the
/// same path (as `Path`s compare) as an earlier one.
pub open spec fn distinct_path_texts(s: Seq<Seq<char>>) -> bool {
    forall|i: int, j: int| 0 <= i < j < s.len() ==> !same_path(#[trigger] s[j], #[trigger] s[i])
}

/// Whether no path occurs twice in a list of items.
pub open spec fn distinct_paths(s: Seq<RecentItem>) -> bool {
    distinct_path_texts(paths_of(s))
}

/// The first items of a list without repeated paths have none either.
proof fn lemma_first_n_distinct(s: Seq<Seq<char>>, n: int)
    requires
        distinct_path_texts(s),
        n >= 0,
    ensures
        distinct_path_texts(first_n(s, n)),
{
    let f = first_n(s, n);
    assert forall|i: int, j: int| 0 <= i < j < f.len() implies !same_path(#[trigger] f[j], #[trigger] f[i]) by {
        assert(f[i] == s[i] && f[j] == s[j]);
    }
}

/// Dropping a path keeps a list free of repeated paths, and that path is
/// gone.
proof fn lemma_without_path(s: Seq<RecentItem>, path: Seq<char>)
    requires
        distinct_paths(s),
    ensures
        distinct_paths(without_path(s, path)),
        forall|k: int| 0 <= k < without_path(s, path).len() ==> !same_path((#[trigger] without_path(s, path)[k]).path@, path),
    decreases s.len(),
{
    reveal(Seq::filter);
    let pred = other_path(path);
    if s.len() > 0 {
        let init = s.drop_last();
        assert(distinct_paths(init)) by {
            assert forall|i: int, j: int| 0 <= i < j < paths_of(init).len() implies !same_path(
                #[trigger] paths_of(init)[j],
                #[trigger] paths_of(init)[i],
            ) by {
                assert(paths_of(init)[i] == paths_of(s)[i] && paths_of(init)[j] == paths_of(s)[j]);
            }
        }
        lemma_without_path(init, path);
        let fi = without_path(init, path);
        let f = without_path(s, path);
        if pred(s.last()) {
            assert(f == fi.push(s.last()));
            assert forall|i: int, j: int| 0 <= i < j < paths_of(f).len() implies !same_path(
                #[trigger] paths_of(f)[j],
                #[trigger] paths_of(f)[i],
            ) by {
                assert(paths_of(f)[i] == f[i].path@ && paths_of(f)[j] == f[j].path@);
                if j == f.len() - 1 {
                    assert(fi.contains(f[i]));
                    init.lemma_filter_contains_rev(pred, f[i]);
                    let w = choose|w: int| 0 <= w < init.len() && init[w] == f[i];
                    assert(s[w] == init[w]);
                    assert(paths_of(s)[w] == s[w].path@);
                    assert(paths_of(s)[s.len() - 1] == s.last().path@);
                } else {
                    assert(paths_of(fi)[i] == fi[i].path@ && paths_of(fi)[j] == fi[j].path@);
                }
            }
        } else {
            assert(f == fi);
        }
    }
}

/// Recording an item puts it first, keeps the bound, and never lists a
/// path twice if the list did not before.
pub proof fn lemma_record_keeps_paths_distinct(before: Seq<RecentItem>, item: RecentItem, max: int, after: Seq<RecentItem>)
    requires
        distinct_paths(before),
        max > 0,
        recorded(before, item, max, after),
    ensures
        after[0] == item,
        after.len() <= max,
        distinct_paths(after),
{
    lemma_without_path(before, item.path@);
    let f = without_path(before, item.path@);
    let l = seq![item] + f;
    assert(distinct_paths(l)) by {
        assert forall|i: int, j: int| 0 <= i < j < paths_of(l).len() implies !same_path(
            #[trigger] paths_of(l)[j],
            #[trigger] paths_of(l)[i],
        ) by {
            assert(l[j] == f[j - 1]);
            assert(paths_of(l)[j] == l[j].path@ && paths_of(l)[i] == l[i].path@);
            if i > 0 {
                assert(l[i] == f[i - 1]);
                assert(paths_of(f)[j - 1] == f[j - 1].path@ && paths_of(f)[i - 1] == f[i - 1].path@);
            }
        }
    }
    lemma_first_n_distinct(paths_of(l), max);
    assert(paths_of(after) =~= first_n(paths_of(l), max));
}

/// Whether a list runs from most to least recently opened.
pub open spec fn newest_first(s: Seq<&RecentItem>) -> bool {
    forall|i: int, j: int| 0 <= i < j < s.len() ==> s[i].last_opened >= s[j].last_opened
}

/// Inserting by recency keeps a list newest-first and adds exactly `x`.
proof fn lemma_insert_by_recency<'a>(sorted: Seq<&'a RecentItem>, x: &'a RecentItem)
    requires
        newest_first(sorted),
    ensures
        newest_first(insert_by_recency(sorted, x)),
        insert_by_recency(sorted, x).to_multiset() == sorted.to_multiset().insert(x),
    decreases sorted.len(),
{
    broadcast use vstd::seq_lib::group_to_multiset_ensures, vstd::multiset::group_multiset_axioms;

    if sorted.len() == 0 {
        assert(sorted.push(x) =~= seq![x]);
    } else if sorted.last().last_opened < x.last_opened {
        let init = sorted.drop_last();
        let last = sorted.last();
        lemma_insert_by_recency(init, x);
        let r = insert_by_recency(init, x);
        assert forall|i: int| 0 <= i < r.len() implies r[i].last_opened >= last.last_opened by {
            assert(r.to_multiset().count(r[i]) > 0);
            if r[i] != x {
                assert(init.to_multiset().count(r[i]) > 0);
                assert(init.contains(r[i]));
                let j = choose|j: int| 0 <= j < init.len() && init[j] == r[i];
                assert(sorted[j] == init[j]);
            }
        }
        assert(sorted =~= init.push(last));
    }
}

/// The merged "Open Recent" list runs newest first and holds exactly the
/// files and workspaces given.
pub proof fn lemma_by_recency_sorted(s: Seq<&RecentItem>)
    ensures
        newest_first(by_recency(s)),
        by_recency(s).to_multiset() == s.to_multiset(),
    decreases s.len(),
{
    broadcast use vstd::seq_lib::group_to_multiset_ensures;

    if s.len() > 0 {
        lemma_by_recency_sorted(s.drop_last());
        lemma_insert_by_recency(by_recency(s.drop_last()), s.last());
        assert(s =~= s.drop_last().push(s.last()));
    } else {
        assert(s =~= Seq::<&RecentItem>::empty());
    }
}

impl Default for RecentManager {
    fn default() -> (r: Self)
        ensures
            r.files_view() == Seq::<RecentItem>::empty(),
            r.workspaces_view() == Seq::<RecentItem>::empty(),
    {
        RecentManager::new()
    }
}

} // verus!
