//! Editor groups: split views, each holding an ordered list of tabs.
//!
//! Mirrors VS Code's editor group model: groups arranged in a grid, each
//! with an active tab, an optional preview tab (replaced by the next
//! preview open) and a region of pinned tabs at the left.

use vstd::prelude::*;

use crate::paths::{
    extension, file_name, opt_view, parent, path_extension, path_file_name, path_parent,
    path_exists, paths_equal, same_path,
};
use crate::text::str_eq;

verus! {

// ── Tab identity ─────────────────────────────────────────────────────────────

/// Identifier of a tab within the editor.
#[derive(Clone, Copy, Debug, PartialEq, Eq, Hash)]
pub struct TabId(pub u64);

/// Source of tab identifiers: hands out consecutive numbers, wrapping on
/// overflow like an atomic counter.
#[derive(Clone, Copy, Debug)]
pub struct TabIdAllocator {
    pub next: u64,
}

impl TabIdAllocator {
    /// The allocator after it has handed out one identifier.
    pub open spec fn advanced(self) -> TabIdAllocator {
        TabIdAllocator {
            next: if self.next == u64::MAX {
                0
            } else {
                (self.next + 1) as u64
            },
        }
    }

    /// An allocator whose first identifier is 1.
    pub fn new() -> (r: Self)
        ensures
            r.next == 1,
    {
        TabIdAllocator { next: 1 }
    }

    /// Returns the next identifier and advances the counter.
    pub fn next(&mut self) -> (r: TabId)
        ensures
            r.0 == old(self).next,
            *final(self) == old(self).advanced(),
    {
        let id = self.next;
        self.next = if self.next == u64::MAX {
            0
        } else {
            self.next + 1
        };
        TabId(id)
    }
}

// ── Editor tab ───────────────────────────────────────────────────────────────

/// Icon category for an editor tab.
#[derive(Clone, Debug)]
pub enum TabIcon {
    Language(String),
    Diff,
    Settings,
    KeyboardShortcuts,
    Welcome,
    Extension(String),
}

impl TabIcon {
    /// The default icon: the `plaintext` language.
    pub fn default_icon() -> (r: Self)
        ensures
            r matches TabIcon::Language(l) && l@ == "plaintext"@,
    {
        TabIcon::Language("plaintext".to_owned())
    }

    /// A copy of this icon.
    pub fn duplicate(&self) -> (r: Self)
        ensures
            r == *self,
    {
        match self {
            TabIcon::Language(s) => TabIcon::Language(s.clone()),
            TabIcon::Diff => TabIcon::Diff,
            TabIcon::Settings => TabIcon::Settings,
            TabIcon::KeyboardShortcuts => TabIcon::KeyboardShortcuts,
            TabIcon::Welcome => TabIcon::Welcome,
            TabIcon::Extension(s) => TabIcon::Extension(s.clone()),
        }
    }
}

impl Default for TabIcon {
    fn default() -> (r: Self)
        ensures
            r matches TabIcon::Language(l) && l@ == "plaintext"@,
    {
        Self::default_icon()
    }
}

/// A single editor tab within a group.
#[derive(Clone, Debug)]
pub struct EditorTab {
    pub id: TabId,
    pub title: String,
    pub path: Option<String>,
    pub description: Option<String>,
    pub icon: TabIcon,
    pub is_modified: bool,
    pub is_preview: bool,
    pub is_pinned: bool,
}

/// Whether `t` is the tab that opening the file at `p` creates: titled by the
/// file name (or "Untitled"), described by the parent directory, iconed by
/// the extension (or "plaintext"), unmodified and unpinned.
pub open spec fn opened_from(t: EditorTab, p: Seq<char>, preview: bool) -> bool {
    &&& t.title@ == (match path_file_name(p) {
        Some(n) => n,
        None => "Untitled"@,
    })
    &&& opt_view(t.path) == Some(p)
    &&& opt_view(t.description) == path_parent(p)
    &&& t.icon matches TabIcon::Language(l) && l@ == (match path_extension(p) {
        Some(e) => e,
        None => "plaintext"@,
    })
    &&& !t.is_modified
    &&& t.is_preview == preview
    &&& !t.is_pinned
}

/// `t` with its preview flag set to `preview`.
pub open spec fn with_preview(t: EditorTab, preview: bool) -> EditorTab {
    EditorTab {
        id: t.id,
        title: t.title,
        path: t.path,
        description: t.description,
        icon: t.icon,
        is_modified: t.is_modified,
        is_preview: preview,
        is_pinned: t.is_pinned,
    }
}

/// `t` with its pinned flag set to `pinned`.
pub open spec fn with_pinned(t: EditorTab, pinned: bool) -> EditorTab {
    EditorTab {
        id: t.id,
        title: t.title,
        path: t.path,
        description: t.description,
        icon: t.icon,
        is_modified: t.is_modified,
        is_preview: t.is_preview,
        is_pinned: pinned,
    }
}

/// `t` with a different identifier.
pub open spec fn with_id(t: EditorTab, id: TabId) -> EditorTab {
    EditorTab {
        id: id,
        title: t.title,
        path: t.path,
        description: t.description,
        icon: t.icon,
        is_modified: t.is_modified,
        is_preview: t.is_preview,
        is_pinned: t.is_pinned,
    }
}

pub(crate) fn copy_opt_string(o: &Option<String>) -> (r: Option<String>)
    ensures
        r == *o,
{
    match o {
        Some(s) => Some(s.clone()),
        None => None,
    }
}

impl EditorTab {
    /// A new, empty "Untitled" tab.
    pub fn new_untitled(id: TabId) -> (r: Self)
        ensures
            r.id == id,
            r.title@ == "Untitled"@,
            r.path is None,
            r.description is None,
            r.icon matches TabIcon::Language(l) && l@ == "plaintext"@,
            !r.is_modified && !r.is_preview && !r.is_pinned,
    {
        EditorTab {
            id,
            title: "Untitled".to_owned(),
            path: None,
            description: None,
            icon: TabIcon::default_icon(),
            is_modified: false,
            is_preview: false,
            is_pinned: false,
        }
    }

    /// A tab for the file at `path`.
    pub fn from_path(path: &str, id: TabId) -> (r: Self)
        ensures
            r.id == id,
            opened_from(r, path@, false),
    {
        let title = match file_name(path) {
            Some(n) => n,
            None => "Untitled".to_owned(),
        };
        let description = parent(path);
        let icon = match extension(path) {
            Some(e) => TabIcon::Language(e),
            None => TabIcon::Language("plaintext".to_owned()),
        };
        EditorTab {
            id,
            title,
            path: Some(path.to_owned()),
            description,
            icon,
            is_modified: false,
            is_preview: false,
            is_pinned: false,
        }
    }

    /// A preview tab for the file at `path`.
    pub fn from_path_preview(path: &str, id: TabId) -> (r: Self)
        ensures
            r.id == id,
            opened_from(r, path@, true),
    {
        let mut tab = Self::from_path(path, id);
        tab.is_preview = true;
        tab
    }

    /// A copy of this tab.
    pub fn duplicate(&self) -> (r: Self)
        ensures
            r == *self,
    {
        EditorTab {
            id: self.id,
            title: self.title.clone(),
            path: copy_opt_string(&self.path),
            description: copy_opt_string(&self.description),
            icon: self.icon.duplicate(),
            is_modified: self.is_modified,
            is_preview: self.is_preview,
            is_pinned: self.is_pinned,
        }
    }
}

// ── Specifications over tab lists ────────────────────────────────────────────

/// Whether tab `t` is open on the path spelled `p`.
pub open spec fn tab_has_path(t: EditorTab, p: Seq<char>) -> bool {
    match t.path {
        Some(q) => same_path(q@, p),
        None => false,
    }
}

/// First index at or after `i` of a tab open on `p`.
pub open spec fn find_path_from(tabs: Seq<EditorTab>, p: Seq<char>, i: int) -> Option<int>
    decreases tabs.len() - i,
{
    if i < 0 || i >= tabs.len() {
        None
    } else if tab_has_path(tabs[i], p) {
        Some(i)
    } else {
        find_path_from(tabs, p, i + 1)
    }
}

/// First index of a tab open on `p`.
pub open spec fn find_path(tabs: Seq<EditorTab>, p: Seq<char>) -> Option<int> {
    find_path_from(tabs, p, 0)
}

/// Index of the first unpinned tab at or after `i` (the length when none).
pub open spec fn first_unpinned_from(tabs: Seq<EditorTab>, i: int) -> int
    decreases tabs.len() - i,
{
    if i >= tabs.len() {
        tabs.len() as int
    } else if tabs[i].is_pinned {
        first_unpinned_from(tabs, i + 1)
    } else {
        i
    }
}

/// Length of the run of pinned tabs at the left.
pub open spec fn pinned_run(tabs: Seq<EditorTab>) -> int {
    first_unpinned_from(tabs, 0)
}

/// The pinned run never reaches past the tabs.
pub proof fn lemma_pinned_run_bound(tabs: Seq<EditorTab>, i: int)
    requires
        0 <= i,
    ensures
        first_unpinned_from(tabs, i) <= if i <= tabs.len() { tabs.len() as int } else { i },
        i <= tabs.len() ==> i <= first_unpinned_from(tabs, i),
    decreases tabs.len() - i,
{
    if i < tabs.len() && tabs[i].is_pinned {
        lemma_pinned_run_bound(tabs, i + 1);
    }
}

/// An unpinned tab at `k` (at or after `i`) ends the run no later than `k`.
pub proof fn lemma_first_unpinned_before(tabs: Seq<EditorTab>, i: int, k: int)
    requires
        0 <= i <= k < tabs.len(),
        !tabs[k].is_pinned,
    ensures
        first_unpinned_from(tabs, i) <= k,
    decreases k - i,
{
    if i < k && tabs[i].is_pinned {
        lemma_first_unpinned_before(tabs, i + 1, k);
    }
}

/// The preview index after the tab at `index` closes.
pub open spec fn preview_after_close(p: Option<usize>, index: usize) -> Option<usize> {
    match p {
        Some(pt) => if pt == index {
            None
        } else if pt > index {
            Some((pt - 1) as usize)
        } else {
            Some(pt)
        },
        None => None,
    }
}

/// The active index after the tab at `index` closes, leaving `len` tabs.
pub open spec fn active_after_close(active: usize, index: usize, len: nat) -> usize {
    if len == 0 {
        0
    } else if active >= len {
        (len - 1) as usize
    } else if active > index {
        (active - 1) as usize
    } else {
        active
    }
}

/// The state `new` that opening `p` in group `old` leads to: an existing tab
/// on the path is activated (and stops being a preview); otherwise a new tab
/// is appended and activated.
pub open spec fn opened_file(old: EditorGroup, new: EditorGroup, p: Seq<char>) -> bool {
    match find_path(old.tabs@, p) {
        Some(i) => {
            &&& new.active_tab == i
            &&& if old.tabs@[i].is_preview {
                &&& new.tabs@ == old.tabs@.update(i, with_preview(old.tabs@[i], false))
                &&& new.preview_tab is None
            } else {
                &&& new.tabs@ == old.tabs@
                &&& new.preview_tab == old.preview_tab
            }
        },
        None => {
            let pos = old.tabs@.len();
            &&& new.active_tab == pos
            &&& new.tabs@.len() == pos + 1
            &&& new.tabs@.take(pos as int) == old.tabs@
            &&& opened_from(new.tabs@[pos as int], p, false)
            &&& new.preview_tab == (match old.preview_tab {
                Some(pt) => if pt >= pos {
                    Some((pt + 1) as usize)
                } else {
                    Some(pt)
                },
                None => None,
            })
        },
    }
}

/// Identifiers when opening `p` in group `old` leads to `new`: a reused
/// tab draws none; a new tab, which is the active one, takes the group's
/// next identifier.
pub open spec fn id_drawn(old: EditorGroup, new: EditorGroup, p: Seq<char>) -> bool {
    if find_path(old.tabs@, p) is Some {
        new.ids == old.ids
    } else {
        &&& new.ids == old.ids.advanced()
        &&& new.tabs@[new.active_tab as int].id.0 == old.ids.next
    }
}

/// The state `new` that opening `p` as a preview in group `old` leads to: an
/// existing tab on the path is activated; otherwise the current preview tab
/// (if any) is dropped and a new preview tab is appended and activated.
pub open spec fn opened_preview(old: EditorGroup, new: EditorGroup, p: Seq<char>) -> bool {
    match find_path(old.tabs@, p) {
        Some(i) => {
            &&& new.active_tab == i
            &&& new.tabs@ == old.tabs@
            &&& new.preview_tab == old.preview_tab
        },
        None => {
            let replaced = old.preview_tab matches Some(prev) && prev < old.tabs@.len();
            let kept = if replaced {
                old.tabs@.remove(old.preview_tab->0 as int)
            } else {
                old.tabs@
            };
            &&& new.active_tab == kept.len()
            &&& new.preview_tab == Some(kept.len() as usize)
            &&& new.tabs@.len() == kept.len() + 1
            &&& new.tabs@.take(kept.len() as int) == kept
            &&& opened_from(new.tabs@[kept.len() as int], p, true)
        },
    }
}

/// The group after stepping to the next (`forward`) or previous tab,
/// wrapping around; a group without tabs keeps its index.
pub open spec fn stepped(old: EditorGroup, new: EditorGroup, forward: bool) -> bool {
    new == EditorGroup {
        active_tab: if old.tabs@.len() == 0 {
            old.active_tab
        } else if forward {
            next_index(old.active_tab as int, old.tabs@.len() as int) as usize
        } else {
            prev_index(old.active_tab as int, old.tabs@.len() as int) as usize
        },
        ..old
    }
}

/// The group after moving the active tab one place left; the first
/// unpinned tab does not move into the pinned region.
pub open spec fn moved_left(old: EditorGroup, new: EditorGroup) -> bool {
    let a = old.active_tab as int;
    let t = old.tabs@;
    &&& new.preview_tab == old.preview_tab
    &&& new.ids == old.ids
    &&& if 0 < a < t.len() && !(a <= pinned_run(t) && !t[a].is_pinned) {
        &&& new.active_tab == a - 1
        &&& new.tabs@ == t.update(a, t[a - 1]).update(a - 1, t[a])
    } else {
        &&& new.active_tab == a
        &&& new.tabs@ == t
    }
}

/// The group after moving the active tab one place right.
pub open spec fn moved_right(old: EditorGroup, new: EditorGroup) -> bool {
    let a = old.active_tab as int;
    let t = old.tabs@;
    &&& new.preview_tab == old.preview_tab
    &&& new.ids == old.ids
    &&& if a + 1 < t.len() {
        &&& new.active_tab == a + 1
        &&& new.tabs@ == t.update(a, t[a + 1]).update(a + 1, t[a])
    } else {
        &&& new.active_tab == a
        &&& new.tabs@ == t
    }
}

/// Where index `a` ends up when the tab at `from` moves to `to`.
pub open spec fn follow(a: int, from: int, to: int) -> int {
    if a == from {
        to
    } else if from < a && a <= to {
        a - 1
    } else if to <= a && a < from {
        a + 1
    } else {
        a
    }
}

/// An optional index after the tab at `from` moves to `to`.
pub open spec fn follow_opt(p: Option<usize>, from: int, to: int) -> Option<usize> {
    match p {
        Some(q) => Some(follow(q as int, from, to) as usize),
        None => None,
    }
}

/// The group after unpinning the tab at `index`: the tab leaves the pinned
/// region at the left and goes just after it, so pinned tabs stay at the
/// left; the active and preview indices follow their tabs. Nothing
/// happens when there is no such pinned tab.
pub open spec fn unpinned(old: EditorGroup, new: EditorGroup, index: usize) -> bool {
    let t = old.tabs@;
    if index >= t.len() || !t[index as int].is_pinned {
        new == old
    } else {
        let tab = with_pinned(t[index as int], false);
        let rest = t.remove(index as int);
        let to = pinned_run(rest);
        &&& new.tabs@ == rest.insert(to, tab)
        &&& new.active_tab == follow(old.active_tab as int, index as int, to)
        &&& new.preview_tab == follow_opt(old.preview_tab, index as int, to)
        &&& new.ids == old.ids
    }
}

/// The group after closing every tab but the one at `except`, and the
/// tabs closed; nothing happens when there is no such tab.
pub open spec fn others_closed(old: EditorGroup, new: EditorGroup, except: usize, closed: Seq<EditorTab>) -> bool {
    if except >= old.tabs@.len() {
        closed.len() == 0 && new == old
    } else {
        &&& closed == old.tabs@.remove(except as int)
        &&& new == EditorGroup {
            tabs: new.tabs,
            active_tab: 0,
            preview_tab: None,
            ..old
        }
        &&& new.tabs@ == seq![old.tabs@[except as int]]
    }
}

/// The group after closing the tabs right of `index`, and the tabs closed;
/// the active and preview indices stay on kept tabs.
pub open spec fn right_closed(old: EditorGroup, new: EditorGroup, index: usize, closed: Seq<EditorTab>) -> bool {
    if index + 1 >= old.tabs@.len() {
        closed.len() == 0 && new == old
    } else {
        &&& closed == old.tabs@.skip(index + 1)
        &&& new.tabs@ == old.tabs@.take(index + 1)
        &&& new.ids == old.ids
        &&& new.active_tab == (if old.active_tab > index {
            index
        } else {
            old.active_tab
        })
        &&& new.preview_tab == (match old.preview_tab {
            Some(pt) => if pt > index {
                None
            } else {
                Some(pt)
            },
            None => None,
        })
    }
}

/// The group after closing all its tabs, and the tabs closed.
pub open spec fn all_closed(old: EditorGroup, new: EditorGroup, closed: Seq<EditorTab>) -> bool {
    &&& closed == old.tabs@
    &&& new.tabs@.len() == 0
    &&& new.active_tab == 0
    &&& new.preview_tab is None
    &&& new.ids == old.ids
}

/// The index after `a` among `len` tabs, wrapping to the first.
pub open spec fn next_index(a: int, len: int) -> int {
    (a + 1) % len
}

/// The index before `a` among `len` tabs, wrapping to the last.
pub open spec fn prev_index(a: int, len: int) -> int {
    if a == 0 {
        len - 1
    } else {
        a - 1
    }
}

// ── Editor group ─────────────────────────────────────────────────────────────

/// A single editor pane containing an ordered list of tabs.
#[derive(Clone, Debug)]
pub struct EditorGroup {
    pub tabs: Vec<EditorTab>,
    pub active_tab: usize,
    pub preview_tab: Option<usize>,
    pub ids: TabIdAllocator,
}

impl EditorGroup {
    /// The group's indices are within its tabs: the active index points at a
    /// tab (or is 0 when there are none) and the preview index at a tab.
    pub open spec fn wf(&self) -> bool {
        &&& (self.tabs.len() == 0 ==> self.active_tab == 0)
        &&& (self.tabs.len() > 0 ==> self.active_tab < self.tabs.len())
        &&& (self.preview_tab matches Some(p) ==> p < self.tabs.len())
    }

    pub fn new() -> (r: Self)
        ensures
            r.tabs@.len() == 0,
            r.active_tab == 0,
            r.preview_tab is None,
            r.wf(),
    {
        EditorGroup { tabs: Vec::new(), active_tab: 0, preview_tab: None, ids: TabIdAllocator::new() }
    }

    /// A group holding just `tab`, which is the preview tab when it is one.
    pub fn with_tab(tab: EditorTab) -> (r: Self)
        ensures
            r.tabs@ == seq![tab],
            r.active_tab == 0,
            r.preview_tab == (if tab.is_preview {
                Some(0usize)
            } else {
                None
            }),
            r.wf(),
    {
        let is_preview = tab.is_preview;
        let mut tabs = Vec::new();
        tabs.push(tab);
        EditorGroup {
            tabs,
            active_tab: 0,
            preview_tab: if is_preview {
                Some(0)
            } else {
                None
            },
            ids: TabIdAllocator::new(),
        }
    }

    /// Number of pinned tabs at the left.
    fn pinned_count(&self) -> (r: usize)
        ensures
            r == pinned_run(self.tabs@),
    {
        let n = self.tabs.len();
        let mut i: usize = 0;
        while i < n
            invariant
                i <= n,
                n == self.tabs@.len(),
                first_unpinned_from(self.tabs@, i as int) == pinned_run(self.tabs@),
            ensures
                i == pinned_run(self.tabs@),
            decreases n - i,
        {
            if !self.tabs[i].is_pinned {
                break;
            }
            i = i + 1;
        }
        i
    }

    /// Where a newly opened tab goes: after all existing tabs.
    fn insert_position(&self) -> (r: usize)
        ensures
            r == self.tabs@.len(),
    {
        if self.tabs.len() == 0 {
            return 0;
        }
        self.tabs.len()
    }

    /// Index of the first tab open on `path`.
    pub fn find_tab_by_path(&self, path: &str) -> (r: Option<usize>)
        ensures
            r matches Some(i) ==> i < self.tabs@.len(),
            match find_path(self.tabs@, path@) {
                Some(i) => 0 <= i < self.tabs@.len() && r == Some(i as usize),
                None => r is None,
            },
    {
        let n = self.tabs.len();
        let mut i: usize = 0;
        while i < n
            invariant
                i <= n,
                n == self.tabs@.len(),
                find_path_from(self.tabs@, path@, i as int) == find_path(self.tabs@, path@),
            decreases n - i,
        {
            let hit = match &self.tabs[i].path {
                Some(q) => paths_equal(q.as_str(), path),
                None => false,
            };
            if hit {
                return Some(i);
            }
            i = i + 1;
        }
        None
    }

    /// Open a file in this group; returns the index of the tab activated.
    /// An existing tab on the same path is reused (and stops being a
    /// preview); otherwise a new tab is appended.
    pub fn open_file(&mut self, path: &str) -> (r: usize)
        requires
            old(self).preview_tab != Some(usize::MAX),
            old(self).tabs@.len() < usize::MAX,
        ensures
            opened_file(*old(self), *final(self), path@),
            r == final(self).active_tab,
            old(self).wf() ==> final(self).wf(),
            id_drawn(*old(self), *final(self), path@),
    {
        if let Some(idx) = self.find_tab_by_path(path) {
            self.active_tab = idx;
            if self.tabs[idx].is_preview {
                self.tabs[idx].is_preview = false;
                self.preview_tab = None;
            }
            return idx;
        }
        let id = self.ids.next();
        let tab = EditorTab::from_path(path, id);
        let pos = self.insert_position();
        self.tabs.insert(pos, tab);
        self.active_tab = pos;
        if let Some(pt) = self.preview_tab {
            if pt >= pos {
                self.preview_tab = Some(pt + 1);
            }
        }
        assert(self.tabs@.take(pos as int) =~= old(self).tabs@);
        pos
    }

    /// Open a file as a preview tab; an existing preview tab is replaced.
    /// Returns the index of the tab activated.
    pub fn open_file_preview(&mut self, path: &str) -> (r: usize)
        requires
            old(self).tabs@.len() < usize::MAX,
        ensures
            opened_preview(*old(self), *final(self), path@),
            r == final(self).active_tab,
            old(self).wf() ==> final(self).wf(),
            id_drawn(*old(self), *final(self), path@),
    {
        if let Some(idx) = self.find_tab_by_path(path) {
            self.active_tab = idx;
            return idx;
        }
        if let Some(prev) = self.preview_tab {
            if prev < self.tabs.len() {
                self.tabs.remove(prev);
                if self.active_tab > prev {
                    self.active_tab = self.active_tab - 1;
                }
            }
        }
        let ghost kept = self.tabs@;
        let id = self.ids.next();
        let tab = EditorTab::from_path_preview(path, id);
        let pos = self.insert_position();
        self.tabs.insert(pos, tab);
        self.active_tab = pos;
        self.preview_tab = Some(pos);
        assert(self.tabs@.take(pos as int) =~= kept);
        pos
    }

    /// Close the tab at `index`, returning it; the active and preview
    /// indices follow the tabs they pointed at.
    pub fn close_tab(&mut self, index: usize) -> (r: Option<EditorTab>)
        ensures
            closed_tab(*old(self), *final(self), index),
            index >= old(self).tabs@.len() ==> r is None,
            index < old(self).tabs@.len() ==> r == Some(old(self).tabs@[index as int]),
            old(self).wf() ==> final(self).wf(),
    {
        if index >= self.tabs.len() {
            return None;
        }
        let tab = self.tabs.remove(index);
        match self.preview_tab {
            Some(pt) => {
                if pt == index {
                    self.preview_tab = None;
                } else if pt > index {
                    self.preview_tab = Some(pt - 1);
                }
            },
            None => {},
        }
        if self.tabs.len() == 0 {
            self.active_tab = 0;
        } else if self.active_tab >= self.tabs.len() {
            self.active_tab = self.tabs.len() - 1;
        } else if self.active_tab > index {
            self.active_tab = self.active_tab - 1;
        }
        Some(tab)
    }

    /// Close all tabs except the one at `except`; returns the closed tabs.
    pub fn close_others(&mut self, except: usize) -> (r: Vec<EditorTab>)
        ensures
            others_closed(*old(self), *final(self), except, r@),
            old(self).wf() ==> final(self).wf(),
    {
        if except >= self.tabs.len() {
            return Vec::new();
        }
        let keep = self.tabs.remove(except);
        let mut kept = Vec::new();
        kept.push(keep);
        let mut closed = kept;
        std::mem::swap(&mut self.tabs, &mut closed);
        self.active_tab = 0;
        self.preview_tab = None;
        closed
    }

    /// Close all tabs to the right of `index`; returns the closed tabs.
    pub fn close_to_right(&mut self, index: usize) -> (r: Vec<EditorTab>)
        requires
            index < usize::MAX,
        ensures
            right_closed(*old(self), *final(self), index, r@),
            old(self).wf() ==> final(self).wf(),
    {
        if index + 1 >= self.tabs.len() {
            return Vec::new();
        }
        let closed = self.tabs.split_off(index + 1);
        if self.active_tab > index {
            self.active_tab = index;
        }
        if let Some(pt) = self.preview_tab {
            if pt > index {
                self.preview_tab = None;
            }
        }
        assert(closed@ =~= old(self).tabs@.skip(index + 1));
        assert(self.tabs@ =~= old(self).tabs@.take(index + 1));
        closed
    }

    /// Close every tab; returns them in order.
    pub fn close_all(&mut self) -> (r: Vec<EditorTab>)
        ensures
            all_closed(*old(self), *final(self), r@),
            final(self).wf(),
    {
        self.active_tab = 0;
        self.preview_tab = None;
        let mut all = Vec::new();
        std::mem::swap(&mut self.tabs, &mut all);
        all
    }

    /// Activate the next tab, wrapping around.
    pub fn next_tab(&mut self)
        requires
            old(self).active_tab < usize::MAX,
        ensures
            stepped(*old(self), *final(self), true),
            old(self).wf() ==> final(self).wf(),
    {
        if self.tabs.len() > 0 {
            self.active_tab = (self.active_tab + 1) % self.tabs.len();
        }
    }

    /// Activate the previous tab, wrapping around.
    pub fn prev_tab(&mut self)
        ensures
            stepped(*old(self), *final(self), false),
            old(self).wf() ==> final(self).wf(),
    {
        if self.tabs.len() > 0 {
            self.active_tab = if self.active_tab == 0 {
                self.tabs.len() - 1
            } else {
                self.active_tab - 1
            };
        }
    }

    /// Move the active tab one place left. The first unpinned tab does not
    /// move into the pinned region.
    pub fn move_tab_left(&mut self)
        ensures
            moved_left(*old(self), *final(self)),
            old(self).wf() ==> final(self).wf(),
    {
        if self.active_tab > 0 && self.active_tab < self.tabs.len() {
            let pinned = self.pinned_count();
            if self.active_tab <= pinned && !self.tabs[self.active_tab].is_pinned {
                return;
            }
            let a = self.active_tab;
            let moved = self.tabs.remove(a);
            self.tabs.insert(a - 1, moved);
            self.active_tab = a - 1;
            assert(self.tabs@ =~= old(self).tabs@.update(a as int, old(self).tabs@[a - 1]).update(
                a - 1,
                old(self).tabs@[a as int],
            ));
        }
    }

    /// Move the active tab one place right.
    pub fn move_tab_right(&mut self)
        requires
            old(self).active_tab < usize::MAX,
        ensures
            moved_right(*old(self), *final(self)),
            old(self).wf() ==> final(self).wf(),
    {
        if self.active_tab + 1 < self.tabs.len() {
            let a = self.active_tab;
            let moved = self.tabs.remove(a);
            self.tabs.insert(a + 1, moved);
            self.active_tab = a + 1;
            assert(self.tabs@ =~= old(self).tabs@.update(a as int, old(self).tabs@[a + 1]).update(
                a + 1,
                old(self).tabs@[a as int],
            ));
        }
    }

    /// Pin the tab at `index`: it stops being a preview and moves to the
    /// end of the pinned region at the left; the active and preview indices
    /// follow their tabs.
    pub fn pin_tab(&mut self, index: usize)
        ensures
            pinned(*old(self), *final(self), index),
            old(self).wf() ==> final(self).wf(),
    {
        if index >= self.tabs.len() || self.tabs[index].is_pinned {
            return;
        }
        let run = self.pinned_count();
        proof {
            lemma_pinned_run_bound(self.tabs@, 0);
            lemma_first_unpinned_before(self.tabs@, 0, index as int);
        }
        let mut tab = self.tabs.remove(index);
        tab.is_pinned = true;
        tab.is_preview = false;
        self.tabs.insert(run, tab);
        self.active_tab = Self::follow_index(self.active_tab, index, run);
        self.preview_tab = match self.preview_tab {
            Some(pt) => if pt == index {
                None
            } else {
                Some(Self::follow_index(pt, index, run))
            },
            None => None,
        };
    }

    /// Where index `a` ends up when the tab at `from` moves to `to`.
    fn follow_index(a: usize, from: usize, to: usize) -> (r: usize)
        ensures
            r == follow(a as int, from as int, to as int),
    {
        if a == from {
            to
        } else if from < a && a <= to {
            a - 1
        } else if to <= a && a < from {
            a + 1
        } else {
            a
        }
    }

    /// Unpin the tab at `index`: it moves to just after the pinned region,
    /// so pinned tabs stay at the left; the active and preview indices
    /// follow their tabs.
    pub fn unpin_tab(&mut self, index: usize)
        ensures
            unpinned(*old(self), *final(self), index),
            old(self).wf() ==> final(self).wf(),
    {
        if index >= self.tabs.len() || !self.tabs[index].is_pinned {
            return;
        }
        let mut tab = self.tabs.remove(index);
        tab.is_pinned = false;
        let to = self.pinned_count();
        proof {
            lemma_pinned_run_bound(self.tabs@, 0);
        }
        self.tabs.insert(to, tab);
        self.active_tab = Self::follow_index(self.active_tab, index, to);
        self.preview_tab = match self.preview_tab {
            Some(pt) => Some(Self::follow_index(pt, index, to)),
            None => None,
        };
    }

    pub fn is_empty(&self) -> (r: bool)
        ensures
            r == (self.tabs@.len() == 0),
    {
        self.tabs.len() == 0
    }

    /// The active tab for editing, when the active index points at one; the
    /// group is otherwise left as it was.
    pub fn active_tab_mut(&mut self) -> (r: Option<&mut EditorTab>)
        ensures
            old(self).active_tab < old(self).tabs@.len() ==> r is Some && *r->0 == old(self).tabs@[old(self).active_tab as int]
                && final(self).tabs@ == old(self).tabs@.update(old(self).active_tab as int, *final(r->0)),
            old(self).active_tab >= old(self).tabs@.len() ==> r is None && final(self).tabs@ == old(self).tabs@,
            final(self).active_tab == old(self).active_tab,
            final(self).preview_tab == old(self).preview_tab,
            final(self).ids == old(self).ids,
    {
        if self.active_tab < self.tabs.len() {
            let i = self.active_tab;
            Some(&mut self.tabs[i])
        } else {
            None
        }
    }

    /// The active tab, when the active index points at one.
    pub fn active_tab_ref(&self) -> (r: Option<&EditorTab>)
        ensures
            self.active_tab < self.tabs@.len() ==> r == Some(&self.tabs@[self.active_tab as int]),
            self.active_tab >= self.tabs@.len() ==> r is None,
    {
        if self.active_tab < self.tabs.len() {
            Some(&self.tabs[self.active_tab])
        } else {
            None
        }
    }
}


/// The group a tab-closing operation leaves: the tab at `index` removed and
/// the active and preview indices adjusted (no change for a bad index).
pub open spec fn closed_tab(old: EditorGroup, new: EditorGroup, index: usize) -> bool {
    if index >= old.tabs@.len() {
        new == old
    } else {
        &&& new.tabs@ == old.tabs@.remove(index as int)
        &&& new.preview_tab == preview_after_close(old.preview_tab, index)
        &&& new.active_tab == active_after_close(old.active_tab, index, new.tabs@.len())
        &&& new.ids == old.ids
    }
}

/// A group with no tabs and both indices reset.
pub open spec fn is_blank(g: EditorGroup) -> bool {
    g.tabs@.len() == 0 && g.active_tab == 0 && g.preview_tab is None
}

pub open spec fn non_empty(g: EditorGroup) -> bool {
    g.tabs@.len() > 0
}

/// The tabs of groups `i..j`, in order.
pub open spec fn tabs_of_range(gs: Seq<EditorGroup>, i: int, j: int) -> Seq<EditorTab>
    decreases j - i,
{
    if i >= j {
        Seq::empty()
    } else {
        gs[i].tabs@ + tabs_of_range(gs, i + 1, j)
    }
}

/// Grid shape for `n` groups laid out in a row.
pub open spec fn row_grid(n: nat) -> (u32, u32) {
    if n <= 1 {
        (1u32, 1u32)
    } else {
        (n as u32, 1u32)
    }
}

/// `v` clamped to `1..=4`.
pub open spec fn grid_clamp(v: u32) -> u32 {
    if v < 1 {
        1
    } else if v > 4 {
        4
    } else {
        v
    }
}

/// Groups `ng` (active index `na`, grid `ngrid`) are what dropping the empty
/// groups of `g` leaves, when `g` has more than one group: the non-empty
/// groups in order (or one blank group if none is left), the active index
/// clamped, and the groups laid out in a row. One group or none is kept as
/// it is.
pub open spec fn cleaned_up(
    g: Seq<EditorGroup>,
    a: usize,
    grid: (u32, u32),
    ng: Seq<EditorGroup>,
    na: usize,
    ngrid: (u32, u32),
) -> bool {
    if g.len() <= 1 {
        ng == g && na == a && ngrid == grid
    } else {
        let kept = g.filter(|x: EditorGroup| non_empty(x));
        &&& if kept.len() == 0 {
            ng.len() == 1 && is_blank(ng[0])
        } else {
            ng == kept
        }
        &&& na == (if a >= ng.len() {
            (ng.len() - 1) as usize
        } else {
            a
        })
        &&& ngrid == row_grid(ng.len())
    }
}

/// Group `g` is the one splitting group `src` creates: a copy of its active
/// tab (no longer a preview, under a new identifier), or no tab when `src`
/// has no active tab.
pub open spec fn split_copy(src: EditorGroup, g: EditorGroup) -> bool {
    if src.active_tab < src.tabs@.len() {
        let t = src.tabs@[src.active_tab as int];
        &&& g.tabs@.len() == 1
        &&& with_id(g.tabs@[0], t.id) == with_preview(t, false)
        &&& g.active_tab == 0
        &&& g.preview_tab is None
    } else {
        is_blank(g)
    }
}

/// Identifiers when splitting `src` with `ids` as the source gives group
/// `g`: a copied tab takes the next identifier, and `g` goes on from there.
pub open spec fn split_ids(src: EditorGroup, ids: TabIdAllocator, g: EditorGroup) -> bool {
    if src.active_tab < src.tabs@.len() {
        &&& g.tabs@[0].id.0 == ids.next
        &&& g.ids == ids.advanced()
    } else {
        g.ids == ids
    }
}

/// Whether `new` is what pinning the tab at `index` of `old` leads to (see
/// `EditorGroup::pin_tab`).
pub open spec fn pinned(old: EditorGroup, new: EditorGroup, index: usize) -> bool {
    let t = old.tabs@;
    if index >= t.len() || t[index as int].is_pinned {
        new == old
    } else {
        let tab = with_preview(with_pinned(t[index as int], true), false);
        let run = pinned_run(t);
        &&& new.ids == old.ids
        &&& new.tabs@ == t.remove(index as int).insert(run, tab)
        &&& new.active_tab == follow(old.active_tab as int, index as int, run)
        &&& new.preview_tab == (if old.preview_tab == Some(index) {
            None
        } else {
            follow_opt(old.preview_tab, index as int, run)
        })
    }
}

// ── Group orientation ────────────────────────────────────────────────────────

/// Grid layout orientation.
#[derive(Clone, Copy, Debug, PartialEq, Eq)]
pub enum GroupOrientation {
    Horizontal,
    Vertical,
}

impl Default for GroupOrientation {
    fn default() -> (r: Self)
        ensures
            r == GroupOrientation::Horizontal,
    {
        GroupOrientation::Horizontal
    }
}

// ── Closed tab info ──────────────────────────────────────────────────────────

/// A recently closed tab, for "Reopen Closed Editor".
#[derive(Clone, Debug)]
pub struct ClosedTabInfo {
    pub path: String,
    pub group: usize,
    pub position: usize,
}

// ── Editor group manager ─────────────────────────────────────────────────────

/// The full set of editor groups, laid out in a grid of up to 4×4.
pub struct EditorGroupManager {
    pub groups: Vec<EditorGroup>,
    pub active_group: usize,
    pub orientation: GroupOrientation,
    pub next_group_id: u32,
    pub recently_closed: Vec<ClosedTabInfo>,
    pub grid_cols: u32,
    pub grid_rows: u32,
    /// The identifiers that tabs opened through the manager draw from,
    /// shared by all its groups.
    pub tab_ids: TabIdAllocator,
}

/// Whether manager `new` is what splitting the active group of `old` leads
/// to: the new group sits just after the active one and becomes active.
pub open spec fn split_into(old: EditorGroupManager, new: EditorGroupManager) -> bool {
    let a = old.active_group as int;
    &&& new.groups@.len() == old.groups@.len() + 1
    &&& new.groups@.remove(a + 1) == old.groups@
    &&& split_copy(old.groups@[a], new.groups@[a + 1])
    &&& new.active_group == a + 1
    &&& (new.grid_cols, new.grid_rows) == row_grid(new.groups@.len())
    &&& new.recently_closed == old.recently_closed
    &&& new.next_group_id == old.next_group_id
}

impl EditorGroupManager {
    /// There is at least one group and the active index points at one.
    pub open spec fn wf(&self) -> bool {
        &&& self.groups@.len() >= 1
        &&& self.active_group < self.groups@.len()
    }

    pub fn new() -> (r: Self)
        ensures
            r.groups@.len() == 1,
            is_blank(r.groups@[0]),
            r.active_group == 0,
            r.orientation == GroupOrientation::Horizontal,
            r.next_group_id == 1,
            r.recently_closed@.len() == 0,
            r.grid_cols == 1,
            r.grid_rows == 1,
            r.tab_ids.next == 1,
            r.wf(),
    {
        let mut groups = Vec::new();
        groups.push(EditorGroup::new());
        EditorGroupManager {
            groups,
            active_group: 0,
            orientation: GroupOrientation::Horizontal,
            next_group_id: 1,
            recently_closed: Vec::new(),
            grid_cols: 1,
            grid_rows: 1,
            tab_ids: TabIdAllocator::new(),
        }
    }

    /// Hands out the next group identifier.
    fn alloc_group_id(&mut self) -> (r: u32)
        requires
            old(self).next_group_id < u32::MAX,
        ensures
            r == old(self).next_group_id,
            final(self).next_group_id == old(self).next_group_id + 1,
            final(self).groups == old(self).groups,
            final(self).active_group == old(self).active_group,
    {
        let id = self.next_group_id;
        self.next_group_id = self.next_group_id + 1;
        id
    }

    /// The index of group `group_id`: groups are identified by their
    /// position, so an identifier within the groups names that group.
    fn find_group_index(&self, group_id: u32) -> (r: Option<usize>)
        ensures
            r == if (group_id as int) < self.groups@.len() {
                Some(group_id as usize)
            } else {
                None
            },
    {
        if (group_id as usize) < self.groups.len() {
            Some(group_id as usize)
        } else {
            None
        }
    }

    /// The group `open_editor` opens in: the one `group` names, else the
    /// active group.
    pub open spec fn target_group(&self, group: Option<u32>) -> int {
        match group {
            Some(g) => if (g as int) < self.groups@.len() {
                g as int
            } else {
                self.active_group as int
            },
            None => self.active_group as int,
        }
    }

    /// Open a file in group `group` (the active group when none is given or
    /// no such group exists), as a preview when `preview` is set; that
    /// group becomes active. A new tab takes the manager's next identifier,
    /// so identifiers stay distinct across groups.
    pub fn open_editor(&mut self, path: &str, group: Option<u32>, preview: bool)
        requires
            old(self).active_group < old(self).groups@.len(),
            old(self).groups@[old(self).target_group(group)].tabs@.len() < usize::MAX,
            !preview ==> old(self).groups@[old(self).target_group(group)].preview_tab != Some(
                usize::MAX,
            ),
        ensures
            ({
                let a = old(self).target_group(group);
                &&& final(self).groups@.len() == old(self).groups@.len()
                &&& forall|i: int|
                    0 <= i < old(self).groups@.len() && i != a ==> final(self).groups@[i]
                        == old(self).groups@[i]
                &&& if preview {
                    opened_preview(old(self).groups@[a], final(self).groups@[a], path@)
                } else {
                    opened_file(old(self).groups@[a], final(self).groups@[a], path@)
                }
                &&& old(self).groups@[a].wf() ==> final(self).groups@[a].wf()
                &&& final(self).active_group == a
                &&& id_drawn(
                    (EditorGroup { ids: old(self).tab_ids, ..old(self).groups@[a] }),
                    final(self).groups@[a],
                    path@,
                )
                &&& final(self).tab_ids == final(self).groups@[a].ids
            }),
            final(self).recently_closed == old(self).recently_closed,
            final(self).orientation == old(self).orientation,
            final(self).grid_cols == old(self).grid_cols,
            final(self).grid_rows == old(self).grid_rows,
    {
        let idx = match group {
            Some(g) => match self.find_group_index(g) {
                Some(i) => i,
                None => self.active_group,
            },
            None => self.active_group,
        };
        self.groups[idx].ids = self.tab_ids;
        if preview {
            self.groups[idx].open_file_preview(path);
        } else {
            self.groups[idx].open_file(path);
        }
        self.tab_ids = self.groups[idx].ids;
        self.active_group = idx;
    }

    /// Drop empty groups (unless there is only one group), keeping at least
    /// one group, then re-lay the groups out in a row.
    fn cleanup_empty_groups(&mut self)
        ensures
            cleaned_up(
                old(self).groups@,
                old(self).active_group,
                (old(self).grid_cols, old(self).grid_rows),
                final(self).groups@,
                final(self).active_group,
                (final(self).grid_cols, final(self).grid_rows),
            ),
            final(self).recently_closed == old(self).recently_closed,
            final(self).orientation == old(self).orientation,
            final(self).next_group_id == old(self).next_group_id,
    {
        if self.groups.len() <= 1 {
            return;
        }
        let ghost g = self.groups@;
        let mut old_groups = Vec::new();
        std::mem::swap(&mut self.groups, &mut old_groups);
        let mut kept: Vec<EditorGroup> = Vec::new();
        let n = old_groups.len();
        let mut i: usize = 0;
        while i < n
            invariant
                i <= n,
                n == g.len(),
                old_groups@.len() == n,
                forall|j: int| i <= j < n ==> old_groups@[j] == g[j],
                kept@ == g.take(i as int).filter(|x: EditorGroup| non_empty(x)),
            decreases n - i,
        {
            reveal_with_fuel(Seq::<_>::filter, 1);
            assert(g.take(i + 1).drop_last() =~= g.take(i as int));
            if old_groups[i].tabs.len() > 0 {
                let mut placeholder = EditorGroup::new();
                std::mem::swap(&mut placeholder, &mut old_groups[i]);
                kept.push(placeholder);
            }
            i = i + 1;
        }
        assert(g.take(n as int) =~= g);
        self.groups = kept;
        if self.groups.len() == 0 {
            self.groups.push(EditorGroup::new());
        }
        if self.active_group >= self.groups.len() {
            self.active_group = self.groups.len() - 1;
        }
        self.recalc_grid();
    }

    /// Close the tab at `tab` in group `group_idx`, remembering its path
    /// for "Reopen Closed Editor", then drop empty groups.
    pub fn close_tab(&mut self, group_idx: usize, tab: usize)
        ensures
            old(self).wf() ==> final(self).wf(),
            group_idx >= old(self).groups@.len() ==> *final(self) == *old(self),
            group_idx < old(self).groups@.len() ==> {
                let g = old(self).groups@[group_idx as int];
                &&& exists|g2: EditorGroup|
                    closed_tab(g, g2, tab) && cleaned_up(
                        old(self).groups@.update(group_idx as int, g2),
                        old(self).active_group,
                        (old(self).grid_cols, old(self).grid_rows),
                        final(self).groups@,
                        final(self).active_group,
                        (final(self).grid_cols, final(self).grid_rows),
                    )
                &&& if tab < g.tabs@.len() && g.tabs@[tab as int].path is Some {
                    &&& final(self).recently_closed@.len() == old(self).recently_closed@.len() + 1
                    &&& final(self).recently_closed@.drop_last() == old(self).recently_closed@
                    &&& final(self).recently_closed@.last().path == g.tabs@[tab as int].path->0
                    &&& final(self).recently_closed@.last().group == group_idx
                    &&& final(self).recently_closed@.last().position == tab
                } else {
                    final(self).recently_closed == old(self).recently_closed
                }
                &&& final(self).orientation == old(self).orientation
                &&& final(self).next_group_id == old(self).next_group_id
            },
    {
        if group_idx >= self.groups.len() {
            return;
        }
        let closed = self.groups[group_idx].close_tab(tab);
        let ghost g2 = self.groups@[group_idx as int];
        assert(self.groups@ == old(self).groups@.update(group_idx as int, g2));
        if let Some(t) = closed {
            if let Some(p) = &t.path {
                self.recently_closed.push(ClosedTabInfo { path: p.clone(), group: group_idx, position: tab });
            }
        }
        let ghost mid = self.groups@;
        let ghost ma = self.active_group;
        let ghost mgrid = (self.grid_cols, self.grid_rows);
        self.cleanup_empty_groups();
        assert(closed_tab(old(self).groups@[group_idx as int], g2, tab) && cleaned_up(
            old(self).groups@.update(group_idx as int, g2),
            old(self).active_group,
            (old(self).grid_cols, old(self).grid_rows),
            self.groups@,
            self.active_group,
            (self.grid_cols, self.grid_rows),
        ));
    }

    /// Pin a tab in a group.
    pub fn pin_tab(&mut self, group_idx: usize, tab: usize)
        ensures
            old(self).wf() ==> final(self).wf(),
            group_idx >= old(self).groups@.len() ==> *final(self) == *old(self),
            group_idx < old(self).groups@.len() ==> {
                &&& final(self).groups@.len() == old(self).groups@.len()
                &&& forall|i: int|
                    0 <= i < old(self).groups@.len() && i != group_idx ==> final(self).groups@[i]
                        == old(self).groups@[i]
                &&& pinned(old(self).groups@[group_idx as int], final(self).groups@[group_idx as int], tab)
                &&& final(self).active_group == old(self).active_group
                &&& final(self).recently_closed == old(self).recently_closed
            },
    {
        if group_idx < self.groups.len() {
            self.groups[group_idx].pin_tab(tab);
        }
    }

    /// Unpin a tab in a group.
    pub fn unpin_tab(&mut self, group_idx: usize, tab: usize)
        ensures
            old(self).wf() ==> final(self).wf(),
            group_idx >= old(self).groups@.len() ==> *final(self) == *old(self),
            group_idx < old(self).groups@.len() ==> {
                let g = old(self).groups@[group_idx as int];
                let g2 = final(self).groups@[group_idx as int];
                &&& final(self).groups@.len() == old(self).groups@.len()
                &&& forall|i: int|
                    0 <= i < old(self).groups@.len() && i != group_idx ==> final(self).groups@[i]
                        == old(self).groups@[i]
                &&& unpinned(g, g2, tab)
                &&& final(self).active_group == old(self).active_group
                &&& final(self).recently_closed == old(self).recently_closed
            },
    {
        if group_idx < self.groups.len() {
            self.groups[group_idx].unpin_tab(tab);
        }
    }

    /// The group a split creates from the active group.
    /// Its copy of the tab takes the manager's next identifier.
    fn clone_active_tab(&self) -> (r: EditorGroup)
        requires
            self.active_group < self.groups@.len(),
        ensures
            split_copy(self.groups@[self.active_group as int], r),
            split_ids(self.groups@[self.active_group as int], self.tab_ids, r),
    {
        let group = &self.groups[self.active_group];
        let mut ids = self.tab_ids;
        match group.active_tab_ref() {
            Some(tab) => {
                let mut new_tab = tab.duplicate();
                new_tab.id = ids.next();
                new_tab.is_preview = false;
                let mut g = EditorGroup::with_tab(new_tab);
                g.ids = ids;
                g
            },
            None => {
                let mut g = EditorGroup::new();
                g.ids = ids;
                g
            },
        }
    }

    /// Split the active group to the right: a copy of its active tab opens
    /// in a new group just after it, which becomes active.
    pub fn split_right(&mut self)
        requires
            old(self).active_group < old(self).groups@.len(),
            old(self).groups@.len() < usize::MAX,
        ensures
            split_into(*old(self), *final(self)),
            split_ids(
                old(self).groups@[old(self).active_group as int],
                old(self).tab_ids,
                final(self).groups@[final(self).active_group as int],
            ),
            final(self).tab_ids == final(self).groups@[final(self).active_group as int].ids,
            final(self).orientation == GroupOrientation::Horizontal,
            final(self).wf(),
    {
        let new_group = self.clone_active_tab();
        self.tab_ids = new_group.ids;
        let insert_at = self.active_group + 1;
        self.groups.insert(insert_at, new_group);
        self.active_group = insert_at;
        self.orientation = GroupOrientation::Horizontal;
        self.recalc_grid();
        assert(self.groups@.remove(insert_at as int) =~= old(self).groups@);
    }

    /// Split the active group downward: a copy of its active tab opens in a
    /// new group just after it, which becomes active.
    pub fn split_down(&mut self)
        requires
            old(self).active_group < old(self).groups@.len(),
            old(self).groups@.len() < usize::MAX,
        ensures
            split_into(*old(self), *final(self)),
            split_ids(
                old(self).groups@[old(self).active_group as int],
                old(self).tab_ids,
                final(self).groups@[final(self).active_group as int],
            ),
            final(self).tab_ids == final(self).groups@[final(self).active_group as int].ids,
            final(self).orientation == GroupOrientation::Vertical,
            final(self).wf(),
    {
        let new_group = self.clone_active_tab();
        self.tab_ids = new_group.ids;
        let insert_at = self.active_group + 1;
        self.groups.insert(insert_at, new_group);
        self.active_group = insert_at;
        self.orientation = GroupOrientation::Vertical;
        self.recalc_grid();
        assert(self.groups@.remove(insert_at as int) =~= old(self).groups@);
    }

    /// Move a tab from one group to another, placing it at `to_position`
    /// (clamped to the end) and activating it there; then drop empty groups.
    pub fn move_tab(&mut self, from_group: usize, from_tab: usize, to_group: usize, to_position: usize)
        ensures
            old(self).wf() ==> final(self).wf(),
            (from_group >= old(self).groups@.len() || to_group >= old(self).groups@.len()
                || from_group == to_group) ==> *final(self) == *old(self),
            (from_group < old(self).groups@.len() && to_group < old(self).groups@.len()
                && from_group != to_group) ==> {
                let gf = old(self).groups@[from_group as int];
                let gt = old(self).groups@[to_group as int];
                &&& exists|gf2: EditorGroup, gt2: EditorGroup|
                    {
                        &&& closed_tab(gf, gf2, from_tab)
                        &&& if from_tab < gf.tabs@.len() {
                            let pos = if to_position < gt.tabs@.len() {
                                to_position as int
                            } else {
                                gt.tabs@.len() as int
                            };
                            &&& gt2.tabs@ == gt.tabs@.insert(pos, gf.tabs@[from_tab as int])
                            &&& gt2.active_tab == pos
                            &&& gt2.preview_tab == gt.preview_tab
                            &&& gt2.ids == gt.ids
                        } else {
                            gt2 == gt
                        }
                        &&& cleaned_up(
                            old(self).groups@.update(from_group as int, gf2).update(
                                to_group as int,
                                gt2,
                            ),
                            old(self).active_group,
                            (old(self).grid_cols, old(self).grid_rows),
                            final(self).groups@,
                            final(self).active_group,
                            (final(self).grid_cols, final(self).grid_rows),
                        )
                    }
                &&& final(self).recently_closed == old(self).recently_closed
                &&& final(self).orientation == old(self).orientation
            },
    {
        if from_group >= self.groups.len() || to_group >= self.groups.len() {
            return;
        }
        if from_group == to_group {
            return;
        }
        let closed = self.groups[from_group].close_tab(from_tab);
        let ghost gf2 = self.groups@[from_group as int];
        if let Some(tab) = closed {
            let len = self.groups[to_group].tabs.len();
            let pos = if to_position < len {
                to_position
            } else {
                len
            };
            self.groups[to_group].tabs.insert(pos, tab);
            self.groups[to_group].active_tab = pos;
        }
        let ghost gt2 = self.groups@[to_group as int];
        assert(self.groups@ == old(self).groups@.update(from_group as int, gf2).update(
            to_group as int,
            gt2,
        ));
        self.cleanup_empty_groups();
        assert(closed_tab(old(self).groups@[from_group as int], gf2, from_tab) && cleaned_up(
            old(self).groups@.update(from_group as int, gf2).update(to_group as int, gt2),
            old(self).active_group,
            (old(self).grid_cols, old(self).grid_rows),
            self.groups@,
            self.active_group,
            (self.grid_cols, self.grid_rows),
        ));
    }

    /// Set a grid of `cols`×`rows` groups, each clamped to 1..=4. Missing
    /// groups are added empty; surplus groups are folded, in order, into
    /// the last group kept.
    pub fn set_grid(&mut self, cols: u32, rows: u32)
        ensures
            ({
                let c = grid_clamp(cols);
                let r = grid_clamp(rows);
                let target = (c * r) as int;
                let g = old(self).groups@;
                let n = final(self).groups@.len();
                &&& final(self).grid_cols == c
                &&& final(self).grid_rows == r
                &&& if g.len() <= target {
                    &&& n == target
                    &&& final(self).groups@.take(g.len() as int) == g
                    &&& forall|i: int| g.len() <= i < target ==> is_blank(#[trigger] final(self).groups@[i])
                } else {
                    let last = final(self).groups@[target - 1];
                    &&& n == target
                    &&& final(self).groups@.take(target - 1) == g.take(target - 1)
                    &&& last.tabs@ == tabs_of_range(g, target - 1, g.len() as int)
                    &&& last.active_tab == g[target - 1].active_tab
                    &&& last.preview_tab == g[target - 1].preview_tab
                }
                &&& final(self).active_group == (if old(self).active_group >= n {
                    (n - 1) as usize
                } else {
                    old(self).active_group
                })
                &&& final(self).recently_closed == old(self).recently_closed
                &&& final(self).orientation == old(self).orientation
            }),
            final(self).wf(),
    {
        let c = if cols < 1 {
            1
        } else if cols > 4 {
            4
        } else {
            cols
        };
        let r = if rows < 1 {
            1
        } else if rows > 4 {
            4
        } else {
            rows
        };
        assert(1 <= c * r <= 16) by (nonlinear_arith)
            requires
                1 <= c <= 4,
                1 <= r <= 4,
        ;
        let target = (c * r) as usize;
        let ghost g = self.groups@;
        while self.groups.len() < target
            invariant
                1 <= target <= 16,
                g == old(self).groups@,
                self.recently_closed == old(self).recently_closed,
                self.orientation == old(self).orientation,
                self.active_group == old(self).active_group,
                g.len() <= target ==> self.groups@.len() <= target,
                g.len() <= target ==> self.groups@.take(g.len() as int) == g,
                g.len() <= target ==> self.groups@.len() >= g.len(),
                g.len() > target ==> self.groups@ == g,
                forall|i: int| g.len() <= i < self.groups@.len() ==> is_blank(#[trigger] self.groups@[i]),
            decreases target - self.groups@.len(),
        {
            self.groups.push(EditorGroup::new());
            assert(self.groups@.take(g.len() as int) =~= g);
        }
        proof {
            if g.len() > target {
                let k = g.len() as int;
                assert(tabs_of_range(g, k, k) =~= Seq::<EditorTab>::empty());
                assert(tabs_of_range(g, k - 1, k) =~= g[k - 1].tabs@);
                assert(self.groups@.take(k - 1) =~= g.take(k - 1));
            }
        }
        while self.groups.len() > target && self.groups.len() > 1
            invariant
                1 <= target <= 16,
                g == old(self).groups@,
                self.recently_closed == old(self).recently_closed,
                self.orientation == old(self).orientation,
                self.active_group == old(self).active_group,
                g.len() <= target ==> self.groups@.len() == target,
                g.len() <= target ==> self.groups@.take(g.len() as int) == g,
                forall|i: int| g.len() <= i < self.groups@.len() ==> is_blank(#[trigger] self.groups@[i]),
                g.len() > target ==> {
                    let k = self.groups@.len() as int;
                    &&& target <= k <= g.len()
                    &&& self.groups@.take(k - 1) == g.take(k - 1)
                    &&& self.groups@[k - 1].tabs@ == tabs_of_range(g, k - 1, g.len() as int)
                    &&& self.groups@[k - 1].active_tab == g[k - 1].active_tab
                    &&& self.groups@[k - 1].preview_tab == g[k - 1].preview_tab
                },
            decreases self.groups@.len(),
        {
            let ghost k = self.groups@.len() as int;
            let mut last = self.groups.pop().unwrap();
            let target_idx = self.groups.len() - 1;
            self.groups[target_idx].tabs.append(&mut last.tabs);
            proof {
                assert(g.len() > target);
                assert(self.groups@.take(k - 2) =~= g.take(k - 2));
                assert(self.groups@[k - 2].tabs@ =~= tabs_of_range(g, k - 2, g.len() as int));
            }
        }
        self.grid_cols = c;
        self.grid_rows = r;
        if self.active_group >= self.groups.len() {
            self.active_group = self.groups.len() - 1;
        }
        proof {
            if g.len() <= target {
                assert(self.groups@.len() == target);
            }
        }
    }

    /// Focus the group at `index` (ignored when out of range).
    pub fn focus_group(&mut self, index: usize)
        ensures
            old(self).wf() ==> final(self).wf(),
            final(self).active_group == (if index < old(self).groups@.len() {
                index
            } else {
                old(self).active_group
            }),
            final(self).groups == old(self).groups,
            final(self).recently_closed == old(self).recently_closed,
    {
        if index < self.groups.len() {
            self.active_group = index;
        }
    }

    /// The active group.
    pub fn active_group(&self) -> (r: &EditorGroup)
        requires
            self.active_group < self.groups@.len(),
        ensures
            *r == self.groups@[self.active_group as int],
    {
        &self.groups[self.active_group]
    }

    /// The active group, for changing it.
    pub fn active_group_mut(&mut self) -> (r: &mut EditorGroup)
        requires
            old(self).active_group < old(self).groups@.len(),
        ensures
            *r == old(self).groups@[old(self).active_group as int],
            final(self).groups@ == old(self).groups@.update(old(self).active_group as int, *final(r)),
            final(self).active_group == old(self).active_group,
    {
        &mut self.groups[self.active_group]
    }

    /// Lay the groups out in a single row.
    fn recalc_grid(&mut self)
        ensures
            (final(self).grid_cols, final(self).grid_rows) == row_grid(old(self).groups@.len()),
            final(self).groups == old(self).groups,
            final(self).active_group == old(self).active_group,
            final(self).recently_closed == old(self).recently_closed,
            final(self).orientation == old(self).orientation,
            final(self).next_group_id == old(self).next_group_id,
            final(self).tab_ids == old(self).tab_ids,
    {
        let n = self.groups.len();
        if n <= 1 {
            self.grid_cols = 1;
            self.grid_rows = 1;
        } else {
            self.grid_cols = n as u32;
            self.grid_rows = 1;
        }
    }
}


// ── Editor group layout ──────────────────────────────────────────────────────

/// How the groups of an `EditorGroupLayout` are arranged. The sizes of the
/// panes (floating-point proportions) are the application's.
#[derive(Clone, Copy, Debug, PartialEq, Eq, Structural)]
pub enum GroupLayout {
    /// One group fills the editor area.
    Single,
    /// Groups side by side.
    SplitHorizontal,
    /// Groups one above the other.
    SplitVertical,
}

/// The arrangement of `n` groups after a change in `direction`.
pub open spec fn layout_for(n: nat, vertical: bool) -> GroupLayout {
    if n <= 1 {
        GroupLayout::Single
    } else if vertical {
        GroupLayout::SplitVertical
    } else {
        GroupLayout::SplitHorizontal
    }
}

/// The group a split of `g` creates: a copy of its active tab (no longer a
/// preview, under a new identifier), or an empty group.
fn split_group_of(g: &EditorGroup, ids: TabIdAllocator) -> (r: EditorGroup)
    ensures
        split_copy(*g, r),
        split_ids(*g, ids, r),
{
    let mut ids = ids;
    match g.active_tab_ref() {
        Some(tab) => {
            let mut new_tab = tab.duplicate();
            new_tab.id = ids.next();
            new_tab.is_preview = false;
            let mut ng = EditorGroup::with_tab(new_tab);
            ng.ids = ids;
            ng
        },
        None => {
            let mut ng = EditorGroup::new();
            ng.ids = ids;
            ng
        },
    }
}

/// The editor groups (split panes) and which one is active.
pub struct EditorGroupLayout {
    pub groups: Vec<EditorGroup>,
    pub layout: GroupLayout,
    pub active_group: usize,
    pub recently_closed: Vec<ClosedTabInfo>,
    /// The identifiers that tabs opened or split through the layout draw
    /// from, shared by all its groups.
    pub tab_ids: TabIdAllocator,
}

/// Whether `new` is what closing group `index` of `old` leads to: its tabs
/// go to the end of the group before it (the first group when it was
/// first), which activates its last tab if its first was active; the
/// active group index follows.
pub open spec fn group_closed(old: EditorGroupLayout, new: EditorGroupLayout, index: usize) -> bool {
    let n = old.groups@.len();
    if n <= 1 || index >= n {
        &&& new.groups == old.groups
        &&& new.layout == old.layout
        &&& new.active_group == old.active_group
        &&& new.recently_closed == old.recently_closed
    } else {
        let rest = old.groups@.remove(index as int);
        let target = if index > 0 {
            index - 1
        } else {
            0
        };
        let tg = rest[target];
        let merged = tg.tabs@ + old.groups@[index as int].tabs@;
        &&& new.groups@.len() == n - 1
        &&& forall|i: int| 0 <= i < n - 1 && i != target ==> #[trigger] new.groups@[i] == rest[i]
        &&& new.groups@[target].tabs@ == merged
        &&& new.groups@[target].active_tab == (if merged.len() > 0 && tg.active_tab == 0 {
            (merged.len() - 1) as usize
        } else {
            tg.active_tab
        })
        &&& new.groups@[target].preview_tab == tg.preview_tab
        &&& new.groups@[target].ids == tg.ids
        &&& new.active_group == (if old.active_group >= n - 1 {
            (n - 2) as usize
        } else if old.active_group > index {
            (old.active_group - 1) as usize
        } else {
            old.active_group
        })
        &&& new.layout == layout_for((n - 1) as nat, false)
        &&& new.recently_closed == old.recently_closed
    }
}

/// The number of tabs in the groups from `i` on.
pub open spec fn tabs_in(groups: Seq<EditorGroup>, i: int) -> int
    decreases groups.len() - i,
{
    if i < 0 || i >= groups.len() {
        0
    } else {
        groups[i].tabs@.len() + tabs_in(groups, i + 1)
    }
}

/// The paths of the modified tabs of `groups` from group `i`, tab `j` on.
pub open spec fn modified_paths_from(groups: Seq<EditorGroup>, i: int, j: int) -> Seq<Seq<char>>
    decreases groups.len() - i, if i < groups.len() { groups[i].tabs@.len() - j } else { 0 },
{
    if i < 0 || i >= groups.len() {
        Seq::empty()
    } else if j < 0 || j >= groups[i].tabs@.len() {
        modified_paths_from(groups, i + 1, 0)
    } else {
        let t = groups[i].tabs@[j];
        let rest = modified_paths_from(groups, i, j + 1);
        match t.path {
            Some(p) => if t.is_modified {
                seq![p@] + rest
            } else {
                rest
            },
            None => rest,
        }
    }
}

/// Whether `new` is what moving tab `tab_idx` of group `from` to
/// `position` of group `to` makes of `old`, through the intermediate
/// groups `gf2` (the source without the tab) and `gt2` (the target with
/// it, active, at `position` clamped to its end) and the layout `mid`
/// holding both; a source left empty is then closed unless it is the
/// only group.
pub open spec fn tab_moved(
    old: EditorGroupLayout,
    new: EditorGroupLayout,
    from: usize,
    tab_idx: usize,
    to: usize,
    position: usize,
    gf2: EditorGroup,
    gt2: EditorGroup,
    mid: EditorGroupLayout,
) -> bool {
    let gf = old.groups@[from as int];
    let gt = old.groups@[to as int];
    &&& closed_tab(gf, gf2, tab_idx)
    &&& if tab_idx < gf.tabs@.len() {
        let pos = if position < gt.tabs@.len() {
            position as int
        } else {
            gt.tabs@.len() as int
        };
        &&& gt2.tabs@ == gt.tabs@.insert(pos, gf.tabs@[tab_idx as int])
        &&& gt2.active_tab == pos
        &&& gt2.preview_tab == gt.preview_tab
        &&& gt2.ids == gt.ids
    } else {
        gt2 == gt
    }
    &&& mid.groups@ == old.groups@.update(from as int, gf2).update(to as int, gt2)
    &&& mid.active_group == old.active_group
    &&& mid.layout == old.layout
    &&& mid.recently_closed == old.recently_closed
    &&& if gf2.tabs@.len() == 0 && old.groups@.len() > 1 {
        group_closed(mid, new, from)
    } else {
        new == mid
    }
}

impl EditorGroupLayout {
    /// There is at least one group and the active index points at one.
    pub open spec fn wf(&self) -> bool {
        &&& self.groups@.len() >= 1
        &&& self.active_group < self.groups@.len()
    }

    /// One empty group.
    pub fn new() -> (r: Self)
        ensures
            r.groups@.len() == 1,
            is_blank(r.groups@[0]),
            r.layout == GroupLayout::Single,
            r.active_group == 0,
            r.recently_closed@.len() == 0,
            r.tab_ids.next == 1,
            r.wf(),
    {
        let mut groups: Vec<EditorGroup> = Vec::new();
        groups.push(EditorGroup::new());
        EditorGroupLayout {
            groups,
            layout: GroupLayout::Single,
            active_group: 0,
            recently_closed: Vec::new(),
            tab_ids: TabIdAllocator::new(),
        }
    }

    /// The active group.
    pub fn active_group(&self) -> (r: &EditorGroup)
        requires
            self.active_group < self.groups@.len(),
        ensures
            *r == self.groups@[self.active_group as int],
    {
        &self.groups[self.active_group]
    }

    /// Opens `path` in group `index` (as a preview when `preview` is set);
    /// a new tab takes the layout's next identifier, so identifiers stay
    /// distinct across groups. Which group is active does not change.
    pub fn open_in_group(&mut self, index: usize, path: &str, preview: bool)
        requires
            index < old(self).groups@.len(),
            old(self).groups@[index as int].tabs@.len() < usize::MAX,
            old(self).groups@[index as int].preview_tab != Some(usize::MAX),
        ensures
            final(self).groups@ == old(self).groups@.update(index as int, final(self).groups@[index as int]),
            *final(self) == (EditorGroupLayout {
                groups: final(self).groups,
                tab_ids: final(self).tab_ids,
                ..*old(self)
            }),
            if preview {
                opened_preview(old(self).groups@[index as int], final(self).groups@[index as int], path@)
            } else {
                opened_file(old(self).groups@[index as int], final(self).groups@[index as int], path@)
            },
            id_drawn(
                (EditorGroup { ids: old(self).tab_ids, ..old(self).groups@[index as int] }),
                final(self).groups@[index as int],
                path@,
            ),
            final(self).tab_ids == final(self).groups@[index as int].ids,
    {
        self.groups[index].ids = self.tab_ids;
        if preview {
            self.groups[index].open_file_preview(path);
        } else {
            self.groups[index].open_file(path);
        }
        self.tab_ids = self.groups[index].ids;
        assert(self.groups@ =~= old(self).groups@.update(index as int, self.groups@[index as int]));
    }

    /// The active group, for editing.
    pub fn active_group_mut(&mut self) -> (r: &mut EditorGroup)
        requires
            old(self).active_group < old(self).groups@.len(),
        ensures
            final(self).tab_ids == old(self).tab_ids,
            *r == old(self).groups@[old(self).active_group as int],
            final(self).groups@ == old(self).groups@.update(old(self).active_group as int, *final(r)),
            final(self).active_group == old(self).active_group,
            final(self).layout == old(self).layout,
            final(self).recently_closed == old(self).recently_closed,
    {
        &mut self.groups[self.active_group]
    }

    /// Focuses group `index`, if there is one.
    pub fn focus_group(&mut self, index: usize)
        ensures
            final(self).tab_ids == old(self).tab_ids,
            final(self).active_group == if index < old(self).groups@.len() {
                index
            } else {
                old(self).active_group
            },
            final(self).groups == old(self).groups,
            final(self).layout == old(self).layout,
            final(self).recently_closed == old(self).recently_closed,
    {
        if index < self.groups.len() {
            self.active_group = index;
        }
    }

    /// Focuses the next group, wrapping to the first.
    pub fn next_group(&mut self)
        requires
            old(self).active_group < usize::MAX,
        ensures
            final(self).tab_ids == old(self).tab_ids,
            final(self).active_group == (if old(self).groups@.len() == 0 {
                old(self).active_group as int
            } else {
                next_index(old(self).active_group as int, old(self).groups@.len() as int)
            }),
            final(self).groups == old(self).groups,
            final(self).layout == old(self).layout,
            final(self).recently_closed == old(self).recently_closed,
    {
        if self.groups.len() > 0 {
            self.active_group = (self.active_group + 1) % self.groups.len();
        }
    }

    /// Focuses the previous group, wrapping to the last.
    pub fn prev_group(&mut self)
        ensures
            final(self).tab_ids == old(self).tab_ids,
            final(self).active_group == (if old(self).groups@.len() == 0 {
                old(self).active_group as int
            } else {
                prev_index(old(self).active_group as int, old(self).groups@.len() as int)
            }),
            final(self).groups == old(self).groups,
            final(self).layout == old(self).layout,
            final(self).recently_closed == old(self).recently_closed,
    {
        if self.groups.len() > 0 {
            self.active_group = if self.active_group == 0 {
                self.groups.len() - 1
            } else {
                self.active_group - 1
            };
        }
    }

    /// Splits the active group: a copy of its active tab opens in a new
    /// group just after it, which becomes active.
    fn split(&mut self, vertical: bool)
        requires
            old(self).wf(),
            old(self).groups@.len() < usize::MAX,
        ensures
            final(self).wf(),
            final(self).groups@.len() == old(self).groups@.len() + 1,
            final(self).groups@.remove(old(self).active_group + 1) == old(self).groups@,
            split_copy(
                old(self).groups@[old(self).active_group as int],
                final(self).groups@[old(self).active_group + 1],
            ),
            final(self).active_group == old(self).active_group + 1,
            split_ids(
                old(self).groups@[old(self).active_group as int],
                old(self).tab_ids,
                final(self).groups@[old(self).active_group + 1],
            ),
            final(self).tab_ids == final(self).groups@[old(self).active_group + 1].ids,
            final(self).layout == layout_for(final(self).groups@.len(), vertical),
            final(self).recently_closed == old(self).recently_closed,
    {
        let new_group = split_group_of(&self.groups[self.active_group], self.tab_ids);
        self.tab_ids = new_group.ids;
        let insert_at = self.active_group + 1;
        self.groups.insert(insert_at, new_group);
        self.active_group = insert_at;
        assert(self.groups@.remove(insert_at as int) =~= old(self).groups@);
        self.layout = if vertical {
            GroupLayout::SplitVertical
        } else {
            GroupLayout::SplitHorizontal
        };
    }

    /// Splits the active group to the right (side by side).
    pub fn split_right(&mut self)
        requires
            old(self).wf(),
            old(self).groups@.len() < usize::MAX,
        ensures
            final(self).wf(),
            final(self).groups@.len() == old(self).groups@.len() + 1,
            final(self).groups@.remove(old(self).active_group + 1) == old(self).groups@,
            split_copy(
                old(self).groups@[old(self).active_group as int],
                final(self).groups@[old(self).active_group + 1],
            ),
            final(self).active_group == old(self).active_group + 1,
            split_ids(
                old(self).groups@[old(self).active_group as int],
                old(self).tab_ids,
                final(self).groups@[old(self).active_group + 1],
            ),
            final(self).tab_ids == final(self).groups@[old(self).active_group + 1].ids,
            final(self).layout == GroupLayout::SplitHorizontal,
            final(self).recently_closed == old(self).recently_closed,
    {
        self.split(false);
    }

    /// Splits the active group downward (one above the other).
    pub fn split_down(&mut self)
        requires
            old(self).wf(),
            old(self).groups@.len() < usize::MAX,
        ensures
            final(self).wf(),
            final(self).groups@.len() == old(self).groups@.len() + 1,
            final(self).groups@.remove(old(self).active_group + 1) == old(self).groups@,
            split_copy(
                old(self).groups@[old(self).active_group as int],
                final(self).groups@[old(self).active_group + 1],
            ),
            final(self).active_group == old(self).active_group + 1,
            split_ids(
                old(self).groups@[old(self).active_group as int],
                old(self).tab_ids,
                final(self).groups@[old(self).active_group + 1],
            ),
            final(self).tab_ids == final(self).groups@[old(self).active_group + 1].ids,
            final(self).layout == GroupLayout::SplitVertical,
            final(self).recently_closed == old(self).recently_closed,
    {
        self.split(true);
    }

    /// Closes group `index`, moving its tabs to the group before it (see
    /// `group_closed`). The last group is never closed.
    pub fn close_group(&mut self, index: usize)
        requires
            old(self).wf(),
        ensures
            final(self).tab_ids == old(self).tab_ids,
            final(self).wf(),
            group_closed(*old(self), *final(self), index),
    {
        if self.groups.len() <= 1 || index >= self.groups.len() {
            return;
        }
        let ghost n = self.groups@.len();
        let mut removed = self.groups.remove(index);
        let ghost rest = self.groups@;
        let target = if index > 0 {
            index - 1
        } else {
            0
        };
        let ghost tg = self.groups@[target as int];
        self.groups[target].tabs.append(&mut removed.tabs);
        if self.groups[target].tabs.len() > 0 && self.groups[target].active_tab == 0 {
            let last = self.groups[target].tabs.len() - 1;
            self.groups[target].active_tab = last;
        }
        assert forall|i: int| 0 <= i < n - 1 && i != target implies #[trigger] self.groups@[i] == rest[i] by {}
        if self.active_group >= self.groups.len() {
            self.active_group = self.groups.len() - 1;
        } else if self.active_group > index {
            self.active_group = self.active_group - 1;
        }
        self.layout = if self.groups.len() <= 1 {
            GroupLayout::Single
        } else {
            GroupLayout::SplitHorizontal
        };
    }

    /// Moves tab `tab_idx` of group `from_group` to `position` (clamped to
    /// the end) of group `to_group`, activating it there; a group left
    /// empty is closed (unless it is the last one).
    pub fn move_tab(&mut self, from_group: usize, tab_idx: usize, to_group: usize, position: usize)
        requires
            old(self).wf(),
        ensures
            final(self).tab_ids == old(self).tab_ids,
            final(self).wf(),
            (from_group >= old(self).groups@.len() || to_group >= old(self).groups@.len()
                || from_group == to_group) ==> *final(self) == *old(self),
            (from_group < old(self).groups@.len() && to_group < old(self).groups@.len()
                && from_group != to_group) ==> exists|gf2: EditorGroup, gt2: EditorGroup, mid: EditorGroupLayout|
                #[trigger] tab_moved(*old(self), *final(self), from_group, tab_idx, to_group, position, gf2, gt2, mid),
    {
        if from_group >= self.groups.len() || to_group >= self.groups.len() {
            return;
        }
        if from_group == to_group {
            return;
        }
        let ghost gt = self.groups@[to_group as int];
        let closed = self.groups[from_group].close_tab(tab_idx);
        let ghost gf2 = self.groups@[from_group as int];
        if let Some(tab) = closed {
            let len = self.groups[to_group].tabs.len();
            let pos = if position < len {
                position
            } else {
                len
            };
            self.groups[to_group].tabs.insert(pos, tab);
            self.groups[to_group].active_tab = pos;
        }
        let ghost gt2 = self.groups@[to_group as int];
        let ghost mid = EditorGroupLayout {
            groups: self.groups,
            layout: self.layout,
            active_group: self.active_group,
            recently_closed: self.recently_closed,
            tab_ids: self.tab_ids,
        };
        assert(self.groups@ == old(self).groups@.update(from_group as int, gf2).update(
            to_group as int,
            gt2,
        ));
        if self.groups[from_group].is_empty() && self.groups.len() > 1 {
            self.close_group(from_group);
        }
        assert(tab_moved(*old(self), *self, from_group, tab_idx, to_group, position, gf2, gt2, mid));
    }

    /// Remembers a closed tab for "Reopen Closed Editor" (untitled tabs are
    /// not remembered).
    pub fn record_closed(&mut self, tab: &EditorTab, group: usize, position: usize)
        ensures
            final(self).tab_ids == old(self).tab_ids,
            final(self).groups == old(self).groups,
            final(self).active_group == old(self).active_group,
            final(self).layout == old(self).layout,
            match tab.path {
                Some(p) => final(self).recently_closed@.len() == old(self).recently_closed@.len() + 1
                    && final(self).recently_closed@.drop_last() == old(self).recently_closed@
                    && final(self).recently_closed@.last().path@ == p@
                    && final(self).recently_closed@.last().group == group
                    && final(self).recently_closed@.last().position == position,
                None => final(self).recently_closed@ == old(self).recently_closed@,
            },
    {
        if let Some(path) = &tab.path {
            self.recently_closed.push(ClosedTabInfo { path: path.clone(), group, position });
            assert(self.recently_closed@.drop_last() =~= old(self).recently_closed@);
        }
    }

    /// Reopens the most recently closed tab, in its group (or the last
    /// group, when that one is gone), which becomes active. The entry is
    /// used up even when its file no longer exists; then nothing opens.
    pub fn reopen_closed(&mut self) -> (r: Option<String>)
        requires
            old(self).wf(),
            forall|i: int|
                0 <= i < old(self).groups@.len() ==> (#[trigger] old(self).groups@[i]).tabs@.len()
                    < usize::MAX && old(self).groups@[i].preview_tab != Some(usize::MAX),
        ensures
            final(self).wf(),
            final(self).layout == old(self).layout,
            old(self).recently_closed@.len() == 0 ==> r is None && *final(self) == *old(self),
            r is None ==> final(self).tab_ids == old(self).tab_ids,
            old(self).recently_closed@.len() > 0 ==> {
                let info = old(self).recently_closed@.last();
                let g = if info.group < old(self).groups@.len() {
                    info.group as int
                } else {
                    old(self).groups@.len() - 1
                };
                &&& final(self).recently_closed@ == old(self).recently_closed@.drop_last()
                &&& match r {
                    None => final(self).groups == old(self).groups && final(self).active_group
                        == old(self).active_group,
                    Some(p) => p@ == info.path@ && final(self).active_group == g
                        && final(self).groups@.len() == old(self).groups@.len()
                        && opened_file(old(self).groups@[g], final(self).groups@[g], info.path@)
                        && id_drawn(
                            (EditorGroup { ids: old(self).tab_ids, ..old(self).groups@[g] }),
                            final(self).groups@[g],
                            info.path@,
                        ) && final(self).tab_ids == final(self).groups@[g].ids
                        && forall|i: int| 0 <= i < old(self).groups@.len() && i != g ==> #[trigger] final(self).groups@[i] == old(self).groups@[i],
                }
            },
    {
        if self.recently_closed.len() == 0 {
            return None;
        }
        let info = match self.recently_closed.pop() {
            Some(i) => i,
            None => {
                return None;
            },
        };
        if !path_exists(info.path.as_str()) {
            return None;
        }
        let last = self.groups.len() - 1;
        let g = if info.group < last {
            info.group
        } else {
            last
        };
        self.groups[g].ids = self.tab_ids;
        self.groups[g].open_file(info.path.as_str());
        self.tab_ids = self.groups[g].ids;
        self.active_group = g;
        Some(info.path)
    }

    /// Whether any tab of any group has unsaved changes.
    pub fn has_unsaved_changes(&self) -> (r: bool)
        ensures
            r == exists|i: int, j: int|
                0 <= i < self.groups@.len() && 0 <= j < self.groups@[i].tabs@.len()
                    && #[trigger] self.groups@[i].tabs@[j].is_modified,
    {
        let mut i: usize = 0;
        while i < self.groups.len()
            invariant
                i <= self.groups@.len(),
                forall|a: int, b: int|
                    0 <= a < i && 0 <= b < self.groups@[a].tabs@.len() ==> !(#[trigger] self.groups@[a].tabs@[b].is_modified),
            decreases self.groups@.len() - i,
        {
            let mut j: usize = 0;
            while j < self.groups[i].tabs.len()
                invariant
                    i < self.groups@.len(),
                    j <= self.groups@[i as int].tabs@.len(),
                    forall|b: int| 0 <= b < j ==> !(#[trigger] self.groups@[i as int].tabs@[b].is_modified),
                decreases self.groups@[i as int].tabs@.len() - j,
            {
                if self.groups[i].tabs[j].is_modified {
                    return true;
                }
                j = j + 1;
            }
            i = i + 1;
        }
        false
    }

    /// The paths of the modified tabs, group by group (untitled tabs have
    /// none).
    pub fn modified_tab_paths(&self) -> (r: Vec<String>)
        ensures
            crate::text::views(r@) == modified_paths_from(self.groups@, 0, 0),
    {
        let mut out: Vec<String> = Vec::new();
        let mut i: usize = 0;
        while i < self.groups.len()
            invariant
                i <= self.groups@.len(),
                crate::text::views(out@) + modified_paths_from(self.groups@, i as int, 0)
                    == modified_paths_from(self.groups@, 0, 0),
            decreases self.groups@.len() - i,
        {
            let mut j: usize = 0;
            while j < self.groups[i].tabs.len()
                invariant
                    i < self.groups@.len(),
                    j <= self.groups@[i as int].tabs@.len(),
                    crate::text::views(out@) + modified_paths_from(self.groups@, i as int, j as int)
                        == modified_paths_from(self.groups@, 0, 0),
                decreases self.groups@[i as int].tabs@.len() - j,
            {
                let ghost before = out@;
                let t = &self.groups[i].tabs[j];
                if t.is_modified {
                    if let Some(p) = &t.path {
                        out.push(p.clone());
                        assert(crate::text::views(out@) =~= crate::text::views(before).push(p@));
                        assert(crate::text::views(out@) + modified_paths_from(self.groups@, i as int, j + 1)
                            =~= crate::text::views(before) + modified_paths_from(self.groups@, i as int, j as int));
                    }
                }
                j = j + 1;
            }
            i = i + 1;
        }
        assert(crate::text::views(out@) =~= crate::text::views(out@) + modified_paths_from(self.groups@, i as int, 0));
        out
    }

    /// How many tabs are open across all groups.
    pub fn total_tab_count(&self) -> (r: usize)
        requires
            tabs_in(self.groups@, 0) <= usize::MAX,
        ensures
            r == tabs_in(self.groups@, 0),
    {
        let mut total: usize = 0;
        let mut i: usize = self.groups.len();
        while i > 0
            invariant
                i <= self.groups@.len(),
                total == tabs_in(self.groups@, i as int),
                tabs_in(self.groups@, 0) <= usize::MAX,
            decreases i,
        {
            proof {
                lemma_tabs_in_bounded(self.groups@, (i - 1) as int);
            }
            total = total + self.groups[i - 1].tabs.len();
            i = i - 1;
        }
        total
    }
}

/// The tabs from group `i` on are no more than the tabs from group 0 on.
proof fn lemma_tabs_in_bounded(groups: Seq<EditorGroup>, i: int)
    requires
        0 <= i < groups.len(),
    ensures
        tabs_in(groups, i) <= tabs_in(groups, 0),
    decreases i,
{
    if i > 0 {
        lemma_tabs_in_bounded(groups, i - 1);
    }
}

proof fn lemma_tabs_in_update(s: Seq<EditorGroup>, k: int, g: EditorGroup, i: int)
    requires
        0 <= k < s.len(),
        0 <= i,
    ensures
        i <= k ==> tabs_in(s.update(k, g), i) == tabs_in(s, i) - s[k].tabs@.len() + g.tabs@.len(),
        i > k ==> tabs_in(s.update(k, g), i) == tabs_in(s, i),
    decreases s.len() - i,
{
    if i < s.len() {
        lemma_tabs_in_update(s, k, g, i + 1);
    }
}

proof fn lemma_tabs_in_remove(s: Seq<EditorGroup>, k: int, i: int)
    requires
        0 <= k < s.len(),
        0 <= i,
    ensures
        i <= k ==> tabs_in(s.remove(k), i) == tabs_in(s, i) - s[k].tabs@.len(),
        i > k ==> tabs_in(s.remove(k), i) == tabs_in(s, i + 1),
    decreases s.len() - i,
{
    if i < s.len() {
        lemma_tabs_in_remove(s, k, i + 1);
        let r = s.remove(k);
        if i < r.len() {
            if i < k {
                assert(r[i] == s[i]);
            } else {
                assert(r[i] == s[i + 1]);
            }
        }
        assert(tabs_in(s, i + 1) == if i + 1 < s.len() {
            s[i + 1].tabs@.len() + tabs_in(s, i + 2)
        } else {
            0
        });
    }
}

/// Closing a group loses no tab: the tabs of all groups add up as before.
pub proof fn lemma_close_group_keeps_tabs(old: EditorGroupLayout, new: EditorGroupLayout, index: usize)
    requires
        group_closed(old, new, index),
    ensures
        tabs_in(new.groups@, 0) == tabs_in(old.groups@, 0),
{
    let n = old.groups@.len();
    if n > 1 && index < n {
        let rest = old.groups@.remove(index as int);
        let target = if index > 0 {
            index - 1
        } else {
            0
        };
        lemma_tabs_in_remove(old.groups@, index as int, 0);
        let g = new.groups@[target as int];
        assert(new.groups@ =~= rest.update(target as int, g));
        lemma_tabs_in_update(rest, target as int, g, 0);
        assert(rest[target as int] == old.groups@[if index > 0 { index - 1 } else { 1 }]);
    }
}

/// Moving a tab between groups loses no tab and adds none.
pub proof fn lemma_move_tab_keeps_tabs(
    old: EditorGroupLayout,
    new: EditorGroupLayout,
    from: usize,
    tab_idx: usize,
    to: usize,
    position: usize,
    gf2: EditorGroup,
    gt2: EditorGroup,
    mid: EditorGroupLayout,
)
    requires
        from < old.groups@.len(),
        to < old.groups@.len(),
        from != to,
        tab_moved(old, new, from, tab_idx, to, position, gf2, gt2, mid),
    ensures
        tabs_in(new.groups@, 0) == tabs_in(old.groups@, 0),
{
    let s1 = old.groups@.update(from as int, gf2);
    lemma_tabs_in_update(old.groups@, from as int, gf2, 0);
    lemma_tabs_in_update(s1, to as int, gt2, 0);
    assert(s1[to as int] == old.groups@[to as int]);
    if gf2.tabs@.len() == 0 && old.groups@.len() > 1 {
        lemma_close_group_keeps_tabs(mid, new, from);
    }
}

impl Default for EditorGroupLayout {
    fn default() -> (r: Self)
        ensures
            r.groups@.len() == 1,
            is_blank(r.groups@[0]),
            r.layout == GroupLayout::Single,
            r.active_group == 0,
            r.recently_closed@.len() == 0,
            r.wf(),
    {
        EditorGroupLayout::new()
    }
}

// ── Settings ─────────────────────────────────────────────────────────────────

/// Auto-save behaviour (`files.autoSave`).
#[derive(Clone, Copy, Debug, PartialEq, Eq)]
pub enum AutoSaveMode {
    /// Auto-save is disabled.
    Off,
    /// Save after a configurable delay since the last edit.
    AfterDelay,
    /// Save when the editor loses focus.
    OnFocusChange,
    /// Save when the window loses focus.
    OnWindowChange,
}

impl Default for AutoSaveMode {
    fn default() -> (r: Self)
        ensures
            r == AutoSaveMode::Off,
    {
        AutoSaveMode::Off
    }
}

/// The auto-save mode a `files.autoSave` setting names; anything
/// unrecognised means `Off`.
pub open spec fn auto_save_mode_named(s: Seq<char>) -> AutoSaveMode {
    if s == "afterDelay"@ {
        AutoSaveMode::AfterDelay
    } else if s == "onFocusChange"@ {
        AutoSaveMode::OnFocusChange
    } else if s == "onWindowChange"@ {
        AutoSaveMode::OnWindowChange
    } else {
        AutoSaveMode::Off
    }
}

impl AutoSaveMode {
    /// Reads the setting (see `auto_save_mode_named`).
    pub fn from_setting(s: &str) -> (r: Self)
        ensures
            r == auto_save_mode_named(s@),
    {
        if str_eq(s, "afterDelay") {
            AutoSaveMode::AfterDelay
        } else if str_eq(s, "onFocusChange") {
            AutoSaveMode::OnFocusChange
        } else if str_eq(s, "onWindowChange") {
            AutoSaveMode::OnWindowChange
        } else {
            AutoSaveMode::Off
        }
    }
}

/// Tab sizing (`workbench.editor.tabSizing`).
#[derive(Clone, Copy, Debug, PartialEq, Eq)]
pub enum TabSizingMode {
    /// Tabs shrink to fit the available space.
    Fit,
    /// Tabs shrink down to a minimum width.
    Shrink,
    /// All tabs have the same width.
    Fixed,
}

impl Default for TabSizingMode {
    fn default() -> (r: Self)
        ensures
            r == TabSizingMode::Fit,
    {
        TabSizingMode::Fit
    }
}

impl TabSizingMode {
    /// Reads the setting; anything unrecognised means `Fit`.
    pub fn from_setting(s: &str) -> (r: Self)
        ensures
            r == (if s@ == "shrink"@ {
                TabSizingMode::Shrink
            } else if s@ == "fixed"@ {
                TabSizingMode::Fixed
            } else {
                TabSizingMode::Fit
            }),
    {
        if str_eq(s, "shrink") {
            TabSizingMode::Shrink
        } else if str_eq(s, "fixed") {
            TabSizingMode::Fixed
        } else {
            TabSizingMode::Fit
        }
    }
}

// ── Laws ─────────────────────────────────────────────────────────────────────

/// Cycling to the next tab and then to the previous one (or the other way
/// round) comes back to the tab one started from.
pub proof fn lemma_next_prev_inverse(a: int, len: int)
    requires
        0 <= a < len,
    ensures
        prev_index(next_index(a, len), len) == a,
        next_index(prev_index(a, len), len) == a,
{
    if a + 1 < len {
        assert((a + 1) % len == a + 1) by (nonlinear_arith)
            requires
                0 <= a + 1 < len,
        ;
    } else {
        assert((a + 1) % len == 0) by (nonlinear_arith)
            requires
                a + 1 == len,
                len > 0,
        ;
    }
    if a == 0 {
        assert(len % len == 0) by (nonlinear_arith)
            requires
                len > 0,
        ;
    } else {
        assert(a % len == a) by (nonlinear_arith)
            requires
                0 <= a < len,
        ;
    }
}

/// After opening a file, a tab on that file is found in the group, so opening
/// it again reuses that tab instead of adding one.
pub proof fn lemma_open_file_then_found(old: EditorGroup, new: EditorGroup, p: Seq<char>)
    requires
        opened_file(old, new, p),
        same_path(p, p),
    ensures
        find_path(new.tabs@, p) is Some,
{
    match find_path(old.tabs@, p) {
        Some(i) => {
            lemma_find_path_some(old.tabs@, p, 0);
            lemma_found_stays_found(old.tabs@, new.tabs@, p, 0, i);
        },
        None => {
            let pos = old.tabs@.len() as int;
            assert(tab_has_path(new.tabs@[pos], p));
            lemma_has_path_found(new.tabs@, p, 0, pos);
        },
    }
}

/// A result of `find_path_from` is an in-range index holding the path.
pub proof fn lemma_find_path_some(tabs: Seq<EditorTab>, p: Seq<char>, i: int)
    ensures
        find_path_from(tabs, p, i) matches Some(k) ==> i <= k < tabs.len() && tab_has_path(
            tabs[k],
            p,
        ),
    decreases tabs.len() - i,
{
    if 0 <= i < tabs.len() && !tab_has_path(tabs[i], p) {
        lemma_find_path_some(tabs, p, i + 1);
    }
}

/// When some index at or after `i` holds the path, the search finds one.
pub proof fn lemma_has_path_found(tabs: Seq<EditorTab>, p: Seq<char>, i: int, k: int)
    requires
        0 <= i <= k < tabs.len(),
        tab_has_path(tabs[k], p),
    ensures
        find_path_from(tabs, p, i) is Some,
    decreases k - i,
{
    if !tab_has_path(tabs[i], p) {
        lemma_has_path_found(tabs, p, i + 1, k);
    }
}

/// Changing tabs only in their preview flag keeps a found path found.
pub proof fn lemma_found_stays_found(t: Seq<EditorTab>, u: Seq<EditorTab>, p: Seq<char>, i: int, k: int)
    requires
        find_path(t, p) == Some(k),
        u.len() == t.len(),
        forall|j: int| 0 <= j < t.len() ==> #[trigger] u[j].path == t[j].path,
        0 <= i <= k,
    ensures
        find_path(u, p) is Some,
{
    lemma_find_path_some(t, p, 0);
    assert(tab_has_path(u[k], p));
    lemma_has_path_found(u, p, 0, k);
}

/// Opening a file keeps a well-formed group's active tab pointing at the
/// file's tab.
pub proof fn lemma_open_file_activates(old: EditorGroup, new: EditorGroup, p: Seq<char>)
    requires
        opened_file(old, new, p),
        old.wf(),
    ensures
        new.active_tab < new.tabs@.len(),
        tab_has_path(new.tabs@[new.active_tab as int], p) || (find_path(old.tabs@, p) is None
            && opt_view(new.tabs@[new.active_tab as int].path) == Some(p)),
{
    lemma_find_path_some(old.tabs@, p, 0);
}


/// Closing a tab other than the active one keeps the same tab active: the
/// active index still points at a tab, and it is the tab that was active
/// (one place further left when the closed tab stood left of it).
pub proof fn lemma_close_background_tab_keeps_active(old: EditorGroup, new: EditorGroup, index: usize)
    requires
        closed_tab(old, new, index),
        index < old.tabs@.len(),
        old.active_tab < old.tabs@.len(),
        index != old.active_tab,
    ensures
        new.active_tab < new.tabs@.len(),
        new.tabs@[new.active_tab as int] == old.tabs@[old.active_tab as int],
{
}

/// Closing the active tab activates the tab that takes its place (the one
/// after it), or the one before it when it was the last.
pub proof fn lemma_close_active_tab_activates_neighbour(old: EditorGroup, new: EditorGroup, index: usize)
    requires
        closed_tab(old, new, index),
        old.tabs@.len() >= 2,
        old.active_tab == index,
        index < old.tabs@.len(),
    ensures
        new.active_tab < new.tabs@.len(),
        new.tabs@[new.active_tab as int] == (if index + 1 < old.tabs@.len() {
            old.tabs@[index + 1]
        } else {
            old.tabs@[index - 1]
        }),
{
}

/// Closing a tab other than the preview tab keeps the same preview tab;
/// closing the preview tab leaves none.
pub proof fn lemma_close_tab_keeps_preview(old: EditorGroup, new: EditorGroup, index: usize)
    requires
        closed_tab(old, new, index),
        index < old.tabs@.len(),
        old.preview_tab matches Some(p) && p < old.tabs@.len(),
    ensures
        old.preview_tab == Some(index) ==> new.preview_tab is None,
        old.preview_tab != Some(index) ==> (new.preview_tab matches Some(q) && q < new.tabs@.len()
            && new.tabs@[q as int] == old.tabs@[old.preview_tab->0 as int]),
{
}

/// Closing a group that is neither the active one nor the one its tabs are
/// merged into (the group before it, or the next one when it is first)
/// keeps the same group active, unchanged.
pub proof fn lemma_close_other_group_keeps_active(old: EditorGroupLayout, new: EditorGroupLayout, index: usize)
    requires
        group_closed(old, new, index),
        old.groups@.len() >= 2,
        index < old.groups@.len(),
        old.active_group < old.groups@.len(),
        old.active_group != index,
        old.active_group != (if index > 0 {
            index - 1
        } else {
            1
        }),
    ensures
        new.active_group < new.groups@.len(),
        new.groups@[new.active_group as int] == old.groups@[old.active_group as int],
{
    let rest = old.groups@.remove(index as int);
    let a = new.active_group as int;
    assert(new.groups@[a] == rest[a]);
}

} // verus!

