//! Windows: per-window metadata (identity, geometry, chrome state, title)
//! and the manager that keeps the open windows, hands out their ids and
//! tracks which one has the focus. Creating the native window and the
//! editor state it shows is the application's part; it hands both over
//! here.

use vstd::prelude::*;

use crate::editor_group::EditorGroupLayout;
use crate::paths::path_file_name;
use crate::title_bar::{opt_str, spec_title, title_for_path};

verus! {

/// Identifier of an open window.
#[derive(Debug, Clone, Copy, PartialEq, Eq, Structural, Hash)]
pub struct WindowId(pub u64);

/// On-screen bounds of a window.
#[derive(Debug, Clone, Copy, PartialEq, Eq)]
pub struct WindowBounds {
    pub x: i32,
    pub y: i32,
    pub width: u32,
    pub height: u32,
}

impl Default for WindowBounds {
    fn default() -> (r: Self)
        ensures
            r.x == 100 && r.y == 100 && r.width == 1280 && r.height == 720,
    {
        WindowBounds { x: 100, y: 100, width: 1280, height: 720 }
    }
}

/// State of a window's chrome.
#[derive(Debug, Clone, Copy, PartialEq, Eq)]
pub enum WindowState {
    Normal,
    Maximized,
    Minimized,
    Fullscreen,
}

impl Default for WindowState {
    fn default() -> (r: Self)
        ensures
            r == WindowState::Normal,
    {
        WindowState::Normal
    }
}

/// What is tracked per window besides its editor state.
#[derive(Debug, Clone)]
pub struct AppWindow {
    pub id: u64,
    pub title: String,
    pub bounds: WindowBounds,
    pub state: WindowState,
    pub workspace: Option<String>,
    pub is_focused: bool,
    pub is_fullscreen: bool,
}

impl AppWindow {
    /// A normal, unfocused window with default bounds.
    pub fn new(id: u64, title: String, workspace: Option<String>) -> (r: Self)
        ensures
            r.id == id,
            r.title == title,
            r.workspace == workspace,
            r.bounds == (WindowBounds { x: 100, y: 100, width: 1280, height: 720 }),
            r.state == WindowState::Normal,
            !r.is_focused,
            !r.is_fullscreen,
    {
        AppWindow {
            id,
            title,
            bounds: WindowBounds::default(),
            state: WindowState::Normal,
            workspace,
            is_focused: false,
            is_fullscreen: false,
        }
    }
}

/// The window title `file — workspace — SideX`, where the workspace is
/// shown by its folder name.
pub fn format_title(filename: Option<&str>, workspace: Option<&str>) -> (r: String)
    ensures
        r@ == spec_title(
            opt_str(filename),
            match workspace {
                Some(p) => path_file_name(p@),
                None => None,
            },
        ),
{
    title_for_path(filename, workspace)
}

// ── The window manager ───────────────────────────────────────────────────────

/// What a window shows: its editor state, which can tell whether it has
/// unsaved work.
pub trait WindowContent {
    /// Whether there is unsaved work.
    spec fn unsaved_work(&self) -> bool;

    /// Whether there is unsaved work (see `unsaved_work`).
    fn has_unsaved_changes(&self) -> (r: bool)
        ensures
            r == self.unsaved_work(),
    ;
}

impl WindowContent for EditorGroupLayout {
    open spec fn unsaved_work(&self) -> bool {
        exists|i: int, j: int|
            0 <= i < self.groups@.len() && 0 <= j < self.groups@[i].tabs@.len()
                && #[trigger] self.groups@[i].tabs@[j].is_modified
    }

    fn has_unsaved_changes(&self) -> (r: bool) {
        EditorGroupLayout::has_unsaved_changes(self)
    }
}

/// One open window: what it shows and its metadata.
pub struct WindowEntry<A> {
    pub app: A,
    pub meta: AppWindow,
}

/// The title a new window gets: its workspace folder's name, or the bare
/// product name.
pub open spec fn new_window_title(workspace: Option<String>) -> Seq<char> {
    spec_title(
        None,
        match workspace {
            Some(p) => path_file_name(p@),
            None => None,
        },
    )
}

/// Whether `meta` is what a freshly created window `id` on `workspace`
/// carries: a normal, unfocused window with default bounds and the new
/// window title.
pub open spec fn fresh_window(meta: AppWindow, id: u64, workspace: Option<String>) -> bool {
    &&& meta.id == id
    &&& meta.title@ == new_window_title(workspace)
    &&& meta.workspace == workspace
    &&& meta.bounds == (WindowBounds { x: 100, y: 100, width: 1280, height: 720 })
    &&& meta.state == WindowState::Normal
    &&& !meta.is_focused
    &&& !meta.is_fullscreen
}

/// The metadata after a fullscreen toggle.
pub open spec fn toggled_fullscreen(m: AppWindow) -> AppWindow {
    AppWindow {
        is_fullscreen: !m.is_fullscreen,
        state: if !m.is_fullscreen { WindowState::Fullscreen } else { WindowState::Normal },
        ..m
    }
}

/// The metadata after its state is set.
pub open spec fn with_state(m: AppWindow, state: WindowState) -> AppWindow {
    AppWindow { state, is_fullscreen: state == WindowState::Fullscreen, ..m }
}

/// Keeps the open windows, hands out their ids and tracks the focus. The
/// windows are kept in the order they were opened; ids are never reused.
pub struct WindowManager<A> {
    windows: Vec<WindowEntry<A>>,
    next_id: u64,
    focused: Option<WindowId>,
}

impl<A> WindowManager<A> {
    /// The open windows, oldest first.
    pub closed spec fn entries(&self) -> Seq<WindowEntry<A>> {
        self.windows@
    }

    /// The id the next window gets.
    pub closed spec fn next_id_view(&self) -> u64 {
        self.next_id
    }

    /// The focused window, if any.
    pub closed spec fn focused_view(&self) -> Option<WindowId> {
        self.focused
    }

    /// The id of the `i`-th open window.
    pub open spec fn id_at(&self, i: int) -> u64 {
        self.entries()[i].meta.id
    }

    /// Whether window `id` is open.
    pub open spec fn holds(&self, id: u64) -> bool {
        exists|i: int| 0 <= i < self.entries().len() && #[trigger] self.id_at(i) == id
    }

    /// The position of open window `id`.
    pub open spec fn index_of(&self, id: u64) -> int {
        choose|i: int| 0 <= i < self.entries().len() && #[trigger] self.id_at(i) == id
    }

    /// The manager's invariant: no id is open twice, every open id was
    /// handed out before the next one, and the focus, when some, is on an
    /// open window.
    pub open spec fn wf(&self) -> bool {
        &&& forall|i: int, j: int|
            0 <= i < j < self.entries().len() ==> #[trigger] self.id_at(i) != #[trigger] self.id_at(j)
        &&& forall|i: int| 0 <= i < self.entries().len() ==> #[trigger] self.id_at(i) < self.next_id_view()
        &&& 1 <= self.next_id_view()
        &&& self.focused_view() matches Some(f) ==> self.holds(f.0)
    }

    /// Everything but window `id`'s metadata is as in `old`, and that is `m`.
    pub open spec fn changed_meta(&self, old: &Self, id: u64, m: AppWindow) -> bool {
        let i = old.index_of(id);
        &&& self.entries().len() == old.entries().len()
        &&& self.entries()[i].meta == m
        &&& self.entries()[i].app == old.entries()[i].app
        &&& forall|k: int| 0 <= k < old.entries().len() && k != i ==> #[trigger] self.entries()[k] == old.entries()[k]
        &&& self.next_id_view() == old.next_id_view()
        &&& self.focused_view() == old.focused_view()
    }

    /// No window open yet; the first gets id 1.
    pub fn new() -> (r: Self)
        ensures
            r.wf(),
            r.entries().len() == 0,
            r.next_id_view() == 1,
            r.focused_view() is None,
    {
        WindowManager { windows: Vec::new(), next_id: 1, focused: None }
    }

    /// Changing only what the windows show, or their metadata other than
    /// the ids, keeps the invariant and which windows are open where.
    pub proof fn lemma_same_ids(new: &Self, old: &Self)
        requires
            old.wf(),
            new.entries().len() == old.entries().len(),
            forall|k: int| 0 <= k < old.entries().len() ==> #[trigger] new.id_at(k) == old.id_at(k),
            new.next_id_view() == old.next_id_view(),
        ensures
            new.focused_view() == old.focused_view() ==> new.wf(),
            new.focused_view() matches Some(f) && old.holds(f.0) ==> new.wf(),
            forall|id: u64| new.holds(id) == old.holds(id),
            forall|id: u64| old.holds(id) ==> new.index_of(id) == old.index_of(id),
    {
        assert forall|i: int, j: int| 0 <= i < j < new.entries().len() implies #[trigger] new.id_at(i) != #[trigger] new.id_at(j) by {
            assert(old.id_at(i) != old.id_at(j));
        }
        assert forall|i: int| 0 <= i < new.entries().len() implies #[trigger] new.id_at(i) < new.next_id_view() by {
            assert(old.id_at(i) < old.next_id_view());
        }
        assert forall|id: u64| new.holds(id) == old.holds(id) by {
            if new.holds(id) {
                let j = choose|j: int| 0 <= j < new.entries().len() && #[trigger] new.id_at(j) == id;
                assert(old.id_at(j) == id);
            }
            if old.holds(id) {
                let j = choose|j: int| 0 <= j < old.entries().len() && #[trigger] old.id_at(j) == id;
                assert(new.id_at(j) == id);
            }
        }
        assert forall|id: u64| old.holds(id) implies new.index_of(id) == old.index_of(id) by {
            let a = new.index_of(id);
            let b = old.index_of(id);
            assert(new.holds(id));
            assert(new.id_at(a) == id);
            assert(old.id_at(b) == id);
            assert(old.id_at(a) == id);
            if a != b {
                if a < b {
                    assert(old.id_at(a) != old.id_at(b));
                } else {
                    assert(old.id_at(b) != old.id_at(a));
                }
            }
        }
    }

    /// Where window `id` is kept, if it is open.
    fn position(&self, id: WindowId) -> (r: Option<usize>)
        requires
            self.wf(),
        ensures
            r matches Some(i) ==> i < self.entries().len() && self.id_at(i as int) == id.0
                && self.index_of(id.0) == i,
            r is None ==> !self.holds(id.0),
    {
        let mut i: usize = 0;
        while i < self.windows.len()
            invariant
                i <= self.entries().len(),
                self.wf(),
                forall|k: int| 0 <= k < i ==> #[trigger] self.id_at(k) != id.0,
            decreases self.entries().len() - i,
        {
            if self.windows[i].meta.id == id.0 {
                proof {
                    let j = self.index_of(id.0);
                    assert(self.id_at(i as int) == id.0);
                    assert(0 <= j < self.entries().len() && self.id_at(j) == id.0);
                }
                return Some(i);
            }
            i = i + 1;
        }
        None
    }

    /// Opens a window showing `app`, on `workspace` if given, and gives it
    /// the focus. It gets the next id and a title naming the workspace.
    pub fn create_window(&mut self, app: A, workspace: Option<String>) -> (id: WindowId)
        requires
            old(self).wf(),
            old(self).next_id_view() < u64::MAX,
        ensures
            final(self).wf(),
            id.0 == old(self).next_id_view(),
            final(self).next_id_view() == old(self).next_id_view() + 1,
            final(self).entries().len() == old(self).entries().len() + 1,
            final(self).entries().drop_last() == old(self).entries(),
            final(self).entries().last().app == app,
            fresh_window(final(self).entries().last().meta, id.0, workspace),
            final(self).focused_view() == Some(id),
    {
        let id = WindowId(self.next_id);
        self.next_id = self.next_id + 1;
        let title = match &workspace {
            Some(w) => format_title(None, Some(w.as_str())),
            None => format_title(None, None),
        };
        let meta = AppWindow::new(id.0, title, workspace);
        self.windows.push(WindowEntry { app, meta });
        self.focused = Some(id);
        proof {
            let n = self.entries().len() - 1;
            assert(self.id_at(n) == id.0);
            assert(self.entries().drop_last() =~= old(self).entries());
            assert forall|i: int| 0 <= i < n implies #[trigger] self.id_at(i) == old(self).id_at(i) by {
                assert(self.entries()[i] == old(self).entries()[i]);
            }
        }
        id
    }

    /// Closes window `id`, handing back what it showed (for its state to be
    /// saved). When it had the focus, the focus moves to the oldest
    /// remaining window, or nowhere when none remains.
    pub fn close_window(&mut self, id: WindowId) -> (r: Result<A, WindowError>)
        requires
            old(self).wf(),
        ensures
            final(self).wf(),
            !old(self).holds(id.0) ==> (r matches Err(WindowError::NotFound(w)) && w == id.0 && *final(self) == *old(self)),
            old(self).holds(id.0) ==> {
                let i = old(self).index_of(id.0);
                &&& r matches Ok(app) && app == old(self).entries()[i].app
                &&& final(self).entries() == old(self).entries().remove(i)
                &&& final(self).next_id_view() == old(self).next_id_view()
                &&& final(self).focused_view() == if old(self).focused_view() == Some(id) {
                    if final(self).entries().len() > 0 {
                        Some(WindowId(final(self).id_at(0)))
                    } else {
                        None
                    }
                } else {
                    old(self).focused_view()
                }
            },
    {
        match self.position(id) {
            None => Err(WindowError::NotFound(id.0)),
            Some(i) => {
                let entry = self.windows.remove(i);
                let was_focused = match self.focused {
                    Some(f) => f.0 == id.0,
                    None => false,
                };
                if was_focused {
                    if self.windows.len() > 0 {
                        self.focused = Some(WindowId(self.windows[0].meta.id));
                    } else {
                        self.focused = None;
                    }
                }
                proof {
                    let old_ws = old(self).entries();
                    assert forall|k: int| 0 <= k < self.entries().len() implies #[trigger] self.id_at(k)
                        == old(self).id_at(if k < i { k } else { k + 1 }) by {}
                    assert forall|a: int, b: int|
                        0 <= a < b < self.entries().len() implies #[trigger] self.id_at(a) != #[trigger] self.id_at(b) by {
                        let a0 = if a < i { a } else { a + 1 };
                        let b0 = if b < i { b } else { b + 1 };
                        assert(old(self).id_at(a0) != old(self).id_at(b0));
                    }
                    assert forall|a: int| 0 <= a < self.entries().len() implies #[trigger] self.id_at(a) < self.next_id_view() by {
                        let a0 = if a < i { a } else { a + 1 };
                        assert(old(self).id_at(a0) < old(self).next_id_view());
                    }
                    match self.focused {
                        Some(f) => {
                            if was_focused {
                                assert(self.id_at(0) == f.0);
                            } else {
                                assert(old(self).holds(f.0));
                                let j = choose|j: int| 0 <= j < old_ws.len() && #[trigger] old(self).id_at(j) == f.0;
                                assert(old(self).id_at(i as int) == id.0);
                                assert(j != i);
                                let k = if j < i { j } else { j - 1 };
                                assert(self.id_at(k) == f.0);
                            }
                            assert(self.holds(f.0));
                        },
                        None => {},
                    }
                }
                Ok(entry.app)
            },
        }
    }

    /// Gives window `id` the focus, taking it from the window that had it;
    /// nothing happens when no such window is open.
    pub fn focus_window(&mut self, id: WindowId)
        requires
            old(self).wf(),
        ensures
            final(self).wf(),
            !old(self).holds(id.0) ==> *final(self) == *old(self),
            old(self).holds(id.0) ==> {
                let i = old(self).index_of(id.0);
                &&& final(self).focused_view() == Some(id)
                &&& final(self).next_id_view() == old(self).next_id_view()
                &&& final(self).entries().len() == old(self).entries().len()
                &&& final(self).entries()[i].meta == (AppWindow { is_focused: true, ..old(self).entries()[i].meta })
                &&& forall|k: int|
                    0 <= k < old(self).entries().len() && k != i ==> #[trigger] final(self).entries()[k] == if Some(
                        WindowId(old(self).id_at(k)),
                    ) == old(self).focused_view() {
                        WindowEntry {
                            meta: AppWindow { is_focused: false, ..old(self).entries()[k].meta },
                            ..old(self).entries()[k]
                        }
                    } else {
                        old(self).entries()[k]
                    }
                &&& forall|k: int| 0 <= k < old(self).entries().len() ==> #[trigger] final(self).entries()[k].app == old(self).entries()[k].app
            },
    {
        let i = match self.position(id) {
            None => return,
            Some(i) => i,
        };
        if let Some(prev) = self.focused {
            if prev.0 != id.0 {
                if let Some(p) = self.position(prev) {
                    self.windows[p].meta.is_focused = false;
                }
            }
        }
        self.windows[i].meta.is_focused = true;
        self.focused = Some(id);
        proof {
            assert forall|k: int| 0 <= k < self.entries().len() implies #[trigger] self.id_at(k) == old(self).id_at(k) by {}
            assert(old(self).id_at(i as int) == id.0);
            Self::lemma_same_ids(&*self, &*old(self));
        }
    }

    /// Switches window `id` in or out of fullscreen (out of it to the
    /// normal state).
    pub fn toggle_fullscreen(&mut self, id: WindowId)
        requires
            old(self).wf(),
        ensures
            final(self).wf(),
            !old(self).holds(id.0) ==> *final(self) == *old(self),
            old(self).holds(id.0) ==> final(self).changed_meta(
                &*old(self),
                id.0,
                toggled_fullscreen(old(self).entries()[old(self).index_of(id.0)].meta),
            ),
    {
        if let Some(i) = self.position(id) {
            let now = !self.windows[i].meta.is_fullscreen;
            self.windows[i].meta.is_fullscreen = now;
            self.windows[i].meta.state = if now {
                WindowState::Fullscreen
            } else {
                WindowState::Normal
            };
            proof {
                assert forall|k: int| 0 <= k < self.entries().len() implies #[trigger] self.id_at(k) == old(self).id_at(k) by {}
                Self::lemma_same_ids(&*self, &*old(self));
            }
        }
    }

    /// Sets window `id`'s state; it is fullscreen exactly when that state is.
    pub fn set_window_state(&mut self, id: WindowId, state: WindowState)
        requires
            old(self).wf(),
        ensures
            final(self).wf(),
            !old(self).holds(id.0) ==> *final(self) == *old(self),
            old(self).holds(id.0) ==> final(self).changed_meta(
                &*old(self),
                id.0,
                with_state(old(self).entries()[old(self).index_of(id.0)].meta, state),
            ),
    {
        if let Some(i) = self.position(id) {
            self.windows[i].meta.state = state;
            self.windows[i].meta.is_fullscreen = match state {
                WindowState::Fullscreen => true,
                _ => false,
            };
            proof {
                assert forall|k: int| 0 <= k < self.entries().len() implies #[trigger] self.id_at(k) == old(self).id_at(k) by {}
                Self::lemma_same_ids(&*self, &*old(self));
            }
        }
    }

    /// Records window `id`'s new bounds (after a move or resize).
    pub fn update_bounds(&mut self, id: WindowId, bounds: WindowBounds)
        requires
            old(self).wf(),
        ensures
            final(self).wf(),
            !old(self).holds(id.0) ==> *final(self) == *old(self),
            old(self).holds(id.0) ==> final(self).changed_meta(
                &*old(self),
                id.0,
                AppWindow { bounds, ..old(self).entries()[old(self).index_of(id.0)].meta },
            ),
    {
        if let Some(i) = self.position(id) {
            self.windows[i].meta.bounds = bounds;
            proof {
                assert forall|k: int| 0 <= k < self.entries().len() implies #[trigger] self.id_at(k) == old(self).id_at(k) by {}
                Self::lemma_same_ids(&*self, &*old(self));
            }
        }
    }

    /// Retitles window `id` as `file — workspace — SideX` (see
    /// `format_title`). Showing the title on the native window is the
    /// caller's part.
    pub fn update_title(&mut self, id: WindowId, filename: Option<&str>, workspace: Option<&str>)
        requires
            old(self).wf(),
        ensures
            final(self).wf(),
            !old(self).holds(id.0) ==> *final(self) == *old(self),
            old(self).holds(id.0) ==> {
                let i = old(self).index_of(id.0);
                let m = final(self).entries()[i].meta;
                &&& m.title@ == spec_title(
                    opt_str(filename),
                    match workspace {
                        Some(p) => path_file_name(p@),
                        None => None,
                    },
                )
                &&& final(self).changed_meta(&*old(self), id.0, AppWindow { title: m.title, ..old(self).entries()[i].meta })
            },
    {
        if let Some(i) = self.position(id) {
            self.windows[i].meta.title = format_title(filename, workspace);
            proof {
                assert forall|k: int| 0 <= k < self.entries().len() implies #[trigger] self.id_at(k) == old(self).id_at(k) by {}
                Self::lemma_same_ids(&*self, &*old(self));
            }
        }
    }

    /// The ids of the open windows, oldest first.
    pub fn windows(&self) -> (r: Vec<WindowId>)
        ensures
            r@.len() == self.entries().len(),
            forall|i: int| 0 <= i < r@.len() ==> #[trigger] r@[i].0 == self.id_at(i),
    {
        let mut r: Vec<WindowId> = Vec::new();
        let mut i: usize = 0;
        while i < self.windows.len()
            invariant
                i <= self.entries().len(),
                r@.len() == i,
                forall|k: int| 0 <= k < i ==> #[trigger] r@[k].0 == self.id_at(k),
            decreases self.entries().len() - i,
        {
            r.push(WindowId(self.windows[i].meta.id));
            i = i + 1;
        }
        r
    }

    /// The metadata of the open windows, oldest first.
    pub fn window_list(&self) -> (r: Vec<&AppWindow>)
        ensures
            r@.len() == self.entries().len(),
            forall|i: int| 0 <= i < r@.len() ==> *#[trigger] r@[i] == self.entries()[i].meta,
    {
        let mut r: Vec<&AppWindow> = Vec::new();
        let mut i: usize = 0;
        while i < self.windows.len()
            invariant
                i <= self.entries().len(),
                r@.len() == i,
                forall|k: int| 0 <= k < i ==> *#[trigger] r@[k] == self.entries()[k].meta,
            decreases self.entries().len() - i,
        {
            r.push(&self.windows[i].meta);
            i = i + 1;
        }
        r
    }

    /// How many windows are open.
    pub fn count(&self) -> (r: usize)
        ensures
            r == self.entries().len(),
    {
        self.windows.len()
    }

    /// The focused window, if any.
    pub fn focused(&self) -> (r: Option<WindowId>)
        ensures
            r == self.focused_view(),
    {
        self.focused
    }

    /// What window `id` shows, if it is open.
    pub fn app(&self, id: WindowId) -> (r: Option<&A>)
        requires
            self.wf(),
        ensures
            self.holds(id.0) ==> (r matches Some(a) && *a == self.entries()[self.index_of(id.0)].app),
            !self.holds(id.0) ==> r is None,
    {
        match self.position(id) {
            Some(i) => Some(&self.windows[i].app),
            None => None,
        }
    }

    /// What window `id` shows, for changing it, if it is open.
    pub fn app_mut(&mut self, id: WindowId) -> (r: Option<&mut A>)
        requires
            old(self).wf(),
        ensures
            !old(self).holds(id.0) ==> r is None && *final(self) == *old(self),
            old(self).holds(id.0) ==> {
                let i = old(self).index_of(id.0);
                &&& r matches Some(a) && *a == old(self).entries()[i].app
                    && final(self).entries() == old(self).entries().update(
                        i,
                        WindowEntry { app: *final(a), ..old(self).entries()[i] },
                    )
                &&& final(self).next_id_view() == old(self).next_id_view()
                &&& final(self).focused_view() == old(self).focused_view()
            },
    {
        match self.position(id) {
            Some(i) => Some(&mut self.windows[i].app),
            None => None,
        }
    }

    /// What the focused window shows, for changing it, if a window has the
    /// focus.
    pub fn focused_app_mut(&mut self) -> (r: Option<&mut A>)
        requires
            old(self).wf(),
        ensures
            old(self).focused_view() is None ==> r is None && *final(self) == *old(self),
            old(self).focused_view() matches Some(f) ==> {
                let i = old(self).index_of(f.0);
                &&& r matches Some(a) && *a == old(self).entries()[i].app
                    && final(self).entries() == old(self).entries().update(
                        i,
                        WindowEntry { app: *final(a), ..old(self).entries()[i] },
                    )
                &&& final(self).next_id_view() == old(self).next_id_view()
                &&& final(self).focused_view() == old(self).focused_view()
            },
    {
        match self.focused {
            Some(f) => self.app_mut(f),
            None => None,
        }
    }

    /// The workspace window `id` is on, if it is open and has one.
    pub fn workspace_path(&self, id: WindowId) -> (r: Option<&str>)
        requires
            self.wf(),
        ensures
            self.holds(id.0) ==> match self.entries()[self.index_of(id.0)].meta.workspace {
                Some(w) => r matches Some(p) && p@ == w@,
                None => r is None,
            },
            !self.holds(id.0) ==> r is None,
    {
        match self.position(id) {
            Some(i) => match &self.windows[i].meta.workspace {
                Some(w) => Some(w.as_str()),
                None => None,
            },
            None => None,
        }
    }
}

impl<A: WindowContent> WindowManager<A> {
    /// Whether any open window has unsaved work.
    pub fn has_unsaved_changes(&self) -> (r: bool)
        ensures
            r == exists|i: int| 0 <= i < self.entries().len() && #[trigger] self.entries()[i].app.unsaved_work(),
    {
        let mut i: usize = 0;
        while i < self.windows.len()
            invariant
                i <= self.entries().len(),
                forall|k: int| 0 <= k < i ==> !(#[trigger] self.entries()[k].app.unsaved_work()),
            decreases self.entries().len() - i,
        {
            if self.windows[i].app.has_unsaved_changes() {
                return true;
            }
            i = i + 1;
        }
        false
    }
}

/// Why a window operation failed.
#[derive(Debug, Clone, PartialEq, Eq)]
pub enum WindowError {
    /// No window with this id is open.
    NotFound(u64),
}

impl WindowError {
    /// The message shown for this error.
    pub fn message(&self) -> (r: &'static str)
        ensures
            r@ == "window not found"@,
    {
        "window not found"
    }
}

/// Closing a window just created gives back what it shows and leaves the
/// other windows as they were.
pub proof fn lemma_create_then_close<A>(before: WindowManager<A>, after: WindowManager<A>, app: A)
    requires
        before.wf(),
        after.wf(),
        after.entries().drop_last() == before.entries(),
        after.entries().len() == before.entries().len() + 1,
        after.entries().last().app == app,
        after.id_at(after.entries().len() - 1) == before.next_id_view(),
    ensures
        after.holds(before.next_id_view()),
        after.index_of(before.next_id_view()) == before.entries().len(),
        after.entries().remove(before.entries().len() as int) == before.entries(),
        after.entries()[after.index_of(before.next_id_view())].app == app,
{
    let n = before.entries().len() as int;
    let id = before.next_id_view();
    assert(after.id_at(n) == id);
    let j = after.index_of(id);
    if j != n {
        assert(after.entries()[j] == before.entries()[j]);
        assert(before.id_at(j) < id);
    }
    assert(after.entries().remove(n) =~= before.entries());
}

} // verus!
