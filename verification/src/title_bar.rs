//! Title bar: the window title (`file — workspace — SideX`), the embedded
//! menu bar, the command center toggle and the window controls.

use vstd::prelude::*;

use crate::editor_group::{next_index, prev_index};
use crate::paths::{file_name, opt_view, path_file_name};
use crate::platform::OperatingSystem;

verus! {

/// The title for an optional file name and workspace name.
pub open spec fn spec_title(f: Option<Seq<char>>, w: Option<Seq<char>>) -> Seq<char> {
    match (f, w) {
        (Some(f), Some(w)) => f + " — "@ + w + " — SideX"@,
        (Some(f), None) => f + " — SideX"@,
        (None, Some(w)) => w + " — SideX"@,
        (None, None) => "SideX"@,
    }
}

pub open spec fn opt_str(o: Option<&str>) -> Option<Seq<char>> {
    match o {
        Some(s) => Some(s@),
        None => None,
    }
}

/// Builds the title `file — workspace — SideX`, leaving out absent parts.
pub fn compose_title(filename: Option<&str>, workspace: Option<&str>) -> (r: String)
    ensures
        r@ == spec_title(opt_str(filename), opt_str(workspace)),
{
    match (filename, workspace) {
        (Some(f), Some(w)) => {
            let mut s = f.to_owned();
            s.append(" — ");
            s.append(w);
            s.append(" — SideX");
            s
        },
        (Some(f), None) => {
            let mut s = f.to_owned();
            s.append(" — SideX");
            s
        },
        (None, Some(w)) => {
            let mut s = w.to_owned();
            s.append(" — SideX");
            s
        },
        (None, None) => "SideX".to_owned(),
    }
}

/// The title for a file and the folder name of a workspace path.
pub fn title_for_path(filename: Option<&str>, workspace: Option<&str>) -> (r: String)
    ensures
        r@ == spec_title(
            opt_str(filename),
            match workspace {
                Some(p) => path_file_name(p@),
                None => None,
            },
        ),
{
    let ws_name = match workspace {
        Some(p) => file_name(p),
        None => None,
    };
    match &ws_name {
        Some(n) => compose_title(filename, Some(n.as_str())),
        None => compose_title(filename, None),
    }
}

// ── Title bar ────────────────────────────────────────────────────────────────

/// The application title bar state.
#[derive(Debug, Clone)]
pub struct TitleBar {
    pub title: String,
    pub menu_bar: Option<MenuBarState>,
    pub window_controls: WindowControls,
    pub command_center: bool,
}

impl Default for TitleBar {
    fn default() -> (r: Self)
        ensures
            r.title@ == "SideX"@,
            r.menu_bar matches Some(m) && m.active is None && !m.is_compact && m.menus@.len() == 8,
            r.window_controls.minimize && r.window_controls.maximize && r.window_controls.close,
            !r.window_controls.is_maximized,
            r.command_center,
    {
        TitleBar {
            title: "SideX".to_owned(),
            menu_bar: Some(MenuBarState::default()),
            window_controls: WindowControls::default(),
            command_center: true,
        }
    }
}

impl TitleBar {
    /// Sets the title to `filename — workspace — SideX`, leaving out absent
    /// parts.
    pub fn update_title(&mut self, filename: Option<&str>, workspace: Option<&str>)
        ensures
            final(self).title@ == spec_title(opt_str(filename), opt_str(workspace)),
            final(self).menu_bar == old(self).menu_bar,
            final(self).window_controls == old(self).window_controls,
            final(self).command_center == old(self).command_center,
    {
        self.title = compose_title(filename, workspace);
    }

    /// Sets the title from a file name and a workspace path (its folder name
    /// is shown).
    pub fn update_title_from_path(&mut self, filename: Option<&str>, workspace: Option<&str>)
        ensures
            final(self).title@ == spec_title(
                opt_str(filename),
                match workspace {
                    Some(p) => path_file_name(p@),
                    None => None,
                },
            ),
            final(self).menu_bar == old(self).menu_bar,
            final(self).window_controls == old(self).window_controls,
            final(self).command_center == old(self).command_center,
    {
        self.title = title_for_path(filename, workspace);
    }

    /// Shows (a fresh menu bar, unless one is shown) or hides the menu bar.
    pub fn set_menu_bar_visibility(&mut self, visible: bool)
        ensures
            !visible ==> final(self).menu_bar is None,
            visible && old(self).menu_bar is Some ==> final(self).menu_bar == old(self).menu_bar,
            visible && old(self).menu_bar is None ==> (final(self).menu_bar matches Some(m)
                && m.active is None && !m.is_compact && m.menus@.len() == 8),
            final(self).title == old(self).title,
            final(self).window_controls == old(self).window_controls,
            final(self).command_center == old(self).command_center,
    {
        if visible {
            if self.menu_bar.is_none() {
                self.menu_bar = Some(MenuBarState::default());
            }
        } else {
            self.menu_bar = None;
        }
    }

    /// Toggles the command center (the search box in the title area).
    pub fn toggle_command_center(&mut self)
        ensures
            final(self).command_center == !old(self).command_center,
            final(self).title == old(self).title,
            final(self).menu_bar == old(self).menu_bar,
            final(self).window_controls == old(self).window_controls,
    {
        self.command_center = !self.command_center;
    }

    /// Whether the platform's own title bar is used rather than a drawn
    /// one: on macOS only. The operating system is the one the application
    /// runs on.
    pub fn use_native_title_bar(os: &OperatingSystem) -> (r: bool)
        ensures
            r == (*os is MacOS),
    {
        match os {
            OperatingSystem::MacOS { .. } => true,
            _ => false,
        }
    }

    /// Records whether the window is maximized.
    pub fn set_maximized(&mut self, maximized: bool)
        ensures
            final(self).window_controls.is_maximized == maximized,
            final(self).window_controls.minimize == old(self).window_controls.minimize,
            final(self).window_controls.maximize == old(self).window_controls.maximize,
            final(self).window_controls.close == old(self).window_controls.close,
            final(self).title == old(self).title,
            final(self).menu_bar == old(self).menu_bar,
            final(self).command_center == old(self).command_center,
    {
        self.window_controls.is_maximized = maximized;
    }
}

// ── Window controls ──────────────────────────────────────────────────────────

/// The minimize / maximize / close buttons.
#[derive(Debug, Clone, Copy, PartialEq, Eq)]
pub struct WindowControls {
    pub minimize: bool,
    pub maximize: bool,
    pub close: bool,
    pub is_maximized: bool,
}

impl Default for WindowControls {
    fn default() -> (r: Self)
        ensures
            r.minimize && r.maximize && r.close && !r.is_maximized,
    {
        WindowControls { minimize: true, maximize: true, close: true, is_maximized: false }
    }
}

// ── Menu bar ─────────────────────────────────────────────────────────────────

/// The menu bar embedded in the title bar.
#[derive(Debug, Clone)]
pub struct MenuBarState {
    pub menus: Vec<MenuBarItem>,
    pub active: Option<usize>,
    pub is_compact: bool,
}

impl Default for MenuBarState {
    fn default() -> (r: Self)
        ensures
            is_default_menus(r.menus@),
            r.menus@.len() == 8,
            r.active is None,
            !r.is_compact,
    {
        MenuBarState { menus: default_menus(), active: None, is_compact: false }
    }
}

impl MenuBarState {
    /// Opens the menu at `index` (ignored when out of range).
    pub fn activate(&mut self, index: usize)
        ensures
            final(self).active == (if index < old(self).menus@.len() {
                Some(index)
            } else {
                old(self).active
            }),
            final(self).menus == old(self).menus,
            final(self).is_compact == old(self).is_compact,
    {
        if index < self.menus.len() {
            self.active = Some(index);
        }
    }

    /// Closes the menu bar.
    pub fn deactivate(&mut self)
        ensures
            final(self).active is None,
            final(self).menus == old(self).menus,
            final(self).is_compact == old(self).is_compact,
    {
        self.active = None;
    }

    /// Moves to the next menu, wrapping; with none open, from the first.
    pub fn next(&mut self)
        requires
            old(self).active != Some(usize::MAX),
        ensures
            old(self).menus@.len() == 0 ==> final(self).active == old(self).active,
            old(self).menus@.len() > 0 ==> final(self).active == Some(
                next_index(
                    match old(self).active {
                        Some(a) => a as int,
                        None => 0,
                    },
                    old(self).menus@.len() as int,
                ) as usize,
            ),
            final(self).menus == old(self).menus,
            final(self).is_compact == old(self).is_compact,
    {
        if self.menus.len() == 0 {
            return;
        }
        let current = match self.active {
            Some(a) => a,
            None => 0,
        };
        self.active = Some((current + 1) % self.menus.len());
    }

    /// Moves to the previous menu, wrapping; with none open, from the first.
    pub fn prev(&mut self)
        ensures
            old(self).menus@.len() == 0 ==> final(self).active == old(self).active,
            old(self).menus@.len() > 0 ==> final(self).active == Some(
                prev_index(
                    match old(self).active {
                        Some(a) => a as int,
                        None => 0,
                    },
                    old(self).menus@.len() as int,
                ) as usize,
            ),
            final(self).menus == old(self).menus,
            final(self).is_compact == old(self).is_compact,
    {
        if self.menus.len() == 0 {
            return;
        }
        let current = match self.active {
            Some(a) => a,
            None => 0,
        };
        self.active = Some(
            if current == 0 {
                self.menus.len() - 1
            } else {
                current - 1
            },
        );
    }

    /// Switches between the full menu bar and the compact (hamburger) one.
    pub fn toggle_compact(&mut self)
        ensures
            final(self).is_compact == !old(self).is_compact,
            final(self).menus == old(self).menus,
            final(self).active == old(self).active,
    {
        self.is_compact = !self.is_compact;
    }
}

/// A top-level menu bar entry.
#[derive(Debug, Clone)]
pub struct MenuBarItem {
    pub label: String,
    pub menu_id: String,
}

/// The labels and identifiers of the standard menus.
pub open spec fn menu_spec(i: int) -> (Seq<char>, Seq<char>) {
    if i == 0 {
        ("File"@, "file"@)
    } else if i == 1 {
        ("Edit"@, "edit"@)
    } else if i == 2 {
        ("Selection"@, "selection"@)
    } else if i == 3 {
        ("View"@, "view"@)
    } else if i == 4 {
        ("Go"@, "go"@)
    } else if i == 5 {
        ("Run"@, "run"@)
    } else if i == 6 {
        ("Terminal"@, "terminal"@)
    } else {
        ("Help"@, "help"@)
    }
}

/// Whether `items` are the standard menus in order.
pub open spec fn is_default_menus(items: Seq<MenuBarItem>) -> bool {
    &&& items.len() == 8
    &&& forall|i: int|
        0 <= i < 8 ==> (#[trigger] items[i]).label@ == menu_spec(i).0 && items[i].menu_id@
            == menu_spec(i).1
}

fn menu_item(label: &str, id: &str) -> (r: MenuBarItem)
    ensures
        r.label@ == label@,
        r.menu_id@ == id@,
{
    MenuBarItem { label: label.to_owned(), menu_id: id.to_owned() }
}

/// The standard menus: File, Edit, Selection, View, Go, Run, Terminal, Help.
pub fn default_menus() -> (r: Vec<MenuBarItem>)
    ensures
        is_default_menus(r@),
{
    let mut v = Vec::new();
    v.push(menu_item("File", "file"));
    v.push(menu_item("Edit", "edit"));
    v.push(menu_item("Selection", "selection"));
    v.push(menu_item("View", "view"));
    v.push(menu_item("Go", "go"));
    v.push(menu_item("Run", "run"));
    v.push(menu_item("Terminal", "terminal"));
    v.push(menu_item("Help", "help"));
    v
}

// ── Laws ─────────────────────────────────────────────────────────────────────

/// Moving to the next menu and back (or back and then forward) returns to
/// the open menu.
pub proof fn lemma_menu_next_prev(a: int, len: int)
    requires
        0 <= a < len,
    ensures
        prev_index(next_index(a, len), len) == a,
        next_index(prev_index(a, len), len) == a,
{
    crate::editor_group::lemma_next_prev_inverse(a, len);
}

} // verus!
