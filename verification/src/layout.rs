//! Workbench layout: where the chrome regions sit, what each tab shows, and
//! the visibility rules of zen mode and the editor grid. Region sizes are
//! floating-point and belong to the application's layout.

use vstd::prelude::*;

verus! {

/// Which side the sidebar is on.
#[derive(Debug, Clone, Copy, PartialEq, Eq, Structural)]
pub enum SidebarPosition {
    Left,
    Right,
}

/// Where the panel is docked.
#[derive(Debug, Clone, Copy, PartialEq, Eq, Structural)]
pub enum PanelPosition {
    Bottom,
    Left,
    Right,
}

/// What a tab shows.
#[derive(Debug, Clone)]
pub struct TabLayout {
    pub path: Option<String>,
    pub title: String,
    pub is_pinned: bool,
    pub is_preview: bool,
    pub is_dirty: bool,
}

/// Where the activity bar is.
#[derive(Debug, Clone, Copy, PartialEq, Eq, Structural)]
pub enum ActivityBarPosition {
    Left,
    Top,
    Hidden,
}

/// The activity bar.
#[derive(Debug, Clone)]
pub struct ActivityBarLayout {
    pub visible: bool,
    pub position: ActivityBarPosition,
}

impl Default for ActivityBarLayout {
    /// Shown, on the left.
    fn default() -> (r: Self)
        ensures
            r.visible,
            r.position == ActivityBarPosition::Left,
    {
        ActivityBarLayout { visible: true, position: ActivityBarPosition::Left }
    }
}

/// The status bar.
#[derive(Debug, Clone)]
pub struct StatusBarLayout {
    pub visible: bool,
}

impl Default for StatusBarLayout {
    /// Shown.
    fn default() -> (r: Self)
        ensures
            r.visible,
    {
        StatusBarLayout { visible: true }
    }
}

/// How the title bar is drawn.
#[derive(Debug, Clone, Copy, PartialEq, Eq, Structural)]
pub enum TitleBarStyle {
    Native,
    Custom,
}

/// The title bar.
#[derive(Debug, Clone)]
pub struct TitleBarLayout {
    pub visible: bool,
    pub style: TitleBarStyle,
}

impl Default for TitleBarLayout {
    /// Shown, drawn by the application.
    fn default() -> (r: Self)
        ensures
            r.visible,
            r.style == TitleBarStyle::Custom,
    {
        TitleBarLayout { visible: true, style: TitleBarStyle::Custom }
    }
}

/// Which side of the editor the minimap is on.
#[derive(Debug, Clone, Copy, PartialEq, Eq, Structural)]
pub enum MinimapSide {
    Left,
    Right,
}

/// Which chrome regions are shown, and whether zen mode is on.
#[derive(Debug, Clone, Copy, PartialEq, Eq, Structural)]
pub struct ChromeVisibility {
    pub sidebar: bool,
    pub panel: bool,
    pub activity_bar: bool,
    pub status_bar: bool,
    pub title_bar: bool,
    pub minimap: bool,
    pub zen_mode: bool,
}

/// The chrome after entering zen mode: everything but the title bar
/// hidden; nothing changes when already in zen mode.
pub open spec fn entered_zen(c: ChromeVisibility) -> ChromeVisibility {
    if c.zen_mode {
        c
    } else {
        ChromeVisibility {
            sidebar: false,
            panel: false,
            activity_bar: false,
            status_bar: false,
            minimap: false,
            zen_mode: true,
            ..c
        }
    }
}

/// The chrome after leaving zen mode: sidebar, activity bar, status bar,
/// title bar and minimap shown, panel hidden; nothing changes outside zen
/// mode.
pub open spec fn left_zen(c: ChromeVisibility) -> ChromeVisibility {
    if !c.zen_mode {
        c
    } else {
        ChromeVisibility {
            sidebar: true,
            panel: false,
            activity_bar: true,
            status_bar: true,
            title_bar: true,
            minimap: true,
            zen_mode: false,
        }
    }
}

impl ChromeVisibility {
    /// Enters zen mode.
    pub fn enter_zen_mode(&mut self)
        ensures
            *final(self) == entered_zen(*old(self)),
    {
        if self.zen_mode {
            return;
        }
        self.zen_mode = true;
        self.sidebar = false;
        self.panel = false;
        self.activity_bar = false;
        self.status_bar = false;
        self.minimap = false;
    }

    /// Leaves zen mode.
    pub fn exit_zen_mode(&mut self)
        ensures
            *final(self) == left_zen(*old(self)),
    {
        if !self.zen_mode {
            return;
        }
        self.zen_mode = false;
        self.sidebar = true;
        self.panel = false;
        self.activity_bar = true;
        self.status_bar = true;
        self.title_bar = true;
        self.minimap = true;
    }

    /// Enters zen mode, or leaves it when on.
    pub fn toggle_zen_mode(&mut self)
        ensures
            *final(self) == if old(self).zen_mode {
                left_zen(*old(self))
            } else {
                entered_zen(*old(self))
            },
    {
        if self.zen_mode {
            self.exit_zen_mode();
        } else {
            self.enter_zen_mode();
        }
    }
}

/// Toggling zen mode twice from the default chrome restores it.
pub proof fn lemma_zen_round_trip(c: ChromeVisibility)
    requires
        !c.zen_mode,
        c.sidebar && !c.panel && c.activity_bar && c.status_bar && c.title_bar && c.minimap,
    ensures
        left_zen(entered_zen(c)) == c,
{
}

/// The grid an editor split into `cols` × `rows` gets: each side clamped to
/// 1 through 4.
pub open spec fn grid_size(cols: u32, rows: u32) -> (u32, u32) {
    let c = if cols < 1 {
        1u32
    } else if cols > 4 {
        4u32
    } else {
        cols
    };
    let r = if rows < 1 {
        1u32
    } else if rows > 4 {
        4u32
    } else {
        rows
    };
    (c, r)
}

/// The grid an editor split into `cols` × `rows` gets, and its number of
/// groups.
pub fn grid_dimensions(cols: u32, rows: u32) -> (r: (u32, u32, usize))
    ensures
        (r.0, r.1) == grid_size(cols, rows),
        r.2 == r.0 * r.1,
        1 <= r.2 <= 16,
{
    let c: u32 = if cols < 1 {
        1
    } else if cols > 4 {
        4
    } else {
        cols
    };
    let rr: u32 = if rows < 1 {
        1
    } else if rows > 4 {
        4
    } else {
        rows
    };
    assert(1 <= c * rr <= 16) by (nonlinear_arith)
        requires
            1 <= c <= 4,
            1 <= rr <= 4,
    ;
    (c, rr, (c * rr) as usize)
}

} // verus!
