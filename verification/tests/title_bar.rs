use sidex_app::platform::{DesktopEnvironment, DisplayServer, OperatingSystem};
use sidex_app::title_bar::{default_menus, MenuBarState, TitleBar, WindowControls};

#[test]
fn default_title() {
    let tb = TitleBar::default();
    assert_eq!(tb.title, "SideX");
    assert!(tb.command_center);
    assert!(tb.menu_bar.is_some());
}

#[test]
fn update_title_full() {
    let mut tb = TitleBar::default();
    tb.update_title(Some("main.rs"), Some("sidex"));
    assert_eq!(tb.title, "main.rs — sidex — SideX");
}

#[test]
fn update_title_no_file() {
    let mut tb = TitleBar::default();
    tb.update_title(None, Some("sidex"));
    assert_eq!(tb.title, "sidex — SideX");
}

#[test]
fn update_title_no_workspace() {
    let mut tb = TitleBar::default();
    tb.update_title(Some("readme.md"), None);
    assert_eq!(tb.title, "readme.md — SideX");
}

#[test]
fn update_title_bare() {
    let mut tb = TitleBar::default();
    tb.update_title(None, None);
    assert_eq!(tb.title, "SideX");
}

#[test]
fn update_title_from_path() {
    let mut tb = TitleBar::default();
    tb.update_title_from_path(Some("main.rs"), Some("/projects/my-project"));
    assert_eq!(tb.title, "main.rs — my-project — SideX");
}

#[test]
fn menu_bar_visibility() {
    let mut tb = TitleBar::default();
    assert!(tb.menu_bar.is_some());
    tb.set_menu_bar_visibility(false);
    assert!(tb.menu_bar.is_none());
    tb.set_menu_bar_visibility(true);
    assert!(tb.menu_bar.is_some());
}

#[test]
fn menu_bar_navigation() {
    let mut state = MenuBarState::default();
    assert!(state.active.is_none());

    state.activate(0);
    assert_eq!(state.active, Some(0));

    state.next();
    assert_eq!(state.active, Some(1));

    state.prev();
    assert_eq!(state.active, Some(0));

    state.prev();
    assert_eq!(state.active, Some(state.menus.len() - 1));
}

#[test]
fn menu_bar_compact_toggle() {
    let mut state = MenuBarState::default();
    assert!(!state.is_compact);
    state.toggle_compact();
    assert!(state.is_compact);
}

#[test]
fn window_controls_default() {
    let wc = WindowControls::default();
    assert!(wc.minimize);
    assert!(wc.maximize);
    assert!(wc.close);
    assert!(!wc.is_maximized);
}

#[test]
fn set_maximized() {
    let mut tb = TitleBar::default();
    tb.set_maximized(true);
    assert!(tb.window_controls.is_maximized);
    tb.set_maximized(false);
    assert!(!tb.window_controls.is_maximized);
}

#[test]
fn command_center_toggle() {
    let mut tb = TitleBar::default();
    assert!(tb.command_center);
    tb.toggle_command_center();
    assert!(!tb.command_center);
}

#[test]
fn default_menus_populated() {
    let menus = default_menus();
    assert!(menus.len() >= 7);
    assert_eq!(menus[0].label, "File");
    assert_eq!(menus[0].menu_id, "file");
}

#[test]
fn menu_deactivate() {
    let mut state = MenuBarState::default();
    state.activate(2);
    assert_eq!(state.active, Some(2));
    state.deactivate();
    assert!(state.active.is_none());
}

// ── Further cases ────────────────────────────────────────────────────────────

#[test]
fn menu_next_then_prev_returns() {
    let mut state = MenuBarState::default();
    for start in 0..state.menus.len() {
        state.activate(start);
        state.next();
        state.prev();
        assert_eq!(state.active, Some(start));
    }
    state.deactivate();
    state.next();
    assert_eq!(state.active, Some(1));
    state.activate(99);
    assert_eq!(state.active, Some(1));
}

#[test]
fn default_menu_order() {
    let ids: Vec<String> = default_menus().into_iter().map(|m| m.menu_id).collect();
    assert_eq!(
        ids,
        vec!["file", "edit", "selection", "view", "go", "run", "terminal", "help"]
    );
}

#[test]
fn native_title_bar_only_on_macos() {
    let mac = OperatingSystem::MacOS { version: "14.0".to_string() };
    let linux = OperatingSystem::Linux {
        desktop: DesktopEnvironment::Gnome,
        display_server: DisplayServer::Wayland,
    };
    assert!(TitleBar::use_native_title_bar(&mac));
    assert!(!TitleBar::use_native_title_bar(&linux));
}
