use sidex_app::editor_group::EditorGroupLayout;
use sidex_app::window_manager::{
    format_title, AppWindow, WindowBounds, WindowError, WindowId, WindowManager, WindowState,
};

#[test]
fn format_title_full() {
    let t = format_title(Some("main.rs"), Some("/projects/sidex"));
    assert_eq!(t, "main.rs — sidex — SideX");
}

#[test]
fn format_title_no_file() {
    let t = format_title(None, Some("/projects/sidex"));
    assert_eq!(t, "sidex — SideX");
}

#[test]
fn format_title_no_workspace() {
    let t = format_title(Some("readme.md"), None);
    assert_eq!(t, "readme.md — SideX");
}

#[test]
fn format_title_bare() {
    assert_eq!(format_title(None, None), "SideX");
}

#[test]
fn window_bounds_default() {
    let b = WindowBounds::default();
    assert_eq!(b.width, 1280);
    assert_eq!(b.height, 720);
}

#[test]
fn window_state_default_is_normal() {
    assert_eq!(WindowState::default(), WindowState::Normal);
}

#[test]
fn app_window_new() {
    let w = AppWindow::new(1, "SideX".into(), None);
    assert_eq!(w.id, 1);
    assert!(!w.is_focused);
    assert!(!w.is_fullscreen);
    assert_eq!(w.state, WindowState::Normal);
}

#[test]
fn format_title_root_workspace_has_no_name() {
    assert_eq!(format_title(Some("a.rs"), Some("/")), "a.rs — SideX");
}

#[test]
fn manager_creates_windows_with_fresh_ids_and_focus() {
    let mut wm: WindowManager<u32> = WindowManager::new();
    assert_eq!(wm.count(), 0);
    assert_eq!(wm.focused(), None);
    let a = wm.create_window(10, Some("/projects/sidex".to_string()));
    let b = wm.create_window(20, None);
    assert_eq!(a, WindowId(1));
    assert_eq!(b, WindowId(2));
    assert_eq!(wm.windows(), vec![WindowId(1), WindowId(2)]);
    assert_eq!(wm.focused(), Some(b));
    let list = wm.window_list();
    assert_eq!(list[0].title, "sidex — SideX");
    assert_eq!(list[1].title, "SideX");
    assert!(!list[0].is_focused);
    assert_eq!(wm.workspace_path(a), Some("/projects/sidex"));
    assert_eq!(wm.workspace_path(b), None);
    assert_eq!(wm.app(a), Some(&10));
}

#[test]
fn manager_close_moves_focus_and_hands_back_content() {
    let mut wm: WindowManager<u32> = WindowManager::new();
    let a = wm.create_window(10, None);
    let b = wm.create_window(20, None);
    let c = wm.create_window(30, None);
    assert_eq!(wm.close_window(c), Ok(30));
    assert_eq!(wm.focused(), Some(a));
    assert_eq!(wm.close_window(c), Err(WindowError::NotFound(3)));
    assert_eq!(WindowError::NotFound(3).message(), "window not found");
    assert_eq!(wm.close_window(a), Ok(10));
    assert_eq!(wm.focused(), Some(b));
    assert_eq!(wm.close_window(b), Ok(20));
    assert_eq!(wm.focused(), None);
    assert_eq!(wm.count(), 0);
    let d = wm.create_window(40, None);
    assert_eq!(d, WindowId(4));
}

#[test]
fn manager_focus_moves_the_focused_flag() {
    let mut wm: WindowManager<u32> = WindowManager::new();
    let a = wm.create_window(1, None);
    let b = wm.create_window(2, None);
    wm.focus_window(a);
    assert_eq!(wm.focused(), Some(a));
    assert!(wm.window_list()[0].is_focused);
    wm.focus_window(b);
    assert_eq!(wm.focused(), Some(b));
    assert!(!wm.window_list()[0].is_focused);
    assert!(wm.window_list()[1].is_focused);
    wm.focus_window(WindowId(99));
    assert_eq!(wm.focused(), Some(b));
}

#[test]
fn manager_state_bounds_and_title_changes() {
    let mut wm: WindowManager<u32> = WindowManager::new();
    let a = wm.create_window(1, None);
    wm.toggle_fullscreen(a);
    assert!(wm.window_list()[0].is_fullscreen);
    assert_eq!(wm.window_list()[0].state, WindowState::Fullscreen);
    wm.toggle_fullscreen(a);
    assert!(!wm.window_list()[0].is_fullscreen);
    assert_eq!(wm.window_list()[0].state, WindowState::Normal);
    wm.set_window_state(a, WindowState::Fullscreen);
    assert!(wm.window_list()[0].is_fullscreen);
    wm.set_window_state(a, WindowState::Maximized);
    assert!(!wm.window_list()[0].is_fullscreen);
    let bounds = WindowBounds { x: 5, y: 6, width: 800, height: 600 };
    wm.update_bounds(a, bounds);
    assert_eq!(wm.window_list()[0].bounds, bounds);
    wm.update_title(a, Some("main.rs"), Some("/projects/sidex"));
    assert_eq!(wm.window_list()[0].title, "main.rs — sidex — SideX");
    if let Some(app) = wm.app_mut(a) {
        *app = 7;
    }
    assert_eq!(wm.app(a), Some(&7));
    if let Some(app) = wm.focused_app_mut() {
        *app = 8;
    }
    assert_eq!(wm.app(a), Some(&8));
}

#[test]
fn manager_reports_unsaved_work() {
    let mut wm: WindowManager<EditorGroupLayout> = WindowManager::new();
    let a = wm.create_window(EditorGroupLayout::new(), None);
    assert!(!wm.has_unsaved_changes());
    if let Some(layout) = wm.app_mut(a) {
        layout.groups[0].open_file("/tmp/test/a.rs");
        layout.groups[0].tabs[0].is_modified = true;
    }
    assert!(wm.has_unsaved_changes());
}
