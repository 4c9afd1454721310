use sidex_app::native_menu::{build_native_menu, menu_id_to_command};
use sidex_app::tauri_bridge::NativeMenuItem;

#[test]
fn menu_id_mapping_coverage() {
    assert_eq!(menu_id_to_command("save"), Some("workbench.action.files.save"));
    assert_eq!(menu_id_to_command("undo"), Some("editor.action.undo"));
    assert_eq!(menu_id_to_command("start_debugging"), Some("workbench.action.debug.start"));
    assert!(menu_id_to_command("nonexistent").is_none());
}

#[test]
fn native_menu_lists_every_top_level_menu() {
    let menu = build_native_menu();
    let labels: Vec<&str> = menu
        .items
        .iter()
        .filter_map(|item| match item {
            NativeMenuItem::Submenu { label, .. } => Some(label.as_str()),
            _ => None,
        })
        .collect();
    assert_eq!(labels, vec!["File", "Edit", "Selection", "View", "Go", "Run", "Terminal", "Help"]);
}

#[test]
fn every_menu_item_maps_to_a_command() {
    let menu = build_native_menu();
    let mut count = 0;
    for top in &menu.items {
        if let NativeMenuItem::Submenu { children, .. } = top {
            for child in children {
                if let NativeMenuItem::Item { id, enabled, .. } = child {
                    assert!(*enabled);
                    assert!(menu_id_to_command(id).is_some(), "{id}");
                    count += 1;
                }
            }
        }
    }
    assert_eq!(count, 60);
    assert_eq!(menu_id_to_command("about"), Some("workbench.action.showAboutDialog"));
}
