use sidex_app::recent::{RecentItem, RecentManager, MAX_RECENT_FILES, MAX_RECENT_WORKSPACES};

#[test]
fn recent_item_label() {
    let item = RecentItem::from_path("/home/user/project/main.rs");
    assert_eq!(item.label, "main.rs");
}

#[test]
fn recent_item_without_file_name_uses_path() {
    let item = RecentItem::from_path("/");
    assert_eq!(item.label, "/");
    assert_eq!(item.description, "/");
}

#[test]
fn files_listed_newest_first_and_deduplicated() {
    let mut mgr = RecentManager::new();
    mgr.add_recent_file("/a.rs");
    mgr.add_recent_file("/b.rs");
    assert_eq!(mgr.file_count(), 2);
    assert_eq!(mgr.recent_files(10)[0].path, "/b.rs");
    mgr.add_recent_file("/a.rs");
    assert_eq!(mgr.file_count(), 2);
    assert_eq!(mgr.recent_files(10)[0].path, "/a.rs");
    assert_eq!(mgr.recent_files(1).len(), 1);
}

#[test]
fn bounds_are_respected() {
    let mut mgr = RecentManager::default();
    for i in 0..60 {
        mgr.add_recent_file(&format!("/file{i}.rs"));
        mgr.add_recent_workspace(&format!("/proj{i}"));
    }
    assert_eq!(mgr.file_count(), MAX_RECENT_FILES);
    assert_eq!(mgr.workspace_count(), MAX_RECENT_WORKSPACES);
    assert_eq!(mgr.recent_workspaces(100)[0].path, "/proj59");
}

#[test]
fn remove_and_clear() {
    let mut mgr = RecentManager::new();
    mgr.add_recent_file("/a.rs");
    mgr.add_recent_file("/b.rs");
    mgr.add_recent_workspace("/proj");
    mgr.remove_recent_file("/a.rs");
    assert_eq!(mgr.file_count(), 1);
    mgr.remove_recent_workspace("/proj");
    assert_eq!(mgr.workspace_count(), 0);
    mgr.clear_recent();
    assert_eq!(mgr.file_count(), 0);
}

#[test]
fn all_recent_merges_by_time() {
    let mut mgr = RecentManager::new();
    mgr.add_recent_file("/a.rs");
    mgr.add_recent_workspace("/proj");
    let all = mgr.all_recent(10);
    assert_eq!(all.len(), 2);
    assert!(all[0].last_opened >= all[1].last_opened);
    assert_eq!(mgr.all_recent(1).len(), 1);
}

#[test]
fn load_paths_cuts_to_bounds() {
    let mut mgr = RecentManager::new();
    let files: Vec<String> = (0..70).map(|i| format!("/f{i}")).collect();
    let ws = vec!["/w".to_string()];
    mgr.load_paths(&files, &ws);
    assert_eq!(mgr.file_count(), MAX_RECENT_FILES);
    assert_eq!(mgr.recent_files(1)[0].label, "f0");
    assert_eq!(mgr.workspace_count(), 1);
}

#[test]
fn add_and_list_files() {
    let mut mgr = RecentManager::new();
    mgr.add_recent_file("/a.rs");
    mgr.add_recent_file("/b.rs");
    assert_eq!(mgr.file_count(), 2);
    assert_eq!(mgr.recent_files(10)[0].path, "/b.rs");
}

#[test]
fn add_and_list_workspaces() {
    let mut mgr = RecentManager::new();
    mgr.add_recent_workspace("/proj1");
    mgr.add_recent_workspace("/proj2");
    assert_eq!(mgr.workspace_count(), 2);
}

#[test]
fn duplicate_moves_to_front() {
    let mut mgr = RecentManager::new();
    mgr.add_recent_file("/a.rs");
    mgr.add_recent_file("/b.rs");
    mgr.add_recent_file("/a.rs");
    assert_eq!(mgr.file_count(), 2);
    assert_eq!(mgr.recent_files(10)[0].path, "/a.rs");
}

#[test]
fn clear_empties_both() {
    let mut mgr = RecentManager::new();
    mgr.add_recent_file("/a.rs");
    mgr.add_recent_workspace("/proj");
    mgr.clear_recent();
    assert_eq!(mgr.file_count(), 0);
    assert_eq!(mgr.workspace_count(), 0);
}

#[test]
fn limit_is_respected() {
    let mut mgr = RecentManager::new();
    for i in 0..60 {
        mgr.add_recent_file(&format!("/file{i}.rs"));
    }
    assert_eq!(mgr.file_count(), MAX_RECENT_FILES);
}

#[test]
fn remove_recent_file() {
    let mut mgr = RecentManager::new();
    mgr.add_recent_file("/a.rs");
    mgr.add_recent_file("/b.rs");
    mgr.remove_recent_file("/a.rs");
    assert_eq!(mgr.file_count(), 1);
}

#[test]
fn all_recent_merges() {
    let mut mgr = RecentManager::new();
    mgr.add_recent_file("/a.rs");
    mgr.add_recent_workspace("/proj");
    let all = mgr.all_recent(10);
    assert_eq!(all.len(), 2);
}

#[test]
fn paths_are_matched_as_paths_not_spellings() {
    let mut mgr = RecentManager::new();
    mgr.add_recent_file("/x/a.rs");
    mgr.add_recent_file("/y/b.rs");
    mgr.add_recent_file("/x//a.rs");
    assert_eq!(mgr.file_count(), 2);
    assert_eq!(mgr.recent_files(10)[0].path, "/x//a.rs");
    assert_eq!(mgr.recent_files(10)[1].path, "/y/b.rs");
    mgr.remove_recent_file("/y/./b.rs");
    assert_eq!(mgr.file_count(), 1);
    mgr.add_recent_workspace("/ws");
    mgr.add_recent_workspace("/ws/");
    assert_eq!(mgr.workspace_count(), 1);
}
