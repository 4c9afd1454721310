use sidex_app::backup::{
    backup_file_name, entry_key, file_entry, hash_content, hash_path, is_meta_file_name,
    meta_file_name, untitled_entry, untitled_file_name, untitled_key, untitled_meta_name,
    workspace_folder_name, BackupService,
};

#[test]
fn content_hash_changes() {
    let h1 = hash_content("hello");
    let h2 = hash_content("world");
    assert_ne!(h1, h2);
}

#[test]
fn content_hash_stable() {
    let h1 = hash_content("same");
    let h2 = hash_content("same");
    assert_eq!(h1, h2);
}

#[test]
fn backup_names() {
    let h = hash_path("/tmp/hello.rs");
    assert_eq!(h.len(), 16);
    assert!(h.chars().all(|c| c.is_ascii_hexdigit() && !c.is_ascii_uppercase()));
    assert_eq!(backup_file_name("/tmp/hello.rs"), format!("{h}.bak"));
    assert_eq!(meta_file_name("/tmp/hello.rs"), format!("{h}.meta.json"));
    assert_eq!(untitled_file_name("42"), "untitled-42.bak");
    assert_eq!(untitled_meta_name("42"), "untitled-42.meta.json");
    assert_eq!(untitled_key("42"), "untitled:42");
    assert_eq!(workspace_folder_name(None), "no-workspace");
    assert_eq!(workspace_folder_name(Some("/home/user/project")), hash_path("/home/user/project"));
    assert!(is_meta_file_name("abc.meta.json"));
    assert!(!is_meta_file_name("abc.bak"));
    assert!(!is_meta_file_name("json"));
}

#[test]
fn registry_records_replaces_and_discards() {
    let mut svc = BackupService::new("/tmp/bk");
    let e1 = file_entry("/file.rs", "/tmp/bk/x.bak", "content", "2025-01-01T00:00:00Z");
    assert!(!e1.is_untitled);
    assert_eq!(e1.content_hash, hash_content("content"));
    svc.record("/file.rs", e1);
    assert_eq!(svc.count(), 1);
    let e2 = file_entry("/file.rs", "/tmp/bk/x.bak", "changed", "2025-01-01T00:00:01Z");
    svc.record("/file.rs", e2);
    assert_eq!(svc.count(), 1);
    assert_eq!(svc.entries()[0].content_hash, hash_content("changed"));
    let u = untitled_entry("/tmp/bk/untitled-42.bak", "new doc", "t");
    assert!(u.is_untitled && u.original_path.is_none());
    assert_eq!(entry_key(&u), "untitled:42");
    svc.record(&untitled_key("42"), u);
    assert_eq!(svc.count(), 2);
    let gone = svc.discard("/file.rs").unwrap();
    assert_eq!(gone.content_hash, hash_content("changed"));
    assert_eq!(svc.count(), 1);
    assert!(svc.discard("/file.rs").is_none());
    svc.clear();
    assert_eq!(svc.count(), 0);
}

#[test]
fn service_save_and_discard() {
    let mut svc = BackupService::new("/tmp/bk-test");
    svc.record("/file.rs", file_entry("/file.rs", "/tmp/bk-test/f.bak", "content", "t"));
    assert_eq!(svc.count(), 1);

    svc.discard("/file.rs");
    assert_eq!(svc.count(), 0);
}

#[test]
fn service_untitled() {
    let mut svc = BackupService::new("/tmp/bk-test");
    let entry = untitled_entry("/tmp/bk-test/untitled-42.bak", "new doc", "t");
    assert!(entry.is_untitled);
    svc.record(&untitled_key("42"), entry);
    assert_eq!(svc.count(), 1);
    assert_eq!(svc.entries()[0].content_hash, hash_content("new doc"));
}

#[test]
fn service_clear_all() {
    let mut svc = BackupService::new("/tmp/bk-test/bk");
    svc.record("/x.rs", file_entry("/x.rs", "/tmp/bk-test/bk/x.bak", "x", "t"));
    svc.clear();
    assert_eq!(svc.count(), 0);
}

#[test]
fn for_workspace_includes_hash() {
    let svc = BackupService::for_workspace("/home/user/.local/share", Some("/home/user/project"));
    assert!(svc.backup_dir.contains("backups"));
    assert!(svc.backup_dir.ends_with(&hash_path("/home/user/project")));
    assert_eq!(
        svc.backup_dir,
        format!("/home/user/.local/share/sidex/backups/{}", hash_path("/home/user/project"))
    );
}

#[test]
fn for_workspace_none() {
    let svc = BackupService::for_workspace("/data", None);
    assert!(svc.backup_dir.contains("no-workspace"));
    assert_eq!(svc.backup_dir, "/data/sidex/backups/no-workspace");
}

#[test]
fn load_existing_populates() {
    let mut svc = BackupService::new("/tmp/bk-test");
    svc.load_existing(vec![file_entry("/a.rs", "/tmp/bk-test/a.bak", "a", "t")]);
    assert_eq!(svc.count(), 1);
}

#[test]
fn load_existing_keys_untitled_and_replaces_same_path() {
    let mut svc = BackupService::new("/tmp/bk-test");
    svc.record("/a.rs", file_entry("/a.rs", "/tmp/bk-test/a.bak", "old", "t"));
    svc.load_existing(vec![
        untitled_entry("/tmp/bk-test/untitled-1.bak", "one", "t"),
        file_entry("/a.rs", "/tmp/bk-test/a.bak", "new", "t"),
        untitled_entry("/tmp/bk-test/untitled-2.bak", "two", "t"),
    ]);
    assert_eq!(svc.count(), 3);
    let entries = svc.entries();
    assert_eq!(entries[0].content_hash, hash_content("new"));
    assert_eq!(entries[1].content_hash, hash_content("one"));
    assert_eq!(entries[2].content_hash, hash_content("two"));
}

#[test]
fn saved_backup_is_recorded_under_its_path() {
    let mut svc = BackupService::new("/tmp/backups");
    let first = file_entry("/w/a.rs", "/tmp/backups/a.bak", "old", "t0");
    svc.record("/w/a.rs", first);
    let other = file_entry("/w/b.rs", "/tmp/backups/b.bak", "b", "t0");
    svc.record("/w/b.rs", other);
    assert_eq!(svc.count(), 2);
    let e = file_entry("/w//a.rs", "/tmp/backups/a.bak", "new text", "t1");
    svc.record("/w//a.rs", e);
    assert_eq!(svc.count(), 2);
    assert_eq!(svc.backups[0].0, "/w/a.rs");
    let found = &svc.backups[0].1;
    assert_eq!(found.original_path.as_deref(), Some("/w//a.rs"));
    assert!(!found.is_untitled);
    assert_eq!(found.content_hash, hash_content("new text"));
    assert_eq!(svc.backups[1].1.content_hash, hash_content("b"));
    let c = file_entry("/w/c.rs", "/tmp/backups/c.bak", "c", "t2");
    svc.record("/w/c.rs", c);
    assert_eq!(svc.count(), 3);
    assert_eq!(svc.backups[2].0, "/w/c.rs");
}
