use sidex_app::product::ProductConfig;

#[test]
fn defaults_are_sane() {
    let cfg = ProductConfig::default();
    assert_eq!(cfg.name, "SideX");
    assert_eq!(cfg.application_name, "sidex");
    assert_eq!(cfg.data_folder_name, ".sidex");
    assert_eq!(cfg.quality, "stable");
    assert!(!cfg.version.is_empty());
}

#[test]
fn version_string_without_commit() {
    let cfg = ProductConfig::default();
    let v = cfg.version_string();
    assert!(v.starts_with("SideX "));
}

#[test]
fn version_string_with_commit() {
    let mut cfg = ProductConfig::default();
    cfg.commit = Some("abc1234def5678".into());
    let v = cfg.version_string();
    assert!(v.contains("(abc1234)"));
}

#[test]
fn version_string_exact_forms() {
    let mut cfg = ProductConfig::default();
    assert_eq!(cfg.version_string(), "SideX 0.1.0");
    cfg.commit = Some("abc".into());
    assert_eq!(cfg.version_string(), "SideX 0.1.0 (abc)");
    cfg.commit = Some("0123456".into());
    assert_eq!(cfg.version_string(), "SideX 0.1.0 (0123456)");
}

#[test]
fn data_dir_ends_with_sidex() {
    let cfg = ProductConfig::default();
    if let Some(dir) = cfg.data_dir() {
        assert!(dir.ends_with(".sidex"));
    }
}

#[test]
fn data_dir_under_home() {
    let p = ProductConfig::default();
    assert_eq!(p.data_dir_in(Some("/home/ann")).as_deref(), Some("/home/ann/.sidex"));
    assert_eq!(p.data_dir_in(None), None);
}
