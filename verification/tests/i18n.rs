use sidex_app::i18n::{I18n, TranslationError};

#[test]
fn english_default() {
    let i18n = I18n::default();
    assert_eq!(i18n.locale(), "en");
    assert_eq!(i18n.t("menu.file"), "File");
}

#[test]
fn missing_key_returns_key() {
    let i18n = I18n::default();
    assert_eq!(i18n.t("nonexistent.key"), "nonexistent.key");
}

#[test]
fn locale_switch() {
    let mut i18n = I18n::new("en");
    i18n.set_locale("de");
    assert_eq!(i18n.locale(), "de");
    assert_eq!(i18n.t("menu.file"), "Datei");
}

#[test]
fn fallback_to_english() {
    let i18n = I18n::new("de");
    assert_eq!(i18n.t("menu.file.saveAll"), "Save All");
}

#[test]
fn interpolation() {
    let i18n = I18n::default();
    let result = i18n.t_with_args("statusBar.line", &[("line", "42")]);
    assert_eq!(result, "Ln 42");
}

#[test]
fn multiple_interpolation_args() {
    let i18n = I18n::default();
    let result = i18n.t_with_args("dialog.save.message", &[("file", "main.rs")]);
    assert_eq!(result, "Do you want to save the changes you made to main.rs?");
}

#[test]
fn all_locales_listed() {
    let locales = I18n::available_locales();
    assert_eq!(locales.len(), 14);
    assert_eq!(locales[0].code, "en");
    assert_eq!(locales[locales.len() - 1].code, "cs");
}

#[test]
fn each_locale_loads() {
    for info in I18n::available_locales() {
        let i18n = I18n::new(&info.code);
        assert!(!i18n.t("menu.file").is_empty());
    }
}

#[test]
fn load_json_extends_translations() {
    let mut i18n = I18n::new("en");
    let json = r#"{"custom.key": "Custom Value"}"#;
    let count = i18n.load_json(json).unwrap();
    assert_eq!(count, 1);
    assert_eq!(i18n.t("custom.key"), "Custom Value");
}

#[test]
fn chinese_simplified() {
    let i18n = I18n::new("zh-cn");
    assert_eq!(i18n.t("menu.file"), "文件");
    assert_eq!(i18n.t("welcome.title"), "欢迎使用 SideX");
}

#[test]
fn japanese() {
    let i18n = I18n::new("ja");
    assert_eq!(i18n.t("menu.file"), "ファイル");
}

#[test]
fn load_json_overrides_and_rejects_malformed() {
    let mut i18n = I18n::new("en");
    let count = i18n.load_json(r#"{"menu.file": "Fichier!", "x.y": "Z"}"#).unwrap();
    assert_eq!(count, 2);
    assert_eq!(i18n.t("menu.file"), "Fichier!");
    assert_eq!(i18n.t("x.y"), "Z");
    let err = i18n.load_json("not json");
    assert!(matches!(err, Err(TranslationError::MalformedJson(_))));
    assert_eq!(i18n.t("menu.file"), "Fichier!");
}

#[test]
fn set_locale_drops_loaded_entries_and_unknown_locale_falls_back() {
    let mut i18n = I18n::new("fr");
    assert_eq!(i18n.t("menu.file"), "Fichier");
    i18n.load_json(r#"{"custom": "C"}"#).unwrap();
    i18n.set_locale("en");
    assert_eq!(i18n.t("custom"), "custom");
    let unknown = I18n::new("xx");
    assert_eq!(unknown.locale(), "xx");
    assert_eq!(unknown.t("menu.edit"), "Edit");
}

#[test]
fn interpolation_applies_every_argument() {
    let i18n = I18n::default();
    let result = i18n.t_with_args("search.resultsCount", &[("count", "3"), ("files", "2")]);
    assert_eq!(result, "3 results in 2 files");
    let untouched = i18n.t_with_args("menu.file", &[("unused", "v")]);
    assert_eq!(untouched, "File");
}

#[test]
fn switched_service_translates_as_a_fresh_one() {
    let mut switched = I18n::new("fr");
    assert!(switched.load_json(r#"{"menu.file": "Dossier"}"#).is_ok());
    switched.set_locale("de");
    let fresh = I18n::new("de");
    for key in ["menu.file", "menu.edit", "nonexistent.key"] {
        assert_eq!(switched.t(key), fresh.t(key));
    }
    assert_eq!(switched.t("menu.file"), "Datei");
}
