use sidex_app::native::{
    scheme_from_gsettings, scheme_from_macos_style, url_scheme_desktop_entry, url_scheme_desktop_file,
    url_scheme_mime_type, ColorScheme, DialogOutcome, MessageBoxOptions, MessageBoxResult,
    MessageBoxType, MessageButtons, MessageLevel, OpenDialogOptions, SaveDialogOptions,
};

#[test]
fn open_dialog_options_default() {
    let opts = OpenDialogOptions::default();
    assert!(opts.filters.is_empty());
    assert!(!opts.multiple);
    assert!(!opts.directory);
}

#[test]
fn save_dialog_options_default() {
    let opts = SaveDialogOptions::default();
    assert!(opts.title.is_none());
    assert!(opts.filters.is_empty());
}

#[test]
fn message_box_result_equality() {
    assert_eq!(MessageBoxResult::Cancelled, MessageBoxResult::Cancelled);
    assert_eq!(MessageBoxResult::Button(0), MessageBoxResult::Button(0));
    assert_ne!(MessageBoxResult::Button(0), MessageBoxResult::Button(1));
}

fn options(buttons: &[&str], kind: MessageBoxType) -> MessageBoxOptions {
    MessageBoxOptions {
        title: "T".to_string(),
        message: "M".to_string(),
        detail: None,
        buttons: buttons.iter().map(|b| b.to_string()).collect(),
        default_button: 1,
        cancel_button: None,
        message_type: kind,
    }
}

#[test]
fn message_box_answers() {
    let o = options(&["Save", "Don't Save", "Cancel"], MessageBoxType::Question);
    assert_eq!(o.level(), MessageLevel::Info);
    assert_eq!(o.button_set(), MessageButtons::OkOnly);
    assert_eq!(o.result_for(&DialogOutcome::OkPressed), MessageBoxResult::Button(1));
    assert_eq!(o.result_for(&DialogOutcome::YesPressed), MessageBoxResult::Button(1));
    assert_eq!(o.result_for(&DialogOutcome::NoPressed), MessageBoxResult::Cancelled);
    assert_eq!(o.result_for(&DialogOutcome::Custom("Cancel".into())), MessageBoxResult::Button(2));
    assert_eq!(o.result_for(&DialogOutcome::Custom("Other".into())), MessageBoxResult::Cancelled);
    let two = options(&["Yes", "No"], MessageBoxType::Error);
    assert_eq!(two.level(), MessageLevel::Error);
    assert_eq!(two.button_set(), MessageButtons::OkCancel);
}

#[test]
fn color_scheme_from_tool_output() {
    assert_eq!(scheme_from_macos_style("Dark\n"), ColorScheme::Dark);
    assert_eq!(scheme_from_macos_style("Light"), ColorScheme::Light);
    assert_eq!(scheme_from_macos_style(""), ColorScheme::Light);
    assert_eq!(scheme_from_gsettings("'prefer-dark'\n"), ColorScheme::Dark);
    assert_eq!(scheme_from_gsettings("'default'"), ColorScheme::Light);
}

#[test]
fn url_scheme_registration_text() {
    let entry = url_scheme_desktop_entry("sidex");
    assert_eq!(
        entry,
        "[Desktop Entry]\nType=Application\nName=SideX\nExec=sidex --open-url %u\nMimeType=x-scheme-handler/sidex;\n"
    );
    assert_eq!(url_scheme_desktop_file("vscode"), "sidex-vscode.desktop");
    assert_eq!(url_scheme_mime_type("vscode"), "x-scheme-handler/vscode");
}
