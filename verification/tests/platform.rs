use sidex_app::platform::{font_families_from_fc_list, font_families_from_system_profiler};
use sidex_app::platform::{
    architecture_from_name, desktop_from_name, display_server_for, Architecture,
    DesktopEnvironment, DisplayServer, OperatingSystem,
};

#[test]
fn architecture_names() {
    assert_eq!(architecture_from_name("x86_64"), Architecture::X86_64);
    assert_eq!(architecture_from_name("aarch64"), Architecture::Aarch64);
    assert_eq!(architecture_from_name("arm"), Architecture::Arm);
    assert_eq!(architecture_from_name("riscv64"), Architecture::Unknown);
}

#[test]
fn desktop_names() {
    assert_eq!(desktop_from_name("ubuntu:GNOME"), DesktopEnvironment::Gnome);
    assert_eq!(desktop_from_name("KDE"), DesktopEnvironment::Kde);
    assert_eq!(desktop_from_name("plasma"), DesktopEnvironment::Kde);
    assert_eq!(desktop_from_name("XFCE"), DesktopEnvironment::Xfce);
    assert_eq!(desktop_from_name(""), DesktopEnvironment::Unknown);
}

#[test]
fn display_server_and_os_queries() {
    assert_eq!(display_server_for(true), DisplayServer::Wayland);
    assert_eq!(display_server_for(false), DisplayServer::X11);
    let linux = OperatingSystem::Linux {
        desktop: DesktopEnvironment::Gnome,
        display_server: DisplayServer::Wayland,
    };
    assert!(linux.is_wayland());
    assert_eq!(linux.modifier_key_label(), "Ctrl");
    let mac = OperatingSystem::MacOS { version: "14.0".into() };
    assert!(!mac.is_wayland());
    assert_eq!(mac.modifier_key_label(), "\u{2318}");
}

#[test]
fn fc_list_families_sorted_and_unique() {
    let out = "Noto Sans\n  DejaVu Sans Mono \n\nNoto Sans\nCantarell\n";
    assert_eq!(
        font_families_from_fc_list(out),
        vec!["Cantarell".to_string(), "DejaVu Sans Mono".to_string(), "Noto Sans".to_string()]
    );
    assert!(font_families_from_fc_list("").is_empty());
}

#[test]
fn system_profiler_families_keep_headings() {
    let out = "Fonts:\n\n    Helvetica:\n\n      /System/Library/Fonts/Helvetica.ttc:\n      Kind: TrueType\n    Menlo::\n";
    assert_eq!(
        font_families_from_system_profiler(out),
        vec!["Fonts".to_string(), "Helvetica".to_string(), "Menlo".to_string()]
    );
}
