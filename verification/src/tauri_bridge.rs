//! Descriptions exchanged with the native shell: window and webview
//! handles, dialog options, menus, tray menus, update notices and webview
//! options. Talking to the shell itself is the application's part.

use vstd::prelude::*;

verus! {

/// Handle of a native window.
#[derive(Debug, Clone, Copy, PartialEq, Eq, Structural, Hash)]
pub struct WindowHandle(pub u64);

/// Handle of an extension webview.
#[derive(Debug, Clone, Copy, PartialEq, Eq, Structural, Hash)]
pub struct WebviewHandle(pub u64);

/// A name and the file extensions it offers in a file dialog.
#[derive(Debug, Clone)]
pub struct FileFilter {
    pub name: String,
    pub extensions: Vec<String>,
}

/// Options of a file open or save dialog.
#[derive(Debug, Clone)]
pub struct FileDialogOptions {
    pub title: Option<String>,
    pub default_path: Option<String>,
    pub filters: Vec<FileFilter>,
    pub multiple: bool,
    pub directory: bool,
}

impl Default for FileDialogOptions {
    /// No title, default path or filter; a single file.
    fn default() -> (r: Self)
        ensures
            r.title is None,
            r.default_path is None,
            r.filters@.len() == 0,
            !r.multiple,
            !r.directory,
    {
        FileDialogOptions { title: None, default_path: None, filters: Vec::new(), multiple: false, directory: false }
    }
}

/// The kind of a native message dialog.
#[derive(Debug, Clone, Copy, PartialEq, Eq, Structural)]
pub enum MessageKind {
    Info,
    Warning,
    Error,
}

/// A native menu bar.
#[derive(Debug)]
pub struct NativeMenu {
    pub items: Vec<NativeMenuItem>,
}

/// An entry of a native menu.
#[derive(Debug)]
pub enum NativeMenuItem {
    Item { id: String, label: String, accelerator: Option<String>, enabled: bool },
    Separator,
    Submenu { label: String, children: Vec<NativeMenuItem> },
}

/// A system-tray menu.
#[derive(Debug, Clone)]
pub struct TrayMenu {
    pub items: Vec<TrayMenuItem>,
}

/// An entry of the tray menu.
#[derive(Debug, Clone)]
pub enum TrayMenuItem {
    Item { id: String, label: String },
    Separator,
}

/// A pending update, as the shell's updater reports it.
#[derive(Debug, Clone)]
pub struct UpdateInfo {
    pub version: String,
    pub release_notes: Option<String>,
    pub download_url: Option<String>,
}

/// Options of an extension webview.
#[derive(Debug, Clone)]
pub struct WebviewOptions {
    pub title: String,
    pub width: u32,
    pub height: u32,
    pub resizable: bool,
    pub transparent: bool,
}

impl Default for WebviewOptions {
    /// No title, zero size, fixed and opaque.
    fn default() -> (r: Self)
        ensures
            r.title@ == Seq::<char>::empty(),
            r.width == 0,
            r.height == 0,
            !r.resizable,
            !r.transparent,
    {
        WebviewOptions { title: String::new(), width: 0, height: 0, resizable: false, transparent: false }
    }
}

} // verus!
