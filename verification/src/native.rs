//! Native OS integration: dialog options, what a message box's answer means,
//! how the system colour scheme is read from the desktop's settings tools,
//! and the text of the Linux URL-scheme registration. Showing dialogs and
//! running the settings tools is the application's part.

use vstd::prelude::*;

use crate::text::{contains, str_eq, spec_find, spec_trim, trim};

verus! {

// ── Dialog option types ──────────────────────────────────────────────────────

/// A named group of file extensions offered by a file dialog.
#[derive(Debug, Clone)]
pub struct FileFilter {
    pub name: String,
    pub extensions: Vec<String>,
}

/// Options of an "open" dialog.
#[derive(Debug, Clone)]
pub struct OpenDialogOptions {
    pub title: Option<String>,
    pub default_path: Option<String>,
    pub filters: Vec<FileFilter>,
    pub multiple: bool,
    pub directory: bool,
}

impl Default for OpenDialogOptions {
    /// No title, default path or filter; a single file.
    fn default() -> (r: Self)
        ensures
            r.title is None,
            r.default_path is None,
            r.filters@.len() == 0,
            !r.multiple,
            !r.directory,
    {
        OpenDialogOptions {
            title: None,
            default_path: None,
            filters: Vec::new(),
            multiple: false,
            directory: false,
        }
    }
}

/// Options of a "save" dialog.
#[derive(Debug, Clone)]
pub struct SaveDialogOptions {
    pub title: Option<String>,
    pub default_path: Option<String>,
    pub filters: Vec<FileFilter>,
}

impl Default for SaveDialogOptions {
    /// No title, default path or filter.
    fn default() -> (r: Self)
        ensures
            r.title is None,
            r.default_path is None,
            r.filters@.len() == 0,
    {
        SaveDialogOptions { title: None, default_path: None, filters: Vec::new() }
    }
}

/// The kind of a message box, which decides its icon.
#[derive(Debug, Clone, Copy, PartialEq, Eq, Structural)]
pub enum MessageBoxType {
    Info,
    Warning,
    Error,
    Question,
}

/// Options of a message box.
#[derive(Debug, Clone)]
pub struct MessageBoxOptions {
    pub title: String,
    pub message: String,
    pub detail: Option<String>,
    pub buttons: Vec<String>,
    pub default_button: usize,
    pub cancel_button: Option<usize>,
    pub message_type: MessageBoxType,
}

/// What the user chose in a message box.
#[derive(Debug, Clone, Copy, PartialEq, Eq, Structural)]
pub enum MessageBoxResult {
    Button(usize),
    Cancelled,
}

/// The icon level a native message box is shown with.
#[derive(Debug, Clone, Copy, PartialEq, Eq, Structural)]
pub enum MessageLevel {
    Info,
    Warning,
    Error,
}

/// The button set a native message box is shown with.
#[derive(Debug, Clone, Copy, PartialEq, Eq, Structural)]
pub enum MessageButtons {
    OkOnly,
    OkCancel,
}

/// How a native message box was closed.
#[derive(Debug, Clone)]
pub enum DialogOutcome {
    OkPressed,
    YesPressed,
    CancelPressed,
    NoPressed,
    /// A button with this caption was pressed.
    Custom(String),
}

/// The icon level of a message box type (a question shows as information).
pub open spec fn level_of(t: MessageBoxType) -> MessageLevel {
    match t {
        MessageBoxType::Info | MessageBoxType::Question => MessageLevel::Info,
        MessageBoxType::Warning => MessageLevel::Warning,
        MessageBoxType::Error => MessageLevel::Error,
    }
}

/// The index of the first button captioned `caption`.
pub open spec fn first_caption_from(buttons: Seq<Seq<char>>, caption: Seq<char>, i: int) -> Option<int>
    decreases buttons.len() - i,
{
    if i < 0 || i >= buttons.len() {
        None
    } else if buttons[i] == caption {
        Some(i)
    } else {
        first_caption_from(buttons, caption, i + 1)
    }
}

/// What an outcome means for a message box with `buttons` whose default is
/// `default_button`: confirming picks the default, declining cancels, and a
/// custom caption picks its button (or cancels when no button has it).
pub open spec fn result_of(
    buttons: Seq<Seq<char>>,
    default_button: usize,
    outcome: DialogOutcome,
) -> MessageBoxResult {
    match outcome {
        DialogOutcome::OkPressed | DialogOutcome::YesPressed => MessageBoxResult::Button(default_button),
        DialogOutcome::CancelPressed | DialogOutcome::NoPressed => MessageBoxResult::Cancelled,
        DialogOutcome::Custom(s) => match first_caption_from(buttons, s@, 0) {
            Some(i) => MessageBoxResult::Button(i as usize),
            None => MessageBoxResult::Cancelled,
        },
    }
}

impl MessageBoxOptions {
    /// The icon level this box is shown with.
    pub fn level(&self) -> (r: MessageLevel)
        ensures
            r == level_of(self.message_type),
    {
        match self.message_type {
            MessageBoxType::Info | MessageBoxType::Question => MessageLevel::Info,
            MessageBoxType::Warning => MessageLevel::Warning,
            MessageBoxType::Error => MessageLevel::Error,
        }
    }

    /// The button set this box is shown with: OK and Cancel for exactly two
    /// buttons, OK alone otherwise.
    pub fn button_set(&self) -> (r: MessageButtons)
        ensures
            r == (if self.buttons@.len() == 2 {
                MessageButtons::OkCancel
            } else {
                MessageButtons::OkOnly
            }),
    {
        if self.buttons.len() == 2 {
            MessageButtons::OkCancel
        } else {
            MessageButtons::OkOnly
        }
    }

    /// What the way the box was closed means.
    pub fn result_for(&self, outcome: &DialogOutcome) -> (r: MessageBoxResult)
        ensures
            r == result_of(crate::text::views(self.buttons@), self.default_button, *outcome),
    {
        match outcome {
            DialogOutcome::OkPressed | DialogOutcome::YesPressed => MessageBoxResult::Button(self.default_button),
            DialogOutcome::CancelPressed | DialogOutcome::NoPressed => MessageBoxResult::Cancelled,
            DialogOutcome::Custom(s) => {
                let ghost bv = crate::text::views(self.buttons@);
                let mut i: usize = 0;
                while i < self.buttons.len()
                    invariant
                        i <= self.buttons@.len(),
                        bv == crate::text::views(self.buttons@),
                        *outcome == DialogOutcome::Custom(*s),
                        first_caption_from(bv, s@, i as int) == first_caption_from(bv, s@, 0),
                    decreases self.buttons@.len() - i,
                {
                    assert(bv[i as int] == self.buttons@[i as int]@);
                    if str_eq(self.buttons[i].as_str(), s.as_str()) {
                        assert(first_caption_from(bv, s@, i as int) == Some(i as int));
                        return MessageBoxResult::Button(i);
                    }
                    i = i + 1;
                }
                MessageBoxResult::Cancelled
            },
        }
    }
}

// ── System colour scheme ─────────────────────────────────────────────────────

/// The colour scheme of the desktop.
#[derive(Debug, Clone, Copy, PartialEq, Eq, Structural)]
pub enum ColorScheme {
    Light,
    Dark,
    HighContrast,
}

/// The scheme read from the output of macOS `defaults read -g
/// AppleInterfaceStyle`: dark exactly when the trimmed output is `Dark`.
pub fn scheme_from_macos_style(output: &str) -> (r: ColorScheme)
    ensures
        r == (if spec_trim(output@) == "Dark"@ {
            ColorScheme::Dark
        } else {
            ColorScheme::Light
        }),
{
    if str_eq(trim(output), "Dark") {
        ColorScheme::Dark
    } else {
        ColorScheme::Light
    }
}

/// The scheme read from the output of GNOME's `gsettings get
/// org.gnome.desktop.interface color-scheme`: dark when it mentions `dark`.
pub fn scheme_from_gsettings(output: &str) -> (r: ColorScheme)
    ensures
        r == (if spec_find(output@, "dark"@) is Some {
            ColorScheme::Dark
        } else {
            ColorScheme::Light
        }),
{
    if contains(output, "dark") {
        ColorScheme::Dark
    } else {
        ColorScheme::Light
    }
}

// ── URL scheme registration ──────────────────────────────────────────────────

/// The freedesktop entry that registers SideX for `scheme:` URLs.
pub open spec fn desktop_entry_text(scheme: Seq<char>) -> Seq<char> {
    "[Desktop Entry]\nType=Application\nName=SideX\nExec=sidex --open-url %u\nMimeType=x-scheme-handler/"@
        + scheme + ";\n"@
}

/// The freedesktop entry that registers SideX for `scheme:` URLs.
pub fn url_scheme_desktop_entry(scheme: &str) -> (r: String)
    ensures
        r@ == desktop_entry_text(scheme@),
{
    let mut s = String::from_str(
        "[Desktop Entry]\nType=Application\nName=SideX\nExec=sidex --open-url %u\nMimeType=x-scheme-handler/",
    );
    s.append(scheme);
    s.append(";\n");
    s
}

/// The name of the desktop file registered for `scheme`.
pub fn url_scheme_desktop_file(scheme: &str) -> (r: String)
    ensures
        r@ == "sidex-"@ + scheme@ + ".desktop"@,
{
    let mut s = String::from_str("sidex-");
    s.append(scheme);
    s.append(".desktop");
    s
}

/// The MIME type that stands for URLs of `scheme`.
pub fn url_scheme_mime_type(scheme: &str) -> (r: String)
    ensures
        r@ == "x-scheme-handler/"@ + scheme@,
{
    let mut s = String::from_str("x-scheme-handler/");
    s.append(scheme);
    s
}

} // verus!
