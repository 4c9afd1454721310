//! The native menu bar: its menus and items, and the command each item
//! runs.

use vstd::prelude::*;

use crate::tauri_bridge::{NativeMenu, NativeMenuItem};
use crate::text::str_eq;

verus! {

/// An entry of a menu, with its texts as character sequences.
pub enum EntryView {
    /// An item: id, label, keyboard accelerator, whether it is enabled.
    Entry(Seq<char>, Seq<char>, Option<Seq<char>>, bool),
    /// A separator.
    Gap,
    /// A nested menu, by its label.
    Nested(Seq<char>),
}

/// What an entry shows.
pub open spec fn entry_view(i: NativeMenuItem) -> EntryView {
    match i {
        NativeMenuItem::Item { id, label, accelerator, enabled } => EntryView::Entry(
            id@,
            label@,
            match accelerator {
                Some(a) => Some(a@),
                None => None,
            },
            enabled,
        ),
        NativeMenuItem::Separator => EntryView::Gap,
        NativeMenuItem::Submenu { label, .. } => EntryView::Nested(label@),
    }
}

/// A top-level menu's label and entries (`None` for an item that is not a
/// menu).
pub open spec fn menu_view(i: NativeMenuItem) -> Option<(Seq<char>, Seq<EntryView>)> {
    match i {
        NativeMenuItem::Submenu { label, children } => Some(
            (label@, children@.map_values(|c: NativeMenuItem| entry_view(c))),
        ),
        _ => None,
    }
}

/// An enabled item.
pub open spec fn entry(id: Seq<char>, label: Seq<char>, accel: Option<Seq<char>>) -> EntryView {
    EntryView::Entry(id, label, accel, true)
}

fn item(id: &str, label: &str, accel: Option<&str>) -> (r: NativeMenuItem)
    ensures
        entry_view(r) == entry(
            id@,
            label@,
            match accel {
                Some(a) => Some(a@),
                None => None,
            },
        ),
{
    NativeMenuItem::Item {
        id: id.to_string(),
        label: label.to_string(),
        accelerator: match accel {
            Some(a) => Some(a.to_string()),
            None => None,
        },
        enabled: true,
    }
}

fn sep() -> (r: NativeMenuItem)
    ensures
        entry_view(r) == EntryView::Gap,
{
    NativeMenuItem::Separator
}

/// The entries of the File menu.
pub open spec fn file_entries() -> Seq<EntryView> {
    seq![
        entry("new_file"@, "New File"@, Some("CmdOrCtrl+N"@)),
        entry("new_window"@, "New Window"@, Some("CmdOrCtrl+Shift+N"@)),
        EntryView::Gap,
        entry("open_file"@, "Open File..."@, Some("CmdOrCtrl+O"@)),
        entry("open_folder"@, "Open Folder..."@, None),
        EntryView::Gap,
        entry("save"@, "Save"@, Some("CmdOrCtrl+S"@)),
        entry("save_as"@, "Save As..."@, Some("CmdOrCtrl+Shift+S"@)),
        entry("save_all"@, "Save All"@, Some("CmdOrCtrl+Alt+S"@)),
        EntryView::Gap,
        entry("close_editor"@, "Close Editor"@, Some("CmdOrCtrl+W"@)),
        entry("close_window"@, "Close Window"@, Some("CmdOrCtrl+Shift+W"@)),
        EntryView::Gap,
        entry("exit"@, "Exit"@, Some("CmdOrCtrl+Q"@)),
    ]
}

fn file_menu() -> (r: NativeMenuItem)
    ensures
        menu_view(r) == Some(("File"@, file_entries())),
{
    let children = vec![
        item("new_file", "New File", Some("CmdOrCtrl+N")),
        item("new_window", "New Window", Some("CmdOrCtrl+Shift+N")),
        sep(),
        item("open_file", "Open File...", Some("CmdOrCtrl+O")),
        item("open_folder", "Open Folder...", None),
        sep(),
        item("save", "Save", Some("CmdOrCtrl+S")),
        item("save_as", "Save As...", Some("CmdOrCtrl+Shift+S")),
        item("save_all", "Save All", Some("CmdOrCtrl+Alt+S")),
        sep(),
        item("close_editor", "Close Editor", Some("CmdOrCtrl+W")),
        item("close_window", "Close Window", Some("CmdOrCtrl+Shift+W")),
        sep(),
        item("exit", "Exit", Some("CmdOrCtrl+Q")),
    ];
    assert(children@.map_values(|c: NativeMenuItem| entry_view(c)) =~= file_entries());
    NativeMenuItem::Submenu { label: String::from_str("File"), children }
}

/// The entries of the Edit menu.
pub open spec fn edit_entries() -> Seq<EntryView> {
    seq![
        entry("undo"@, "Undo"@, Some("CmdOrCtrl+Z"@)),
        entry("redo"@, "Redo"@, Some("CmdOrCtrl+Shift+Z"@)),
        EntryView::Gap,
        entry("cut"@, "Cut"@, Some("CmdOrCtrl+X"@)),
        entry("copy"@, "Copy"@, Some("CmdOrCtrl+C"@)),
        entry("paste"@, "Paste"@, Some("CmdOrCtrl+V"@)),
        EntryView::Gap,
        entry("find"@, "Find"@, Some("CmdOrCtrl+F"@)),
        entry("replace"@, "Replace"@, Some("CmdOrCtrl+H"@)),
        EntryView::Gap,
        entry("find_in_files"@, "Find in Files"@, Some("CmdOrCtrl+Shift+F"@)),
        entry("replace_in_files"@, "Replace in Files"@, Some("CmdOrCtrl+Shift+H"@)),
        EntryView::Gap,
        entry("toggle_line_comment"@, "Toggle Line Comment"@, Some("CmdOrCtrl+/"@)),
        entry("toggle_block_comment"@, "Toggle Block Comment"@, Some("CmdOrCtrl+Shift+/"@)),
    ]
}

fn edit_menu() -> (r: NativeMenuItem)
    ensures
        menu_view(r) == Some(("Edit"@, edit_entries())),
{
    let children = vec![
        item("undo", "Undo", Some("CmdOrCtrl+Z")),
        item("redo", "Redo", Some("CmdOrCtrl+Shift+Z")),
        sep(),
        item("cut", "Cut", Some("CmdOrCtrl+X")),
        item("copy", "Copy", Some("CmdOrCtrl+C")),
        item("paste", "Paste", Some("CmdOrCtrl+V")),
        sep(),
        item("find", "Find", Some("CmdOrCtrl+F")),
        item("replace", "Replace", Some("CmdOrCtrl+H")),
        sep(),
        item("find_in_files", "Find in Files", Some("CmdOrCtrl+Shift+F")),
        item("replace_in_files", "Replace in Files", Some("CmdOrCtrl+Shift+H")),
        sep(),
        item("toggle_line_comment", "Toggle Line Comment", Some("CmdOrCtrl+/")),
        item("toggle_block_comment", "Toggle Block Comment", Some("CmdOrCtrl+Shift+/")),
    ];
    assert(children@.map_values(|c: NativeMenuItem| entry_view(c)) =~= edit_entries());
    NativeMenuItem::Submenu { label: String::from_str("Edit"), children }
}

/// The entries of the Selection menu.
pub open spec fn selection_entries() -> Seq<EntryView> {
    seq![
        entry("select_all"@, "Select All"@, Some("CmdOrCtrl+A"@)),
        entry("expand_selection"@, "Expand Selection"@, Some("CmdOrCtrl+Shift+Right"@)),
        entry("shrink_selection"@, "Shrink Selection"@, Some("CmdOrCtrl+Shift+Left"@)),
        EntryView::Gap,
        entry("add_cursor_above"@, "Add Cursor Above"@, Some("CmdOrCtrl+Alt+Up"@)),
        entry("add_cursor_below"@, "Add Cursor Below"@, Some("CmdOrCtrl+Alt+Down"@)),
        EntryView::Gap,
        entry("select_all_occurrences"@, "Select All Occurrences"@, Some("CmdOrCtrl+Shift+L"@)),
    ]
}

fn selection_menu() -> (r: NativeMenuItem)
    ensures
        menu_view(r) == Some(("Selection"@, selection_entries())),
{
    let children = vec![
        item("select_all", "Select All", Some("CmdOrCtrl+A")),
        item("expand_selection", "Expand Selection", Some("CmdOrCtrl+Shift+Right")),
        item("shrink_selection", "Shrink Selection", Some("CmdOrCtrl+Shift+Left")),
        sep(),
        item("add_cursor_above", "Add Cursor Above", Some("CmdOrCtrl+Alt+Up")),
        item("add_cursor_below", "Add Cursor Below", Some("CmdOrCtrl+Alt+Down")),
        sep(),
        item("select_all_occurrences", "Select All Occurrences", Some("CmdOrCtrl+Shift+L")),
    ];
    assert(children@.map_values(|c: NativeMenuItem| entry_view(c)) =~= selection_entries());
    NativeMenuItem::Submenu { label: String::from_str("Selection"), children }
}

/// The entries of the View menu.
pub open spec fn view_entries() -> Seq<EntryView> {
    seq![
        entry("command_palette"@, "Command Palette..."@, Some("CmdOrCtrl+Shift+P"@)),
        EntryView::Gap,
        entry("explorer"@, "Explorer"@, Some("CmdOrCtrl+Shift+E"@)),
        entry("search"@, "Search"@, Some("CmdOrCtrl+Shift+F"@)),
        entry("source_control"@, "Source Control"@, Some("CmdOrCtrl+Shift+G"@)),
        entry("debug"@, "Run and Debug"@, Some("CmdOrCtrl+Shift+D"@)),
        entry("extensions"@, "Extensions"@, Some("CmdOrCtrl+Shift+X"@)),
        EntryView::Gap,
        entry("terminal"@, "Terminal"@, Some("CmdOrCtrl+`"@)),
        entry("problems"@, "Problems"@, Some("CmdOrCtrl+Shift+M"@)),
        entry("output"@, "Output"@, Some("CmdOrCtrl+Shift+U"@)),
        EntryView::Gap,
        entry("toggle_sidebar"@, "Toggle Sidebar"@, Some("CmdOrCtrl+B"@)),
        entry("toggle_panel"@, "Toggle Panel"@, Some("CmdOrCtrl+J"@)),
        EntryView::Gap,
        entry("zen_mode"@, "Zen Mode"@, Some("CmdOrCtrl+K Z"@)),
        entry("toggle_fullscreen"@, "Full Screen"@, Some("F11"@)),
        EntryView::Gap,
        entry("zoom_in"@, "Zoom In"@, Some("CmdOrCtrl+="@)),
        entry("zoom_out"@, "Zoom Out"@, Some("CmdOrCtrl+-"@)),
        entry("reset_zoom"@, "Reset Zoom"@, Some("CmdOrCtrl+0"@)),
    ]
}

fn view_menu() -> (r: NativeMenuItem)
    ensures
        menu_view(r) == Some(("View"@, view_entries())),
{
    let children = vec![
        item("command_palette", "Command Palette...", Some("CmdOrCtrl+Shift+P")),
        sep(),
        item("explorer", "Explorer", Some("CmdOrCtrl+Shift+E")),
        item("search", "Search", Some("CmdOrCtrl+Shift+F")),
        item("source_control", "Source Control", Some("CmdOrCtrl+Shift+G")),
        item("debug", "Run and Debug", Some("CmdOrCtrl+Shift+D")),
        item("extensions", "Extensions", Some("CmdOrCtrl+Shift+X")),
        sep(),
        item("terminal", "Terminal", Some("CmdOrCtrl+`")),
        item("problems", "Problems", Some("CmdOrCtrl+Shift+M")),
        item("output", "Output", Some("CmdOrCtrl+Shift+U")),
        sep(),
        item("toggle_sidebar", "Toggle Sidebar", Some("CmdOrCtrl+B")),
        item("toggle_panel", "Toggle Panel", Some("CmdOrCtrl+J")),
        sep(),
        item("zen_mode", "Zen Mode", Some("CmdOrCtrl+K Z")),
        item("toggle_fullscreen", "Full Screen", Some("F11")),
        sep(),
        item("zoom_in", "Zoom In", Some("CmdOrCtrl+=")),
        item("zoom_out", "Zoom Out", Some("CmdOrCtrl+-")),
        item("reset_zoom", "Reset Zoom", Some("CmdOrCtrl+0")),
    ];
    assert(children@.map_values(|c: NativeMenuItem| entry_view(c)) =~= view_entries());
    NativeMenuItem::Submenu { label: String::from_str("View"), children }
}

/// The entries of the Go menu.
pub open spec fn go_entries() -> Seq<EntryView> {
    seq![
        entry("go_to_file"@, "Go to File..."@, Some("CmdOrCtrl+P"@)),
        entry("go_to_symbol"@, "Go to Symbol..."@, Some("CmdOrCtrl+Shift+O"@)),
        EntryView::Gap,
        entry("go_to_definition"@, "Go to Definition"@, Some("F12"@)),
        entry("go_to_line"@, "Go to Line/Column..."@, Some("CmdOrCtrl+G"@)),
        EntryView::Gap,
        entry("back"@, "Back"@, Some("CmdOrCtrl+Alt+Left"@)),
        entry("forward"@, "Forward"@, Some("CmdOrCtrl+Alt+Right"@)),
    ]
}

fn go_menu() -> (r: NativeMenuItem)
    ensures
        menu_view(r) == Some(("Go"@, go_entries())),
{
    let children = vec![
        item("go_to_file", "Go to File...", Some("CmdOrCtrl+P")),
        item("go_to_symbol", "Go to Symbol...", Some("CmdOrCtrl+Shift+O")),
        sep(),
        item("go_to_definition", "Go to Definition", Some("F12")),
        item("go_to_line", "Go to Line/Column...", Some("CmdOrCtrl+G")),
        sep(),
        item("back", "Back", Some("CmdOrCtrl+Alt+Left")),
        item("forward", "Forward", Some("CmdOrCtrl+Alt+Right")),
    ];
    assert(children@.map_values(|c: NativeMenuItem| entry_view(c)) =~= go_entries());
    NativeMenuItem::Submenu { label: String::from_str("Go"), children }
}

/// The entries of the Run menu.
pub open spec fn run_entries() -> Seq<EntryView> {
    seq![
        entry("start_debugging"@, "Start Debugging"@, Some("F5"@)),
        entry("run_without_debugging"@, "Start Without Debugging"@, Some("CmdOrCtrl+F5"@)),
        EntryView::Gap,
        entry("toggle_breakpoint"@, "Toggle Breakpoint"@, Some("F9"@)),
        entry("add_configuration"@, "Add Configuration..."@, None),
    ]
}

fn run_menu() -> (r: NativeMenuItem)
    ensures
        menu_view(r) == Some(("Run"@, run_entries())),
{
    let children = vec![
        item("start_debugging", "Start Debugging", Some("F5")),
        item("run_without_debugging", "Start Without Debugging", Some("CmdOrCtrl+F5")),
        sep(),
        item("toggle_breakpoint", "Toggle Breakpoint", Some("F9")),
        item("add_configuration", "Add Configuration...", None),
    ];
    assert(children@.map_values(|c: NativeMenuItem| entry_view(c)) =~= run_entries());
    NativeMenuItem::Submenu { label: String::from_str("Run"), children }
}

/// The entries of the Terminal menu.
pub open spec fn terminal_entries() -> Seq<EntryView> {
    seq![
        entry("new_terminal"@, "New Terminal"@, Some("CmdOrCtrl+Shift+`"@)),
        entry("split_terminal"@, "Split Terminal"@, None),
        EntryView::Gap,
        entry("run_active_file"@, "Run Active File"@, None),
    ]
}

fn terminal_menu() -> (r: NativeMenuItem)
    ensures
        menu_view(r) == Some(("Terminal"@, terminal_entries())),
{
    let children = vec![
        item("new_terminal", "New Terminal", Some("CmdOrCtrl+Shift+`")),
        item("split_terminal", "Split Terminal", None),
        sep(),
        item("run_active_file", "Run Active File", None),
    ];
    assert(children@.map_values(|c: NativeMenuItem| entry_view(c)) =~= terminal_entries());
    NativeMenuItem::Submenu { label: String::from_str("Terminal"), children }
}

/// The entries of the Help menu.
pub open spec fn help_entries() -> Seq<EntryView> {
    seq![
        entry("welcome"@, "Welcome"@, None),
        entry("documentation"@, "Documentation"@, None),
        entry("release_notes"@, "Release Notes"@, None),
        EntryView::Gap,
        entry("about"@, "About SideX"@, None),
    ]
}

fn help_menu() -> (r: NativeMenuItem)
    ensures
        menu_view(r) == Some(("Help"@, help_entries())),
{
    let children = vec![
        item("welcome", "Welcome", None),
        item("documentation", "Documentation", None),
        item("release_notes", "Release Notes", None),
        sep(),
        item("about", "About SideX", None),
    ];
    assert(children@.map_values(|c: NativeMenuItem| entry_view(c)) =~= help_entries());
    NativeMenuItem::Submenu { label: String::from_str("Help"), children }
}

/// The menu bar: each menu's label and entries, in order.
pub open spec fn menu_bar() -> Seq<(Seq<char>, Seq<EntryView>)> {
    seq![
        ("File"@, file_entries()),
        ("Edit"@, edit_entries()),
        ("Selection"@, selection_entries()),
        ("View"@, view_entries()),
        ("Go"@, go_entries()),
        ("Run"@, run_entries()),
        ("Terminal"@, terminal_entries()),
        ("Help"@, help_entries()),
    ]
}

/// The full menu bar.
pub fn build_native_menu() -> (r: NativeMenu)
    ensures
        r.items@.len() == menu_bar().len(),
        forall|k: int| 0 <= k < r.items@.len() ==> menu_view(#[trigger] r.items@[k]) == Some(menu_bar()[k]),
{
    let items = vec![
        file_menu(),
        edit_menu(),
        selection_menu(),
        view_menu(),
        go_menu(),
        run_menu(),
        terminal_menu(),
        help_menu(),
    ];
    assert forall|k: int| 0 <= k < items@.len() implies menu_view(#[trigger] items@[k]) == Some(menu_bar()[k]) by {
        if k == 0 { assert(menu_bar()[0] == ("File"@, file_entries())); }
        if k == 1 { assert(menu_bar()[1] == ("Edit"@, edit_entries())); }
        if k == 2 { assert(menu_bar()[2] == ("Selection"@, selection_entries())); }
        if k == 3 { assert(menu_bar()[3] == ("View"@, view_entries())); }
        if k == 4 { assert(menu_bar()[4] == ("Go"@, go_entries())); }
        if k == 5 { assert(menu_bar()[5] == ("Run"@, run_entries())); }
        if k == 6 { assert(menu_bar()[6] == ("Terminal"@, terminal_entries())); }
        if k == 7 { assert(menu_bar()[7] == ("Help"@, help_entries())); }
    }
    NativeMenu { items }
}

/// The command each menu item runs, by item id.
pub open spec fn command_table() -> Seq<(Seq<char>, Seq<char>)> {
    seq![
        ("new_file"@, "workbench.action.files.newUntitledFile"@),
        ("new_window"@, "workbench.action.newWindow"@),
        ("open_file"@, "workbench.action.files.openFile"@),
        ("open_folder"@, "workbench.action.files.openFolder"@),
        ("save"@, "workbench.action.files.save"@),
        ("save_as"@, "workbench.action.files.saveAs"@),
        ("save_all"@, "workbench.action.files.saveAll"@),
        ("close_editor"@, "workbench.action.closeActiveEditor"@),
        ("close_window"@, "workbench.action.closeWindow"@),
        ("exit"@, "workbench.action.quit"@),
        ("undo"@, "editor.action.undo"@),
        ("redo"@, "editor.action.redo"@),
        ("cut"@, "editor.action.clipboardCutAction"@),
        ("copy"@, "editor.action.clipboardCopyAction"@),
        ("paste"@, "editor.action.clipboardPasteAction"@),
        ("find"@, "actions.find"@),
        ("replace"@, "editor.action.startFindReplaceAction"@),
        ("find_in_files"@, "workbench.action.findInFiles"@),
        ("replace_in_files"@, "workbench.action.replaceInFiles"@),
        ("toggle_line_comment"@, "editor.action.commentLine"@),
        ("toggle_block_comment"@, "editor.action.blockComment"@),
        ("select_all"@, "editor.action.selectAll"@),
        ("expand_selection"@, "editor.action.smartSelect.expand"@),
        ("shrink_selection"@, "editor.action.smartSelect.shrink"@),
        ("add_cursor_above"@, "editor.action.insertCursorAbove"@),
        ("add_cursor_below"@, "editor.action.insertCursorBelow"@),
        ("select_all_occurrences"@, "editor.action.selectHighlights"@),
        ("command_palette"@, "workbench.action.showCommands"@),
        ("explorer"@, "workbench.view.explorer"@),
        ("search"@, "workbench.view.search"@),
        ("source_control"@, "workbench.view.scm"@),
        ("debug"@, "workbench.view.debug"@),
        ("extensions"@, "workbench.view.extensions"@),
        ("terminal"@, "workbench.action.terminal.toggleTerminal"@),
        ("problems"@, "workbench.actions.view.problems"@),
        ("output"@, "workbench.action.output.toggleOutput"@),
        ("toggle_sidebar"@, "workbench.action.toggleSidebarVisibility"@),
        ("toggle_panel"@, "workbench.action.togglePanel"@),
        ("zen_mode"@, "workbench.action.toggleZenMode"@),
        ("toggle_fullscreen"@, "workbench.action.toggleFullScreen"@),
        ("zoom_in"@, "workbench.action.zoomIn"@),
        ("zoom_out"@, "workbench.action.zoomOut"@),
        ("reset_zoom"@, "workbench.action.zoomReset"@),
        ("go_to_file"@, "workbench.action.quickOpen"@),
        ("go_to_symbol"@, "workbench.action.gotoSymbol"@),
        ("go_to_definition"@, "editor.action.revealDefinition"@),
        ("go_to_line"@, "workbench.action.gotoLine"@),
        ("back"@, "workbench.action.navigateBack"@),
        ("forward"@, "workbench.action.navigateForward"@),
        ("start_debugging"@, "workbench.action.debug.start"@),
        ("run_without_debugging"@, "workbench.action.debug.run"@),
        ("toggle_breakpoint"@, "editor.debug.action.toggleBreakpoint"@),
        ("add_configuration"@, "debug.addConfiguration"@),
        ("new_terminal"@, "workbench.action.terminal.new"@),
        ("split_terminal"@, "workbench.action.terminal.split"@),
        ("run_active_file"@, "workbench.action.terminal.runActiveFile"@),
        ("welcome"@, "workbench.action.showWelcomePage"@),
        ("documentation"@, "workbench.action.openDocumentationUrl"@),
        ("release_notes"@, "update.showCurrentReleaseNotes"@),
        ("about"@, "workbench.action.showAboutDialog"@),
    ]
}

/// The command of the first row from `i` on whose id is `id`.
pub open spec fn command_from(table: Seq<(Seq<char>, Seq<char>)>, id: Seq<char>, i: int) -> Option<Seq<char>>
    decreases table.len() - i,
{
    if i < 0 || i >= table.len() {
        None
    } else if table[i].0 == id {
        Some(table[i].1)
    } else {
        command_from(table, id, i + 1)
    }
}

/// The command a menu item runs.
pub open spec fn command_for(id: Seq<char>) -> Option<Seq<char>> {
    command_from(command_table(), id, 0)
}

/// The command the menu item `menu_id` runs, if it is one.
pub fn menu_id_to_command(menu_id: &str) -> (r: Option<&'static str>)
    ensures
        match command_for(menu_id@) {
            Some(c) => r matches Some(x) && x@ == c,
            None => r is None,
        },
{
    let table: Vec<(&'static str, &'static str)> = vec![
        ("new_file", "workbench.action.files.newUntitledFile"),
        ("new_window", "workbench.action.newWindow"),
        ("open_file", "workbench.action.files.openFile"),
        ("open_folder", "workbench.action.files.openFolder"),
        ("save", "workbench.action.files.save"),
        ("save_as", "workbench.action.files.saveAs"),
        ("save_all", "workbench.action.files.saveAll"),
        ("close_editor", "workbench.action.closeActiveEditor"),
        ("close_window", "workbench.action.closeWindow"),
        ("exit", "workbench.action.quit"),
        ("undo", "editor.action.undo"),
        ("redo", "editor.action.redo"),
        ("cut", "editor.action.clipboardCutAction"),
        ("copy", "editor.action.clipboardCopyAction"),
        ("paste", "editor.action.clipboardPasteAction"),
        ("find", "actions.find"),
        ("replace", "editor.action.startFindReplaceAction"),
        ("find_in_files", "workbench.action.findInFiles"),
        ("replace_in_files", "workbench.action.replaceInFiles"),
        ("toggle_line_comment", "editor.action.commentLine"),
        ("toggle_block_comment", "editor.action.blockComment"),
        ("select_all", "editor.action.selectAll"),
        ("expand_selection", "editor.action.smartSelect.expand"),
        ("shrink_selection", "editor.action.smartSelect.shrink"),
        ("add_cursor_above", "editor.action.insertCursorAbove"),
        ("add_cursor_below", "editor.action.insertCursorBelow"),
        ("select_all_occurrences", "editor.action.selectHighlights"),
        ("command_palette", "workbench.action.showCommands"),
        ("explorer", "workbench.view.explorer"),
        ("search", "workbench.view.search"),
        ("source_control", "workbench.view.scm"),
        ("debug", "workbench.view.debug"),
        ("extensions", "workbench.view.extensions"),
        ("terminal", "workbench.action.terminal.toggleTerminal"),
        ("problems", "workbench.actions.view.problems"),
        ("output", "workbench.action.output.toggleOutput"),
        ("toggle_sidebar", "workbench.action.toggleSidebarVisibility"),
        ("toggle_panel", "workbench.action.togglePanel"),
        ("zen_mode", "workbench.action.toggleZenMode"),
        ("toggle_fullscreen", "workbench.action.toggleFullScreen"),
        ("zoom_in", "workbench.action.zoomIn"),
        ("zoom_out", "workbench.action.zoomOut"),
        ("reset_zoom", "workbench.action.zoomReset"),
        ("go_to_file", "workbench.action.quickOpen"),
        ("go_to_symbol", "workbench.action.gotoSymbol"),
        ("go_to_definition", "editor.action.revealDefinition"),
        ("go_to_line", "workbench.action.gotoLine"),
        ("back", "workbench.action.navigateBack"),
        ("forward", "workbench.action.navigateForward"),
        ("start_debugging", "workbench.action.debug.start"),
        ("run_without_debugging", "workbench.action.debug.run"),
        ("toggle_breakpoint", "editor.debug.action.toggleBreakpoint"),
        ("add_configuration", "debug.addConfiguration"),
        ("new_terminal", "workbench.action.terminal.new"),
        ("split_terminal", "workbench.action.terminal.split"),
        ("run_active_file", "workbench.action.terminal.runActiveFile"),
        ("welcome", "workbench.action.showWelcomePage"),
        ("documentation", "workbench.action.openDocumentationUrl"),
        ("release_notes", "update.showCurrentReleaseNotes"),
        ("about", "workbench.action.showAboutDialog"),
    ];
    let ghost tv = table@.map_values(|p: (&str, &str)| (p.0@, p.1@));
    assert(tv =~= command_table());
    let mut i: usize = 0;
    while i < table.len()
        invariant
            i <= table@.len(),
            tv == table@.map_values(|p: (&str, &str)| (p.0@, p.1@)),
            tv == command_table(),
            command_from(tv, menu_id@, i as int) == command_for(menu_id@),
        decreases table@.len() - i,
    {
        let (id, cmd) = table[i];
        assert(tv[i as int] == (id@, cmd@));
        if str_eq(id, menu_id) {
            return Some(cmd);
        }
        i = i + 1;
    }
    None
}

/// A row with the id is found from any earlier start.
proof fn lemma_command_found(table: Seq<(Seq<char>, Seq<char>)>, id: Seq<char>, i: int, t: int)
    requires
        0 <= i <= t < table.len(),
        table[t].0 == id,
    ensures
        command_from(table, id, i) is Some,
    decreases t - i,
{
    if table[i].0 != id {
        lemma_command_found(table, id, i + 1, t);
    }
}

/// Every item of the menu bar runs a command.
pub proof fn lemma_every_menu_item_has_command()
    ensures
        forall|k: int, j: int|
            0 <= k < menu_bar().len() && 0 <= j < menu_bar()[k].1.len() ==> (#[trigger] menu_bar()[k].1[j] matches EntryView::Entry(id, _, _, _) ==> command_for(id) is Some),
{
    assert forall|k: int, j: int|
        0 <= k < menu_bar().len() && 0 <= j < menu_bar()[k].1.len() implies (#[trigger] menu_bar()[k].1[j] matches EntryView::Entry(id, _, _, _) ==> command_for(id) is Some) by {
        if k == 0 {
            assert(menu_bar()[0].1 == file_entries());
            if j == 0 { assert(command_table()[0].0 == "new_file"@); lemma_command_found(command_table(), "new_file"@, 0, 0); }
            if j == 1 { assert(command_table()[1].0 == "new_window"@); lemma_command_found(command_table(), "new_window"@, 0, 1); }
            if j == 3 { assert(command_table()[2].0 == "open_file"@); lemma_command_found(command_table(), "open_file"@, 0, 2); }
            if j == 4 { assert(command_table()[3].0 == "open_folder"@); lemma_command_found(command_table(), "open_folder"@, 0, 3); }
            if j == 6 { assert(command_table()[4].0 == "save"@); lemma_command_found(command_table(), "save"@, 0, 4); }
            if j == 7 { assert(command_table()[5].0 == "save_as"@); lemma_command_found(command_table(), "save_as"@, 0, 5); }
            if j == 8 { assert(command_table()[6].0 == "save_all"@); lemma_command_found(command_table(), "save_all"@, 0, 6); }
            if j == 10 { assert(command_table()[7].0 == "close_editor"@); lemma_command_found(command_table(), "close_editor"@, 0, 7); }
            if j == 11 { assert(command_table()[8].0 == "close_window"@); lemma_command_found(command_table(), "close_window"@, 0, 8); }
            if j == 13 { assert(command_table()[9].0 == "exit"@); lemma_command_found(command_table(), "exit"@, 0, 9); }
        }
        if k == 1 {
            assert(menu_bar()[1].1 == edit_entries());
            if j == 0 { assert(command_table()[10].0 == "undo"@); lemma_command_found(command_table(), "undo"@, 0, 10); }
            if j == 1 { assert(command_table()[11].0 == "redo"@); lemma_command_found(command_table(), "redo"@, 0, 11); }
            if j == 3 { assert(command_table()[12].0 == "cut"@); lemma_command_found(command_table(), "cut"@, 0, 12); }
            if j == 4 { assert(command_table()[13].0 == "copy"@); lemma_command_found(command_table(), "copy"@, 0, 13); }
            if j == 5 { assert(command_table()[14].0 == "paste"@); lemma_command_found(command_table(), "paste"@, 0, 14); }
            if j == 7 { assert(command_table()[15].0 == "find"@); lemma_command_found(command_table(), "find"@, 0, 15); }
            if j == 8 { assert(command_table()[16].0 == "replace"@); lemma_command_found(command_table(), "replace"@, 0, 16); }
            if j == 10 { assert(command_table()[17].0 == "find_in_files"@); lemma_command_found(command_table(), "find_in_files"@, 0, 17); }
            if j == 11 { assert(command_table()[18].0 == "replace_in_files"@); lemma_command_found(command_table(), "replace_in_files"@, 0, 18); }
            if j == 13 { assert(command_table()[19].0 == "toggle_line_comment"@); lemma_command_found(command_table(), "toggle_line_comment"@, 0, 19); }
            if j == 14 { assert(command_table()[20].0 == "toggle_block_comment"@); lemma_command_found(command_table(), "toggle_block_comment"@, 0, 20); }
        }
        if k == 2 {
            assert(menu_bar()[2].1 == selection_entries());
            if j == 0 { assert(command_table()[21].0 == "select_all"@); lemma_command_found(command_table(), "select_all"@, 0, 21); }
            if j == 1 { assert(command_table()[22].0 == "expand_selection"@); lemma_command_found(command_table(), "expand_selection"@, 0, 22); }
            if j == 2 { assert(command_table()[23].0 == "shrink_selection"@); lemma_command_found(command_table(), "shrink_selection"@, 0, 23); }
            if j == 4 { assert(command_table()[24].0 == "add_cursor_above"@); lemma_command_found(command_table(), "add_cursor_above"@, 0, 24); }
            if j == 5 { assert(command_table()[25].0 == "add_cursor_below"@); lemma_command_found(command_table(), "add_cursor_below"@, 0, 25); }
            if j == 7 { assert(command_table()[26].0 == "select_all_occurrences"@); lemma_command_found(command_table(), "select_all_occurrences"@, 0, 26); }
        }
        if k == 3 {
            assert(menu_bar()[3].1 == view_entries());
            if j == 0 { assert(command_table()[27].0 == "command_palette"@); lemma_command_found(command_table(), "command_palette"@, 0, 27); }
            if j == 2 { assert(command_table()[28].0 == "explorer"@); lemma_command_found(command_table(), "explorer"@, 0, 28); }
            if j == 3 { assert(command_table()[29].0 == "search"@); lemma_command_found(command_table(), "search"@, 0, 29); }
            if j == 4 { assert(command_table()[30].0 == "source_control"@); lemma_command_found(command_table(), "source_control"@, 0, 30); }
            if j == 5 { assert(command_table()[31].0 == "debug"@); lemma_command_found(command_table(), "debug"@, 0, 31); }
            if j == 6 { assert(command_table()[32].0 == "extensions"@); lemma_command_found(command_table(), "extensions"@, 0, 32); }
            if j == 8 { assert(command_table()[33].0 == "terminal"@); lemma_command_found(command_table(), "terminal"@, 0, 33); }
            if j == 9 { assert(command_table()[34].0 == "problems"@); lemma_command_found(command_table(), "problems"@, 0, 34); }
            if j == 10 { assert(command_table()[35].0 == "output"@); lemma_command_found(command_table(), "output"@, 0, 35); }
            if j == 12 { assert(command_table()[36].0 == "toggle_sidebar"@); lemma_command_found(command_table(), "toggle_sidebar"@, 0, 36); }
            if j == 13 { assert(command_table()[37].0 == "toggle_panel"@); lemma_command_found(command_table(), "toggle_panel"@, 0, 37); }
            if j == 15 { assert(command_table()[38].0 == "zen_mode"@); lemma_command_found(command_table(), "zen_mode"@, 0, 38); }
            if j == 16 { assert(command_table()[39].0 == "toggle_fullscreen"@); lemma_command_found(command_table(), "toggle_fullscreen"@, 0, 39); }
            if j == 18 { assert(command_table()[40].0 == "zoom_in"@); lemma_command_found(command_table(), "zoom_in"@, 0, 40); }
            if j == 19 { assert(command_table()[41].0 == "zoom_out"@); lemma_command_found(command_table(), "zoom_out"@, 0, 41); }
            if j == 20 { assert(command_table()[42].0 == "reset_zoom"@); lemma_command_found(command_table(), "reset_zoom"@, 0, 42); }
        }
        if k == 4 {
            assert(menu_bar()[4].1 == go_entries());
            if j == 0 { assert(command_table()[43].0 == "go_to_file"@); lemma_command_found(command_table(), "go_to_file"@, 0, 43); }
            if j == 1 { assert(command_table()[44].0 == "go_to_symbol"@); lemma_command_found(command_table(), "go_to_symbol"@, 0, 44); }
            if j == 3 { assert(command_table()[45].0 == "go_to_definition"@); lemma_command_found(command_table(), "go_to_definition"@, 0, 45); }
            if j == 4 { assert(command_table()[46].0 == "go_to_line"@); lemma_command_found(command_table(), "go_to_line"@, 0, 46); }
            if j == 6 { assert(command_table()[47].0 == "back"@); lemma_command_found(command_table(), "back"@, 0, 47); }
            if j == 7 { assert(command_table()[48].0 == "forward"@); lemma_command_found(command_table(), "forward"@, 0, 48); }
        }
        if k == 5 {
            assert(menu_bar()[5].1 == run_entries());
            if j == 0 { assert(command_table()[49].0 == "start_debugging"@); lemma_command_found(command_table(), "start_debugging"@, 0, 49); }
            if j == 1 { assert(command_table()[50].0 == "run_without_debugging"@); lemma_command_found(command_table(), "run_without_debugging"@, 0, 50); }
            if j == 3 { assert(command_table()[51].0 == "toggle_breakpoint"@); lemma_command_found(command_table(), "toggle_breakpoint"@, 0, 51); }
            if j == 4 { assert(command_table()[52].0 == "add_configuration"@); lemma_command_found(command_table(), "add_configuration"@, 0, 52); }
        }
        if k == 6 {
            assert(menu_bar()[6].1 == terminal_entries());
            if j == 0 { assert(command_table()[53].0 == "new_terminal"@); lemma_command_found(command_table(), "new_terminal"@, 0, 53); }
            if j == 1 { assert(command_table()[54].0 == "split_terminal"@); lemma_command_found(command_table(), "split_terminal"@, 0, 54); }
            if j == 3 { assert(command_table()[55].0 == "run_active_file"@); lemma_command_found(command_table(), "run_active_file"@, 0, 55); }
        }
        if k == 7 {
            assert(menu_bar()[7].1 == help_entries());
            if j == 0 { assert(command_table()[56].0 == "welcome"@); lemma_command_found(command_table(), "welcome"@, 0, 56); }
            if j == 1 { assert(command_table()[57].0 == "documentation"@); lemma_command_found(command_table(), "documentation"@, 0, 57); }
            if j == 2 { assert(command_table()[58].0 == "release_notes"@); lemma_command_found(command_table(), "release_notes"@, 0, 58); }
            if j == 4 { assert(command_table()[59].0 == "about"@); lemma_command_found(command_table(), "about"@, 0, 59); }
        }
    }
}

} // verus!
