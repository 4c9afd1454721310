use sidex_app::commands::CommandRegistry;

#[test]
fn builtins_are_registered() {
    let reg = CommandRegistry::new();
    assert!(reg.has("workbench.action.files.save"));
    assert!(reg.has("editor.action.undo"));
    assert!(reg.has("workbench.action.terminal.new"));
}

#[test]
fn label_lookup() {
    let reg = CommandRegistry::new();
    assert_eq!(reg.label("workbench.action.files.save"), Some("Save"));
}

#[test]
fn missing_command() {
    let reg = CommandRegistry::new();
    assert!(!reg.has("nonexistent.command"));
    assert!(reg.label("nonexistent.command").is_none());
}

#[test]
fn all_ids_nonempty() {
    let reg = CommandRegistry::new();
    assert!(reg.ids().len() >= 200);
}

#[test]
fn file_commands_registered() {
    let reg = CommandRegistry::new();
    assert!(reg.has("workbench.action.files.newUntitledFile"));
    assert!(reg.has("workbench.action.files.openFile"));
    assert!(reg.has("workbench.action.files.saveAs"));
    assert!(reg.has("workbench.action.files.saveAll"));
    assert!(reg.has("workbench.action.closeActiveEditor"));
    assert!(reg.has("workbench.action.closeAllEditors"));
    assert!(reg.has("workbench.action.reopenClosedEditor"));
}

#[test]
fn edit_commands_registered() {
    let reg = CommandRegistry::new();
    assert!(reg.has("editor.action.clipboardCutAction"));
    assert!(reg.has("editor.action.clipboardCopyAction"));
    assert!(reg.has("editor.action.clipboardPasteAction"));
    assert!(reg.has("editor.action.commentLine"));
    assert!(reg.has("editor.action.blockComment"));
    assert!(reg.has("editor.action.indentLines"));
    assert!(reg.has("editor.action.outdentLines"));
    assert!(reg.has("editor.action.moveLinesUpAction"));
    assert!(reg.has("editor.action.moveLinesDownAction"));
    assert!(reg.has("editor.action.copyLinesUpAction"));
    assert!(reg.has("editor.action.copyLinesDownAction"));
    assert!(reg.has("editor.action.deleteLines"));
    assert!(reg.has("editor.action.joinLines"));
    assert!(reg.has("editor.action.sortLinesAscending"));
    assert!(reg.has("editor.action.sortLinesDescending"));
    assert!(reg.has("editor.action.trimTrailingWhitespace"));
    assert!(reg.has("editor.action.transformToUppercase"));
    assert!(reg.has("editor.action.transformToLowercase"));
}

#[test]
fn navigation_commands_registered() {
    let reg = CommandRegistry::new();
    assert!(reg.has("workbench.action.quickOpen"));
    assert!(reg.has("workbench.action.showCommands"));
    assert!(reg.has("workbench.action.gotoLine"));
    assert!(reg.has("editor.action.goToDeclaration"));
    assert!(reg.has("editor.action.goToImplementation"));
    assert!(reg.has("editor.action.goToReferences"));
    assert!(reg.has("workbench.action.navigateBack"));
    assert!(reg.has("workbench.action.navigateForward"));
}

#[test]
fn view_commands_registered() {
    let reg = CommandRegistry::new();
    assert!(reg.has("workbench.action.toggleSidebarVisibility"));
    assert!(reg.has("workbench.action.togglePanel"));
    assert!(reg.has("workbench.action.terminal.toggleTerminal"));
    assert!(reg.has("workbench.action.zoomIn"));
    assert!(reg.has("workbench.action.zoomOut"));
    assert!(reg.has("workbench.action.zoomReset"));
}

#[test]
fn find_commands_registered() {
    let reg = CommandRegistry::new();
    assert!(reg.has("actions.find"));
    assert!(reg.has("editor.action.startFindReplaceAction"));
    assert!(reg.has("workbench.action.findInFiles"));
}

#[test]
fn terminal_commands_registered() {
    let reg = CommandRegistry::new();
    assert!(reg.has("workbench.action.terminal.new"));
    assert!(reg.has("workbench.action.terminal.split"));
    assert!(reg.has("workbench.action.terminal.kill"));
    assert!(reg.has("workbench.action.terminal.clear"));
    assert!(reg.has("workbench.action.terminal.focusNext"));
    assert!(reg.has("workbench.action.terminal.focusPrevious"));
    assert!(reg.has("workbench.action.terminal.rename"));
    assert!(reg.has("workbench.action.terminal.sendSequence"));
}

#[test]
fn debug_commands_registered() {
    let reg = CommandRegistry::new();
    assert!(reg.has("workbench.action.debug.start"));
    assert!(reg.has("workbench.action.debug.run"));
    assert!(reg.has("workbench.action.debug.stop"));
    assert!(reg.has("workbench.action.debug.restart"));
    assert!(reg.has("workbench.action.debug.continue"));
    assert!(reg.has("workbench.action.debug.pause"));
    assert!(reg.has("workbench.action.debug.stepOver"));
    assert!(reg.has("workbench.action.debug.stepInto"));
    assert!(reg.has("workbench.action.debug.stepOut"));
    assert!(reg.has("editor.debug.action.toggleBreakpoint"));
    assert!(reg.has("editor.debug.action.conditionalBreakpoint"));
}

#[test]
fn git_commands_registered() {
    let reg = CommandRegistry::new();
    assert!(reg.has("git.commit"));
    assert!(reg.has("git.push"));
    assert!(reg.has("git.pull"));
    assert!(reg.has("git.sync"));
    assert!(reg.has("git.checkout"));
    assert!(reg.has("git.branch"));
    assert!(reg.has("git.stash"));
    assert!(reg.has("git.stashPop"));
    assert!(reg.has("git.stage"));
    assert!(reg.has("git.unstage"));
    assert!(reg.has("git.clean"));
    assert!(reg.has("git.openChange"));
    assert!(reg.has("git.openFile"));
}

#[test]
fn folding_commands_registered() {
    let reg = CommandRegistry::new();
    assert!(reg.has("editor.fold"));
    assert!(reg.has("editor.unfold"));
    assert!(reg.has("editor.foldAll"));
    assert!(reg.has("editor.unfoldAll"));
    assert!(reg.has("editor.foldAllBlockComments"));
    assert!(reg.has("editor.toggleFold"));
}

#[test]
fn workbench_commands_registered() {
    let reg = CommandRegistry::new();
    assert!(reg.has("workbench.action.openSettings"));
    assert!(reg.has("workbench.action.openKeybindings"));
    assert!(reg.has("workbench.action.showAllSymbols"));
    assert!(reg.has("workbench.action.toggleZenMode"));
    assert!(reg.has("workbench.action.closeOtherEditors"));
    assert!(reg.has("workbench.action.previousEditor"));
    assert!(reg.has("workbench.action.nextEditor"));
    assert!(reg.has("workbench.action.files.openFolder"));
    assert!(reg.has("workbench.action.newWindow"));
    assert!(reg.has("workbench.action.closeWindow"));
    assert!(reg.has("workbench.action.reloadWindow"));
}

#[test]
fn editor_group_commands_registered() {
    let reg = CommandRegistry::new();
    assert!(reg.has("workbench.action.focusFirstEditorGroup"));
    assert!(reg.has("workbench.action.focusSecondEditorGroup"));
    assert!(reg.has("workbench.action.focusThirdEditorGroup"));
    assert!(reg.has("workbench.action.focusNextGroup"));
    assert!(reg.has("workbench.action.focusPreviousGroup"));
}

#[test]
fn font_zoom_commands_registered() {
    let reg = CommandRegistry::new();
    assert!(reg.has("editor.action.fontZoomIn"));
    assert!(reg.has("editor.action.fontZoomOut"));
    assert!(reg.has("editor.action.fontZoomReset"));
}

#[test]
fn task_commands_registered() {
    let reg = CommandRegistry::new();
    assert!(reg.has("workbench.action.tasks.runTask"));
    assert!(reg.has("workbench.action.tasks.build"));
    assert!(reg.has("workbench.action.tasks.test"));
    assert!(reg.has("workbench.action.tasks.terminate"));
}

#[test]
fn extension_commands_registered() {
    let reg = CommandRegistry::new();
    assert!(reg.has("workbench.extensions.installExtension"));
    assert!(reg.has("workbench.extensions.uninstallExtension"));
    assert!(reg.has("workbench.extensions.action.enableAll"));
    assert!(reg.has("workbench.extensions.action.disableAll"));
}

#[test]
fn scm_and_panel_commands_registered() {
    let reg = CommandRegistry::new();
    assert!(reg.has("workbench.view.scm"));
    assert!(reg.has("workbench.view.explorer"));
    assert!(reg.has("workbench.view.search"));
    assert!(reg.has("workbench.view.debug"));
    assert!(reg.has("workbench.view.extensions"));
}

#[test]
fn ids_are_listed_once_and_later_registration_wins() {
    let reg = CommandRegistry::default();
    let ids = reg.ids();
    assert_eq!(ids.len(), 334);
    let mut sorted = ids.clone();
    sorted.sort();
    sorted.dedup();
    assert_eq!(sorted.len(), ids.len());
    assert!(reg.has("workbench.action.splitEditorDown"));
    assert!(reg.recently_closed.is_empty());
}
