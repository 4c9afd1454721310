//! The built-in command catalogue, and the navigation history of the Go
//! Back and Go Forward commands.

use vstd::prelude::*;

use crate::i18n::{find_key, lookup, owned_pairs, pair_views, str_pair_views};
use crate::text::str_eq;

verus! {

/// A place in the navigation history: a document and a line.
#[derive(Debug, Clone, Copy, PartialEq, Eq, Structural)]
pub struct NavigationEntry {
    pub doc_index: usize,
    pub line: u32,
}

/// The histories and target after a move from `from` towards `to` while at
/// `current`: the last place of `from` is the target and `current` is
/// remembered on `to`; an empty `from` changes nothing.
pub open spec fn moved(
    from: Seq<NavigationEntry>,
    to: Seq<NavigationEntry>,
    current: NavigationEntry,
) -> (Seq<NavigationEntry>, Seq<NavigationEntry>, Option<usize>) {
    if from.len() == 0 {
        (from, to, None)
    } else {
        (from.drop_last(), to.push(current), Some(from.last().doc_index))
    }
}

/// Moves through the history (Go Back: from the back stack to the forward
/// one; Go Forward: the other way). Returns the target document.
pub fn navigate(
    from: &mut Vec<NavigationEntry>,
    to: &mut Vec<NavigationEntry>,
    current: NavigationEntry,
) -> (r: Option<usize>)
    ensures
        (final(from)@, final(to)@, r) == moved(old(from)@, old(to)@, current),
{
    match from.pop() {
        Some(entry) => {
            to.push(current);
            Some(entry.doc_index)
        },
        None => None,
    }
}

/// Going back and then forward returns to the document one started from,
/// and leaves the forward history as it was.
pub proof fn lemma_back_then_forward(
    back: Seq<NavigationEntry>,
    forward: Seq<NavigationEntry>,
    current: NavigationEntry,
    arrived: NavigationEntry,
)
    requires
        back.len() > 0,
    ensures
        ({
            let (back1, forward1, _) = moved(back, forward, current);
            let (forward2, back2, target) = moved(forward1, back1, arrived);
            &&& target == Some(current.doc_index)
            &&& forward2 == forward
            &&& back2 == back.drop_last().push(arrived)
        }),
{
    assert(forward.push(current).drop_last() =~= forward);
}


// ── Built-in command catalogue ───────────────────────────────────────────────

/// Every built-in command as it is registered, in order: id and label. A
/// later registration of an id replaces the label of an earlier one.
pub open spec fn builtin_commands() -> Seq<(Seq<char>, Seq<char>)> {
    seq![
        ("workbench.action.files.newUntitledFile"@, "New File"@),
        ("workbench.action.files.openFile"@, "Open File..."@),
        ("workbench.action.files.save"@, "Save"@),
        ("workbench.action.files.saveAs"@, "Save As..."@),
        ("workbench.action.files.saveAll"@, "Save All"@),
        ("workbench.action.closeActiveEditor"@, "Close Editor"@),
        ("workbench.action.closeAllEditors"@, "Close All Editors"@),
        ("workbench.action.reopenClosedEditor"@, "Reopen Closed Editor"@),
        ("editor.action.undo"@, "Undo"@),
        ("editor.action.redo"@, "Redo"@),
        ("editor.action.clipboardCutAction"@, "Cut"@),
        ("editor.action.clipboardCopyAction"@, "Copy"@),
        ("editor.action.clipboardPasteAction"@, "Paste"@),
        ("editor.action.selectAll"@, "Select All"@),
        ("editor.action.commentLine"@, "Toggle Line Comment"@),
        ("editor.action.blockComment"@, "Toggle Block Comment"@),
        ("editor.action.indentLines"@, "Indent Lines"@),
        ("editor.action.outdentLines"@, "Outdent Lines"@),
        ("editor.action.moveLinesUpAction"@, "Move Lines Up"@),
        ("editor.action.moveLinesDownAction"@, "Move Lines Down"@),
        ("editor.action.copyLinesUpAction"@, "Copy Lines Up"@),
        ("editor.action.copyLinesDownAction"@, "Copy Lines Down"@),
        ("editor.action.deleteLines"@, "Delete Lines"@),
        ("editor.action.joinLines"@, "Join Lines"@),
        ("editor.action.sortLinesAscending"@, "Sort Lines Ascending"@),
        ("editor.action.sortLinesDescending"@, "Sort Lines Descending"@),
        ("editor.action.trimTrailingWhitespace"@, "Trim Trailing Whitespace"@),
        ("editor.action.transformToUppercase"@, "Transform to Uppercase"@),
        ("editor.action.transformToLowercase"@, "Transform to Lowercase"@),
        ("editor.action.insertLineAfter"@, "Insert Line Below"@),
        ("editor.action.insertLineBefore"@, "Insert Line Above"@),
        ("editor.action.transposeLetters"@, "Transpose Characters"@),
        ("editor.action.transpose"@, "Transpose"@),
        ("editor.action.addSelectionToNextFindMatch"@, "Add Selection to Next Find Match"@),
        ("editor.action.addCursorsToBottom"@, "Add Cursors to Bottom"@),
        ("editor.action.addCursorsToTop"@, "Add Cursors to Top"@),
        ("editor.action.duplicateSelection"@, "Duplicate Selection"@),
        ("editor.action.removeDuplicateLines"@, "Remove Duplicate Lines"@),
        ("editor.action.transformToTitlecase"@, "Transform to Title Case"@),
        ("editor.action.transformToSnakecase"@, "Transform to Snake Case"@),
        ("editor.action.transformToCamelcase"@, "Transform to Camel Case"@),
        ("editor.action.transformToKebabcase"@, "Transform to Kebab Case"@),
        ("workbench.action.quickOpen"@, "Go to File..."@),
        ("workbench.action.showCommands"@, "Command Palette..."@),
        ("workbench.action.gotoLine"@, "Go to Line..."@),
        ("editor.action.goToDeclaration"@, "Go to Declaration"@),
        ("editor.action.goToImplementation"@, "Go to Implementation"@),
        ("editor.action.goToReferences"@, "Go to References"@),
        ("editor.action.revealDefinition"@, "Go to Definition"@),
        ("editor.action.goToTypeDefinition"@, "Go to Type Definition"@),
        ("editor.action.referenceSearch.trigger"@, "Peek References"@),
        ("editor.action.peekDefinition"@, "Peek Definition"@),
        ("editor.action.peekImplementation"@, "Peek Implementation"@),
        ("editor.action.peekTypeDefinition"@, "Peek Type Definition"@),
        ("editor.action.showHover"@, "Show Hover"@),
        ("editor.action.triggerParameterHints"@, "Trigger Parameter Hints"@),
        ("workbench.action.gotoSymbol"@, "Go to Symbol in Editor..."@),
        ("workbench.action.navigateBack"@, "Go Back"@),
        ("workbench.action.navigateForward"@, "Go Forward"@),
        ("workbench.action.toggleSidebarVisibility"@, "Toggle Sidebar"@),
        ("workbench.action.togglePanel"@, "Toggle Panel"@),
        ("workbench.action.terminal.toggleTerminal"@, "Toggle Terminal"@),
        ("workbench.action.zoomIn"@, "Zoom In"@),
        ("workbench.action.zoomOut"@, "Zoom Out"@),
        ("workbench.action.zoomReset"@, "Reset Zoom"@),
        ("workbench.action.toggleFullScreen"@, "Toggle Full Screen"@),
        ("workbench.action.splitEditor"@, "Split Editor Right"@),
        ("workbench.action.splitEditorDown"@, "Split Editor Down"@),
        ("actions.find"@, "Find"@),
        ("editor.action.startFindReplaceAction"@, "Find and Replace"@),
        ("editor.action.nextMatchFindAction"@, "Find Next"@),
        ("editor.action.previousMatchFindAction"@, "Find Previous"@),
        ("workbench.action.findInFiles"@, "Search in Files"@),
        ("workbench.action.terminal.new"@, "New Terminal"@),
        ("workbench.action.terminal.split"@, "Split Terminal"@),
        ("workbench.action.terminal.kill"@, "Kill Terminal"@),
        ("workbench.action.terminal.clear"@, "Clear Terminal"@),
        ("workbench.action.terminal.focusNext"@, "Focus Next Terminal"@),
        ("workbench.action.terminal.focusPrevious"@, "Focus Previous Terminal"@),
        ("workbench.action.terminal.rename"@, "Rename Terminal"@),
        ("workbench.action.terminal.sendSequence"@, "Send Sequence to Terminal"@),
        ("workbench.action.terminal.scrollUp"@, "Terminal: Scroll Up"@),
        ("workbench.action.terminal.scrollDown"@, "Terminal: Scroll Down"@),
        ("workbench.action.terminal.scrollToTop"@, "Terminal: Scroll to Top"@),
        ("workbench.action.terminal.scrollToBottom"@, "Terminal: Scroll to Bottom"@),
        ("workbench.action.terminal.selectAll"@, "Terminal: Select All"@),
        ("workbench.action.terminal.copySelection"@, "Terminal: Copy Selection"@),
        ("workbench.action.terminal.paste"@, "Terminal: Paste"@),
        ("workbench.action.terminal.runSelectedText"@, "Terminal: Run Selected Text"@),
        ("workbench.action.terminal.runActiveFile"@, "Terminal: Run Active File"@),
        ("workbench.action.terminal.changeIcon"@, "Terminal: Change Icon"@),
        ("workbench.action.terminal.changeColor"@, "Terminal: Change Color"@),
        ("workbench.action.debug.start"@, "Start Debugging"@),
        ("workbench.action.debug.run"@, "Run Without Debugging"@),
        ("workbench.action.debug.stop"@, "Stop Debugging"@),
        ("workbench.action.debug.restart"@, "Restart Debugging"@),
        ("editor.debug.action.toggleBreakpoint"@, "Toggle Breakpoint"@),
        ("editor.debug.action.conditionalBreakpoint"@, "Add Conditional Breakpoint..."@),
        ("editor.debug.action.toggleInlineBreakpoint"@, "Toggle Inline Breakpoint"@),
        ("editor.debug.action.addLogPoint"@, "Add Log Point..."@),
        ("workbench.action.debug.stepOver"@, "Step Over"@),
        ("workbench.action.debug.stepInto"@, "Step Into"@),
        ("workbench.action.debug.stepOut"@, "Step Out"@),
        ("workbench.action.debug.continue"@, "Continue"@),
        ("workbench.action.debug.pause"@, "Pause"@),
        ("workbench.action.debug.selectandstart"@, "Select and Start Debugging"@),
        ("workbench.action.debug.configure"@, "Open launch.json"@),
        ("editor.debug.action.runToCursor"@, "Run to Cursor"@),
        ("workbench.debug.viewlet.action.addFunctionBreakpoint"@, "Add Function Breakpoint..."@),
        ("workbench.debug.viewlet.action.removeAllBreakpoints"@, "Remove All Breakpoints"@),
        ("workbench.debug.viewlet.action.enableAllBreakpoints"@, "Enable All Breakpoints"@),
        ("workbench.debug.viewlet.action.disableAllBreakpoints"@, "Disable All Breakpoints"@),
        ("editor.action.smartSelect.expand"@, "Expand Selection"@),
        ("editor.action.smartSelect.shrink"@, "Shrink Selection"@),
        ("editor.action.selectHighlights"@, "Add Cursors to Line Selections"@),
        ("editor.action.wordWrap"@, "Toggle Word Wrap"@),
        ("editor.action.triggerSuggest"@, "Trigger Suggest"@),
        ("acceptSelectedSuggestion"@, "Accept Suggestion"@),
        ("hideSuggestWidget"@, "Hide Suggest Widget"@),
        ("editor.action.quickFix"@, "Quick Fix..."@),
        ("editor.action.rename"@, "Rename Symbol"@),
        ("editor.action.formatDocument"@, "Format Document"@),
        ("editor.action.formatSelection"@, "Format Selection"@),
        ("editor.action.organizeImports"@, "Organize Imports"@),
        ("editor.action.sourceAction"@, "Source Action..."@),
        ("editor.action.refactor"@, "Refactor..."@),
        ("editor.fold"@, "Fold"@),
        ("editor.unfold"@, "Unfold"@),
        ("editor.foldAll"@, "Fold All"@),
        ("editor.unfoldAll"@, "Unfold All"@),
        ("editor.foldAllBlockComments"@, "Fold All Block Comments"@),
        ("editor.foldAllMarkerRegions"@, "Fold All Marker Regions"@),
        ("editor.unfoldAllMarkerRegions"@, "Unfold All Marker Regions"@),
        ("editor.foldRecursively"@, "Fold Recursively"@),
        ("editor.unfoldRecursively"@, "Unfold Recursively"@),
        ("editor.foldLevel1"@, "Fold Level 1"@),
        ("editor.foldLevel2"@, "Fold Level 2"@),
        ("editor.foldLevel3"@, "Fold Level 3"@),
        ("editor.foldLevel4"@, "Fold Level 4"@),
        ("editor.foldLevel5"@, "Fold Level 5"@),
        ("editor.foldLevel6"@, "Fold Level 6"@),
        ("editor.foldLevel7"@, "Fold Level 7"@),
        ("editor.toggleFold"@, "Toggle Fold"@),
        ("editor.action.fontZoomIn"@, "Font Zoom In"@),
        ("editor.action.fontZoomOut"@, "Font Zoom Out"@),
        ("editor.action.fontZoomReset"@, "Font Zoom Reset"@),
        ("workbench.action.openSettings"@, "Open Settings"@),
        ("workbench.action.openKeybindings"@, "Open Keyboard Shortcuts"@),
        ("workbench.action.openKeybindingsJSON"@, "Open Keyboard Shortcuts (JSON)"@),
        ("workbench.action.openSettingsJson"@, "Open User Settings (JSON)"@),
        ("workbench.action.openWorkspaceSettings"@, "Open Workspace Settings"@),
        ("workbench.action.openWorkspaceSettingsJSON"@, "Open Workspace Settings (JSON)"@),
        ("workbench.action.openFolderSettings"@, "Open Folder Settings"@),
        ("workbench.action.selectTheme"@, "Color Theme"@),
        ("workbench.action.selectIconTheme"@, "File Icon Theme"@),
        ("workbench.action.toggleActivityBarVisibility"@, "Toggle Activity Bar Visibility"@),
        ("workbench.action.toggleStatusbarVisibility"@, "Toggle Status Bar Visibility"@),
        ("workbench.action.toggleZenMode"@, "Toggle Zen Mode"@),
        ("workbench.action.toggleCenteredLayout"@, "Toggle Centered Layout"@),
        ("workbench.action.toggleMenuBar"@, "Toggle Menu Bar"@),
        ("workbench.action.toggleBreadcrumbs"@, "Toggle Breadcrumbs"@),
        ("workbench.action.toggleTabsVisibility"@, "Toggle Tabs Visibility"@),
        ("workbench.action.showAllSymbols"@, "Go to Symbol in Workspace..."@),
        ("workbench.action.showAllEditors"@, "Show All Editors"@),
        ("workbench.action.showAllEditorsByMostRecentlyUsed"@, "Show All Editors By Most Recently Used"@),
        ("workbench.action.quickOpenPreviousEditor"@, "Open Previous Editor from History"@),
        ("workbench.action.quickOpenNavigateNext"@, "Navigate to Next Quick Open Item"@),
        ("workbench.action.quickOpenNavigatePrevious"@, "Navigate to Previous Quick Open Item"@),
        ("workbench.action.closeOtherEditors"@, "Close Other Editors"@),
        ("workbench.action.closeEditorsInGroup"@, "Close All Editors in Group"@),
        ("workbench.action.closeEditorsToTheLeft"@, "Close Editors to the Left"@),
        ("workbench.action.closeEditorsToTheRight"@, "Close Editors to the Right"@),
        ("workbench.action.pinEditor"@, "Pin Editor"@),
        ("workbench.action.unpinEditor"@, "Unpin Editor"@),
        ("workbench.action.files.openFolder"@, "Open Folder..."@),
        ("workbench.action.previousEditor"@, "Previous Editor"@),
        ("workbench.action.nextEditor"@, "Next Editor"@),
        ("workbench.action.splitEditorDown"@, "Split Editor Down"@),
        ("workbench.action.reloadWindow"@, "Reload Window"@),
        ("workbench.action.newWindow"@, "New Window"@),
        ("workbench.action.closeWindow"@, "Close Window"@),
        ("workbench.action.focusFirstEditorGroup"@, "Focus First Editor Group"@),
        ("workbench.action.focusSecondEditorGroup"@, "Focus Second Editor Group"@),
        ("workbench.action.focusThirdEditorGroup"@, "Focus Third Editor Group"@),
        ("workbench.action.focusFourthEditorGroup"@, "Focus Fourth Editor Group"@),
        ("workbench.action.focusFifthEditorGroup"@, "Focus Fifth Editor Group"@),
        ("workbench.action.focusNextGroup"@, "Focus Next Editor Group"@),
        ("workbench.action.focusPreviousGroup"@, "Focus Previous Editor Group"@),
        ("workbench.action.moveEditorToNextGroup"@, "Move Editor to Next Group"@),
        ("workbench.action.moveEditorToPreviousGroup"@, "Move Editor to Previous Group"@),
        ("workbench.action.moveEditorToFirstGroup"@, "Move Editor to First Group"@),
        ("workbench.action.moveEditorToLastGroup"@, "Move Editor to Last Group"@),
        ("workbench.action.splitEditorLeft"@, "Split Editor Left"@),
        ("workbench.action.splitEditorUp"@, "Split Editor Up"@),
        ("workbench.action.splitEditorOrthogonal"@, "Split Editor Orthogonal"@),
        ("workbench.action.toggleEditorGroupLayout"@, "Toggle Editor Group Layout"@),
        ("workbench.action.maximizeEditor"@, "Toggle Maximise Editor Group"@),
        ("workbench.action.evenEditorWidths"@, "Reset Editor Group Sizes"@),
        ("workbench.action.closeGroup"@, "Close Editor Group"@),
        ("git.commit"@, "Git: Commit"@),
        ("git.commitStaged"@, "Git: Commit Staged"@),
        ("git.commitAll"@, "Git: Commit All"@),
        ("git.push"@, "Git: Push"@),
        ("git.pushForce"@, "Git: Push (Force)"@),
        ("git.pull"@, "Git: Pull"@),
        ("git.pullRebase"@, "Git: Pull (Rebase)"@),
        ("git.sync"@, "Git: Sync"@),
        ("git.checkout"@, "Git: Checkout to..."@),
        ("git.branch"@, "Git: Create Branch..."@),
        ("git.deleteBranch"@, "Git: Delete Branch..."@),
        ("git.merge"@, "Git: Merge Branch..."@),
        ("git.rebase"@, "Git: Rebase Branch..."@),
        ("git.stash"@, "Git: Stash"@),
        ("git.stashPop"@, "Git: Pop Stash..."@),
        ("git.stashDrop"@, "Git: Drop Stash..."@),
        ("git.stage"@, "Git: Stage Changes"@),
        ("git.stageAll"@, "Git: Stage All Changes"@),
        ("git.unstage"@, "Git: Unstage Changes"@),
        ("git.unstageAll"@, "Git: Unstage All Changes"@),
        ("git.clean"@, "Git: Discard Changes"@),
        ("git.cleanAll"@, "Git: Discard All Changes"@),
        ("git.openChange"@, "Git: Open Changes"@),
        ("git.openFile"@, "Git: Open File"@),
        ("git.init"@, "Git: Initialize Repository"@),
        ("git.clone"@, "Git: Clone..."@),
        ("git.fetch"@, "Git: Fetch"@),
        ("git.fetchPrune"@, "Git: Fetch (Prune)"@),
        ("git.addRemote"@, "Git: Add Remote..."@),
        ("git.removeRemote"@, "Git: Remove Remote..."@),
        ("git.publish"@, "Git: Publish Branch..."@),
        ("git.showOutput"@, "Git: Show Git Output"@),
        ("git.timeline.openDiff"@, "Git: Open Timeline Diff"@),
        ("workbench.action.tasks.runTask"@, "Run Task..."@),
        ("workbench.action.tasks.build"@, "Run Build Task"@),
        ("workbench.action.tasks.test"@, "Run Test Task"@),
        ("workbench.action.tasks.terminate"@, "Terminate Task"@),
        ("workbench.action.tasks.restartTask"@, "Restart Running Task"@),
        ("workbench.action.tasks.showLog"@, "Show Task Log"@),
        ("workbench.action.tasks.configureTaskRunner"@, "Configure Task Runner"@),
        ("workbench.action.tasks.configureDefaultBuildTask"@, "Configure Default Build Task"@),
        ("workbench.action.tasks.configureDefaultTestTask"@, "Configure Default Test Task"@),
        ("workbench.action.tasks.reRunTask"@, "Rerun Last Task"@),
        ("workbench.extensions.installExtension"@, "Install Extension..."@),
        ("workbench.extensions.uninstallExtension"@, "Uninstall Extension"@),
        ("workbench.extensions.action.enableAll"@, "Enable All Extensions"@),
        ("workbench.extensions.action.disableAll"@, "Disable All Extensions"@),
        ("workbench.extensions.action.showInstalledExtensions"@, "Show Installed Extensions"@),
        ("workbench.extensions.action.showEnabledExtensions"@, "Show Enabled Extensions"@),
        ("workbench.extensions.action.showDisabledExtensions"@, "Show Disabled Extensions"@),
        ("workbench.extensions.action.showRecommendedExtensions"@, "Show Recommended Extensions"@),
        ("workbench.extensions.action.showPopularExtensions"@, "Show Popular Extensions"@),
        ("workbench.extensions.action.checkForUpdates"@, "Check for Extension Updates"@),
        ("workbench.extensions.action.updateAllExtensions"@, "Update All Extensions"@),
        ("workbench.action.openSnippets"@, "Configure User Snippets"@),
        ("workbench.action.configureLanguageBasedSettings"@, "Configure Language Specific Settings"@),
        ("workbench.action.openGlobalKeybindings"@, "Open Keyboard Shortcuts"@),
        ("workbench.profiles.import"@, "Import Settings Profile..."@),
        ("workbench.profiles.export"@, "Export Settings Profile..."@),
        ("workbench.action.toggleEditorWidths"@, "Toggle Editor Widths"@),
        ("workbench.action.toggleWordWrap"@, "Toggle Word Wrap"@),
        ("editor.action.toggleMinimap"@, "Toggle Minimap"@),
        ("workbench.action.toggleRenderWhitespace"@, "Toggle Render Whitespace"@),
        ("workbench.action.toggleRenderControlCharacters"@, "Toggle Render Control Characters"@),
        ("workbench.action.toggleScreencastMode"@, "Toggle Screencast Mode"@),
        ("breadcrumbs.focus"@, "Focus Breadcrumbs"@),
        ("breadcrumbs.focusNext"@, "Focus Next Breadcrumb"@),
        ("breadcrumbs.focusPrevious"@, "Focus Previous Breadcrumb"@),
        ("breadcrumbs.selectFocused"@, "Select Focused Breadcrumb"@),
        ("breadcrumbs.toggleToOn"@, "Enable Breadcrumbs"@),
        ("breadcrumbs.toggleToOff"@, "Disable Breadcrumbs"@),
        ("workbench.action.compareEditor.nextChange"@, "Next Change"@),
        ("workbench.action.compareEditor.previousChange"@, "Previous Change"@),
        ("workbench.files.action.compareWithClipboard"@, "Compare Active File with Clipboard"@),
        ("workbench.files.action.compareWithSaved"@, "Compare Active File with Saved"@),
        ("workbench.files.action.compareNewUntitledTextFiles"@, "Compare New Untitled Text Files"@),
        ("markdown.showPreview"@, "Markdown: Open Preview"@),
        ("markdown.showPreviewToSide"@, "Markdown: Open Preview to the Side"@),
        ("markdown.extension.toggleBold"@, "Markdown: Toggle Bold"@),
        ("markdown.extension.toggleItalic"@, "Markdown: Toggle Italic"@),
        ("markdown.extension.toggleStrikethrough"@, "Markdown: Toggle Strikethrough"@),
        ("editor.action.insertSnippet"@, "Insert Snippet..."@),
        ("editor.action.showSnippets"@, "Show Snippets"@),
        ("editor.action.nextSnippetPlaceholder"@, "Next Snippet Placeholder"@),
        ("editor.action.prevSnippetPlaceholder"@, "Previous Snippet Placeholder"@),
        ("editor.emmet.action.expandAbbreviation"@, "Emmet: Expand Abbreviation"@),
        ("editor.emmet.action.wrapWithAbbreviation"@, "Emmet: Wrap with Abbreviation"@),
        ("editor.emmet.action.removeTag"@, "Emmet: Remove Tag"@),
        ("editor.emmet.action.balanceIn"@, "Emmet: Balance Inward"@),
        ("editor.emmet.action.balanceOut"@, "Emmet: Balance Outward"@),
        ("editor.emmet.action.nextEditPoint"@, "Emmet: Next Edit Point"@),
        ("editor.emmet.action.prevEditPoint"@, "Emmet: Previous Edit Point"@),
        ("editor.action.accessibilityHelp"@, "Open Accessibility Help"@),
        ("workbench.action.toggleScreenReaderOptimized"@, "Toggle Screen Reader Optimized Mode"@),
        ("editor.action.inspectTokens"@, "Developer: Inspect Editor Tokens and Scopes"@),
        ("workbench.action.toggleDevTools"@, "Developer: Toggle Developer Tools"@),
        ("workbench.action.openProcessExplorer"@, "Developer: Open Process Explorer"@),
        ("notifications.clearAll"@, "Clear All Notifications"@),
        ("notifications.toggleList"@, "Toggle Notifications"@),
        ("notifications.focusToasts"@, "Focus Notification Toasts"@),
        ("workbench.view.scm"@, "Show Source Control"@),
        ("workbench.scm.action.acceptInput"@, "SCM: Accept Input"@),
        ("workbench.view.explorer"@, "Show Explorer"@),
        ("workbench.view.search"@, "Show Search"@),
        ("workbench.view.debug"@, "Show Run and Debug"@),
        ("workbench.view.extensions"@, "Show Extensions"@),
        ("workbench.action.output.toggleOutput"@, "Toggle Output"@),
        ("workbench.action.problems.focus"@, "Focus Problems Panel"@),
        ("workbench.debug.action.toggleRepl"@, "Toggle Debug Console"@),
        ("workbench.action.focusSideBar"@, "Focus Side Bar"@),
        ("workbench.action.focusPanel"@, "Focus Panel"@),
        ("workbench.action.focusActiveEditorGroup"@, "Focus Active Editor Group"@),
        ("workbench.action.terminal.focus"@, "Focus Terminal"@),
        ("workbench.action.focusStatusBar"@, "Focus Status Bar"@),
        ("workbench.action.openView"@, "Open View..."@),
        ("workbench.action.quickOpenView"@, "Quick Open View"@),
        ("workbench.action.toggleMaximizedPanel"@, "Toggle Maximised Panel"@),
        ("workbench.action.toggleSidebarPosition"@, "Toggle Sidebar Position"@),
        ("workbench.action.togglePanelPosition"@, "Toggle Panel Position"@),
        ("workbench.action.moveSideBarLeft"@, "Move Side Bar Left"@),
        ("workbench.action.moveSideBarRight"@, "Move Side Bar Right"@),
        ("workbench.action.closePanel"@, "Close Panel"@),
        ("workbench.action.closeSidebar"@, "Close Sidebar"@),
        ("workbench.action.openRecent"@, "Open Recent..."@),
        ("workbench.action.clearRecentFiles"@, "Clear Recently Opened"@),
        ("workbench.action.showAboutDialog"@, "About"@),
        ("workbench.action.openDocumentationUrl"@, "Documentation"@),
        ("workbench.action.openTipsAndTricksUrl"@, "Tips and Tricks"@),
        ("workbench.action.reportIssue"@, "Report Issue"@),
        ("workbench.action.openIssueReporter"@, "Open Issue Reporter"@),
        ("workbench.action.checkForUpdates"@, "Check for Updates"@),
        ("editor.action.goToLine"@, "Go to Line/Column..."@),
        ("editor.action.marker.nextInFiles"@, "Go to Next Problem"@),
        ("editor.action.marker.prevInFiles"@, "Go to Previous Problem"@),
        ("editor.action.marker.next"@, "Go to Next Problem in File"@),
        ("editor.action.marker.prev"@, "Go to Previous Problem in File"@),
    ]
}

/// The ids of a table, each at its first registration, in order.
pub open spec fn first_ids(table: Seq<(Seq<char>, Seq<char>)>) -> Seq<Seq<char>>
    decreases table.len(),
{
    if table.len() == 0 {
        Seq::empty()
    } else if lookup(table.drop_last(), table.last().0) is Some {
        first_ids(table.drop_last())
    } else {
        first_ids(table.drop_last()).push(table.last().0)
    }
}

/// A key is found exactly when some pair holds it.
pub proof fn lemma_lookup_found(table: Seq<(Seq<char>, Seq<char>)>, key: Seq<char>)
    ensures
        (lookup(table, key) is Some) == (exists|i: int| 0 <= i < table.len() && #[trigger] table[i].0 == key),
    decreases table.len(),
{
    if table.len() > 0 {
        lemma_lookup_found(table.drop_last(), key);
        if table.last().0 != key {
            if exists|i: int| 0 <= i < table.len() && #[trigger] table[i].0 == key {
                let i = choose|i: int| 0 <= i < table.len() && #[trigger] table[i].0 == key;
                assert(table.drop_last()[i].0 == key);
            }
        }
    }
}

/// The first registrations list each id once, and list exactly the ids
/// that are registered.
pub proof fn lemma_first_ids(table: Seq<(Seq<char>, Seq<char>)>)
    ensures
        first_ids(table).no_duplicates(),
        forall|k: Seq<char>| #[trigger] first_ids(table).contains(k) == (lookup(table, k) is Some),
    decreases table.len(),
{
    broadcast use vstd::seq_lib::group_seq_properties;

    if table.len() > 0 {
        let init = table.drop_last();
        let last = table.last().0;
        lemma_first_ids(init);
        let fi = first_ids(init);
        if lookup(init, last) is None {
            assert(!fi.contains(last));
            let r = fi.push(last);
            assert forall|i: int, j: int| 0 <= i < r.len() && 0 <= j < r.len() && i != j implies r[i] != r[j] by {
                if i < fi.len() && j < fi.len() {
                } else if i < fi.len() {
                    assert(fi.contains(fi[i]));
                } else {
                    assert(fi.contains(fi[j]));
                }
            }
        }
    }
}

/// The registry of built-in commands: their ids and labels. Running a
/// command acts on the whole application and is the application's part.
pub struct CommandRegistry {
    commands: Vec<(String, String)>,
    /// Recently closed editors, for reopening (file paths).
    pub recently_closed: Vec<String>,
}

impl CommandRegistry {
    /// The registrations, in order.
    pub closed spec fn table(&self) -> Seq<(Seq<char>, Seq<char>)> {
        pair_views(self.commands@)
    }

    /// The recently closed editors.
    pub closed spec fn closed_editors(&self) -> Seq<String> {
        self.recently_closed@
    }

    /// The registry of every built-in command.
    pub fn new() -> (r: Self)
        ensures
            r.table() == builtin_commands(),
            r.closed_editors().len() == 0,
    {
        let pairs: Vec<(&str, &str)> = vec![
            ("workbench.action.files.newUntitledFile", "New File"),
            ("workbench.action.files.openFile", "Open File..."),
            ("workbench.action.files.save", "Save"),
            ("workbench.action.files.saveAs", "Save As..."),
            ("workbench.action.files.saveAll", "Save All"),
            ("workbench.action.closeActiveEditor", "Close Editor"),
            ("workbench.action.closeAllEditors", "Close All Editors"),
            ("workbench.action.reopenClosedEditor", "Reopen Closed Editor"),
            ("editor.action.undo", "Undo"),
            ("editor.action.redo", "Redo"),
            ("editor.action.clipboardCutAction", "Cut"),
            ("editor.action.clipboardCopyAction", "Copy"),
            ("editor.action.clipboardPasteAction", "Paste"),
            ("editor.action.selectAll", "Select All"),
            ("editor.action.commentLine", "Toggle Line Comment"),
            ("editor.action.blockComment", "Toggle Block Comment"),
            ("editor.action.indentLines", "Indent Lines"),
            ("editor.action.outdentLines", "Outdent Lines"),
            ("editor.action.moveLinesUpAction", "Move Lines Up"),
            ("editor.action.moveLinesDownAction", "Move Lines Down"),
            ("editor.action.copyLinesUpAction", "Copy Lines Up"),
            ("editor.action.copyLinesDownAction", "Copy Lines Down"),
            ("editor.action.deleteLines", "Delete Lines"),
            ("editor.action.joinLines", "Join Lines"),
            ("editor.action.sortLinesAscending", "Sort Lines Ascending"),
            ("editor.action.sortLinesDescending", "Sort Lines Descending"),
            ("editor.action.trimTrailingWhitespace", "Trim Trailing Whitespace"),
            ("editor.action.transformToUppercase", "Transform to Uppercase"),
            ("editor.action.transformToLowercase", "Transform to Lowercase"),
            ("editor.action.insertLineAfter", "Insert Line Below"),
            ("editor.action.insertLineBefore", "Insert Line Above"),
            ("editor.action.transposeLetters", "Transpose Characters"),
            ("editor.action.transpose", "Transpose"),
            ("editor.action.addSelectionToNextFindMatch", "Add Selection to Next Find Match"),
            ("editor.action.addCursorsToBottom", "Add Cursors to Bottom"),
            ("editor.action.addCursorsToTop", "Add Cursors to Top"),
            ("editor.action.duplicateSelection", "Duplicate Selection"),
            ("editor.action.removeDuplicateLines", "Remove Duplicate Lines"),
            ("editor.action.transformToTitlecase", "Transform to Title Case"),
            ("editor.action.transformToSnakecase", "Transform to Snake Case"),
            ("editor.action.transformToCamelcase", "Transform to Camel Case"),
            ("editor.action.transformToKebabcase", "Transform to Kebab Case"),
            ("workbench.action.quickOpen", "Go to File..."),
            ("workbench.action.showCommands", "Command Palette..."),
            ("workbench.action.gotoLine", "Go to Line..."),
            ("editor.action.goToDeclaration", "Go to Declaration"),
            ("editor.action.goToImplementation", "Go to Implementation"),
            ("editor.action.goToReferences", "Go to References"),
            ("editor.action.revealDefinition", "Go to Definition"),
            ("editor.action.goToTypeDefinition", "Go to Type Definition"),
            ("editor.action.referenceSearch.trigger", "Peek References"),
            ("editor.action.peekDefinition", "Peek Definition"),
            ("editor.action.peekImplementation", "Peek Implementation"),
            ("editor.action.peekTypeDefinition", "Peek Type Definition"),
            ("editor.action.showHover", "Show Hover"),
            ("editor.action.triggerParameterHints", "Trigger Parameter Hints"),
            ("workbench.action.gotoSymbol", "Go to Symbol in Editor..."),
            ("workbench.action.navigateBack", "Go Back"),
            ("workbench.action.navigateForward", "Go Forward"),
            ("workbench.action.toggleSidebarVisibility", "Toggle Sidebar"),
            ("workbench.action.togglePanel", "Toggle Panel"),
            ("workbench.action.terminal.toggleTerminal", "Toggle Terminal"),
            ("workbench.action.zoomIn", "Zoom In"),
            ("workbench.action.zoomOut", "Zoom Out"),
            ("workbench.action.zoomReset", "Reset Zoom"),
            ("workbench.action.toggleFullScreen", "Toggle Full Screen"),
            ("workbench.action.splitEditor", "Split Editor Right"),
            ("workbench.action.splitEditorDown", "Split Editor Down"),
            ("actions.find", "Find"),
            ("editor.action.startFindReplaceAction", "Find and Replace"),
            ("editor.action.nextMatchFindAction", "Find Next"),
            ("editor.action.previousMatchFindAction", "Find Previous"),
            ("workbench.action.findInFiles", "Search in Files"),
            ("workbench.action.terminal.new", "New Terminal"),
            ("workbench.action.terminal.split", "Split Terminal"),
            ("workbench.action.terminal.kill", "Kill Terminal"),
            ("workbench.action.terminal.clear", "Clear Terminal"),
            ("workbench.action.terminal.focusNext", "Focus Next Terminal"),
            ("workbench.action.terminal.focusPrevious", "Focus Previous Terminal"),
            ("workbench.action.terminal.rename", "Rename Terminal"),
            ("workbench.action.terminal.sendSequence", "Send Sequence to Terminal"),
            ("workbench.action.terminal.scrollUp", "Terminal: Scroll Up"),
            ("workbench.action.terminal.scrollDown", "Terminal: Scroll Down"),
            ("workbench.action.terminal.scrollToTop", "Terminal: Scroll to Top"),
            ("workbench.action.terminal.scrollToBottom", "Terminal: Scroll to Bottom"),
            ("workbench.action.terminal.selectAll", "Terminal: Select All"),
            ("workbench.action.terminal.copySelection", "Terminal: Copy Selection"),
            ("workbench.action.terminal.paste", "Terminal: Paste"),
            ("workbench.action.terminal.runSelectedText", "Terminal: Run Selected Text"),
            ("workbench.action.terminal.runActiveFile", "Terminal: Run Active File"),
            ("workbench.action.terminal.changeIcon", "Terminal: Change Icon"),
            ("workbench.action.terminal.changeColor", "Terminal: Change Color"),
            ("workbench.action.debug.start", "Start Debugging"),
            ("workbench.action.debug.run", "Run Without Debugging"),
            ("workbench.action.debug.stop", "Stop Debugging"),
            ("workbench.action.debug.restart", "Restart Debugging"),
            ("editor.debug.action.toggleBreakpoint", "Toggle Breakpoint"),
            ("editor.debug.action.conditionalBreakpoint", "Add Conditional Breakpoint..."),
            ("editor.debug.action.toggleInlineBreakpoint", "Toggle Inline Breakpoint"),
            ("editor.debug.action.addLogPoint", "Add Log Point..."),
            ("workbench.action.debug.stepOver", "Step Over"),
            ("workbench.action.debug.stepInto", "Step Into"),
            ("workbench.action.debug.stepOut", "Step Out"),
            ("workbench.action.debug.continue", "Continue"),
            ("workbench.action.debug.pause", "Pause"),
            ("workbench.action.debug.selectandstart", "Select and Start Debugging"),
            ("workbench.action.debug.configure", "Open launch.json"),
            ("editor.debug.action.runToCursor", "Run to Cursor"),
            ("workbench.debug.viewlet.action.addFunctionBreakpoint", "Add Function Breakpoint..."),
            ("workbench.debug.viewlet.action.removeAllBreakpoints", "Remove All Breakpoints"),
            ("workbench.debug.viewlet.action.enableAllBreakpoints", "Enable All Breakpoints"),
            ("workbench.debug.viewlet.action.disableAllBreakpoints", "Disable All Breakpoints"),
            ("editor.action.smartSelect.expand", "Expand Selection"),
            ("editor.action.smartSelect.shrink", "Shrink Selection"),
            ("editor.action.selectHighlights", "Add Cursors to Line Selections"),
            ("editor.action.wordWrap", "Toggle Word Wrap"),
            ("editor.action.triggerSuggest", "Trigger Suggest"),
            ("acceptSelectedSuggestion", "Accept Suggestion"),
            ("hideSuggestWidget", "Hide Suggest Widget"),
            ("editor.action.quickFix", "Quick Fix..."),
            ("editor.action.rename", "Rename Symbol"),
            ("editor.action.formatDocument", "Format Document"),
            ("editor.action.formatSelection", "Format Selection"),
            ("editor.action.organizeImports", "Organize Imports"),
            ("editor.action.sourceAction", "Source Action..."),
            ("editor.action.refactor", "Refactor..."),
            ("editor.fold", "Fold"),
            ("editor.unfold", "Unfold"),
            ("editor.foldAll", "Fold All"),
            ("editor.unfoldAll", "Unfold All"),
            ("editor.foldAllBlockComments", "Fold All Block Comments"),
            ("editor.foldAllMarkerRegions", "Fold All Marker Regions"),
            ("editor.unfoldAllMarkerRegions", "Unfold All Marker Regions"),
            ("editor.foldRecursively", "Fold Recursively"),
            ("editor.unfoldRecursively", "Unfold Recursively"),
            ("editor.foldLevel1", "Fold Level 1"),
            ("editor.foldLevel2", "Fold Level 2"),
            ("editor.foldLevel3", "Fold Level 3"),
            ("editor.foldLevel4", "Fold Level 4"),
            ("editor.foldLevel5", "Fold Level 5"),
            ("editor.foldLevel6", "Fold Level 6"),
            ("editor.foldLevel7", "Fold Level 7"),
            ("editor.toggleFold", "Toggle Fold"),
            ("editor.action.fontZoomIn", "Font Zoom In"),
            ("editor.action.fontZoomOut", "Font Zoom Out"),
            ("editor.action.fontZoomReset", "Font Zoom Reset"),
            ("workbench.action.openSettings", "Open Settings"),
            ("workbench.action.openKeybindings", "Open Keyboard Shortcuts"),
            ("workbench.action.openKeybindingsJSON", "Open Keyboard Shortcuts (JSON)"),
            ("workbench.action.openSettingsJson", "Open User Settings (JSON)"),
            ("workbench.action.openWorkspaceSettings", "Open Workspace Settings"),
            ("workbench.action.openWorkspaceSettingsJSON", "Open Workspace Settings (JSON)"),
            ("workbench.action.openFolderSettings", "Open Folder Settings"),
            ("workbench.action.selectTheme", "Color Theme"),
            ("workbench.action.selectIconTheme", "File Icon Theme"),
            ("workbench.action.toggleActivityBarVisibility", "Toggle Activity Bar Visibility"),
            ("workbench.action.toggleStatusbarVisibility", "Toggle Status Bar Visibility"),
            ("workbench.action.toggleZenMode", "Toggle Zen Mode"),
            ("workbench.action.toggleCenteredLayout", "Toggle Centered Layout"),
            ("workbench.action.toggleMenuBar", "Toggle Menu Bar"),
            ("workbench.action.toggleBreadcrumbs", "Toggle Breadcrumbs"),
            ("workbench.action.toggleTabsVisibility", "Toggle Tabs Visibility"),
            ("workbench.action.showAllSymbols", "Go to Symbol in Workspace..."),
            ("workbench.action.showAllEditors", "Show All Editors"),
            ("workbench.action.showAllEditorsByMostRecentlyUsed", "Show All Editors By Most Recently Used"),
            ("workbench.action.quickOpenPreviousEditor", "Open Previous Editor from History"),
            ("workbench.action.quickOpenNavigateNext", "Navigate to Next Quick Open Item"),
            ("workbench.action.quickOpenNavigatePrevious", "Navigate to Previous Quick Open Item"),
            ("workbench.action.closeOtherEditors", "Close Other Editors"),
            ("workbench.action.closeEditorsInGroup", "Close All Editors in Group"),
            ("workbench.action.closeEditorsToTheLeft", "Close Editors to the Left"),
            ("workbench.action.closeEditorsToTheRight", "Close Editors to the Right"),
            ("workbench.action.pinEditor", "Pin Editor"),
            ("workbench.action.unpinEditor", "Unpin Editor"),
            ("workbench.action.files.openFolder", "Open Folder..."),
            ("workbench.action.previousEditor", "Previous Editor"),
            ("workbench.action.nextEditor", "Next Editor"),
            ("workbench.action.splitEditorDown", "Split Editor Down"),
            ("workbench.action.reloadWindow", "Reload Window"),
            ("workbench.action.newWindow", "New Window"),
            ("workbench.action.closeWindow", "Close Window"),
            ("workbench.action.focusFirstEditorGroup", "Focus First Editor Group"),
            ("workbench.action.focusSecondEditorGroup", "Focus Second Editor Group"),
            ("workbench.action.focusThirdEditorGroup", "Focus Third Editor Group"),
            ("workbench.action.focusFourthEditorGroup", "Focus Fourth Editor Group"),
            ("workbench.action.focusFifthEditorGroup", "Focus Fifth Editor Group"),
            ("workbench.action.focusNextGroup", "Focus Next Editor Group"),
            ("workbench.action.focusPreviousGroup", "Focus Previous Editor Group"),
            ("workbench.action.moveEditorToNextGroup", "Move Editor to Next Group"),
            ("workbench.action.moveEditorToPreviousGroup", "Move Editor to Previous Group"),
            ("workbench.action.moveEditorToFirstGroup", "Move Editor to First Group"),
            ("workbench.action.moveEditorToLastGroup", "Move Editor to Last Group"),
            ("workbench.action.splitEditorLeft", "Split Editor Left"),
            ("workbench.action.splitEditorUp", "Split Editor Up"),
            ("workbench.action.splitEditorOrthogonal", "Split Editor Orthogonal"),
            ("workbench.action.toggleEditorGroupLayout", "Toggle Editor Group Layout"),
            ("workbench.action.maximizeEditor", "Toggle Maximise Editor Group"),
            ("workbench.action.evenEditorWidths", "Reset Editor Group Sizes"),
            ("workbench.action.closeGroup", "Close Editor Group"),
            ("git.commit", "Git: Commit"),
            ("git.commitStaged", "Git: Commit Staged"),
            ("git.commitAll", "Git: Commit All"),
            ("git.push", "Git: Push"),
            ("git.pushForce", "Git: Push (Force)"),
            ("git.pull", "Git: Pull"),
            ("git.pullRebase", "Git: Pull (Rebase)"),
            ("git.sync", "Git: Sync"),
            ("git.checkout", "Git: Checkout to..."),
            ("git.branch", "Git: Create Branch..."),
            ("git.deleteBranch", "Git: Delete Branch..."),
            ("git.merge", "Git: Merge Branch..."),
            ("git.rebase", "Git: Rebase Branch..."),
            ("git.stash", "Git: Stash"),
            ("git.stashPop", "Git: Pop Stash..."),
            ("git.stashDrop", "Git: Drop Stash..."),
            ("git.stage", "Git: Stage Changes"),
            ("git.stageAll", "Git: Stage All Changes"),
            ("git.unstage", "Git: Unstage Changes"),
            ("git.unstageAll", "Git: Unstage All Changes"),
            ("git.clean", "Git: Discard Changes"),
            ("git.cleanAll", "Git: Discard All Changes"),
            ("git.openChange", "Git: Open Changes"),
            ("git.openFile", "Git: Open File"),
            ("git.init", "Git: Initialize Repository"),
            ("git.clone", "Git: Clone..."),
            ("git.fetch", "Git: Fetch"),
            ("git.fetchPrune", "Git: Fetch (Prune)"),
            ("git.addRemote", "Git: Add Remote..."),
            ("git.removeRemote", "Git: Remove Remote..."),
            ("git.publish", "Git: Publish Branch..."),
            ("git.showOutput", "Git: Show Git Output"),
            ("git.timeline.openDiff", "Git: Open Timeline Diff"),
            ("workbench.action.tasks.runTask", "Run Task..."),
            ("workbench.action.tasks.build", "Run Build Task"),
            ("workbench.action.tasks.test", "Run Test Task"),
            ("workbench.action.tasks.terminate", "Terminate Task"),
            ("workbench.action.tasks.restartTask", "Restart Running Task"),
            ("workbench.action.tasks.showLog", "Show Task Log"),
            ("workbench.action.tasks.configureTaskRunner", "Configure Task Runner"),
            ("workbench.action.tasks.configureDefaultBuildTask", "Configure Default Build Task"),
            ("workbench.action.tasks.configureDefaultTestTask", "Configure Default Test Task"),
            ("workbench.action.tasks.reRunTask", "Rerun Last Task"),
            ("workbench.extensions.installExtension", "Install Extension..."),
            ("workbench.extensions.uninstallExtension", "Uninstall Extension"),
            ("workbench.extensions.action.enableAll", "Enable All Extensions"),
            ("workbench.extensions.action.disableAll", "Disable All Extensions"),
            ("workbench.extensions.action.showInstalledExtensions", "Show Installed Extensions"),
            ("workbench.extensions.action.showEnabledExtensions", "Show Enabled Extensions"),
            ("workbench.extensions.action.showDisabledExtensions", "Show Disabled Extensions"),
            ("workbench.extensions.action.showRecommendedExtensions", "Show Recommended Extensions"),
            ("workbench.extensions.action.showPopularExtensions", "Show Popular Extensions"),
            ("workbench.extensions.action.checkForUpdates", "Check for Extension Updates"),
            ("workbench.extensions.action.updateAllExtensions", "Update All Extensions"),
            ("workbench.action.openSnippets", "Configure User Snippets"),
            ("workbench.action.configureLanguageBasedSettings", "Configure Language Specific Settings"),
            ("workbench.action.openGlobalKeybindings", "Open Keyboard Shortcuts"),
            ("workbench.profiles.import", "Import Settings Profile..."),
            ("workbench.profiles.export", "Export Settings Profile..."),
            ("workbench.action.toggleEditorWidths", "Toggle Editor Widths"),
            ("workbench.action.toggleWordWrap", "Toggle Word Wrap"),
            ("editor.action.toggleMinimap", "Toggle Minimap"),
            ("workbench.action.toggleRenderWhitespace", "Toggle Render Whitespace"),
            ("workbench.action.toggleRenderControlCharacters", "Toggle Render Control Characters"),
            ("workbench.action.toggleScreencastMode", "Toggle Screencast Mode"),
            ("breadcrumbs.focus", "Focus Breadcrumbs"),
            ("breadcrumbs.focusNext", "Focus Next Breadcrumb"),
            ("breadcrumbs.focusPrevious", "Focus Previous Breadcrumb"),
            ("breadcrumbs.selectFocused", "Select Focused Breadcrumb"),
            ("breadcrumbs.toggleToOn", "Enable Breadcrumbs"),
            ("breadcrumbs.toggleToOff", "Disable Breadcrumbs"),
            ("workbench.action.compareEditor.nextChange", "Next Change"),
            ("workbench.action.compareEditor.previousChange", "Previous Change"),
            ("workbench.files.action.compareWithClipboard", "Compare Active File with Clipboard"),
            ("workbench.files.action.compareWithSaved", "Compare Active File with Saved"),
            ("workbench.files.action.compareNewUntitledTextFiles", "Compare New Untitled Text Files"),
            ("markdown.showPreview", "Markdown: Open Preview"),
            ("markdown.showPreviewToSide", "Markdown: Open Preview to the Side"),
            ("markdown.extension.toggleBold", "Markdown: Toggle Bold"),
            ("markdown.extension.toggleItalic", "Markdown: Toggle Italic"),
            ("markdown.extension.toggleStrikethrough", "Markdown: Toggle Strikethrough"),
            ("editor.action.insertSnippet", "Insert Snippet..."),
            ("editor.action.showSnippets", "Show Snippets"),
            ("editor.action.nextSnippetPlaceholder", "Next Snippet Placeholder"),
            ("editor.action.prevSnippetPlaceholder", "Previous Snippet Placeholder"),
            ("editor.emmet.action.expandAbbreviation", "Emmet: Expand Abbreviation"),
            ("editor.emmet.action.wrapWithAbbreviation", "Emmet: Wrap with Abbreviation"),
            ("editor.emmet.action.removeTag", "Emmet: Remove Tag"),
            ("editor.emmet.action.balanceIn", "Emmet: Balance Inward"),
            ("editor.emmet.action.balanceOut", "Emmet: Balance Outward"),
            ("editor.emmet.action.nextEditPoint", "Emmet: Next Edit Point"),
            ("editor.emmet.action.prevEditPoint", "Emmet: Previous Edit Point"),
            ("editor.action.accessibilityHelp", "Open Accessibility Help"),
            ("workbench.action.toggleScreenReaderOptimized", "Toggle Screen Reader Optimized Mode"),
            ("editor.action.inspectTokens", "Developer: Inspect Editor Tokens and Scopes"),
            ("workbench.action.toggleDevTools", "Developer: Toggle Developer Tools"),
            ("workbench.action.openProcessExplorer", "Developer: Open Process Explorer"),
            ("notifications.clearAll", "Clear All Notifications"),
            ("notifications.toggleList", "Toggle Notifications"),
            ("notifications.focusToasts", "Focus Notification Toasts"),
            ("workbench.view.scm", "Show Source Control"),
            ("workbench.scm.action.acceptInput", "SCM: Accept Input"),
            ("workbench.view.explorer", "Show Explorer"),
            ("workbench.view.search", "Show Search"),
            ("workbench.view.debug", "Show Run and Debug"),
            ("workbench.view.extensions", "Show Extensions"),
            ("workbench.action.output.toggleOutput", "Toggle Output"),
            ("workbench.action.problems.focus", "Focus Problems Panel"),
            ("workbench.debug.action.toggleRepl", "Toggle Debug Console"),
            ("workbench.action.focusSideBar", "Focus Side Bar"),
            ("workbench.action.focusPanel", "Focus Panel"),
            ("workbench.action.focusActiveEditorGroup", "Focus Active Editor Group"),
            ("workbench.action.terminal.focus", "Focus Terminal"),
            ("workbench.action.focusStatusBar", "Focus Status Bar"),
            ("workbench.action.openView", "Open View..."),
            ("workbench.action.quickOpenView", "Quick Open View"),
            ("workbench.action.toggleMaximizedPanel", "Toggle Maximised Panel"),
            ("workbench.action.toggleSidebarPosition", "Toggle Sidebar Position"),
            ("workbench.action.togglePanelPosition", "Toggle Panel Position"),
            ("workbench.action.moveSideBarLeft", "Move Side Bar Left"),
            ("workbench.action.moveSideBarRight", "Move Side Bar Right"),
            ("workbench.action.closePanel", "Close Panel"),
            ("workbench.action.closeSidebar", "Close Sidebar"),
            ("workbench.action.openRecent", "Open Recent..."),
            ("workbench.action.clearRecentFiles", "Clear Recently Opened"),
            ("workbench.action.showAboutDialog", "About"),
            ("workbench.action.openDocumentationUrl", "Documentation"),
            ("workbench.action.openTipsAndTricksUrl", "Tips and Tricks"),
            ("workbench.action.reportIssue", "Report Issue"),
            ("workbench.action.openIssueReporter", "Open Issue Reporter"),
            ("workbench.action.checkForUpdates", "Check for Updates"),
            ("editor.action.goToLine", "Go to Line/Column..."),
            ("editor.action.marker.nextInFiles", "Go to Next Problem"),
            ("editor.action.marker.prevInFiles", "Go to Previous Problem"),
            ("editor.action.marker.next", "Go to Next Problem in File"),
            ("editor.action.marker.prev", "Go to Previous Problem in File"),
        ];
        let commands = owned_pairs(pairs.as_slice());
        assert(str_pair_views(pairs@) =~= builtin_commands());
        CommandRegistry { commands, recently_closed: Vec::new() }
    }

    /// Remembers a closed editor's path, for reopening.
    pub fn remember_closed(&mut self, path: String)
        ensures
            final(self).closed_editors() == old(self).closed_editors().push(path),
            final(self).table() == old(self).table(),
    {
        self.recently_closed.push(path);
    }

    /// Takes the most recently closed editor's path, if any.
    pub fn take_last_closed(&mut self) -> (r: Option<String>)
        ensures
            old(self).closed_editors().len() == 0 ==> r is None && *final(self) == *old(self),
            old(self).closed_editors().len() > 0 ==> r == Some(old(self).closed_editors().last())
                && final(self).closed_editors() == old(self).closed_editors().drop_last(),
            final(self).table() == old(self).table(),
    {
        if self.recently_closed.len() == 0 {
            return None;
        }
        self.recently_closed.pop()
    }

    /// Whether a command with id `id` is registered.
    pub fn has(&self, id: &str) -> (r: bool)
        ensures
            r == (lookup(self.table(), id@) is Some),
    {
        find_key(&self.commands, id).is_some()
    }

    /// The label of command `id`.
    pub fn label(&self, id: &str) -> (r: Option<&str>)
        ensures
            match lookup(self.table(), id@) {
                Some(l) => r matches Some(x) && x@ == l,
                None => r is None,
            },
    {
        match find_key(&self.commands, id) {
            Some(i) => Some(self.commands[i].1.as_str()),
            None => None,
        }
    }

    /// The registered ids, each once.
    pub fn ids(&self) -> (r: Vec<&str>)
        ensures
            r@.map_values(|s: &str| s@) == first_ids(self.table()),
    {
        let ghost t = pair_views(self.commands@);
        let mut out: Vec<&str> = Vec::new();
        let mut i: usize = 0;
        while i < self.commands.len()
            invariant
                i <= self.commands@.len(),
                t == pair_views(self.commands@),
                out@.map_values(|s: &str| s@) == first_ids(t.subrange(0, i as int)),
            decreases self.commands@.len() - i,
        {
            let id = self.commands[i].0.as_str();
            let mut seen = false;
            let mut j: usize = 0;
            while j < i
                invariant
                    j <= i,
                    i < self.commands@.len(),
                    t == pair_views(self.commands@),
                    id@ == t[i as int].0,
                    seen == (exists|k: int| 0 <= k < j && #[trigger] t[k].0 == id@),
                decreases i - j,
            {
                assert(t[j as int].0 == self.commands@[j as int].0@);
                if str_eq(self.commands[j].0.as_str(), id) {
                    seen = true;
                }
                j = j + 1;
            }
            let ghost prefix = t.subrange(0, i as int);
            proof {
                lemma_lookup_found(prefix, id@);
                assert(t.subrange(0, i + 1).drop_last() =~= prefix);
                assert(t.subrange(0, i + 1).last() == t[i as int]);
                if seen {
                    let k = choose|k: int| 0 <= k < i && #[trigger] t[k].0 == id@;
                    assert(prefix[k].0 == id@);
                }
                if exists|k: int| 0 <= k < prefix.len() && #[trigger] prefix[k].0 == id@ {
                    let k = choose|k: int| 0 <= k < prefix.len() && #[trigger] prefix[k].0 == id@;
                    assert(t[k].0 == id@);
                }
            }
            if !seen {
                let ghost before = out@;
                out.push(id);
                assert(out@.map_values(|s: &str| s@) =~= before.map_values(|s: &str| s@).push(id@));
            }
            i = i + 1;
        }
        assert(t.subrange(0, self.commands@.len() as int) =~= t);
        out
    }
}

impl Default for CommandRegistry {
    fn default() -> (r: Self)
        ensures
            r.table() == builtin_commands(),
            r.closed_editors().len() == 0,
    {
        CommandRegistry::new()
    }
}

} // verus!
