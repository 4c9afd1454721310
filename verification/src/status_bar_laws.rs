//! Laws of the status bar's editor items.

use vstd::prelude::*;

use crate::status_bar_controller::{editor_changes, ChangeKind, StatusBarUpdate};

verus! {

/// The indentation item tells the two modes apart: with an active editor,
/// the changes set the `editor.indent` text, and that text starts with
/// `Spaces: ` (not `Tab Size: `) when the editor indents with spaces, and
/// with `Tab Size: ` (not `Spaces: `) when it indents with tabs.
pub proof fn lemma_indent_label_names_mode(u: StatusBarUpdate)
    requires
        u.active_doc is Some,
    ensures
        exists|k: int|
            0 <= k < editor_changes(u).len() && (#[trigger] editor_changes(u)[k]).0 == ChangeKind::Text
                && editor_changes(u)[k].1 == "editor.indent"@ && if u.active_doc->0.use_tabs {
                "Tab Size: "@.is_prefix_of(editor_changes(u)[k].2) && !"Spaces: "@.is_prefix_of(
                    editor_changes(u)[k].2,
                )
            } else {
                "Spaces: "@.is_prefix_of(editor_changes(u)[k].2) && !"Tab Size: "@.is_prefix_of(
                    editor_changes(u)[k].2,
                )
            },
{
    reveal_strlit("Spaces: ");
    reveal_strlit("Tab Size: ");
    let d = u.active_doc->0;
    let c = editor_changes(u);
    let k: int = if d.selection is Some {
        10
    } else {
        9
    };
    assert(c[k].0 == ChangeKind::Text);
    assert(c[k].1 == "editor.indent"@);
    let label = c[k].2;
    if d.use_tabs {
        assert(label.subrange(0, 10) =~= "Tab Size: "@);
        assert(label[0] == 'T');
        assert(!"Spaces: "@.is_prefix_of(label)) by {
            assert("Spaces: "@[0] == 'S');
        }
    } else {
        assert(label.subrange(0, 8) =~= "Spaces: "@);
        assert(label[0] == 'S');
        assert(!"Tab Size: "@.is_prefix_of(label)) by {
            assert("Tab Size: "@[0] == 'T');
        }
    }
}

} // verus!
