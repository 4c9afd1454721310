//! Sessions: what is remembered of each open file, and the hot-exit
//! entries that keep unsaved buffers across an exit. Storing them in the
//! database is the application's part.

use vstd::prelude::*;

use crate::text::{decimal, format_u64};

verus! {

/// What is remembered of one open file.
#[derive(Debug, Clone)]
pub struct OpenFileState {
    /// Absolute path (`None` for an untitled file).
    pub path: Option<String>,
    /// Cursor line (0-based).
    pub cursor_line: u32,
    /// Cursor column (0-based).
    pub cursor_column: u32,
    /// First visible line.
    pub scroll_line: u32,
    /// Whether the tab is pinned.
    pub is_pinned: bool,
}

/// An unsaved buffer kept across an exit.
#[derive(Debug, Clone)]
pub struct HotExitData {
    /// The file's path, or `untitled:N` for an untitled buffer.
    pub path: String,
    /// The buffer's content at exit.
    pub content: String,
    /// Cursor line at exit.
    pub cursor_line: u32,
    /// Cursor column at exit.
    pub cursor_column: u32,
    /// Whether the buffer was never saved.
    pub is_untitled: bool,
}

/// An open document as the shutdown path describes it: path (none when
/// untitled), content, cursor line, cursor column, and whether it has
/// unsaved changes.
pub type OpenDocument = (Option<String>, String, u32, u32, bool);

/// The hot-exit entry of an unsaved document.
pub open spec fn entry_for(d: OpenDocument, e: HotExitData) -> bool {
    &&& e.path@ == match d.0 {
        Some(p) => p@,
        None => "untitled:"@ + decimal(d.2 as nat),
    }
    &&& e.content@ == d.1@
    &&& e.cursor_line == d.2
    &&& e.cursor_column == d.3
    &&& e.is_untitled == (d.0 is None)
}

/// The unsaved documents, in order.
pub open spec fn unsaved(docs: Seq<OpenDocument>) -> Seq<OpenDocument> {
    docs.filter(|d: OpenDocument| d.4)
}

/// The hot-exit entries of the documents with unsaved changes, in order;
/// an untitled buffer is named after its cursor line.
pub fn collect_hot_exit_entries(documents: &[OpenDocument]) -> (r: Vec<HotExitData>)
    ensures
        r@.len() == unsaved(documents@).len(),
        forall|i: int| 0 <= i < r@.len() ==> entry_for(unsaved(documents@)[i], #[trigger] r@[i]),
{
    let mut out: Vec<HotExitData> = Vec::new();
    let mut i: usize = 0;
    while i < documents.len()
        invariant
            i <= documents@.len(),
            out@.len() == unsaved(documents@.subrange(0, i as int)).len(),
            forall|j: int|
                0 <= j < out@.len() ==> entry_for(
                    unsaved(documents@.subrange(0, i as int))[j],
                    #[trigger] out@[j],
                ),
        decreases documents@.len() - i,
    {
        proof {
            reveal(Seq::filter);
        }
        assert(documents@.subrange(0, i + 1).drop_last() =~= documents@.subrange(0, i as int));
        let d = &documents[i];
        if d.4 {
            let path = match &d.0 {
                Some(p) => p.clone(),
                None => {
                    let mut s = String::from_str("untitled:");
                    let n = format_u64(d.2 as u64);
                    s.append(n.as_str());
                    s
                },
            };
            out.push(
                HotExitData {
                    path,
                    content: d.1.clone(),
                    cursor_line: d.2,
                    cursor_column: d.3,
                    is_untitled: d.0.is_none(),
                },
            );
        }
        i = i + 1;
    }
    assert(documents@.subrange(0, documents@.len() as int) =~= documents@);
    out
}

} // verus!
