//! Command Palette (Ctrl+Shift+P): command categories and the recently
//! used list that orders the palette.

use vstd::prelude::*;

use crate::fuzzy::{fuzzy, fuzzy_match};
use crate::text::{starts_with, str_eq, unicode_lower, views};

verus! {

/// Command categories, as the palette groups them.
#[derive(Debug, Clone, Copy, PartialEq, Eq, Structural, Hash)]
pub enum CommandCategory {
    File,
    Edit,
    Selection,
    View,
    Go,
    Run,
    Terminal,
    Debug,
    Help,
    Preferences,
    Other,
}

/// The display name of a category.
pub open spec fn category_label(c: CommandCategory) -> Seq<char> {
    match c {
        CommandCategory::File => "File"@,
        CommandCategory::Edit => "Edit"@,
        CommandCategory::Selection => "Selection"@,
        CommandCategory::View => "View"@,
        CommandCategory::Go => "Go"@,
        CommandCategory::Run => "Run"@,
        CommandCategory::Terminal => "Terminal"@,
        CommandCategory::Debug => "Debug"@,
        CommandCategory::Help => "Help"@,
        CommandCategory::Preferences => "Preferences"@,
        CommandCategory::Other => "Other"@,
    }
}

/// The command-id prefixes that decide a category, in the order they are
/// tried; the first prefix of the id decides.
pub open spec fn category_rules() -> Seq<(Seq<char>, CommandCategory)> {
    seq![
        ("workbench.action.files."@, CommandCategory::File),
        ("workbench.action.closeA"@, CommandCategory::File),
        ("workbench.action.reopen"@, CommandCategory::File),
        ("editor.action.clipboard"@, CommandCategory::Edit),
        ("editor.action.undo"@, CommandCategory::Edit),
        ("editor.action.redo"@, CommandCategory::Edit),
        ("editor.action.comment"@, CommandCategory::Edit),
        ("editor.action.blockComment"@, CommandCategory::Edit),
        ("editor.action.indent"@, CommandCategory::Edit),
        ("editor.action.outdent"@, CommandCategory::Edit),
        ("editor.action.moveLine"@, CommandCategory::Edit),
        ("editor.action.copyLine"@, CommandCategory::Edit),
        ("editor.action.deleteL"@, CommandCategory::Edit),
        ("editor.action.joinL"@, CommandCategory::Edit),
        ("editor.action.sortLine"@, CommandCategory::Edit),
        ("editor.action.trim"@, CommandCategory::Edit),
        ("editor.action.transform"@, CommandCategory::Edit),
        ("editor.action.insertLine"@, CommandCategory::Edit),
        ("editor.action.transpose"@, CommandCategory::Edit),
        ("editor.action.select"@, CommandCategory::Selection),
        ("editor.action.smartSelect"@, CommandCategory::Selection),
        ("editor.action.wordWrap"@, CommandCategory::Selection),
        ("workbench.action.toggle"@, CommandCategory::View),
        ("workbench.action.zoom"@, CommandCategory::View),
        ("workbench.action.split"@, CommandCategory::View),
        ("workbench.action.quickOpen"@, CommandCategory::Go),
        ("workbench.action.goto"@, CommandCategory::Go),
        ("workbench.action.navigate"@, CommandCategory::Go),
        ("workbench.action.showCommands"@, CommandCategory::Go),
        ("editor.action.goTo"@, CommandCategory::Go),
        ("editor.action.reveal"@, CommandCategory::Go),
        ("workbench.action.terminal"@, CommandCategory::Terminal),
        ("workbench.action.debug"@, CommandCategory::Debug),
        ("editor.debug"@, CommandCategory::Debug),
        ("actions.find"@, CommandCategory::Edit),
        ("editor.action.find"@, CommandCategory::Edit),
        ("workbench.action.findInFiles"@, CommandCategory::Edit),
    ]
}

/// The category of the first rule from `i` on whose prefix starts `id`
/// (`Other` when none does).
pub open spec fn first_rule_match(rules: Seq<(Seq<char>, CommandCategory)>, id: Seq<char>, i: int) -> CommandCategory
    decreases rules.len() - i,
{
    if i < 0 || i >= rules.len() {
        CommandCategory::Other
    } else if rules[i].0.is_prefix_of(id) {
        rules[i].1
    } else {
        first_rule_match(rules, id, i + 1)
    }
}

/// The category inferred from a command id.
pub open spec fn category_of(id: Seq<char>) -> CommandCategory {
    first_rule_match(category_rules(), id, 0)
}

impl CommandCategory {
    /// The display name of this category.
    pub fn as_str(self) -> (r: &'static str)
        ensures
            r@ == category_label(self),
    {
        match self {
            CommandCategory::File => "File",
            CommandCategory::Edit => "Edit",
            CommandCategory::Selection => "Selection",
            CommandCategory::View => "View",
            CommandCategory::Go => "Go",
            CommandCategory::Run => "Run",
            CommandCategory::Terminal => "Terminal",
            CommandCategory::Debug => "Debug",
            CommandCategory::Help => "Help",
            CommandCategory::Preferences => "Preferences",
            CommandCategory::Other => "Other",
        }
    }

    /// Infers the category from a command id's prefix.
    pub fn from_command_id(id: &str) -> (r: Self)
        ensures
            r == category_of(id@),
    {
        let rules: Vec<(&str, CommandCategory)> = vec![
            ("workbench.action.files.", CommandCategory::File),
            ("workbench.action.closeA", CommandCategory::File),
            ("workbench.action.reopen", CommandCategory::File),
            ("editor.action.clipboard", CommandCategory::Edit),
            ("editor.action.undo", CommandCategory::Edit),
            ("editor.action.redo", CommandCategory::Edit),
            ("editor.action.comment", CommandCategory::Edit),
            ("editor.action.blockComment", CommandCategory::Edit),
            ("editor.action.indent", CommandCategory::Edit),
            ("editor.action.outdent", CommandCategory::Edit),
            ("editor.action.moveLine", CommandCategory::Edit),
            ("editor.action.copyLine", CommandCategory::Edit),
            ("editor.action.deleteL", CommandCategory::Edit),
            ("editor.action.joinL", CommandCategory::Edit),
            ("editor.action.sortLine", CommandCategory::Edit),
            ("editor.action.trim", CommandCategory::Edit),
            ("editor.action.transform", CommandCategory::Edit),
            ("editor.action.insertLine", CommandCategory::Edit),
            ("editor.action.transpose", CommandCategory::Edit),
            ("editor.action.select", CommandCategory::Selection),
            ("editor.action.smartSelect", CommandCategory::Selection),
            ("editor.action.wordWrap", CommandCategory::Selection),
            ("workbench.action.toggle", CommandCategory::View),
            ("workbench.action.zoom", CommandCategory::View),
            ("workbench.action.split", CommandCategory::View),
            ("workbench.action.quickOpen", CommandCategory::Go),
            ("workbench.action.goto", CommandCategory::Go),
            ("workbench.action.navigate", CommandCategory::Go),
            ("workbench.action.showCommands", CommandCategory::Go),
            ("editor.action.goTo", CommandCategory::Go),
            ("editor.action.reveal", CommandCategory::Go),
            ("workbench.action.terminal", CommandCategory::Terminal),
            ("workbench.action.debug", CommandCategory::Debug),
            ("editor.debug", CommandCategory::Debug),
            ("actions.find", CommandCategory::Edit),
            ("editor.action.find", CommandCategory::Edit),
            ("workbench.action.findInFiles", CommandCategory::Edit),
        ];
        let ghost rv = rules@.map_values(|p: (&str, CommandCategory)| (p.0@, p.1));
        assert(rv =~= category_rules());
        let mut i: usize = 0;
        while i < rules.len()
            invariant
                i <= rules@.len(),
                rv == rules@.map_values(|p: (&str, CommandCategory)| (p.0@, p.1)),
                rv == category_rules(),
                first_rule_match(rv, id@, i as int) == first_rule_match(rv, id@, 0),
            decreases rules@.len() - i,
        {
            let (prefix, cat) = rules[i];
            assert(rv[i as int] == (prefix@, cat));
            if starts_with(id, prefix) {
                return cat;
            }
            i = i + 1;
        }
        CommandCategory::Other
    }
}

// ── Palette state ────────────────────────────────────────────────────────────

/// One row of the palette.
#[derive(Debug, Clone)]
pub struct CommandPaletteItem {
    /// Command id (e.g. `workbench.action.files.save`).
    pub id: String,
    /// Label shown to the user (e.g. "Save").
    pub label: String,
    /// The keybinding as displayed, if one is assigned.
    pub keybinding: Option<String>,
    /// Category for grouping (e.g. "File").
    pub category: Option<String>,
    /// Fuzzy match score (higher is better).
    pub score: u128,
    /// Positions in `label` that matched the query.
    pub match_positions: Vec<usize>,
}

/// The state of the palette dialog.
#[derive(Debug, Clone)]
pub struct CommandPaletteState {
    /// Whether the palette is shown.
    pub is_visible: bool,
    /// The typed text (without the `>` the input shows).
    pub input: String,
    /// The filtered and sorted rows.
    pub items: Vec<CommandPaletteItem>,
    /// The selected row.
    pub selected: usize,
    /// Recently used command ids, most recent first.
    pub recently_used: Vec<String>,
}

impl Default for CommandPaletteState {
    fn default() -> (r: Self)
        ensures
            !r.is_visible,
            r.input@.len() == 0,
            r.items@.len() == 0,
            r.selected == 0,
            r.recently_used@.len() == 0,
    {
        CommandPaletteState {
            is_visible: false,
            input: String::new(),
            items: Vec::new(),
            selected: 0,
            recently_used: Vec::new(),
        }
    }
}

impl CommandPaletteState {
    /// Opens the palette with an empty input and the first row selected.
    pub fn show(&mut self)
        ensures
            final(self).is_visible,
            final(self).input@.len() == 0,
            final(self).selected == 0,
            final(self).items == old(self).items,
            final(self).recently_used == old(self).recently_used,
    {
        self.is_visible = true;
        self.input = String::new();
        self.selected = 0;
    }

    /// Closes the palette and drops its rows.
    pub fn cancel(&mut self)
        ensures
            !final(self).is_visible,
            final(self).input@.len() == 0,
            final(self).items@.len() == 0,
            final(self).selected == 0,
            final(self).recently_used == old(self).recently_used,
    {
        self.is_visible = false;
        self.input = String::new();
        self.items = Vec::new();
        self.selected = 0;
    }

    /// Takes a new query; the selection returns to the first row.
    pub fn filter(&mut self, query: &str)
        ensures
            final(self).input@ == query@,
            final(self).selected == 0,
            final(self).is_visible == old(self).is_visible,
            final(self).items == old(self).items,
            final(self).recently_used == old(self).recently_used,
    {
        self.input = query.to_string();
        self.selected = 0;
    }

    /// Replaces the rows; a selection past the end returns to the first.
    pub fn set_items(&mut self, items: Vec<CommandPaletteItem>)
        ensures
            final(self).items == items,
            final(self).selected == (if old(self).selected >= items@.len() {
                0
            } else {
                old(self).selected
            }),
            final(self).is_visible == old(self).is_visible,
            final(self).input == old(self).input,
            final(self).recently_used == old(self).recently_used,
    {
        self.items = items;
        if self.selected >= self.items.len() {
            self.selected = 0;
        }
    }

    /// The rows shown.
    pub fn items(&self) -> (r: &[CommandPaletteItem])
        ensures
            r@ == self.items@,
    {
        self.items.as_slice()
    }

    /// Selects the next row, wrapping to the first.
    pub fn select_next(&mut self)
        requires
            old(self).selected < usize::MAX,
        ensures
            final(self).selected == next_row(old(self).selected as int, old(self).items@.len() as int),
            final(self).items == old(self).items,
            final(self).input == old(self).input,
            final(self).is_visible == old(self).is_visible,
            final(self).recently_used == old(self).recently_used,
    {
        if self.items.len() > 0 {
            self.selected = (self.selected + 1) % self.items.len();
        }
    }

    /// Selects the previous row, wrapping to the last.
    pub fn select_prev(&mut self)
        ensures
            final(self).selected == prev_row(old(self).selected as int, old(self).items@.len() as int),
            final(self).items == old(self).items,
            final(self).input == old(self).input,
            final(self).is_visible == old(self).is_visible,
            final(self).recently_used == old(self).recently_used,
    {
        if self.items.len() > 0 {
            self.selected = if self.selected == 0 {
                self.items.len() - 1
            } else {
                self.selected - 1
            };
        }
    }

    /// The selected row, if the selection points at one.
    pub fn selected_item(&self) -> (r: Option<&CommandPaletteItem>)
        ensures
            self.selected < self.items@.len() ==> r == Some(&self.items@[self.selected as int]),
            self.selected >= self.items@.len() ==> r is None,
    {
        if self.selected < self.items.len() {
            Some(&self.items[self.selected])
        } else {
            None
        }
    }

    /// Records a command as just used (see the free `record_usage`).
    pub fn record_usage(&mut self, command_id: &str)
        ensures
            views(final(self).recently_used@) == recent_after_use(
                views(old(self).recently_used@),
                command_id@,
            ),
            final(self).items == old(self).items,
            final(self).selected == old(self).selected,
            final(self).input == old(self).input,
            final(self).is_visible == old(self).is_visible,
    {
        record_usage(&mut self.recently_used, command_id);
    }

    /// Where `command_id` stands in the recently used list (0 for the most
    /// recent), if it is there; the palette boosts a command by
    /// `100 / (position + 1)`.
    pub fn recency_position(&self, command_id: &str) -> (r: Option<usize>)
        ensures
            r matches Some(k) ==> k < self.recently_used@.len()
                && self.recently_used@[k as int]@ == command_id@
                && forall|j: int| 0 <= j < k ==> self.recently_used@[j]@ != command_id@,
            r is None ==> forall|j: int|
                0 <= j < self.recently_used@.len() ==> self.recently_used@[j]@ != command_id@,
    {
        let mut i: usize = 0;
        while i < self.recently_used.len()
            invariant
                i <= self.recently_used@.len(),
                forall|j: int| 0 <= j < i ==> self.recently_used@[j]@ != command_id@,
            decreases self.recently_used@.len() - i,
        {
            if str_eq(self.recently_used[i].as_str(), command_id) {
                return Some(i);
            }
            i = i + 1;
        }
        None
    }

    /// The hint shown in the empty input.
    pub fn placeholder(&self) -> (r: &'static str)
        ensures
            r@ == "Type a command name"@,
    {
        "Type a command name"
    }
}

// ── Recently used commands ───────────────────────────────────────────────────

/// How many recently used commands are remembered.
pub const MAX_RECENT_COMMANDS: usize = 50;

/// The recently used list after `id` is used: `id` first, then the earlier
/// entries other than `id` in their order, at most `MAX_RECENT_COMMANDS`.
pub open spec fn recent_after_use(recent: Seq<Seq<char>>, id: Seq<char>) -> Seq<Seq<char>> {
    let l = seq![id] + without(recent, id);
    if l.len() > MAX_RECENT_COMMANDS {
        l.subrange(0, MAX_RECENT_COMMANDS as int)
    } else {
        l
    }
}

/// Records `command_id` as the most recently used command (the palette's
/// `record_usage`): it moves to the front, any earlier use is dropped, and
/// the list keeps at most `MAX_RECENT_COMMANDS` entries.
pub fn record_usage(recently_used: &mut Vec<String>, command_id: &str)
    ensures
        views(final(recently_used)@) == recent_after_use(views(old(recently_used)@), command_id@),
{
    let ghost old_views = views(recently_used@);
    proof {
        reveal(Seq::filter);
    }
    let mut kept: Vec<String> = Vec::new();
    let mut i: usize = 0;
    while i < recently_used.len()
        invariant
            i <= recently_used@.len(),
            old_views == views(recently_used@),
            views(kept@) == without(old_views.subrange(0, i as int), command_id@),
        decreases recently_used@.len() - i,
    {
        let ghost before = kept@;
        proof {
            reveal(Seq::filter);
        }
        assert(old_views.subrange(0, i + 1).drop_last() =~= old_views.subrange(0, i as int));
        if !str_eq(recently_used[i].as_str(), command_id) {
            kept.push(recently_used[i].clone());
            assert(views(kept@) =~= views(before).push(old_views[i as int]));
        }
        i = i + 1;
    }
    assert(old_views.subrange(0, recently_used@.len() as int) =~= old_views);
    let ghost kept_views = views(kept@);
    kept.insert(0, command_id.to_string());
    assert(views(kept@) =~= seq![command_id@] + kept_views);
    if kept.len() > MAX_RECENT_COMMANDS {
        kept.truncate(MAX_RECENT_COMMANDS);
        assert(views(kept@) =~= (seq![command_id@] + kept_views).subrange(
            0,
            MAX_RECENT_COMMANDS as int,
        ));
    }
    *recently_used = kept;
}

/// The selection after moving down one row of `len`, wrapping to the top.
pub open spec fn next_row(selected: int, len: int) -> int {
    if len == 0 {
        selected
    } else {
        (selected + 1) % len
    }
}

/// The selection after moving up one row of `len`, wrapping to the bottom.
pub open spec fn prev_row(selected: int, len: int) -> int {
    if len == 0 {
        selected
    } else if selected == 0 {
        len - 1
    } else {
        selected - 1
    }
}

/// Moves a list selection down one row, wrapping (an empty list keeps the
/// selection).
pub fn select_next_row(selected: usize, len: usize) -> (r: usize)
    requires
        len > 0 ==> selected < len,
    ensures
        r == next_row(selected as int, len as int),
        len > 0 ==> r < len,
{
    if len == 0 {
        selected
    } else {
        (selected + 1) % len
    }
}

/// Moves a list selection up one row, wrapping (an empty list keeps the
/// selection).
pub fn select_prev_row(selected: usize, len: usize) -> (r: usize)
    requires
        len > 0 ==> selected < len,
    ensures
        r == prev_row(selected as int, len as int),
        len > 0 ==> r < len,
{
    if len == 0 {
        selected
    } else if selected == 0 {
        len - 1
    } else {
        selected - 1
    }
}

/// Moving down then up returns to the same row of a non-empty list.
pub proof fn lemma_next_then_prev_row(selected: int, len: int)
    requires
        0 <= selected < len,
    ensures
        prev_row(next_row(selected, len), len) == selected,
{
    if selected + 1 == len {
        vstd::arithmetic::div_mod::lemma_mod_self_0(len);
    } else {
        vstd::arithmetic::div_mod::lemma_small_mod((selected + 1) as nat, len as nat);
    }
}

/// Whether no entry occurs twice.
pub open spec fn no_repeats(s: Seq<Seq<char>>) -> bool {
    forall|i: int, j: int| 0 <= i < j < s.len() ==> s[i] != s[j]
}

/// The test "differs from `id`".
pub open spec fn differs(id: Seq<char>) -> spec_fn(Seq<char>) -> bool {
    |x: Seq<char>| x != id
}

/// `s` without the entries equal to `id`.
pub open spec fn without(s: Seq<Seq<char>>, id: Seq<char>) -> Seq<Seq<char>> {
    s.filter(differs(id))
}

/// A used command comes first, the list stays within its bound, and it
/// never holds a command twice if it did not before.
pub proof fn lemma_recent_after_use(recent: Seq<Seq<char>>, id: Seq<char>)
    requires
        no_repeats(recent),
    ensures
        recent_after_use(recent, id)[0] == id,
        recent_after_use(recent, id).len() <= MAX_RECENT_COMMANDS,
        no_repeats(recent_after_use(recent, id)),
{
    let f = without(recent, id);
    lemma_without_distinct(recent, id);
    let l = seq![id] + f;
    assert forall|i: int, j: int| 0 <= i < j < l.len() implies l[i] != l[j] by {
        if i == 0 {
            assert(l[j] == f[j - 1]);
        } else {
            assert(l[i] == f[i - 1]);
            assert(l[j] == f[j - 1]);
        }
    }
}

/// Dropping `id` keeps a list free of repeats, and no `id` is left.
proof fn lemma_without_distinct(s: Seq<Seq<char>>, id: Seq<char>)
    requires
        no_repeats(s),
    ensures
        no_repeats(without(s, id)),
        forall|k: int| 0 <= k < without(s, id).len() ==> #[trigger] without(s, id)[k] != id,
    decreases s.len(),
{
    reveal(Seq::filter);
    let pred = differs(id);
    if s.len() > 0 {
        let init = s.drop_last();
        assert(no_repeats(init));
        lemma_without_distinct(init, id);
        let fi = without(init, id);
        assert(without(s, id) == if pred(s.last()) {
            fi.push(s.last())
        } else {
            fi
        });
        assert forall|k: int| 0 <= k < fi.len() implies fi[k] != s.last() by {
            assert(fi.contains(fi[k]));
            init.lemma_filter_contains_rev(pred, fi[k]);
            let w = choose|w: int| 0 <= w < init.len() && init[w] == fi[k];
            assert(s[w] == init[w]);
        }
    }
}

/// Fuzzy-matches a typed query against a command label: the matched
/// positions and the score, with the bonus for a label that is, starts with
/// or contains the query (see `fuzzy`).
pub fn fuzzy_match_command(query: &str, label: &str) -> (r: Option<(u128, Vec<usize>)>)
    ensures
        query@.len() == 0 || unicode_lower(query@).len() <= 0x7FFF_FFFF_FFFF_FFFF ==> match fuzzy(query@, label@, false) {
            Some((score, pos)) => r matches Some((s, p)) && s == score && p@.map_values(|x: usize| x as int) == pos,
            None => r is None,
        },
        query@.len() > 0 && unicode_lower(query@).len() > 0x7FFF_FFFF_FFFF_FFFF ==> r is None,
{
    fuzzy_match(query, label, false)
}

} // verus!
