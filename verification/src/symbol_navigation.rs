//! Go to Symbol (in file: Ctrl+Shift+O; in workspace: Ctrl+T): symbol
//! kinds, their labels and icons, and the `:kind` filter.

use vstd::prelude::*;

use crate::command_palette::{next_row, prev_row};
use crate::editor_group::copy_opt_string;
use crate::fuzzy::{fuzzy, fuzzy_match};
use crate::paths::opt_view;
use crate::position::Range;
use crate::text::{find, spec_find, starts_with, to_lowercase, unicode_lower};

verus! {

/// Symbol kinds, as the language server protocol numbers them (the subset
/// that is displayed).
#[derive(Debug, Clone, Copy, PartialEq, Eq, Structural, Hash)]
pub enum SymbolKind {
    File,
    Module,
    Namespace,
    Package,
    Class,
    Method,
    Property,
    Field,
    Constructor,
    Enum,
    Interface,
    Function,
    Variable,
    Constant,
    String,
    Number,
    Boolean,
    Array,
    Object,
    Key,
    Null,
    EnumMember,
    Struct,
    Event,
    Operator,
    TypeParameter,
}

/// The display label of a kind.
pub open spec fn kind_label(k: SymbolKind) -> Seq<char> {
    match k {
        SymbolKind::File => "file"@,
        SymbolKind::Module => "module"@,
        SymbolKind::Namespace => "namespace"@,
        SymbolKind::Package => "package"@,
        SymbolKind::Class => "class"@,
        SymbolKind::Method => "method"@,
        SymbolKind::Property => "property"@,
        SymbolKind::Field => "field"@,
        SymbolKind::Constructor => "constructor"@,
        SymbolKind::Enum => "enum"@,
        SymbolKind::Interface => "interface"@,
        SymbolKind::Function => "function"@,
        SymbolKind::Variable => "variable"@,
        SymbolKind::Constant => "constant"@,
        SymbolKind::String => "string"@,
        SymbolKind::Number => "number"@,
        SymbolKind::Boolean => "boolean"@,
        SymbolKind::Array => "array"@,
        SymbolKind::Object => "object"@,
        SymbolKind::Key => "key"@,
        SymbolKind::Null => "null"@,
        SymbolKind::EnumMember => "enum member"@,
        SymbolKind::Struct => "struct"@,
        SymbolKind::Event => "event"@,
        SymbolKind::Operator => "operator"@,
        SymbolKind::TypeParameter => "type parameter"@,
    }
}

/// The icon of a kind (codicon style).
pub open spec fn kind_icon(k: SymbolKind) -> Seq<char> {
    match k {
        SymbolKind::Function | SymbolKind::Method | SymbolKind::Constructor => "ƒ"@,
        SymbolKind::Class | SymbolKind::Struct | SymbolKind::Interface => "C"@,
        SymbolKind::Enum | SymbolKind::EnumMember => "E"@,
        SymbolKind::Variable | SymbolKind::Field | SymbolKind::Property => "v"@,
        SymbolKind::Constant => "c"@,
        SymbolKind::Module | SymbolKind::Namespace | SymbolKind::Package => "M"@,
        _ => "•"@,
    }
}

impl SymbolKind {
    /// The display label of this kind.
    pub fn label(self) -> (r: &'static str)
        ensures
            r@ == kind_label(self),
    {
        match self {
            SymbolKind::File => "file",
            SymbolKind::Module => "module",
            SymbolKind::Namespace => "namespace",
            SymbolKind::Package => "package",
            SymbolKind::Class => "class",
            SymbolKind::Method => "method",
            SymbolKind::Property => "property",
            SymbolKind::Field => "field",
            SymbolKind::Constructor => "constructor",
            SymbolKind::Enum => "enum",
            SymbolKind::Interface => "interface",
            SymbolKind::Function => "function",
            SymbolKind::Variable => "variable",
            SymbolKind::Constant => "constant",
            SymbolKind::String => "string",
            SymbolKind::Number => "number",
            SymbolKind::Boolean => "boolean",
            SymbolKind::Array => "array",
            SymbolKind::Object => "object",
            SymbolKind::Key => "key",
            SymbolKind::Null => "null",
            SymbolKind::EnumMember => "enum member",
            SymbolKind::Struct => "struct",
            SymbolKind::Event => "event",
            SymbolKind::Operator => "operator",
            SymbolKind::TypeParameter => "type parameter",
        }
    }

    /// The icon of this kind.
    pub fn icon(self) -> (r: &'static str)
        ensures
            r@ == kind_icon(self),
    {
        match self {
            SymbolKind::Function | SymbolKind::Method | SymbolKind::Constructor => "ƒ",
            SymbolKind::Class | SymbolKind::Struct | SymbolKind::Interface => "C",
            SymbolKind::Enum | SymbolKind::EnumMember => "E",
            SymbolKind::Variable | SymbolKind::Field | SymbolKind::Property => "v",
            SymbolKind::Constant => "c",
            SymbolKind::Module | SymbolKind::Namespace | SymbolKind::Package => "M",
            _ => "•",
        }
    }

    /// Whether a `:kind` filter selects this kind: the lower-cased filter
    /// starts the kind's label.
    pub fn matches_filter(self, filter: &str) -> (r: bool)
        ensures
            r == unicode_lower(filter@).is_prefix_of(kind_label(self)),
    {
        let lower = to_lowercase(filter);
        starts_with(self.label(), lower.as_str())
    }
}

/// Fuzzy-matches a typed query against a symbol name: the matched
/// positions and the score, with the bonus for a name that is or starts
/// with the query and for upper-case (camelCase) matches (see `fuzzy`).
pub fn fuzzy_match_symbol(query: &str, name: &str) -> (r: Option<(u128, Vec<usize>)>)
    ensures
        query@.len() == 0 || unicode_lower(query@).len() <= 0x7FFF_FFFF_FFFF_FFFF ==> match fuzzy(query@, name@, true) {
            Some((score, pos)) => r matches Some((s, p)) && s == score && p@.map_values(|x: usize| x as int) == pos,
            None => r is None,
        },
        query@.len() > 0 && unicode_lower(query@).len() > 0x7FFF_FFFF_FFFF_FFFF ==> r is None,
{
    fuzzy_match(query, name, true)
}

// ── Symbols and their flattened rows ─────────────────────────────────────────

/// A document symbol (from `textDocument/documentSymbol`).
#[derive(Debug)]
pub struct DocumentSymbol {
    /// Symbol name.
    pub name: String,
    pub kind: SymbolKind,
    /// Range of the whole definition.
    pub range: Range,
    /// Range of the name.
    pub selection_range: Range,
    /// Nested symbols (such as the methods of a class).
    pub children: Vec<DocumentSymbol>,
    /// Detail text (such as a type signature).
    pub detail: Option<String>,
    /// Container name for display.
    pub container_name: Option<String>,
}

/// A workspace symbol (from `workspace/symbol`).
#[derive(Debug, Clone)]
pub struct WorkspaceSymbol {
    pub name: String,
    pub kind: SymbolKind,
    /// File holding the symbol.
    pub path: String,
    pub range: Range,
    /// Container name (such as the class of a method).
    pub container_name: Option<String>,
}

/// One row of a symbol picker.
#[derive(Debug, Clone)]
pub struct SymbolItem {
    pub name: String,
    pub kind: SymbolKind,
    /// Where to go when the row is chosen.
    pub selection_range: Range,
    /// Parent or container name (such as "MyClass" for a method).
    pub container: Option<String>,
    pub detail: Option<String>,
    /// File path (for workspace results).
    pub path: Option<String>,
    /// Fuzzy match score (higher is better).
    pub score: u128,
    /// Matched positions in the name.
    pub match_positions: Vec<usize>,
}

/// A symbol row with its texts as character sequences.
pub struct SymbolRow {
    pub name: Seq<char>,
    pub kind: SymbolKind,
    pub selection_range: Range,
    pub container: Option<Seq<char>>,
    pub detail: Option<Seq<char>>,
    pub path: Option<Seq<char>>,
    pub score: u128,
    pub match_positions: Seq<int>,
}

pub open spec fn row_of(item: SymbolItem) -> SymbolRow {
    SymbolRow {
        name: item.name@,
        kind: item.kind,
        selection_range: item.selection_range,
        container: opt_view(item.container),
        detail: opt_view(item.detail),
        path: opt_view(item.path),
        score: item.score,
        match_positions: item.match_positions@.map_values(|x: usize| x as int),
    }
}

pub open spec fn rows(items: Seq<SymbolItem>) -> Seq<SymbolRow> {
    items.map_values(|i: SymbolItem| row_of(i))
}

pub open spec fn str_opt_view(o: Option<&str>) -> Option<Seq<char>> {
    match o {
        Some(s) => Some(s@),
        None => None,
    }
}

/// The row of `sym` under `parent`: the parent's name as container, or
/// else the symbol's own container name; no path, score or positions.
pub open spec fn flat_row(sym: DocumentSymbol, parent: Option<Seq<char>>) -> SymbolRow {
    SymbolRow {
        name: sym.name@,
        kind: sym.kind,
        selection_range: sym.selection_range,
        container: if parent is Some {
            parent
        } else {
            opt_view(sym.container_name)
        },
        detail: opt_view(sym.detail),
        path: None,
        score: 0,
        match_positions: Seq::empty(),
    }
}

/// The rows of `symbols` and of their descendants, each symbol followed by
/// its children's rows (depth first, in order).
pub open spec fn flatten_list(symbols: Seq<DocumentSymbol>, parent: Option<Seq<char>>) -> Seq<SymbolRow>
    decreases symbols,
{
    if symbols.len() == 0 {
        Seq::empty()
    } else {
        flatten_list(symbols.subrange(0, symbols.len() - 1), parent) + flatten_one(
            symbols[symbols.len() - 1],
            parent,
        )
    }
}

/// The row of `sym` followed by the rows of its children.
pub open spec fn flatten_one(sym: DocumentSymbol, parent: Option<Seq<char>>) -> Seq<SymbolRow>
    decreases sym,
{
    seq![flat_row(sym, parent)] + flatten_list(sym.children@, Some(sym.name@))
}

/// Flattens a tree of document symbols into picker rows, each symbol
/// followed by its descendants.
pub fn flatten_document_symbols(symbols: &[DocumentSymbol]) -> (r: Vec<SymbolItem>)
    ensures
        rows(r@) == flatten_list(symbols@, None),
{
    let mut result: Vec<SymbolItem> = Vec::new();
    flatten_into(symbols, None, &mut result);
    assert(rows(result@) =~= rows(Seq::<SymbolItem>::empty()) + flatten_list(symbols@, None));
    result
}

fn flatten_into(symbols: &[DocumentSymbol], parent: Option<&str>, out: &mut Vec<SymbolItem>)
    ensures
        rows(final(out)@) == rows(old(out)@) + flatten_list(symbols@, str_opt_view(parent)),
    decreases symbols@,
{
    let ghost pv = str_opt_view(parent);
    let mut i: usize = 0;
    while i < symbols.len()
        invariant
            i <= symbols@.len(),
            pv == str_opt_view(parent),
            rows(out@) == rows(old(out)@) + flatten_list(symbols@.subrange(0, i as int), pv),
        decreases symbols@.len() - i,
    {
        let ghost before = rows(out@);
        let sym = &symbols[i];
        let container = match parent {
            Some(p) => Some(p.to_string()),
            None => copy_opt_string(&sym.container_name),
        };
        let item = SymbolItem {
            name: sym.name.clone(),
            kind: sym.kind,
            selection_range: sym.selection_range,
            container,
            detail: copy_opt_string(&sym.detail),
            path: None,
            score: 0,
            match_positions: Vec::new(),
        };
        assert(item.match_positions@.map_values(|x: usize| x as int) =~= Seq::<int>::empty());
        assert(row_of(item) == flat_row(symbols@[i as int], pv));
        out.push(item);
        assert(rows(out@) =~= before.push(flat_row(symbols@[i as int], pv)));
        let ghost mid = rows(out@);
        proof {
            assert(decreases_to!(symbols@ => symbols@[i as int]));
            assert(decreases_to!(symbols@[i as int] => symbols@[i as int].children));
        }
        flatten_into(sym.children.as_slice(), Some(sym.name.as_str()), out);
        assert(symbols@.subrange(0, i + 1).subrange(0, i as int) =~= symbols@.subrange(0, i as int));
        assert(flatten_one(symbols@[i as int], pv) =~= seq![flat_row(symbols@[i as int], pv)] + flatten_list(symbols@[i as int].children@, Some(symbols@[i as int].name@)));
        assert(rows(out@) =~= rows(old(out)@) + flatten_list(symbols@.subrange(0, i + 1), pv));
        i = i + 1;
    }
    assert(symbols@.subrange(0, symbols@.len() as int) =~= symbols@);
}

// ── Filtering ────────────────────────────────────────────────────────────────

/// A query split into its `:kind` filter, if it starts with `:`, and the
/// name to match: `:kind name` gives the text up to the first space and
/// the rest after it; `:kind` alone gives an empty name.
pub open spec fn split_query(q: Seq<char>) -> (Option<Seq<char>>, Seq<char>) {
    if q.len() > 0 && q[0] == ':' {
        let rest = q.drop_first();
        match spec_find(rest, seq![' ']) {
            Some(k) => (Some(rest.subrange(0, k)), rest.subrange(k + 1, rest.len() as int)),
            None => (Some(rest), Seq::empty()),
        }
    } else {
        (None, q)
    }
}

/// What `fuzzy_match_symbol` gives for a non-empty query.
pub open spec fn symbol_match(q: Seq<char>, name: Seq<char>) -> Option<(int, Seq<int>)> {
    if unicode_lower(q).len() <= 0x7FFF_FFFF_FFFF_FFFF {
        fuzzy(q, name, true)
    } else {
        None
    }
}

/// The row `item` becomes under the filter, if it passes: its kind must
/// match the `:kind` filter; with an empty name query it passes with score
/// 0, otherwise its name must fuzzy-match and it takes the match's score
/// and positions.
pub open spec fn candidate(item: SymbolItem, kind_filter: Option<Seq<char>>, name_query: Seq<char>) -> Option<SymbolRow> {
    let r = row_of(item);
    if kind_filter matches Some(kf) && !unicode_lower(kf).is_prefix_of(kind_label(item.kind)) {
        None
    } else if name_query.len() == 0 {
        Some(SymbolRow { score: 0, match_positions: Seq::empty(), ..r })
    } else {
        match symbol_match(name_query, item.name@) {
            Some((score, pos)) => Some(SymbolRow { score: score as u128, match_positions: pos, ..r }),
            None => None,
        }
    }
}

/// The rows of `items` that pass the filter, in order.
pub open spec fn candidates(items: Seq<SymbolItem>, kind_filter: Option<Seq<char>>, name_query: Seq<char>) -> Seq<SymbolRow>
    decreases items.len(),
{
    if items.len() == 0 {
        Seq::empty()
    } else {
        let init = candidates(items.drop_last(), kind_filter, name_query);
        match candidate(items.last(), kind_filter, name_query) {
            Some(r) => init.push(r),
            None => init,
        }
    }
}

/// Stable insertion of `x` into rows ordered by descending score: after
/// every row scoring at least as much.
pub open spec fn insert_by_score(sorted: Seq<SymbolRow>, x: SymbolRow) -> Seq<SymbolRow>
    decreases sorted.len(),
{
    if sorted.len() == 0 {
        seq![x]
    } else if sorted.last().score < x.score {
        insert_by_score(sorted.drop_last(), x).push(sorted.last())
    } else {
        sorted.push(x)
    }
}

/// `s` by descending score, ties in their original order (a stable sort).
pub open spec fn by_score(s: Seq<SymbolRow>) -> Seq<SymbolRow>
    decreases s.len(),
{
    if s.len() == 0 {
        Seq::empty()
    } else {
        insert_by_score(by_score(s.drop_last()), s.last())
    }
}

/// A copy of `item` with another score and match positions.
fn rescored(item: &SymbolItem, score: u128, positions: Vec<usize>) -> (r: SymbolItem)
    ensures
        row_of(r) == (SymbolRow { score: score, match_positions: positions@.map_values(|x: usize| x as int), ..row_of(*item) }),
{
    SymbolItem {
        name: item.name.clone(),
        kind: item.kind,
        selection_range: item.selection_range,
        container: copy_opt_string(&item.container),
        detail: copy_opt_string(&item.detail),
        path: copy_opt_string(&item.path),
        score,
        match_positions: positions,
    }
}

/// Inserts `x` into `sorted` as `insert_by_score` does.
fn insert_scored(sorted: &mut Vec<SymbolItem>, x: SymbolItem)
    ensures
        rows(final(sorted)@) == insert_by_score(rows(old(sorted)@), row_of(x)),
    decreases old(sorted)@.len(),
{
    if sorted.len() == 0 {
        sorted.push(x);
        assert(rows(sorted@) =~= seq![row_of(x)]);
        return;
    }
    let last_index = sorted.len() - 1;
    if sorted[last_index].score < x.score {
        let ghost before = rows(sorted@);
        let last = sorted.pop().unwrap();
        assert(rows(sorted@) =~= before.drop_last());
        insert_scored(sorted, x);
        let ghost mid = rows(sorted@);
        sorted.push(last);
        assert(rows(sorted@) =~= mid.push(row_of(last)));
    } else {
        let ghost before = rows(sorted@);
        sorted.push(x);
        assert(rows(sorted@) =~= before.push(row_of(x)));
    }
}

/// Filters picker rows by a query, optionally led by a `:kind` filter (see
/// `split_query` and `candidate`), best score first and ties in their
/// order.
pub fn filter_symbols(items: &[SymbolItem], query: &str) -> (r: Vec<SymbolItem>)
    ensures
        rows(r@) == by_score(candidates(items@, split_query(query@).0, split_query(query@).1)),
{
    let n = query.unicode_len();
    let mut kind_filter: Option<&str> = None;
    let mut name_query: &str = query;
    if n > 0 && query.get_char(0) == ':' {
        let rest = query.substring_char(1, n);
        assert(rest@ =~= query@.drop_first());
        match find(rest, " ") {
            Some(k) => {
                proof {
                    reveal_strlit(" ");
                }
                assert(" "@ =~= seq![' ']);
                let m = rest.unicode_len();
                kind_filter = Some(rest.substring_char(0, k));
                name_query = rest.substring_char(k + 1, m);
            },
            None => {
                proof {
                    reveal_strlit(" ");
                }
                assert(" "@ =~= seq![' ']);
                kind_filter = Some(rest);
                name_query = "";
                proof {
                    reveal_strlit("");
                }
            },
        }
    }
    let ghost kf = str_opt_view(kind_filter);
    let ghost nq = name_query@;
    assert(split_query(query@) == (kf, nq));
    let nq_len = name_query.unicode_len();
    let mut sorted: Vec<SymbolItem> = Vec::new();
    let mut i: usize = 0;
    while i < items.len()
        invariant
            i <= items@.len(),
            kf == str_opt_view(kind_filter),
            nq == name_query@,
            nq_len == nq.len(),
            rows(sorted@) == by_score(candidates(items@.subrange(0, i as int), kf, nq)),
        decreases items@.len() - i,
    {
        let item = &items[i];
        let ghost pre = items@.subrange(0, i as int);
        let ghost post = items@.subrange(0, i + 1);
        assert(post.drop_last() =~= pre);
        assert(post.last() == items@[i as int]);
        let ghost cpre = candidates(pre, kf, nq);
        let passes_kind = match kind_filter {
            Some(f) => item.kind.matches_filter(f),
            None => true,
        };
        if passes_kind {
            if nq_len == 0 {
                let none: Vec<usize> = Vec::new();
                assert(none@.map_values(|x: usize| x as int) =~= Seq::<int>::empty());
                let x = rescored(item, 0, none);
                assert(candidate(items@[i as int], kf, nq) == Some(row_of(x)));
                assert(cpre.push(row_of(x)).drop_last() =~= cpre);
                insert_scored(&mut sorted, x);
            } else {
                match fuzzy_match_symbol(name_query, item.name.as_str()) {
                    Some((score, positions)) => {
                        let x = rescored(item, score, positions);
                        assert(candidate(items@[i as int], kf, nq) == Some(row_of(x)));
                        assert(cpre.push(row_of(x)).drop_last() =~= cpre);
                        insert_scored(&mut sorted, x);
                    },
                    None => {
                        assert(candidate(items@[i as int], kf, nq) is None);
                    },
                }
            }
        } else {
            assert(candidate(items@[i as int], kf, nq) is None);
        }
        i = i + 1;
    }
    assert(items@.subrange(0, items@.len() as int) =~= items@);
    sorted
}

// ── Grouping ─────────────────────────────────────────────────────────────────

/// The first group, from `i` on, holding symbols of kind `k`.
pub open spec fn kind_slot<'a>(groups: Seq<(SymbolKind, Seq<&'a SymbolItem>)>, k: SymbolKind, i: int) -> Option<int>
    decreases groups.len() - i,
{
    if i < 0 || i >= groups.len() {
        None
    } else if groups[i].0 == k {
        Some(i)
    } else {
        kind_slot(groups, k, i + 1)
    }
}

/// The groups after `item`: added to the group of its kind, or to a new
/// group at the end.
pub open spec fn add_to_groups<'a>(groups: Seq<(SymbolKind, Seq<&'a SymbolItem>)>, item: &'a SymbolItem) -> Seq<(SymbolKind, Seq<&'a SymbolItem>)> {
    match kind_slot(groups, item.kind, 0) {
        Some(j) => groups.update(j, (groups[j].0, groups[j].1.push(item))),
        None => groups.push((item.kind, seq![item])),
    }
}

/// `items` grouped by kind, groups in the order their kinds first occur
/// and items in their order within each.
pub open spec fn grouped<'a>(items: Seq<&'a SymbolItem>) -> Seq<(SymbolKind, Seq<&'a SymbolItem>)>
    decreases items.len(),
{
    if items.len() == 0 {
        Seq::empty()
    } else {
        add_to_groups(grouped(items.drop_last()), items.last())
    }
}

pub open spec fn group_views<'a>(gs: Seq<(SymbolKind, Vec<&'a SymbolItem>)>) -> Seq<(SymbolKind, Seq<&'a SymbolItem>)> {
    gs.map_values(|g: (SymbolKind, Vec<&'a SymbolItem>)| (g.0, g.1@))
}

/// Groups picker rows by kind for a sectioned list (see `grouped`).
pub fn group_by_kind(items: &[SymbolItem]) -> (r: Vec<(SymbolKind, Vec<&SymbolItem>)>)
    ensures
        group_views(r@) == grouped(items@.map_values(|i: SymbolItem| &i)),
{
    let ghost all = items@.map_values(|i: SymbolItem| &i);
    let mut groups: Vec<(SymbolKind, Vec<&SymbolItem>)> = Vec::new();
    let mut i: usize = 0;
    while i < items.len()
        invariant
            i <= items@.len(),
            all == items@.map_values(|i: SymbolItem| &i),
            group_views(groups@) == grouped(all.subrange(0, i as int)),
        decreases items@.len() - i,
    {
        let item: &SymbolItem = &items[i];
        let ghost gv = group_views(groups@);
        assert(all.subrange(0, i + 1).drop_last() =~= all.subrange(0, i as int));
        assert(all.subrange(0, i + 1).last() == item);
        let mut j: usize = 0;
        let mut found = false;
        while j < groups.len() && !found
            invariant
                j <= groups@.len(),
                gv == group_views(groups@),
                found ==> j < groups@.len() && kind_slot(gv, item.kind, 0) == Some(j as int),
                !found ==> kind_slot(gv, item.kind, j as int) == kind_slot(gv, item.kind, 0),
            decreases groups@.len() - j, if found { 0int } else { 1int },
        {
            if groups[j].0 == item.kind {
                found = true;
            } else {
                j = j + 1;
            }
        }
        if found {
            assert(kind_slot(gv, item.kind, 0) == Some(j as int));
            groups[j].1.push(item);
            assert(group_views(groups@) =~= gv.update(j as int, (gv[j as int].0, gv[j as int].1.push(item))));
        } else {
            assert(kind_slot(gv, item.kind, 0) is None);
            let mut one: Vec<&SymbolItem> = Vec::new();
            one.push(item);
            groups.push((item.kind, one));
            assert(group_views(groups@) =~= gv.push((item.kind, seq![item])));
        }
        i = i + 1;
    }
    assert(all.subrange(0, items@.len() as int) =~= all);
    groups
}

// ── Picker states ────────────────────────────────────────────────────────────

/// A row-for-row copy of `items`.
fn copy_items(items: &Vec<SymbolItem>) -> (r: Vec<SymbolItem>)
    ensures
        rows(r@) == rows(items@),
{
    let mut out: Vec<SymbolItem> = Vec::new();
    let mut i: usize = 0;
    while i < items.len()
        invariant
            i <= items@.len(),
            rows(out@) == rows(items@.subrange(0, i as int)),
        decreases items@.len() - i,
    {
        let item = &items[i];
        let positions = copy_positions(&item.match_positions);
        let x = rescored(item, item.score, positions);
        assert(row_of(x) == row_of(items@[i as int]));
        let ghost before = rows(out@);
        out.push(x);
        assert(rows(out@) =~= before.push(row_of(x)));
        assert(rows(items@.subrange(0, i + 1)) =~= rows(items@.subrange(0, i as int)).push(
            row_of(items@[i as int]),
        ));
        i = i + 1;
    }
    assert(items@.subrange(0, items@.len() as int) =~= items@);
    out
}

fn copy_positions(v: &Vec<usize>) -> (r: Vec<usize>)
    ensures
        r@ == v@,
{
    let mut out: Vec<usize> = Vec::new();
    let mut i: usize = 0;
    while i < v.len()
        invariant
            i <= v@.len(),
            out@ == v@.subrange(0, i as int),
        decreases v@.len() - i,
    {
        out.push(v[i]);
        assert(out@ =~= v@.subrange(0, i + 1));
        i = i + 1;
    }
    assert(v@.subrange(0, v@.len() as int) =~= v@);
    out
}

/// The state of Go to Symbol in File (Ctrl+Shift+O).
#[derive(Debug, Clone)]
pub struct SymbolInFileState {
    pub is_visible: bool,
    pub input: String,
    /// Every symbol of the file, flattened.
    pub all_symbols: Vec<SymbolItem>,
    /// The rows the query leaves, best first.
    pub filtered: Vec<SymbolItem>,
    pub selected: usize,
}

impl Default for SymbolInFileState {
    fn default() -> (r: Self)
        ensures
            !r.is_visible,
            r.input@.len() == 0,
            r.all_symbols@.len() == 0,
            r.filtered@.len() == 0,
            r.selected == 0,
    {
        SymbolInFileState {
            is_visible: false,
            input: String::new(),
            all_symbols: Vec::new(),
            filtered: Vec::new(),
            selected: 0,
        }
    }
}

impl SymbolInFileState {
    /// Opens the picker on the file's symbols, all of them listed.
    pub fn show(&mut self, symbols: Vec<DocumentSymbol>)
        ensures
            final(self).is_visible,
            final(self).input@.len() == 0,
            rows(final(self).all_symbols@) == flatten_list(symbols@, None),
            rows(final(self).filtered@) == flatten_list(symbols@, None),
            final(self).selected == 0,
    {
        self.is_visible = true;
        self.input = String::new();
        self.all_symbols = flatten_document_symbols(symbols.as_slice());
        self.filtered = copy_items(&self.all_symbols);
        self.selected = 0;
    }

    /// Closes the picker and forgets the symbols.
    pub fn cancel(&mut self)
        ensures
            !final(self).is_visible,
            final(self).input@.len() == 0,
            final(self).all_symbols@.len() == 0,
            final(self).filtered@.len() == 0,
            final(self).selected == 0,
    {
        self.is_visible = false;
        self.input = String::new();
        self.all_symbols = Vec::new();
        self.filtered = Vec::new();
        self.selected = 0;
    }

    /// Filters the symbols by `query` (see `filter_symbols`).
    pub fn filter(&mut self, query: &str)
        ensures
            final(self).input@ == query@,
            rows(final(self).filtered@) == by_score(
                candidates(old(self).all_symbols@, split_query(query@).0, split_query(query@).1),
            ),
            final(self).all_symbols == old(self).all_symbols,
            final(self).is_visible == old(self).is_visible,
            final(self).selected == 0,
    {
        self.input = query.to_string();
        self.filtered = filter_symbols(self.all_symbols.as_slice(), query);
        self.selected = 0;
    }

    /// Selects the next row, wrapping to the first.
    pub fn select_next(&mut self)
        requires
            old(self).selected < usize::MAX,
        ensures
            final(self).selected == next_row(old(self).selected as int, old(self).filtered@.len() as int),
            final(self).filtered == old(self).filtered,
            final(self).all_symbols == old(self).all_symbols,
            final(self).input == old(self).input,
            final(self).is_visible == old(self).is_visible,
    {
        if self.filtered.len() > 0 {
            self.selected = (self.selected + 1) % self.filtered.len();
        }
    }

    /// Selects the previous row, wrapping to the last.
    pub fn select_prev(&mut self)
        ensures
            final(self).selected == prev_row(old(self).selected as int, old(self).filtered@.len() as int),
            final(self).filtered == old(self).filtered,
            final(self).all_symbols == old(self).all_symbols,
            final(self).input == old(self).input,
            final(self).is_visible == old(self).is_visible,
    {
        if self.filtered.len() > 0 {
            self.selected = if self.selected == 0 {
                self.filtered.len() - 1
            } else {
                self.selected - 1
            };
        }
    }

    /// The selected row, if the selection points at one.
    pub fn selected_item(&self) -> (r: Option<&SymbolItem>)
        ensures
            self.selected < self.filtered@.len() ==> r == Some(&self.filtered@[self.selected as int]),
            self.selected >= self.filtered@.len() ==> r is None,
    {
        if self.selected < self.filtered.len() {
            Some(&self.filtered[self.selected])
        } else {
            None
        }
    }
}

/// The state of Go to Symbol in Workspace (Ctrl+T); the results come from
/// the language servers.
#[derive(Debug, Clone)]
pub struct SymbolInWorkspaceState {
    pub is_visible: bool,
    pub input: String,
    pub results: Vec<SymbolItem>,
    pub selected: usize,
}

impl Default for SymbolInWorkspaceState {
    fn default() -> (r: Self)
        ensures
            !r.is_visible,
            r.input@.len() == 0,
            r.results@.len() == 0,
            r.selected == 0,
    {
        SymbolInWorkspaceState { is_visible: false, input: String::new(), results: Vec::new(), selected: 0 }
    }
}

impl SymbolInWorkspaceState {
    /// Opens the picker with no results.
    pub fn show(&mut self)
        ensures
            final(self).is_visible,
            final(self).input@.len() == 0,
            final(self).results@.len() == 0,
            final(self).selected == 0,
    {
        self.is_visible = true;
        self.input = String::new();
        self.results = Vec::new();
        self.selected = 0;
    }

    /// Closes the picker and drops the results.
    pub fn cancel(&mut self)
        ensures
            !final(self).is_visible,
            final(self).input@.len() == 0,
            final(self).results@.len() == 0,
            final(self).selected == 0,
    {
        self.is_visible = false;
        self.input = String::new();
        self.results = Vec::new();
        self.selected = 0;
    }

    /// Replaces the results; a selection past the end returns to the first.
    pub fn set_results(&mut self, results: Vec<SymbolItem>)
        ensures
            final(self).results == results,
            final(self).selected == (if old(self).selected >= results@.len() {
                0
            } else {
                old(self).selected
            }),
            final(self).input == old(self).input,
            final(self).is_visible == old(self).is_visible,
    {
        self.results = results;
        if self.selected >= self.results.len() {
            self.selected = 0;
        }
    }

    /// Takes a new query; the selection returns to the first row.
    pub fn filter(&mut self, query: &str)
        ensures
            final(self).input@ == query@,
            final(self).selected == 0,
            final(self).results == old(self).results,
            final(self).is_visible == old(self).is_visible,
    {
        self.input = query.to_string();
        self.selected = 0;
    }

    /// Selects the next row, wrapping to the first.
    pub fn select_next(&mut self)
        requires
            old(self).selected < usize::MAX,
        ensures
            final(self).selected == next_row(old(self).selected as int, old(self).results@.len() as int),
            final(self).results == old(self).results,
            final(self).input == old(self).input,
            final(self).is_visible == old(self).is_visible,
    {
        if self.results.len() > 0 {
            self.selected = (self.selected + 1) % self.results.len();
        }
    }

    /// Selects the previous row, wrapping to the last.
    pub fn select_prev(&mut self)
        ensures
            final(self).selected == prev_row(old(self).selected as int, old(self).results@.len() as int),
            final(self).results == old(self).results,
            final(self).input == old(self).input,
            final(self).is_visible == old(self).is_visible,
    {
        if self.results.len() > 0 {
            self.selected = if self.selected == 0 {
                self.results.len() - 1
            } else {
                self.selected - 1
            };
        }
    }

    /// The selected row, if the selection points at one.
    pub fn selected_item(&self) -> (r: Option<&SymbolItem>)
        ensures
            self.selected < self.results@.len() ==> r == Some(&self.results@[self.selected as int]),
            self.selected >= self.results@.len() ==> r is None,
    {
        if self.selected < self.results.len() {
            Some(&self.results[self.selected])
        } else {
            None
        }
    }
}

// ── Laws ─────────────────────────────────────────────────────────────────────

/// Whether rows run from the best score to the worst.
pub open spec fn best_first(s: Seq<SymbolRow>) -> bool {
    forall|i: int, j: int| 0 <= i < j < s.len() ==> s[i].score >= s[j].score
}

proof fn lemma_insert_by_score(sorted: Seq<SymbolRow>, x: SymbolRow)
    requires
        best_first(sorted),
    ensures
        best_first(insert_by_score(sorted, x)),
        insert_by_score(sorted, x).to_multiset() == sorted.to_multiset().insert(x),
    decreases sorted.len(),
{
    broadcast use vstd::seq_lib::group_to_multiset_ensures, vstd::multiset::group_multiset_axioms;

    if sorted.len() == 0 {
        assert(sorted.push(x) =~= seq![x]);
    } else if sorted.last().score < x.score {
        let init = sorted.drop_last();
        let last = sorted.last();
        lemma_insert_by_score(init, x);
        let r = insert_by_score(init, x);
        assert forall|i: int| 0 <= i < r.len() implies r[i].score >= last.score by {
            assert(r.to_multiset().count(r[i]) > 0);
            if r[i] != x {
                assert(init.to_multiset().count(r[i]) > 0);
                assert(init.contains(r[i]));
                let j = choose|j: int| 0 <= j < init.len() && init[j] == r[i];
                assert(sorted[j] == init[j]);
            }
        }
        assert(sorted =~= init.push(last));
    }
}

/// Filtering lists the passing rows best first, each exactly once.
pub proof fn lemma_by_score_sorted(s: Seq<SymbolRow>)
    ensures
        best_first(by_score(s)),
        by_score(s).to_multiset() == s.to_multiset(),
    decreases s.len(),
{
    broadcast use vstd::seq_lib::group_to_multiset_ensures;

    if s.len() > 0 {
        lemma_by_score_sorted(s.drop_last());
        lemma_insert_by_score(by_score(s.drop_last()), s.last());
        assert(s =~= s.drop_last().push(s.last()));
    } else {
        assert(s =~= Seq::<SymbolRow>::empty());
    }
}

/// Rows that all score the same keep their order when sorted.
proof fn lemma_by_score_same_scores(s: Seq<SymbolRow>, score: u128)
    requires
        forall|i: int| 0 <= i < s.len() ==> #[trigger] s[i].score == score,
    ensures
        by_score(s) == s,
    decreases s.len(),
{
    if s.len() > 0 {
        lemma_by_score_same_scores(s.drop_last(), score);
        assert(s.drop_last().len() > 0 ==> s.drop_last().last() == s[s.len() - 2]);
        assert(s =~= s.drop_last().push(s.last()));
    }
}

/// An empty query without a kind filter keeps every row, in order, with
/// score 0 and no matched positions.
pub proof fn lemma_empty_query_keeps_rows(items: Seq<SymbolItem>)
    ensures
        by_score(candidates(items, None, Seq::empty())).len() == items.len(),
        forall|i: int|
            0 <= i < items.len() ==> {
                let r = #[trigger] by_score(candidates(items, None, Seq::empty()))[i];
                &&& r.name == items[i].name@
                &&& r.kind == items[i].kind
                &&& r.score == 0
                &&& r.match_positions.len() == 0
            },
    decreases items.len(),
{
    let c = candidates(items, None, Seq::empty());
    assert(c.len() == items.len() && forall|i: int|
        0 <= i < items.len() ==> {
            &&& (#[trigger] c[i]).name == items[i].name@
            &&& c[i].kind == items[i].kind
            &&& c[i].score == 0
            &&& c[i].match_positions.len() == 0
        }) by {
        lemma_empty_query_candidates(items);
    }
    lemma_by_score_same_scores(c, 0);
}

proof fn lemma_empty_query_candidates(items: Seq<SymbolItem>)
    ensures
        candidates(items, None, Seq::empty()).len() == items.len(),
        forall|i: int|
            0 <= i < items.len() ==> {
                let r = #[trigger] candidates(items, None, Seq::empty())[i];
                &&& r.name == items[i].name@
                &&& r.kind == items[i].kind
                &&& r.score == 0
                &&& r.match_positions.len() == 0
            },
    decreases items.len(),
{
    if items.len() > 0 {
        lemma_empty_query_candidates(items.drop_last());
        let c = candidates(items.drop_last(), None, Seq::empty());
        assert forall|i: int| 0 <= i < items.len() - 1 implies #[trigger] items.drop_last()[i] == items[i] by {}
        assert(candidate(items.last(), None, Seq::empty()) is Some);
    }
}

/// Grouping gives each kind one group, and a group holds only rows of its
/// kind.
pub proof fn lemma_grouped_by_kind(items: Seq<&SymbolItem>)
    ensures
        forall|a: int, b: int|
            0 <= a < b < grouped(items).len() ==> #[trigger] grouped(items)[a].0 != #[trigger] grouped(items)[b].0,
        forall|g: int, k: int|
            0 <= g < grouped(items).len() && 0 <= k < grouped(items)[g].1.len() ==> #[trigger] grouped(items)[g].1[k].kind
                == grouped(items)[g].0,
    decreases items.len(),
{
    if items.len() > 0 {
        let init = items.drop_last();
        let x = items.last();
        lemma_grouped_by_kind(init);
        let gs = grouped(init);
        match kind_slot(gs, x.kind, 0) {
            Some(j) => {
                lemma_kind_slot(gs, x.kind, 0);
            },
            None => {
                lemma_kind_slot(gs, x.kind, 0);
            },
        }
    }
}

proof fn lemma_kind_slot<'a>(groups: Seq<(SymbolKind, Seq<&'a SymbolItem>)>, k: SymbolKind, i: int)
    requires
        0 <= i,
    ensures
        kind_slot(groups, k, i) matches Some(j) ==> i <= j < groups.len() && groups[j].0 == k,
        kind_slot(groups, k, i) is None ==> forall|j: int| i <= j < groups.len() ==> groups[j].0 != k,
    decreases groups.len() - i,
{
    if i < groups.len() && groups[i].0 != k {
        lemma_kind_slot(groups, k, i + 1);
    }
}

} // verus!
