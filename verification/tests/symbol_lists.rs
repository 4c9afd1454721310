use sidex_app::position::{Position, Range};
use sidex_app::symbol_navigation::{
    filter_symbols, flatten_document_symbols, group_by_kind, DocumentSymbol, SymbolInFileState,
    SymbolInWorkspaceState, SymbolItem, SymbolKind,
};

fn zero_range() -> Range {
    Range::new(Position::new(0, 0), Position::new(0, 0))
}

fn make_symbol(name: &str, kind: SymbolKind) -> DocumentSymbol {
    make_symbol_with_children(name, kind, vec![])
}

fn make_symbol_with_children(name: &str, kind: SymbolKind, children: Vec<DocumentSymbol>) -> DocumentSymbol {
    DocumentSymbol {
        name: name.to_string(),
        kind,
        range: zero_range(),
        selection_range: zero_range(),
        children,
        detail: None,
        container_name: None,
    }
}

fn item(name: &str, kind: SymbolKind) -> SymbolItem {
    SymbolItem {
        name: name.into(),
        kind,
        selection_range: zero_range(),
        container: None,
        detail: None,
        path: None,
        score: 0,
        match_positions: vec![],
    }
}

#[test]
fn flatten_empty() {
    let flat = flatten_document_symbols(&[]);
    assert!(flat.is_empty());
}

#[test]
fn flatten_simple() {
    let symbols = vec![make_symbol("main", SymbolKind::Function), make_symbol("Config", SymbolKind::Struct)];
    let flat = flatten_document_symbols(&symbols);
    assert_eq!(flat.len(), 2);
    assert_eq!(flat[0].name, "main");
    assert_eq!(flat[1].name, "Config");
}

#[test]
fn flatten_nested() {
    let symbols = vec![make_symbol_with_children(
        "MyClass",
        SymbolKind::Class,
        vec![make_symbol("new", SymbolKind::Constructor), make_symbol("run", SymbolKind::Method)],
    )];
    let flat = flatten_document_symbols(&symbols);
    assert_eq!(flat.len(), 3);
    assert_eq!(flat[0].name, "MyClass");
    assert!(flat[0].container.is_none());
    assert_eq!(flat[1].name, "new");
    assert_eq!(flat[1].container.as_deref(), Some("MyClass"));
    assert_eq!(flat[2].name, "run");
    assert_eq!(flat[2].container.as_deref(), Some("MyClass"));
}

#[test]
fn flatten_deep_keeps_depth_first_order_and_own_container() {
    let mut top = make_symbol_with_children(
        "Outer",
        SymbolKind::Module,
        vec![make_symbol_with_children("Inner", SymbolKind::Class, vec![make_symbol("leaf", SymbolKind::Method)])],
    );
    top.container_name = Some("crate".to_string());
    let symbols = vec![top, make_symbol("after", SymbolKind::Function)];
    let flat = flatten_document_symbols(&symbols);
    let names: Vec<&str> = flat.iter().map(|i| i.name.as_str()).collect();
    assert_eq!(names, vec!["Outer", "Inner", "leaf", "after"]);
    assert_eq!(flat[0].container.as_deref(), Some("crate"));
    assert_eq!(flat[1].container.as_deref(), Some("Outer"));
    assert_eq!(flat[2].container.as_deref(), Some("Inner"));
    assert!(flat[3].container.is_none());
}

#[test]
fn filter_by_name() {
    let items = vec![item("handleClick", SymbolKind::Function), item("render", SymbolKind::Function)];
    let results = filter_symbols(&items, "hcl");
    assert_eq!(results.len(), 1);
    assert_eq!(results[0].name, "handleClick");
}

#[test]
fn filter_by_kind() {
    let items = vec![item("main", SymbolKind::Function), item("Config", SymbolKind::Struct)];
    let results = filter_symbols(&items, ":function");
    assert_eq!(results.len(), 1);
    assert_eq!(results[0].name, "main");
}

#[test]
fn filter_empty_returns_all() {
    let items = vec![item("a", SymbolKind::Variable), item("b", SymbolKind::Variable)];
    let results = filter_symbols(&items, "");
    assert_eq!(results.len(), 2);
}

#[test]
fn filter_sorts_by_score_and_keeps_ties_in_order() {
    let items = vec![
        item("xrun", SymbolKind::Function),
        item("run", SymbolKind::Function),
        item("yrun", SymbolKind::Method),
        item("Config", SymbolKind::Struct),
    ];
    let results = filter_symbols(&items, ":f run");
    let names: Vec<&str> = results.iter().map(|i| i.name.as_str()).collect();
    assert_eq!(names, vec!["run", "xrun"]);
    assert!(results[0].score > results[1].score);
    let all = filter_symbols(&items, "run");
    let names: Vec<&str> = all.iter().map(|i| i.name.as_str()).collect();
    assert_eq!(names, vec!["run", "xrun", "yrun"]);
}

#[test]
fn group_by_kind_groups_correctly() {
    let items = vec![
        item("main", SymbolKind::Function),
        item("helper", SymbolKind::Function),
        item("Config", SymbolKind::Struct),
    ];
    let groups = group_by_kind(&items);
    assert_eq!(groups.len(), 2);
    assert_eq!(groups[0].0, SymbolKind::Function);
    assert_eq!(groups[0].1.len(), 2);
    assert_eq!(groups[1].0, SymbolKind::Struct);
    assert_eq!(groups[1].1.len(), 1);
}

#[test]
fn symbol_in_file_state() {
    let mut state = SymbolInFileState::default();
    assert!(!state.is_visible);

    state.show(vec![make_symbol("main", SymbolKind::Function), make_symbol("Config", SymbolKind::Struct)]);
    assert!(state.is_visible);
    assert_eq!(state.filtered.len(), 2);

    state.filter("mai");
    assert_eq!(state.filtered.len(), 1);
    assert_eq!(state.filtered[0].name, "main");

    state.cancel();
    assert!(!state.is_visible);
}

#[test]
fn symbol_in_workspace_state() {
    let mut state = SymbolInWorkspaceState::default();
    state.show();
    assert!(state.is_visible);

    let mut app = item("App", SymbolKind::Struct);
    app.path = Some("src/app.rs".to_string());
    app.score = 100;
    state.set_results(vec![app]);

    let item = state.selected_item().unwrap();
    assert_eq!(item.name, "App");

    state.cancel();
    assert!(!state.is_visible);
}

#[test]
fn symbol_pickers_wrap_selection() {
    let mut state = SymbolInFileState::default();
    state.show(vec![make_symbol("a", SymbolKind::Function), make_symbol("b", SymbolKind::Function)]);
    state.select_prev();
    assert_eq!(state.selected, 1);
    state.select_next();
    assert_eq!(state.selected, 0);
    assert_eq!(state.selected_item().unwrap().name, "a");
    let mut ws = SymbolInWorkspaceState::default();
    ws.set_results(vec![item("x", SymbolKind::Struct), item("y", SymbolKind::Struct)]);
    ws.select_next();
    ws.filter("q");
    assert_eq!(ws.selected, 0);
    assert_eq!(ws.input, "q");
}
