use sidex_app::symbol_navigation::SymbolKind;

#[test]
fn symbol_kind_icon() {
    assert_eq!(SymbolKind::Function.icon(), "ƒ");
    assert_eq!(SymbolKind::Class.icon(), "C");
    assert_eq!(SymbolKind::Enum.icon(), "E");
    assert_eq!(SymbolKind::Variable.icon(), "v");
}

#[test]
fn symbol_kind_matches_filter() {
    assert!(SymbolKind::Function.matches_filter("fun"));
    assert!(SymbolKind::Function.matches_filter("function"));
    assert!(!SymbolKind::Function.matches_filter("class"));
}

#[test]
fn symbol_kind_labels_and_case() {
    assert_eq!(SymbolKind::EnumMember.label(), "enum member");
    assert_eq!(SymbolKind::TypeParameter.label(), "type parameter");
    assert_eq!(SymbolKind::Null.icon(), "•");
    assert_eq!(SymbolKind::Package.icon(), "M");
    assert!(SymbolKind::Struct.matches_filter("STR"));
    assert!(SymbolKind::Struct.matches_filter(""));
    assert!(!SymbolKind::Struct.matches_filter("structs"));
}
