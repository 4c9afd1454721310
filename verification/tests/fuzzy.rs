use sidex_app::command_palette::fuzzy_match_command;
use sidex_app::fuzzy::fuzzy_match;
use sidex_app::symbol_navigation::fuzzy_match_symbol;

#[test]
fn fuzzy_match_exact_command() {
    let (score, positions) = fuzzy_match("Save", "Save", false).unwrap();
    assert!(score > 400);
    assert_eq!(positions, vec![0, 1, 2, 3]);
    // 500 for the same text, 4 × 10 per character, 15 for the word start,
    // and runs of 1, 2, 3 after it (5 + 10 + 15).
    assert_eq!(score, 500 + 40 + 15 + 30);
}

#[test]
fn fuzzy_match_prefix_subsequence_and_misses() {
    let (score, _) = fuzzy_match("Sav", "Save All", false).unwrap();
    assert!(score > 200);
    let (_, positions) = fuzzy_match("tl", "Toggle Line Comment", false).unwrap();
    assert_eq!(positions, vec![0, 4]);
    assert!(fuzzy_match("xyz", "Save", false).is_none());
    let (score, positions) = fuzzy_match("", "Save", false).unwrap();
    assert_eq!(score, 0);
    assert!(positions.is_empty());
    assert!(fuzzy_match("save", "Save All", false).is_some());
    let (score, _) = fuzzy_match("all", "Save All", false).unwrap();
    // Contained (100), 3 × 10, no word start, one run of 1 (5).
    assert_eq!(score, 100 + 30 + 5);
}

#[test]
fn fuzzy_match_symbols() {
    let (score, _) = fuzzy_match("handleClick", "handleClick", true).unwrap();
    assert!(score > 400);
    assert!(fuzzy_match("hand", "handleClick", true).is_some());
    assert!(fuzzy_match("xyz", "handleClick", true).is_none());
    let (camel, _) = fuzzy_match("hC", "handleClick", true).unwrap();
    let (mid, _) = fuzzy_match("hc", "handleClick", true).unwrap();
    assert!(camel >= mid);
    // Symbols get no part-of-label bonus.
    let (score, _) = fuzzy_match("click", "handleClick", true).unwrap();
    assert_eq!(score, 50 + 10 + 5 + 10 + 15 + 20);
}

#[test]
fn fuzzy_match_exact() {
    let (score, positions) = fuzzy_match_command("Save", "Save").unwrap();
    assert!(score > 400);
    assert_eq!(positions, vec![0, 1, 2, 3]);
}

#[test]
fn fuzzy_match_prefix() {
    let (score, _) = fuzzy_match_command("Sav", "Save All").unwrap();
    assert!(score > 200);
}

#[test]
fn fuzzy_match_subsequence() {
    let (_, positions) = fuzzy_match_command("tl", "Toggle Line Comment").unwrap();
    assert!(!positions.is_empty());
}

#[test]
fn fuzzy_match_no_match() {
    assert!(fuzzy_match_command("xyz", "Save").is_none());
}

#[test]
fn fuzzy_match_empty_query() {
    let (score, positions) = fuzzy_match_command("", "Save").unwrap();
    assert_eq!(score, 0);
    assert!(positions.is_empty());
}

#[test]
fn fuzzy_match_case_insensitive() {
    let result = fuzzy_match_command("save", "Save All");
    assert!(result.is_some());
}

#[test]
fn fuzzy_match_symbol_exact() {
    let (score, _) = fuzzy_match_symbol("handleClick", "handleClick").unwrap();
    assert!(score > 400);
}

#[test]
fn fuzzy_match_symbol_prefix() {
    let result = fuzzy_match_symbol("hand", "handleClick");
    assert!(result.is_some());
}

#[test]
fn fuzzy_match_symbol_no_match() {
    assert!(fuzzy_match_symbol("xyz", "handleClick").is_none());
}

#[test]
fn fuzzy_match_symbol_camel_case_bonus() {
    let (score_camel, _) = fuzzy_match_symbol("hC", "handleClick").unwrap();
    let (score_mid, _) = fuzzy_match_symbol("hc", "handleClick").unwrap();
    assert!(score_camel >= score_mid);
}
