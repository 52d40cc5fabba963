use albw_logic::items::{filler_item_to_string, string_to_filler_item, token_to_item, Item};
use albw_logic::names::{ci_le_exec, sort_names};

#[test]
fn tokens_round_trip() {
    for (token, item) in [
        ("Bow01", Item::Bow01),
        ("RupeePurple18", Item::RupeePurple18),
        ("HeartContainer10", Item::HeartContainer10),
        ("LoruleCastleKeySmall05", Item::LoruleCastleKeySmall05),
        ("OpenSanctuaryDoors", Item::OpenSanctuaryDoors),
        ("Triforce", Item::Triforce),
    ] {
        assert_eq!(string_to_filler_item(&token.to_string()), item);
        assert_eq!(filler_item_to_string(item), token);
    }
}

#[test]
fn unknown_token_resolves_to_nothing() {
    assert_eq!(token_to_item("MasterSword"), None);
    assert_eq!(token_to_item(""), None);
    assert_eq!(token_to_item("bow01"), None);
}

#[test]
fn every_item_token_resolves_back() {
    for item in albw_logic::items::catalog() {
        let token = filler_item_to_string(item);
        assert_eq!(token_to_item(token.as_str()), Some(item));
    }
}

#[test]
fn case_insensitive_compare() {
    assert!(ci_le_exec(&"apple".to_string(), &"Banana".to_string()));
    assert!(!ci_le_exec(&"Banana".to_string(), &"apple".to_string()));
    assert!(ci_le_exec(&"Same".to_string(), &"same".to_string()));
    assert!(ci_le_exec(&"ab".to_string(), &"abc".to_string()));
    assert!(!ci_le_exec(&"abc".to_string(), &"ab".to_string()));
}

#[test]
fn sort_names_is_case_insensitive() {
    // Byte order would put "B" before "a"; the display order must not.
    let sorted = sort_names(&vec!["a".to_string(), "B".to_string()]);
    assert_eq!(sorted, vec!["a".to_string(), "B".to_string()]);

    let sorted = sort_names(&vec![
        "cherry".to_string(),
        "Banana".to_string(),
        "apple".to_string(),
    ]);
    assert_eq!(
        sorted,
        vec!["apple".to_string(), "Banana".to_string(), "cherry".to_string()]
    );

    let sorted = sort_names(&vec![]);
    assert!(sorted.is_empty());
}

#[test]
fn sort_names_keeps_ties_and_duplicates() {
    let sorted = sort_names(&vec!["b".to_string(), "B".to_string(), "a".to_string()]);
    assert_eq!(sorted, vec!["a".to_string(), "b".to_string(), "B".to_string()]);

    let sorted = sort_names(&vec!["x".to_string(), "x".to_string()]);
    assert_eq!(sorted, vec!["x".to_string(), "x".to_string()]);
}
