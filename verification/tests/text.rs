use recipe_p2p::text::{contains_text, distinct_texts, same_text};

#[test]
fn same_text_compares_characters() {
    assert!(same_text("", ""));
    assert!(same_text("exit", "exit"));
    assert!(!same_text("exit", "exit "));
    assert!(!same_text("exit", "exiT"));
    assert!(!same_text("a", ""));
    assert!(same_text("\u{e9}\u{4e2d}", "\u{e9}\u{4e2d}"));
    assert!(!same_text("\u{e9}", "e"));
}

#[test]
fn contains_text_finds_an_item() {
    let list = vec!["a".to_string(), "b".to_string()];
    assert!(contains_text(&list, "a"));
    assert!(contains_text(&list, "b"));
    assert!(!contains_text(&list, "c"));
    assert!(!contains_text(&vec![], "a"));
}

#[test]
fn distinct_texts_keeps_first_occurrences() {
    let list = vec![
        "b".to_string(),
        "a".to_string(),
        "b".to_string(),
        "c".to_string(),
        "a".to_string(),
    ];
    assert_eq!(distinct_texts(&list), vec!["b".to_string(), "a".to_string(), "c".to_string()]);
    assert_eq!(distinct_texts(&vec![]), Vec::<String>::new());
}
