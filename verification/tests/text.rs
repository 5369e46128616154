use thatsit::text::{repeat_char, sort_texts, text_before_or_same, width_of};

#[test]
fn texts_are_ordered_character_by_character() {
    assert!(text_before_or_same("abc", "abd"));
    assert!(!text_before_or_same("abd", "abc"));
    assert!(text_before_or_same("ab", "abc"));
    assert!(!text_before_or_same("abc", "ab"));
    assert!(text_before_or_same("", ""));
    assert!(text_before_or_same("Z", "a"));
    assert!(text_before_or_same("z", "é"));
}

#[test]
fn sorting_orders_texts_as_their_bytes_do() {
    let names: Vec<String> = ["pear", "apple", "Banana", "..", "apple", "é", "z"].iter().map(|s| s.to_string()).collect();
    let mut expected = names.clone();
    expected.sort();
    assert_eq!(sort_texts(&names), expected);
    assert_eq!(sort_texts(&vec![]), Vec::<String>::new());
}

#[test]
fn widths_and_repeats() {
    assert_eq!(width_of("abc"), 3);
    assert_eq!(width_of("é"), 2);
    assert_eq!(repeat_char("-", 3), "---");
    assert_eq!(repeat_char("\u{2587}", 2), "\u{2587}\u{2587}");
}
