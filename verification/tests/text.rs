use notifier::text::{chars_of, same_text, same_text_ignoring_case, to_ascii_lower};

#[test]
fn chars_of_gives_each_character() {
    assert_eq!(chars_of(""), Vec::<char>::new());
    assert_eq!(chars_of("a#é👋"), vec!['a', '#', 'é', '👋']);
}

#[test]
fn lowers_ascii_capitals_only() {
    assert_eq!(to_ascii_lower('A'), 'a');
    assert_eq!(to_ascii_lower('Z'), 'z');
    assert_eq!(to_ascii_lower('m'), 'm');
    assert_eq!(to_ascii_lower('@'), '@');
    assert_eq!(to_ascii_lower('['), '[');
    assert_eq!(to_ascii_lower('#'), '#');
    assert_eq!(to_ascii_lower('É'), 'É');
    assert_eq!(to_ascii_lower('\u{212a}'), '\u{212a}');
}

#[test]
fn same_text_is_exact() {
    assert!(same_text("", ""));
    assert!(same_text("nick", "nick"));
    assert!(same_text("nïck", "nïck"));
    assert!(!same_text("nick", "Nick"));
    assert!(!same_text("nick", "nick_"));
    assert!(!same_text("nick_", "nick"));
    assert!(!same_text("", "a"));
}

#[test]
fn same_text_ignoring_case_folds_ascii() {
    assert!(same_text_ignoring_case("", ""));
    assert!(same_text_ignoring_case("MeNtIoNs", "mentions"));
    assert!(same_text_ignoring_case("off", "OFF"));
    assert!(!same_text_ignoring_case("off", "of"));
    assert!(!same_text_ignoring_case("of", "off"));
    assert!(!same_text_ignoring_case("off", "oft"));
    assert!(!same_text_ignoring_case("é", "É"));
    assert!(same_text_ignoring_case("É", "É"));
}
