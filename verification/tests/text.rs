use hazard_generator::filters::camelcase_to_whitespaces;
use hazard_generator::text::{fragment, same_text};

#[test]
fn fragment_follows_the_last_hash() {
    assert_eq!(fragment("https://purl.org/sifis/hazards#Safety"), "Safety");
    assert_eq!(fragment("a#b"), "b");
    assert_eq!(fragment("a#b#c#d"), "d");
    assert_eq!(fragment("##"), "");
    assert_eq!(fragment("#a"), "a");
    assert_eq!(fragment("a#"), "");
}

#[test]
fn fragment_of_a_text_without_hash_is_the_text() {
    assert_eq!(fragment("Safety"), "Safety");
    assert_eq!(fragment("https://purl.org/sifis/hazards"), "https://purl.org/sifis/hazards");
    assert_eq!(fragment(""), "");
}

#[test]
fn fragment_counts_characters_not_bytes() {
    assert_eq!(fragment("\u{e9}\u{e9}#\u{4e2d}\u{6587}"), "\u{4e2d}\u{6587}");
    assert_eq!(fragment("\u{1f525}#a\u{1f525}"), "a\u{1f525}");
    assert_eq!(fragment("\u{1f525}"), "\u{1f525}");
}

#[test]
fn camelcase_becomes_words() {
    assert_eq!(
        camelcase_to_whitespaces("ElectricEnergyConsumption"),
        "Electric Energy Consumption"
    );
    assert_eq!(camelcase_to_whitespaces("FireHazard"), "Fire Hazard");
    assert_eq!(camelcase_to_whitespaces("Safety"), "Safety");
}

#[test]
fn camelcase_leaves_the_first_character_alone() {
    assert_eq!(camelcase_to_whitespaces("A"), "A");
    assert_eq!(camelcase_to_whitespaces("a"), "a");
    assert_eq!(camelcase_to_whitespaces(""), "");
    assert_eq!(camelcase_to_whitespaces("aB"), "a B");
    assert_eq!(camelcase_to_whitespaces("AB"), "A B");
    assert_eq!(camelcase_to_whitespaces("ABC"), "A B C");
}

#[test]
fn camelcase_keeps_other_characters() {
    assert_eq!(camelcase_to_whitespaces("fire hazard"), "fire hazard");
    assert_eq!(camelcase_to_whitespaces("Fire Hazard"), "Fire  Hazard");
    assert_eq!(camelcase_to_whitespaces("fire2Hazard_x"), "fire2 Hazard_x");
    assert_eq!(camelcase_to_whitespaces("a1b2"), "a1b2");
}

#[test]
fn camelcase_knows_uppercase_beyond_ascii() {
    assert_eq!(camelcase_to_whitespaces("caf\u{e9}\u{c9}t\u{e9}"), "caf\u{e9} \u{c9}t\u{e9}");
    assert_eq!(camelcase_to_whitespaces("a\u{394}b"), "a \u{394}b");
    assert_eq!(camelcase_to_whitespaces("a\u{4e2d}b"), "a\u{4e2d}b");
}

#[test]
fn same_text_compares_the_characters() {
    assert!(same_text("", ""));
    assert!(same_text("Safety", "Safety"));
    assert!(same_text("caf\u{e9}\u{1f525}", "caf\u{e9}\u{1f525}"));
    assert!(!same_text("Safety", "safety"));
    assert!(!same_text("Safety", "Safet"));
    assert!(!same_text("Safet", "Safety"));
    assert!(!same_text("", "a"));
    assert!(!same_text("a", ""));
    assert!(!same_text("caf\u{e9}", "cafe"));
}
