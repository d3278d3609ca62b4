use skillberry_praxis_filters::metadata::Metadata;
use skillberry_praxis_filters::text::{decimal_text, replace_text};

#[test]
fn numbers_are_written_in_decimal() {
    assert_eq!(decimal_text(0), "0");
    assert_eq!(decimal_text(7), "7");
    assert_eq!(decimal_text(10), "10");
    assert_eq!(decimal_text(65535), "65535");
    assert_eq!(decimal_text(1234567890), "1234567890");
    assert_eq!(decimal_text(u64::MAX), "18446744073709551615");
}

#[test]
fn text_without_the_pattern_is_kept() {
    assert_eq!(replace_text("vmcp-{env}", "{env_id}", "prod"), "vmcp-{env}");
    assert_eq!(replace_text("", "{env_id}", "prod"), "");
}

#[test]
fn the_first_occurrence_and_all_later_ones_are_replaced() {
    assert_eq!(replace_text("a{env_id}b{env_id}", "{env_id}", "x"), "axbx");
    assert_eq!(replace_text("{env_id}", "{env_id}", ""), "");
}

#[test]
fn occurrences_do_not_overlap() {
    assert_eq!(replace_text("aaa", "aa", "b"), "ba");
    assert_eq!(replace_text("aaaa", "aa", "a"), "aa");
}

#[test]
fn inserted_text_is_not_searched_again() {
    assert_eq!(replace_text("{env_id}", "{env_id}", "<{env_id}>"), "<{env_id}>");
}

#[test]
fn replacing_agrees_with_std_on_other_than_ascii_text() {
    let text = "\u{e9}{env_id}\u{1f600}{env_id}{env_id";
    assert_eq!(
        replace_text(text, "{env_id}", "\u{fc}"),
        text.replace("{env_id}", "\u{fc}")
    );
}

#[test]
fn metadata_keeps_one_value_under_each_key() {
    let mut metadata = Metadata::new();
    assert_eq!(metadata.get("env_id"), None);
    metadata.insert("env_id".to_string(), "a".to_string());
    metadata.insert("user_id".to_string(), "b".to_string());
    metadata.insert("env_id".to_string(), "c".to_string());
    assert_eq!(metadata.get("env_id"), Some(&"c".to_string()));
    assert_eq!(metadata.get("user_id"), Some(&"b".to_string()));
    assert_eq!(metadata.get("env"), None);
    assert_eq!(
        metadata.entries(),
        &vec![
            ("env_id".to_string(), "c".to_string()),
            ("user_id".to_string(), "b".to_string()),
        ]
    );
}
