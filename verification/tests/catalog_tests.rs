use oxide::catalog::{
    catalog_code, debug_log_line, detect_system_lang, lang_code_for_locale, merge_catalogs, parse_map, trim_bom,
    I18n,
};

#[test]
fn language_file_overrides_shared_entries() {
    let common = r#"{"app": "Oxide", "greet": "hello"}"#;
    let fr = r#"{"greet": "bonjour", "bye": "au revoir"}"#;
    let en = r#"{"greet": "hello", "bye": "bye"}"#;
    let cat = I18n::new(common, fr, en).expect("catalog");
    assert_eq!(cat.t("app"), "Oxide");
    assert_eq!(cat.t("greet"), "bonjour");
    assert_eq!(cat.t("bye"), "au revoir");
}

#[test]
fn missing_key_is_shown_as_itself() {
    let cat = I18n::new("{}", r#"{"a": "b"}"#, "{}").unwrap();
    assert_eq!(cat.t("unknown_key"), "unknown_key");
    assert_eq!(cat.t("a"), "b");
}

#[test]
fn broken_language_file_falls_back_to_english() {
    let common = r#"{"k": "common"}"#;
    let cat = I18n::new(common, "{not json", r#"{"k": "english"}"#).unwrap();
    assert_eq!(cat.t("k"), "english");
}

#[test]
fn no_catalog_without_shared_file_or_any_language() {
    assert!(I18n::new("[1, 2]", "{}", "{}").is_none());
    assert!(I18n::new("{}", "oops", "also oops").is_none());
}

#[test]
fn byte_order_marks_are_ignored() {
    assert_eq!(trim_bom("\u{feff}\u{feff}{}"), "{}");
    assert_eq!(trim_bom("x\u{feff}"), "x\u{feff}");
    let parsed = parse_map("\u{feff}{\"b\": \"2\", \"a\": \"1\"}").unwrap();
    assert_eq!(parsed, vec![("a".to_string(), "1".to_string()), ("b".to_string(), "2".to_string())]);
    assert!(parse_map(r#"{"a": 1}"#).is_none());
}

#[test]
fn merge_keeps_one_entry_per_key() {
    let a = vec![("x".to_string(), "1".to_string()), ("y".to_string(), "2".to_string())];
    let b = vec![("y".to_string(), "3".to_string()), ("z".to_string(), "4".to_string())];
    let m = merge_catalogs(&a, &b);
    assert_eq!(m.len(), 3);
    let y: Vec<&(String, String)> = m.iter().filter(|e| e.0 == "y").collect();
    assert_eq!(y, vec![&("y".to_string(), "3".to_string())]);
}

#[test]
fn catalog_language_codes() {
    assert_eq!(catalog_code("fr"), "fr");
    assert_eq!(catalog_code("hi"), "hi");
    assert_eq!(catalog_code("xx"), "en");
    assert_eq!(lang_code_for_locale("fr-FR"), "fr");
    assert_eq!(lang_code_for_locale("ja_JP.UTF-8"), "ja");
    assert_eq!(lang_code_for_locale("nl-NL"), "en");
    assert_eq!(lang_code_for_locale("f"), "en");
    assert_eq!(detect_system_lang(), "en");
}

#[test]
fn debug_lines_show_the_clock_and_message() {
    let cat = I18n::new(r#"{"boot": "Oxide started"}"#, "{}", "{}").unwrap();
    assert_eq!(debug_log_line(&cat, "12:00:01", "boot"), "[DEBUG 12:00:01] Oxide started");
    assert_eq!(debug_log_line(&cat, "12:00:02", "other"), "[DEBUG 12:00:02] other");
}
