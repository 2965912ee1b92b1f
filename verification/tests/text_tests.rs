use cognitive_orchestrator::text::{fixed4_string, join_with_newlines, str_contains, str_has_prefix};

#[test]
fn contains_finds_inner_word() {
    assert!(str_contains("let's engage users", "engage"));
    assert!(str_contains("viral", "viral"));
    assert!(str_contains("go viral now", "viral"));
    assert!(!str_contains("plain request", "viral"));
    assert!(!str_contains("Viral", "viral"));
    assert!(str_contains("anything", ""));
    assert!(!str_contains("ab", "abc"));
}

#[test]
fn prefix_is_anchored() {
    assert!(str_has_prefix("query llm viral campaign", "query llm "));
    assert!(!str_has_prefix("please query llm x", "query llm "));
    assert!(!str_has_prefix("query llm", "query llm "));
    assert!(str_has_prefix("anything", ""));
}

#[test]
fn fixed4_renders_four_decimals() {
    assert_eq!(fixed4_string(8500), "0.8500");
    assert_eq!(fixed4_string(8000), "0.8000");
    assert_eq!(fixed4_string(0), "0.0000");
    assert_eq!(fixed4_string(123456), "12.3456");
    assert_eq!(fixed4_string(10000), "1.0000");
    assert_eq!(fixed4_string(-5000), "-0.5000");
    assert_eq!(fixed4_string(7), "0.0007");
}

#[test]
fn join_inserts_single_newlines() {
    let items: Vec<String> = vec!["a".to_owned(), "b".to_owned(), "c".to_owned()];
    assert_eq!(join_with_newlines(&items), "a\nb\nc");
    let one: Vec<String> = vec!["solo".to_owned()];
    assert_eq!(join_with_newlines(&one), "solo");
    let none: Vec<String> = vec![];
    assert_eq!(join_with_newlines(&none), "");
}
