use tower_htmx::engine::Directive;
use tower_htmx::query::{get_query_string, last_value, parent_from_query, selector_from_query};
use tower_htmx::text::{has_prefix, join, matches_at, same_text, to_chars};

fn directive(target: &str, select: Option<&str>) -> Directive {
    Directive { target: Some(target.to_string()), select: select.map(|s| s.to_string()), swap: None }
}

#[test]
fn a_key_without_a_selector_is_the_target() {
    assert_eq!(get_query_string(&directive("/frag", None)), "/frag");
}

#[test]
fn a_key_with_a_selector_carries_it_percent_encoded() {
    assert_eq!(get_query_string(&directive("/frag", Some(".card"))), "/frag?hx-select=%2Ecard");
    assert_eq!(get_query_string(&directive("/frag", Some("foo bar?"))), "/frag?hx-select=foo%20bar%3F");
    assert_eq!(get_query_string(&directive("/frag", Some("aZ09"))), "/frag?hx-select=aZ09");
    assert_eq!(get_query_string(&directive("/frag", Some(""))), "/frag?hx-select=");
}

#[test]
fn bytes_beyond_ascii_are_encoded_in_upper_case_hex() {
    assert_eq!(get_query_string(&directive("x", Some("é~\u{7f}"))), "x?hx-select=%C3%A9%7E%7F");
    assert_eq!(get_query_string(&directive("x", Some("\n/_-"))), "x?hx-select=%0A%2F%5F%2D");
}

#[test]
fn parent_is_the_value_of_the_parameter() {
    assert_eq!(parent_from_query("parent=/b"), Some("/b".to_string()));
    assert_eq!(parent_from_query("x=1&parent=/b"), Some("/b".to_string()));
    assert_eq!(parent_from_query("parent=/b&x=1"), Some("/b".to_string()));
    assert_eq!(parent_from_query("parent=%2Fb%2Fc"), Some("/b/c".to_string()));
    assert_eq!(parent_from_query("parent="), Some("".to_string()));
}

#[test]
fn the_last_parent_of_a_query_wins() {
    assert_eq!(parent_from_query("parent=/a&parent=/b"), Some("/b".to_string()));
}

#[test]
fn a_parameter_of_another_name_names_no_parent() {
    assert_eq!(parent_from_query(""), None);
    assert_eq!(parent_from_query("x=1"), None);
    assert_eq!(parent_from_query("grandparent=/g"), None);
    assert_eq!(parent_from_query("x=parent=/b"), None);
    assert_eq!(parent_from_query("paren=t"), None);
}

#[test]
fn a_parameter_without_a_value_names_an_empty_parent() {
    assert_eq!(parent_from_query("parent"), Some("".to_string()));
}

#[test]
fn the_last_pair_of_a_name_gives_its_value() {
    let pairs = vec![
        ("a".to_string(), "1".to_string()),
        ("b".to_string(), "2".to_string()),
        ("a".to_string(), "3".to_string()),
    ];
    assert_eq!(last_value(&pairs, "a"), Some("3".to_string()));
    assert_eq!(last_value(&pairs, "b"), Some("2".to_string()));
    assert_eq!(last_value(&pairs, "c"), None);
    assert_eq!(last_value(&Vec::new(), "a"), None);
}

#[test]
fn the_selector_of_a_query_is_widened_to_descendants() {
    assert_eq!(
        selector_from_query(&Some("hx-select=.card".to_string()), "hx-select"),
        Some(".card, .card *".to_string())
    );
    assert_eq!(
        selector_from_query(&Some("pick=div%20%3E%20p".to_string()), "pick"),
        Some("div > p, div > p *".to_string())
    );
    assert_eq!(selector_from_query(&Some("hx-select=".to_string()), "hx-select"), None);
    assert_eq!(selector_from_query(&Some("other=.card".to_string()), "hx-select"), None);
    assert_eq!(selector_from_query(&None, "hx-select"), None);
}

#[test]
fn text_is_compared_by_characters() {
    assert!(same_text("héllo", "héllo"));
    assert!(!same_text("hello", "hellO"));
    assert!(!same_text("hello", "hell"));
    assert!(same_text("", ""));
    assert!(has_prefix("text/html; charset=utf-8", "text/html"));
    assert!(has_prefix("abc", ""));
    assert!(!has_prefix("text", "text/html"));
    assert!(!has_prefix("xtext/html", "text/html"));
    assert_eq!(join("ab", "cd"), "abcd");
    assert_eq!(to_chars("añb"), vec!['a', 'ñ', 'b']);
}

#[test]
fn a_pattern_is_matched_where_it_stands() {
    let text = to_chars("abcabcab");
    assert!(matches_at(&text, &to_chars("cab"), 2));
    assert!(!matches_at(&text, &to_chars("cab"), 3));
    assert!(!matches_at(&text, &to_chars("ab"), 7));
    assert!(matches_at(&text, &to_chars(""), 8));
    assert!(!matches_at(&text, &to_chars(""), 9));
}
