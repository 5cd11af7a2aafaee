use tower_htmx::swap::{ContentKind, SwapMode};

#[test]
fn swap_mode_defaults_to_inner_html() {
    assert_eq!(SwapMode::from_attribute(&None), Some(SwapMode::ReplaceInnerHTML));
}

#[test]
fn swap_mode_reads_every_name() {
    let read = |s: &str| SwapMode::from_attribute(&Some(s.to_string()));
    assert_eq!(read("innerHTML"), Some(SwapMode::ReplaceInnerHTML));
    assert_eq!(read("outerHTML"), Some(SwapMode::ReplaceOuterHTML));
    assert_eq!(read("afterbegin"), Some(SwapMode::InsertAfterBegin));
    assert_eq!(read("beforebegin"), Some(SwapMode::InsertBeforeBegin));
    assert_eq!(read("beforeend"), Some(SwapMode::InsertBeforeEnd));
    assert_eq!(read("afterend"), Some(SwapMode::InsertAfterEnd));
    assert_eq!(read("delete"), Some(SwapMode::Delete));
}

#[test]
fn swap_mode_of_an_unknown_value_is_none() {
    assert_eq!(SwapMode::from_attribute(&Some("sideways".to_string())), None);
    assert_eq!(SwapMode::from_attribute(&Some("".to_string())), None);
    assert_eq!(SwapMode::from_attribute(&Some("innerhtml".to_string())), None);
}

#[test]
fn content_kind_goes_by_the_prefix_of_the_content_type() {
    assert_eq!(ContentKind::from_content_type(&Some("text/html".to_string())), ContentKind::Html);
    assert_eq!(ContentKind::from_content_type(&Some("text/html; charset=utf-8".to_string())), ContentKind::Html);
    assert_eq!(ContentKind::from_content_type(&Some("text/plain".to_string())), ContentKind::Text);
    assert_eq!(ContentKind::from_content_type(&Some("application/text/html".to_string())), ContentKind::Text);
    assert_eq!(ContentKind::from_content_type(&None), ContentKind::Text);
}
