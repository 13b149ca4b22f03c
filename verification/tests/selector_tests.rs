use htmlfeed::errors::SelectorError;
use htmlfeed::selector::CssSelector;
use htmlfeed::selector::SelectorEx;

#[test]
fn parse_plain_selector() {
    let d = SelectorEx::parse("a.b").unwrap();
    assert_eq!(d.selector.as_str(), "a.b");
    assert!(d.attr.is_none());
}

#[test]
fn parse_selector_with_attr() {
    let d = SelectorEx::parse(".l|href").unwrap();
    assert_eq!(d.selector.as_str(), ".l");
    assert_eq!(d.attr.as_deref(), Some("href"));
}

#[test]
fn attr_taken_verbatim_after_first_bar() {
    let d = SelectorEx::parse("a|b|c").unwrap();
    assert_eq!(d.selector.as_str(), "a");
    assert_eq!(d.attr.as_deref(), Some("b|c"));
}

#[test]
fn empty_text_is_distinct_failure() {
    match CssSelector::parse("") {
        Err(SelectorError::Empty) => (),
        other => panic!("expected the empty-length failure, got {:?}", other),
    }
}

#[test]
fn empty_selector_before_bar_fails() {
    match SelectorEx::parse("|href") {
        Err(SelectorError::Empty) => (),
        other => panic!("expected the empty-length failure, got {:?}", other),
    }
}

#[test]
fn invalid_selector_is_syntax_failure() {
    match CssSelector::parse("???") {
        Err(SelectorError::Syntax { message }) => {
            assert!(message.starts_with("\"???\""));
        },
        other => panic!("expected a syntax failure, got {:?}", other),
    }
}

#[test]
fn reserialization_is_stable() {
    let d = SelectorEx::parse(".item|data-id").unwrap();
    let text = d.serialized();
    assert_eq!(text, ".item|data-id");
    let d2 = SelectorEx::parse(&text).unwrap();
    assert_eq!(d2.selector.as_str(), d.selector.as_str());
    assert_eq!(d2.attr, d.attr);
}

#[test]
fn reserialization_without_attr_is_stable() {
    let d = SelectorEx::parse("div > p").unwrap();
    assert_eq!(d.serialized(), "div > p");
}
