use match_vs_map::scan::{take_string, try_take_string};

#[test]
fn plain_quote_terminates() {
    assert_eq!(take_string("A\""), "A\"".to_string());
}

#[test]
fn escaped_quote_is_carried_along() {
    assert_eq!(take_string("A\\\"\""), "A\\\"\"".to_string());
}

#[test]
fn escaped_backslash_leaves_quote_as_terminator() {
    assert_eq!(take_string("A\\\\\"\""), "A\\\\\"".to_string());
}

#[test]
fn double_escape_then_escaped_quote() {
    assert_eq!(take_string("A\\\\\\\"\""), "A\\\\\\\"\"".to_string());
}

#[test]
fn two_escaped_backslashes() {
    assert_eq!(take_string("A\\\\\\\\\"\""), "A\\\\\\\\\"".to_string());
}

#[test]
fn scan_keeps_text_after_terminator_out() {
    assert_eq!(take_string("ab\"cd\""), "ab\"".to_string());
    assert_eq!(take_string("\"rest"), "\"".to_string());
}

#[test]
fn scan_fails_without_unescaped_quote() {
    assert_eq!(try_take_string(""), None);
    assert_eq!(try_take_string("A"), None);
    assert_eq!(try_take_string("A\\"), None);
    assert_eq!(try_take_string("A\\\""), None);
}

#[test]
fn try_take_agrees_with_take_on_good_input() {
    assert_eq!(try_take_string("A\""), Some("A\"".to_string()));
    assert_eq!(try_take_string("x\\ny\"tail"), Some("x\\ny\"".to_string()));
}
