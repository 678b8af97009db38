use ip_weather::text::{join, same_text};

#[test]
fn join_puts_tail_behind_head() {
    assert_eq!(join("ab", "cd"), "abcd");
    assert_eq!(join("", "cd"), "cd");
    assert_eq!(join("ab", ""), "ab");
    assert_eq!(join("", ""), "");
}

#[test]
fn join_keeps_characters_outside_ascii() {
    assert_eq!(join("22", "℃"), "22℃");
    assert_eq!(join("天气", "晴"), "天气晴");
}

#[test]
fn same_text_compares_characters() {
    assert!(same_text("1", "1"));
    assert!(!same_text("1", "0"));
    assert!(!same_text("1", "11"));
    assert!(!same_text("", "1"));
    assert!(same_text("", ""));
}
