use js_engine::text::{chars_of, contains};

#[test]
fn text_is_found_where_it_stands() {
    assert!(contains("InternalError: stack overflow", "stack overflow"));
    assert!(contains("stack overflow", "stack overflow"));
    assert!(contains("abc", "a"));
    assert!(contains("abc", "c"));
    assert!(contains("abc", ""));
    assert!(contains("", ""));
    assert!(contains("aab", "ab"));
    assert!(contains("héllo wörld", "wörld"));
}

#[test]
fn text_is_not_found_where_it_does_not_stand() {
    assert!(!contains("", "a"));
    assert!(!contains("stack overflo", "stack overflow"));
    assert!(!contains("abc", "abcd"));
    assert!(!contains("abc", "ac"));
    assert!(!contains("héllo", "hello"));
}

#[test]
fn characters_come_in_order() {
    assert_eq!(chars_of("hé!"), vec!['h', 'é', '!']);
    assert_eq!(chars_of(""), Vec::<char>::new());
}
