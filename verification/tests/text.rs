use nowhear::text::{holds_text, joined, non_empty, same_text, same_texts, strip_prefix};

fn texts(list: &[&str]) -> Vec<String> {
    list.iter().map(|s| s.to_string()).collect()
}

#[test]
fn prefixes_are_cut_off() {
    assert_eq!(strip_prefix("org.foo", "org."), Some("foo".to_string()));
    assert_eq!(strip_prefix("org.", "org."), Some(String::new()));
    assert_eq!(strip_prefix("org", "org."), None);
    assert_eq!(strip_prefix("xorg.foo", "org."), None);
    assert_eq!(strip_prefix("曲名です", "曲名"), Some("です".to_string()));
    assert_eq!(strip_prefix("a", ""), Some("a".to_string()));
}

#[test]
fn texts_are_joined() {
    assert_eq!(joined("a", "b"), "ab");
    assert_eq!(joined("", ""), "");
    assert_eq!(joined("é", "🎵"), "é🎵");
}

#[test]
fn texts_are_compared() {
    assert!(same_text("a", "a"));
    assert!(!same_text("a", "A"));
    assert!(same_texts(&texts(&["a", "b"]), &texts(&["a", "b"])));
    assert!(!same_texts(&texts(&["a", "b"]), &texts(&["b", "a"])));
    assert!(!same_texts(&texts(&["a"]), &texts(&["a", "b"])));
    assert!(same_texts(&texts(&[]), &texts(&[])));
}

#[test]
fn lists_are_searched() {
    assert!(holds_text(&texts(&["a", "b"]), "b"));
    assert!(!holds_text(&texts(&["a", "b"]), "c"));
    assert!(!holds_text(&texts(&[]), ""));
}

#[test]
fn empty_texts_count_as_absent() {
    assert_eq!(non_empty(String::new()), None);
    assert_eq!(non_empty(" ".to_string()), Some(" ".to_string()));
}
