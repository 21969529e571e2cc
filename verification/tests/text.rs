use rsclaw::text::{
    after_prefix, begins_with, characters, contains, followed_by, head_before, join, same_text,
    trim, trim_trailing, white_space,
};

#[test]
fn white_space_is_that_of_unicode() {
    for code in 0..=0x10ffffu32 {
        if let Some(c) = char::from_u32(code) {
            assert_eq!(white_space(c), c.is_whitespace(), "U+{:04X}", code);
        }
    }
}

#[test]
fn trim_takes_white_space_off_both_ends() {
    for text in [
        "", " ", "\n", "a", " a", "a ", "\t a b \r\n", "\u{a0}x\u{3000}", "  \u{2003} ", "é \u{85}",
        "\u{200b}a\u{200b}", "\u{feff}data",
    ] {
        assert_eq!(trim(text), text.trim());
    }
}

#[test]
fn trailing_characters_are_taken_off() {
    assert_eq!(trim_trailing("http://h///", '/'), "http://h");
    assert_eq!(trim_trailing("///", '/'), "");
    assert_eq!(trim_trailing("/a", '/'), "/a");
    assert_eq!(trim_trailing("", '/'), "");
    assert_eq!(trim_trailing("éé", 'é'), "");
}

#[test]
fn prefixes_are_found() {
    assert!(begins_with("data: x", "data:"));
    assert!(begins_with("x", ""));
    assert!(!begins_with("dat", "data:"));
    assert!(!begins_with(" data:", "data:"));
    assert_eq!(after_prefix("data: é", "data:"), Some(" é"));
    assert_eq!(after_prefix("data", "data:"), None);
}

#[test]
fn occurrences_are_found() {
    assert!(contains("application/json; charset=utf-8", "json"));
    assert!(contains("json", "json"));
    assert!(contains("aab", "ab"));
    assert!(contains("", ""));
    assert!(contains("x", ""));
    assert!(!contains("jso", "json"));
    assert!(!contains("JSON", "json"));
}

#[test]
fn head_is_what_stands_before_the_first() {
    assert_eq!(head_before("deepseek/deepseek-v3/x", '/'), Some("deepseek"));
    assert_eq!(head_before("/x", '/'), Some(""));
    assert_eq!(head_before("plain", '/'), None);
    assert_eq!(head_before("", '/'), None);
}

#[test]
fn texts_are_compared_and_put_together() {
    assert!(same_text("é", "é"));
    assert!(!same_text("e", "é"));
    assert!(!same_text("ab", "ac"));
    assert!(same_text("", ""));
    assert_eq!(followed_by("a", "b"), "ab");
    assert_eq!(characters("aé"), vec!['a', 'é']);
    let pieces = vec!["a".to_owned(), String::new(), "b".to_owned()];
    assert_eq!(join(&pieces, "\n"), "a\n\nb");
    assert_eq!(join(&vec!["a".to_owned()], "\n"), "a");
    assert_eq!(join(&Vec::new(), "\n"), "");
}
