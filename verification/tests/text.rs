use rust_chaser::text::{chars_of, contains, trim_text, TrimKind};

#[test]
fn finds_fragments() {
    assert!(contains("{\"code\":-2011,\"msg\":\"Unknown order sent.\"}", "-2011"));
    assert!(contains("abc", ""));
    assert!(contains("abc", "abc"));
    assert!(!contains("abc", "abcd"));
    assert!(!contains("-201", "-2011"));
}

#[test]
fn trims_white_space_and_quotes() {
    assert_eq!(trim_text("  key \t\n", TrimKind::WhiteSpace), "key");
    assert_eq!(trim_text("\u{3000}key\u{a0}", TrimKind::WhiteSpace), "key");
    assert_eq!(trim_text("   ", TrimKind::WhiteSpace), "");
    assert_eq!(trim_text("\"\"key\"", TrimKind::Quote), "key");
    assert_eq!(trim_text(" \"key\" ", TrimKind::Quote), " \"key\" ");
    assert_eq!(trim_text("a b", TrimKind::WhiteSpace), "a b");
}

#[test]
fn reads_characters_in_order() {
    assert_eq!(chars_of("¡ok!"), vec!['¡', 'o', 'k', '!']);
}
