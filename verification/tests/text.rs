use crane::text::same_text;

#[test]
fn same_text_compares_character_for_character() {
    assert!(same_text("", ""));
    assert!(same_text("linux", "linux"));
    assert!(!same_text("linux", "Linux"));
    assert!(!same_text("linux", "linux "));
    assert!(!same_text("", "x"));
    assert!(same_text("gr\u{fc}n", "gr\u{fc}n"));
    assert!(!same_text("gr\u{fc}n", "grun"));
}
