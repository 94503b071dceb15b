use tiycode::gateway::platforms::weixin::split_text;

#[test]
fn split_short_text() {
    let chunks = split_text("hello", 2000);
    assert_eq!(chunks, vec!["hello"]);
}

#[test]
fn split_long_text_at_newline() {
    let text = format!("{}\n{}", "a".repeat(1800), "b".repeat(500));
    let chunks = split_text(&text, 2000);
    assert_eq!(chunks.len(), 2);
    assert!(chunks[0].len() <= 2000);
    assert!(chunks[1].len() <= 2000);
}

#[test]
fn split_prefers_space_and_keeps_it() {
    let text = "aaaa bbbb cc";
    let chunks = split_text(text, 6);
    assert_eq!(chunks, vec!["aaaa", " bbbb", " cc"]);
    let chunks = split_text("abcdefgh", 3);
    assert_eq!(chunks, vec!["abc", "def", "gh"]);
}
