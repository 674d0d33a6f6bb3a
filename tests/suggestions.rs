use git_ai::suggestions::parse_suggestions;

#[test]
fn numbered_lines_are_extracted_in_order() {
    let r = parse_suggestions("1. feat: add new line\n2. feat: introduce line\n3. chore: add line");
    assert_eq!(r, vec!["feat: add new line", "feat: introduce line", "chore: add line"]);
}

#[test]
fn parenthesis_markers_and_indentation() {
    let r = parse_suggestions("Here you go:\n  1) fix: a\n\t2) fix: b\n3)   fix: c  \n");
    assert_eq!(r, vec!["fix: a", "fix: b", "fix: c"]);
}

#[test]
fn backticks_and_quotes_are_removed() {
    let r = parse_suggestions("1. `feat: one`\n2. \"fix: two\"\n3. `\"docs: three\"`");
    assert_eq!(r, vec!["feat: one", "fix: two", "docs: three"]);
}

#[test]
fn only_one_layer_of_decoration_is_removed() {
    let r = parse_suggestions("1. ``feat: x``");
    assert_eq!(r, vec!["`feat: x`"]);
}

#[test]
fn empty_entries_are_dropped() {
    let r = parse_suggestions("1. \n2. ``\n3. chore: keep");
    assert_eq!(r, vec!["chore: keep"]);
}

#[test]
fn other_markers_are_ignored() {
    let r = parse_suggestions("4. not this\n1. this one\n- nor this\n10. nor this");
    assert_eq!(r, vec!["this one"]);
}

#[test]
fn crlf_line_endings() {
    let r = parse_suggestions("1. a\r\n2. b\r\n");
    assert_eq!(r, vec!["a", "b"]);
}

#[test]
fn unnumbered_reply_is_one_suggestion() {
    let r = parse_suggestions("  \n feat: whole reply here \n\n");
    assert_eq!(r, vec!["feat: whole reply here"]);
}

#[test]
fn unnumbered_multiline_reply_is_kept_whole() {
    let r = parse_suggestions("Title line\n\nBody text");
    assert_eq!(r, vec!["Title line\n\nBody text"]);
}

#[test]
fn empty_reply_gives_nothing() {
    assert!(parse_suggestions("").is_empty());
}

#[test]
fn whitespace_reply_gives_nothing() {
    assert!(parse_suggestions(" \n\t\r\n \u{3000}").is_empty());
}

#[test]
fn markers_with_only_empty_text_fall_back_to_whole_reply() {
    let r = parse_suggestions("1.\n2.");
    assert_eq!(r, vec!["1.\n2."]);
}

#[test]
fn non_ascii_suggestions() {
    let r = parse_suggestions("1. ✨ feat: 새 기능 추가\n2. 🐛 fix: 버그 수정");
    assert_eq!(r, vec!["✨ feat: 새 기능 추가", "🐛 fix: 버그 수정"]);
}
