use chat_client::line::{frame_line, is_exit_token, strip_terminator};

#[test]
fn strip_removes_the_line_feed() {
    assert_eq!(strip_terminator("hello\n"), "hello");
    assert_eq!(strip_terminator("/quit\n"), "/quit");
}

#[test]
fn strip_removes_carriage_return_and_line_feed() {
    assert_eq!(strip_terminator("hello\r\n"), "hello");
}

#[test]
fn strip_removes_one_terminator_only() {
    assert_eq!(strip_terminator("hello\n\n"), "hello\n");
    assert_eq!(strip_terminator("hello\r\r\n"), "hello\r");
    assert_eq!(strip_terminator("hello\n\r\n"), "hello\n");
}

#[test]
fn strip_keeps_white_space() {
    assert_eq!(strip_terminator("  hello world \t\n"), "  hello world \t");
    assert_eq!(strip_terminator(" a  b "), " a  b ");
    assert_eq!(strip_terminator("\u{3000}hi\u{a0}\n"), "\u{3000}hi\u{a0}");
    assert_eq!(strip_terminator("   \n"), "   ");
}

#[test]
fn strip_keeps_a_carriage_return_without_line_feed() {
    assert_eq!(strip_terminator("hello\r"), "hello\r");
    assert_eq!(strip_terminator("\r"), "\r");
}

#[test]
fn strip_of_a_bare_terminator_is_empty() {
    assert_eq!(strip_terminator(""), "");
    assert_eq!(strip_terminator("\n"), "");
    assert_eq!(strip_terminator("\r\n"), "");
}

#[test]
fn strip_leaves_a_line_without_terminator_alone() {
    assert_eq!(strip_terminator("hello"), "hello");
    assert_eq!(strip_terminator("gr\u{fc}\u{df}e"), "gr\u{fc}\u{df}e");
}

#[test]
fn strip_counts_characters_not_bytes() {
    assert_eq!(strip_terminator("gr\u{fc}\u{df}e\r\n"), "gr\u{fc}\u{df}e");
    assert_eq!(strip_terminator("\u{1f600}\n"), "\u{1f600}");
}

#[test]
fn exit_token_is_recognised() {
    assert!(is_exit_token("/quit"));
}

#[test]
fn other_texts_are_not_the_exit_token() {
    assert!(!is_exit_token(""));
    assert!(!is_exit_token("/qui"));
    assert!(!is_exit_token("/quit "));
    assert!(!is_exit_token(" /quit"));
    assert!(!is_exit_token("/quit\n"));
    assert!(!is_exit_token("/QUIT"));
    assert!(!is_exit_token("quit"));
    assert!(!is_exit_token("/quiz"));
    assert!(!is_exit_token("\\quit"));
    assert!(!is_exit_token("/qu\u{ef}t"));
}

#[test]
fn frame_appends_one_line_terminator() {
    assert_eq!(frame_line("hello"), "hello\n");
    assert_eq!(frame_line(""), "\n");
    assert_eq!(frame_line("a b  c"), "a b  c\n");
    assert_eq!(frame_line("gr\u{fc}\u{df}e"), "gr\u{fc}\u{df}e\n");
}
