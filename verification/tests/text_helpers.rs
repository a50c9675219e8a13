use uart_term::text::{same_text, strip_line_feed};

#[test]
fn same_text_compares_character_for_character() {
    assert!(same_text("", ""));
    assert!(same_text("q!", "q!"));
    assert!(same_text("h\u{e9}llo", "h\u{e9}llo"));
    assert!(!same_text("q!", "q?"));
    assert!(!same_text("q!", "q"));
    assert!(!same_text("q", "q!"));
    assert!(!same_text("", " "));
    assert!(!same_text("Q!", "q!"));
    assert!(!same_text("h\u{e9}llo", "hello"));
}

#[test]
fn strip_line_feed_takes_one_final_line_feed() {
    assert_eq!(strip_line_feed("AT\n"), "AT");
    assert_eq!(strip_line_feed("\n"), "");
    assert_eq!(strip_line_feed("AT\n\n"), "AT\n");
    assert_eq!(strip_line_feed("a\nb\n"), "a\nb");
}

#[test]
fn strip_line_feed_leaves_everything_else() {
    assert_eq!(strip_line_feed(""), "");
    assert_eq!(strip_line_feed("AT"), "AT");
    assert_eq!(strip_line_feed("AT\r\n"), "AT\r");
    assert_eq!(strip_line_feed("AT\r"), "AT\r");
    assert_eq!(strip_line_feed("\nAT"), "\nAT");
    assert_eq!(strip_line_feed("AT \n"), "AT ");
    assert_eq!(strip_line_feed("gr\u{fc}\u{df}e\n"), "gr\u{fc}\u{df}e");
    assert_eq!(strip_line_feed("gr\u{fc}\u{df}"), "gr\u{fc}\u{df}");
}
