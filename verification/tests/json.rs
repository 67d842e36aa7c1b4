use kaws::json::json_escape;

#[test]
fn plain_text_is_written_as_it_is() {
    assert_eq!(json_escape(""), "");
    assert_eq!(json_escape("kaws-demo"), "kaws-demo");
    assert_eq!(json_escape("a b/c'd"), "a b/c'd");
    assert_eq!(json_escape("h\u{e9}llo \u{4e2d}\u{1f600}"), "h\u{e9}llo \u{4e2d}\u{1f600}");
    assert_eq!(json_escape("\u{20}\u{7f}"), "\u{20}\u{7f}");
}

#[test]
fn quote_and_backslash_stand_behind_a_backslash() {
    assert_eq!(json_escape("\""), "\\\"");
    assert_eq!(json_escape("\\"), "\\\\");
    assert_eq!(json_escape("a\"b"), "a\\\"b");
    assert_eq!(json_escape("\\\""), "\\\\\\\"");
}

#[test]
fn control_characters_are_written_by_their_number() {
    assert_eq!(json_escape("\u{0}"), "\\u0000");
    assert_eq!(json_escape("\t"), "\\u0009");
    assert_eq!(json_escape("\n"), "\\u000a");
    assert_eq!(json_escape("\r"), "\\u000d");
    assert_eq!(json_escape("\u{10}"), "\\u0010");
    assert_eq!(json_escape("\u{1b}"), "\\u001b");
    assert_eq!(json_escape("\u{1f}"), "\\u001f");
}

#[test]
fn what_is_written_reads_back_as_the_text() {
    for code in 0u32..0x3000 {
        let c = match char::from_u32(code) {
            Some(c) => c,
            None => continue,
        };
        let text = format!("a{}b{}", c, c);
        let written = format!("\"{}\"", json_escape(&text));
        let read: String = serde_json::from_str(&written).unwrap();
        assert_eq!(read, text);
    }
}
