use rune_core::codec::escape_json_fragment;
use rune_core::codec::unescape_json_fragment;

#[test]
fn escaping_matches_json_string_rules() {
    assert_eq!(escape_json_fragment("plain text"), "plain text");
    assert_eq!(
        escape_json_fragment("say \"hi\"\n\tdone\\"),
        "say \\\"hi\\\"\\n\\tdone\\\\"
    );
    assert_eq!(escape_json_fragment(""), "");
}

#[test]
fn framed_text_reads_back_exactly() {
    let originals = [
        "",
        "hello",
        "quotes \" and \\ slashes",
        "line\nbreaks\r\tand tabs",
        "unicode: caf\u{e9} \u{1f680}",
    ];
    for s in originals {
        let framed = escape_json_fragment(s);
        assert_eq!(unescape_json_fragment(&framed).as_deref(), Some(s));
    }
}

#[test]
fn invalid_frames_are_rejected() {
    assert_eq!(unescape_json_fragment("dangling\\"), None);
    assert_eq!(unescape_json_fragment("bad\\qescape"), None);
    assert_eq!(unescape_json_fragment("raw\"quote"), None);
    assert_eq!(unescape_json_fragment("fine\\nhere"), Some("fine\nhere".to_string()));
}
