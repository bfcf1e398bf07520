use rune_core::protocol::OllamaError;
use rune_core::text::parse_u64;
use rune_core::text::str_contains;
use rune_core::text::str_ends_with;
use rune_core::text::str_eq;
use rune_core::text::str_starts_with;
use rune_core::text::u64_to_dec_string;

#[test]
fn parse_u64_accepts_plain_and_signed_decimals() {
    assert_eq!(parse_u64("120"), Some(120));
    assert_eq!(parse_u64("+5"), Some(5));
    assert_eq!(parse_u64("0"), Some(0));
    assert_eq!(parse_u64("18446744073709551615"), Some(u64::MAX));
}

#[test]
fn parse_u64_rejects_junk_and_overflow() {
    assert_eq!(parse_u64(""), None);
    assert_eq!(parse_u64("+"), None);
    assert_eq!(parse_u64("12a"), None);
    assert_eq!(parse_u64("-3"), None);
    assert_eq!(parse_u64("18446744073709551616"), None);
}

#[test]
fn decimal_rendering_matches_std() {
    assert_eq!(u64_to_dec_string(0), "0");
    assert_eq!(u64_to_dec_string(7), "7");
    assert_eq!(u64_to_dec_string(120), "120");
    assert_eq!(u64_to_dec_string(u64::MAX), u64::MAX.to_string());
}

#[test]
fn string_predicates_behave_like_std() {
    assert!(str_starts_with("gpt-5.1-rune-max", "gpt-5.1"));
    assert!(!str_starts_with("gpt", "gpt-5"));
    assert!(str_contains("gpt-5-rune-mini", "-mini"));
    assert!(!str_contains("gpt-5-rune", "-mini"));
    assert!(str_contains("abc", ""));
    assert!(str_ends_with("rollout-x-id.jsonl", "-id.jsonl"));
    assert!(!str_ends_with("id.jsonl", "-id.jsonl"));
    assert!(str_eq("same", "same"));
    assert!(!str_eq("same", "Same"));
}

#[test]
fn ollama_error_messages_render_exactly() {
    let e = OllamaError::ConnectionFailed {
        message: "refused".to_string(),
        status_code: Some(502),
    };
    assert_eq!(e.message(), "Connection failed: refused (status: 502)");
    let e = OllamaError::ConnectionFailed {
        message: "refused".to_string(),
        status_code: None,
    };
    assert_eq!(e.message(), "Connection failed: refused");
    let e = OllamaError::ServerError {
        message: "boom".to_string(),
        status_code: Some(500),
    };
    assert_eq!(e.message(), "Server error: boom (status: 500)");
    assert_eq!(
        OllamaError::BadRequest("nope".to_string()).message(),
        "Bad request: nope"
    );
    assert_eq!(
        OllamaError::ModelNotFound("llama".to_string()).message(),
        "Model not found: llama"
    );
    assert_eq!(OllamaError::Timeout.message(), "Request timed out");
    assert_eq!(
        OllamaError::StreamDisconnected.message(),
        "Stream disconnected"
    );
    assert_eq!(
        OllamaError::ParseError("bad json".to_string()).message(),
        "Parse error: bad json"
    );
    assert_eq!(OllamaError::Other("misc".to_string()).message(), "Error: misc");
}
