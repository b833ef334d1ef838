use spotify_player::diagnostics::{is_auth_error, panic_payload_message, parse_u64, retry_after_secs};

#[test]
fn parses_retry_after_seconds() {
    assert_eq!(retry_after_secs(Some("42")), Some(42));
    assert_eq!(retry_after_secs(Some("invalid")), None);
    assert_eq!(retry_after_secs(None), None);
}

#[test]
fn parses_numbers_as_std_does() {
    for s in ["0", "7", "+7", "18446744073709551615", "18446744073709551616", "", "+", "-1", "1 ", "00042"] {
        assert_eq!(parse_u64(s), s.parse::<u64>().ok(), "{s:?}");
    }
}

#[test]
fn recognizes_authentication_errors() {
    assert!(is_auth_error("request failed: Token is not valid"));
    assert!(is_auth_error("invalid_grant: refresh token revoked"));
    assert!(is_auth_error("http error: status code 401"));
    assert!(is_auth_error("http error: status code 403"));
    assert!(!is_auth_error("http error: status code 404"));
    assert!(!is_auth_error(""));
}

#[test]
fn panic_message_falls_back_to_unknown() {
    assert_eq!(panic_payload_message(Some("injected UI failure")), "injected UI failure");
    assert_eq!(panic_payload_message(None), "unknown panic payload");
}
