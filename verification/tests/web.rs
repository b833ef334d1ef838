use spotify_player::web::{
    callback_reply, code_from_redirect, uses_callback_server, ApiScope, UrlParts, AUTH_SUCCESS_BODY,
};

#[test]
fn code_from_redirect_extracts_code() {
    // Bare request target (as read from the HTTP request line) and full URL both work.
    assert_eq!(
        code_from_redirect("/login?code=abc123&state=xyz").as_deref(),
        Some("abc123")
    );
    assert_eq!(
        code_from_redirect("http://127.0.0.1:8989/login?code=abc123&state=xyz").as_deref(),
        Some("abc123")
    );
}

#[test]
fn code_from_redirect_ignores_stray_requests() {
    // A browser prefetch carries no code.
    assert_eq!(
        code_from_redirect("/apple-touch-icon-precomposed.png"),
        None
    );
    assert_eq!(code_from_redirect("/favicon.ico"), None);
    assert_eq!(code_from_redirect("/login"), None);
}

#[test]
fn redirect_socket_address_requires_http_and_port() {
    assert!(uses_callback_server("http://127.0.0.1:8989/login"));
    // No port / non-http schemes fall back to the stdin flow.
    assert!(!uses_callback_server("http://127.0.0.1/login"));
    assert!(!uses_callback_server("https://127.0.0.1:8989/login"));
}

fn url(s: &str) -> UrlParts {
    UrlParts::parse(s).expect("valid URL")
}

#[test]
fn limits_only_configured_api_base_url() {
    let scope = ApiScope::new("https://api.spotify.com/v1").unwrap();

    assert!(scope.is_api_request(&url("https://api.spotify.com/v1/artists/id")));
    assert!(!scope.is_api_request(&url("https://accounts.spotify.com/api/token")));
    assert!(!scope.is_api_request(&url("https://api.spotify.com/v10/artists/id")));
}

#[test]
fn api_scope_matches_base_path_and_default_port() {
    let scope = ApiScope::new("https://api.spotify.com/v1/").unwrap();
    assert!(scope.is_api_request(&url("https://api.spotify.com/v1")));
    assert!(scope.is_api_request(&url("https://api.spotify.com:443/v1/me")));
    assert!(!scope.is_api_request(&url("http://api.spotify.com/v1/me")));
    assert!(!scope.is_api_request(&url("https://api.spotify.com:8443/v1/me")));
    assert!(ApiScope::new("not a url").is_none());
}

#[test]
fn code_is_the_first_code_pair_decoded() {
    assert_eq!(
        code_from_redirect("/login?state=a&code=x%20y&code=z").as_deref(),
        Some("x y")
    );
}

#[test]
fn callback_answers_the_redirect_with_success() {
    let reply = callback_reply("GET /login?code=abc123&state=xyz HTTP/1.1\r\n");
    assert_eq!(reply.code.as_deref(), Some("abc123"));
    assert_eq!(
        reply.response,
        format!(
            "HTTP/1.1 200 OK\r\ncontent-length: {}\r\nconnection: close\r\n\r\n{}",
            AUTH_SUCCESS_BODY.len(),
            AUTH_SUCCESS_BODY
        )
    );
}

#[test]
fn callback_answers_prefetches_with_not_found() {
    for line in ["GET /favicon.ico HTTP/1.1", "GET /apple-touch-icon-precomposed.png HTTP/1.1", "", "GET"] {
        let reply = callback_reply(line);
        assert!(reply.code.is_none());
        assert_eq!(
            reply.response,
            "HTTP/1.1 404 Not Found\r\ncontent-length: 0\r\nconnection: close\r\n\r\n"
        );
    }
}

#[test]
fn request_target_is_the_second_word() {
    let reply = callback_reply("  GET\t/login?code=zz \u{a0} HTTP/1.1");
    assert_eq!(reply.code.as_deref(), Some("zz"));
}
