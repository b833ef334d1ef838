use spotify_player::auth::{build_authorize_url, join_scopes, pkce_challenge, random_url_safe, Pkce};

#[test]
fn pkce_challenge_matches_rfc7636_example() {
    // Verifier/challenge pair from RFC 7636, Appendix B.
    let verifier = "dBjftJeZ4CVP-mB92K27uhbUJU1p1r_wW1gFWFOEjXk";
    let challenge = pkce_challenge(verifier);
    assert_eq!(challenge, "E9Melhoa2OwvFrEMTJguCHaoeK1t8URWbuGJSstw-cM");
}

#[test]
fn random_pkce_pair_is_consistent() {
    let pkce = Pkce::new_random();
    assert_eq!(pkce.verifier.len(), 43);
    assert_eq!(pkce.challenge, pkce_challenge(&pkce.verifier));
    assert_eq!(random_url_safe(16).len(), 22);
    assert_ne!(random_url_safe(32), random_url_safe(32));
}

#[test]
fn scopes_are_joined_with_spaces() {
    assert_eq!(join_scopes(&["streaming", "user-top-read"]), "streaming user-top-read");
    assert_eq!(join_scopes(&["streaming"]), "streaming");
    assert_eq!(join_scopes(&[]), "");
}

#[test]
fn authorize_url_carries_every_parameter() {
    let url = build_authorize_url(
        "client",
        "http://127.0.0.1:8989/login",
        &["streaming", "user-top-read"],
        "challenge",
        "state",
    )
    .unwrap();
    assert!(url.starts_with("https://accounts.spotify.com/authorize?"));
    assert!(url.contains("response_type=code"));
    assert!(url.contains("client_id=client"));
    assert!(url.contains("redirect_uri=http%3A%2F%2F127.0.0.1%3A8989%2Flogin"));
    assert!(url.contains("scope=streaming+user-top-read"));
    assert!(url.contains("code_challenge_method=S256"));
    assert!(url.contains("code_challenge=challenge"));
    assert!(url.contains("state=state"));
}
