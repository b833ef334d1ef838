use spotify_player::api_routing::{fallback_status, ApiIdentity, ApiRouting};
use spotify_player::rate_limit::{plan_request, GetAttempt, RequestPlan, RequestState};

fn routing(has_fallback: bool) -> ApiRouting {
    ApiRouting {
        has_fallback,
        ncspot_only_get_endpoints: vec![],
    }
    .with_ncspot_only_get_endpoints(vec!["artists/".to_string(), "search".to_string()])
}

#[test]
fn configured_endpoint_prefix_uses_ncspot() {
    let r = routing(true);
    assert!(r.is_ncspot_only_get("artists/artist-id"));
    assert!(r.is_ncspot_only_get("search"));
    assert!(!r.is_ncspot_only_get("me/playlists"));
    assert!(!r.is_ncspot_only_get("artist"));
    assert_eq!(r.get_identity("artists/artist-id"), ApiIdentity::Fallback);
    assert_eq!(r.get_identity("me"), ApiIdentity::Primary);
    assert_eq!(routing(false).get_identity("artists/artist-id"), ApiIdentity::Primary);
}

#[test]
fn only_client_errors_fall_back() {
    assert_eq!(fallback_status(Some(403)), Some(403));
    assert_eq!(fallback_status(Some(429)), Some(429));
    assert_eq!(fallback_status(Some(500)), None);
    assert_eq!(fallback_status(Some(200)), None);
    assert_eq!(fallback_status(None), None);
    assert!(routing(true).retries_with_fallback(Some(403)));
    assert!(!routing(false).retries_with_fallback(Some(403)));
    assert!(!routing(true).retries_with_fallback(Some(500)));
}

#[test]
fn successful_primary_request_does_not_use_fallback() {
    let r = ApiRouting::new(true);
    assert_eq!(r.get_identity("test"), ApiIdentity::Primary);
    assert!(!r.retries_with_fallback(Some(200)));
}

#[test]
fn server_error_does_not_use_fallback() {
    let r = ApiRouting::new(true);
    assert_eq!(r.get_identity("test"), ApiIdentity::Primary);
    assert!(!r.retries_with_fallback(Some(500)));
}

#[test]
fn custom_rate_limit_falls_back_before_ncspot_retries() {
    let r = ApiRouting::new(true);
    assert_eq!(r.get_identity("test"), ApiIdentity::Primary);
    // the user's client is rate limited: the fallback client takes the request
    assert!(r.retries_with_fallback(Some(429)));
    // the fallback client's request layer retries its own rate-limited GET once
    let mut layer = RequestState::new();
    assert_eq!(plan_request(true, true), RequestPlan::SharedGet);
    assert_eq!(layer.after_get_response(429, Some(0), 0, 1, 0), GetAttempt::Retry);
    assert_eq!(layer.after_get_response(200, None, 1, 1, 1_000), GetAttempt::Deliver);
}

#[test]
fn client_error_on_mutation_uses_fallback_once() {
    let r = ApiRouting::new(true);
    assert!(r.retries_with_fallback(Some(403)));
    // the fallback client's request layer sends a mutation once, without retries
    assert_eq!(plan_request(true, false), RequestPlan::Observed);
}

#[test]
fn api_get_uses_fallback_token() {
    let r = ApiRouting::new(true);
    assert_eq!(r.get_identity("test"), ApiIdentity::Primary);
    assert!(r.retries_with_fallback(Some(403)));
    assert!(!ApiRouting::new(false).retries_with_fallback(Some(403)));
}

#[test]
fn search_uses_ncspot_without_calling_primary() {
    assert_eq!(ApiRouting::new(true).get_identity("search"), ApiIdentity::Fallback);
}

#[test]
fn configured_endpoint_prefix_uses_ncspot_without_calling_primary() {
    let r = ApiRouting::new(true).with_ncspot_only_get_endpoints(vec!["artists/".to_string()]);
    assert_eq!(r.get_identity("artists/artist-id"), ApiIdentity::Fallback);
    assert_eq!(r.get_identity("search"), ApiIdentity::Primary);
}

#[test]
fn current_user_playlists_uses_ncspot_without_calling_primary() {
    assert_eq!(ApiRouting::new(true).get_identity("me/playlists"), ApiIdentity::Fallback);
    assert_eq!(ApiRouting::new(false).get_identity("me/playlists"), ApiIdentity::Primary);
}
