use spotify_player::rate_limit::{
    plan_request, GetAttempt, GetRegistration, RequestPlan, RequestState,
    SpotifyApiRequestManager,
};

#[test]
fn stores_longest_global_retry_after() {
    let mut requests = RequestState::new();

    requests.store_retry_after(0, 10);
    requests.store_retry_after(0, 5);
    assert_eq!(requests.retry_after_remaining(0), Some(11_000));

    requests.store_retry_after(0, 20);
    assert_eq!(requests.retry_after_remaining(0), Some(21_000));
}

#[test]
fn waits_for_global_retry_after() {
    let mut requests = RequestState::new();
    requests.store_retry_after(0, 10);
    assert_eq!(requests.retry_wait(0), Some(11_000));
    assert_eq!(requests.retry_after_remaining(0), Some(11_000));

    assert_eq!(requests.retry_wait(11_000), None);
    assert_eq!(requests.retry_after_remaining(11_000), None);
}

#[test]
fn coalesces_identical_gets_for_one_second() {
    let mut requests = RequestState::new();
    let key = "https://api.spotify.com/v1/me".to_string();

    assert_eq!(requests.register_get(key.clone(), 0), GetRegistration::Leader);
    assert_eq!(requests.register_get(key.clone(), 0), GetRegistration::Shared);

    assert_eq!(requests.register_get(key.clone(), 1_000), GetRegistration::Shared);

    requests.finish_get(&key, 1_000);
    assert_eq!(requests.register_get(key.clone(), 1_999), GetRegistration::Shared);
    assert_eq!(requests.register_get(key, 2_000), GetRegistration::Leader);
}

#[test]
fn retries_rate_limited_get() {
    let mut requests = RequestState::new();
    assert_eq!(plan_request(true, true), RequestPlan::SharedGet);

    let mut calls = 0;
    let mut attempt = 0;
    loop {
        calls += 1;
        let (status, retry_after) = if calls == 1 { (429, Some(0)) } else { (200, None) };
        match requests.after_get_response(status, retry_after, attempt, 2, 0) {
            GetAttempt::Deliver => {
                assert_eq!(status, 200);
                break;
            }
            GetAttempt::Retry => attempt += 1,
        }
    }
    assert_eq!(calls, 2);
    assert_eq!(requests.retry_after_remaining(0), Some(1_000));
}

#[test]
fn rate_limited_get_is_delivered_after_the_last_retry() {
    let mut requests = RequestState::new();
    assert_eq!(requests.after_get_response(429, Some(1), 0, 2, 0), GetAttempt::Retry);
    assert_eq!(requests.after_get_response(429, Some(1), 1, 2, 0), GetAttempt::Retry);
    assert_eq!(requests.after_get_response(429, Some(1), 2, 2, 0), GetAttempt::Deliver);
    assert_eq!(requests.after_get_response(429, None, 0, 2, 0), GetAttempt::Deliver);
}

#[test]
fn shares_identical_get_response() {
    let mut requests = RequestState::new();
    let url = "https://api.spotify.com/v1/me".to_string();

    assert_eq!(plan_request(true, true), RequestPlan::SharedGet);
    assert_eq!(requests.register_get(url.clone(), 5), GetRegistration::Leader);
    requests.finish_get(&url, 10);
    assert_eq!(requests.register_get(url, 20), GetRegistration::Shared);
}

#[test]
fn does_not_retry_mutation() {
    let mut requests = RequestState::new();
    assert_eq!(plan_request(true, false), RequestPlan::Observed);
    requests.observe_rate_limit(429, Some(30), 0);
    assert_eq!(requests.retry_after_remaining(0), Some(31_000));
}

#[test]
fn other_requests_pass_through() {
    assert_eq!(plan_request(false, true), RequestPlan::PassThrough);
    assert_eq!(plan_request(false, false), RequestPlan::PassThrough);
}

#[test]
fn abandoned_get_is_not_shared() {
    let mut requests = RequestState::new();
    let key = "https://api.spotify.com/v1/me/player".to_string();
    assert_eq!(requests.register_get(key.clone(), 0), GetRegistration::Leader);
    requests.abandon_get(&key);
    assert_eq!(requests.register_get(key, 0), GetRegistration::Leader);
}

#[test]
fn different_gets_are_not_shared() {
    let mut requests = RequestState::new();
    let first = "https://api.spotify.com/v1/me".to_string();
    let second = "https://api.spotify.com/v1/me/playlists".to_string();
    assert_eq!(requests.register_get(first.clone(), 0), GetRegistration::Leader);
    assert_eq!(requests.register_get(second, 0), GetRegistration::Leader);
    assert_eq!(requests.register_get(first, 0), GetRegistration::Shared);
}

#[test]
fn responses_without_rate_limit_leave_the_deadline() {
    let mut requests = RequestState::new();
    requests.observe_rate_limit(200, Some(30), 0);
    requests.observe_rate_limit(429, None, 0);
    assert_eq!(requests.retry_after_remaining(0), None);
}

#[test]
fn manager_times_requests_with_its_clock() {
    let mut manager = SpotifyApiRequestManager::new(2);
    let key = "https://api.spotify.com/v1/me".to_string();
    assert_eq!(manager.register_get(key.clone()), GetRegistration::Leader);
    assert_eq!(manager.register_get(key.clone()), GetRegistration::Shared);
    manager.publish(&key);
    assert_eq!(manager.register_get(key), GetRegistration::Shared);

    assert_eq!(manager.retry_after_remaining(), None);
    assert!(manager.store_retry_after(10));
    let left = manager.retry_after_remaining().unwrap();
    assert!(left > 10_000 && left <= 11_000);
    let wait = manager.retry_wait_ms().unwrap();
    assert!(wait > 10_000 && wait <= 11_000);

    assert!(!manager.store_retry_after(u64::MAX));
    assert_eq!(manager.after_get_response(429, Some(1), 0), GetAttempt::Retry);
    assert_eq!(manager.after_get_response(429, Some(1), 2), GetAttempt::Deliver);
}

#[test]
fn clock_readings_count_whole_milliseconds() {
    assert_eq!(spotify_player::rate_limit::millis_of(0), 0);
    assert_eq!(spotify_player::rate_limit::millis_of(1_999_999), 1);
    assert_eq!(spotify_player::rate_limit::millis_of(5_000_000_000), 5_000);
    assert_eq!(spotify_player::rate_limit::millis_of(u128::MAX), u64::MAX);
}
