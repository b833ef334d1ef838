use spotify_player::request::{
    RequestFeedbackKind, RequestKey, RequestMetadata, RequestOperation, RequestStatus,
    RequestTracker,
};

#[test]
fn older_completion_cannot_replace_newer_status() {
    let mut tracker = RequestTracker::default();
    let older = tracker.begin(RequestMetadata::tracked_key(RequestKey::Queue));
    let newer = tracker.begin(RequestMetadata::tracked_key(RequestKey::Queue));

    tracker.fail(&older, "old failure");
    assert_eq!(
        tracker.status(&RequestKey::Queue),
        Some(&RequestStatus::Loading)
    );

    tracker.succeed(&newer);
    assert_eq!(
        tracker.status(&RequestKey::Queue),
        Some(&RequestStatus::Succeeded)
    );
}

#[test]
fn operation_feedback_transitions_from_pending_to_error() {
    let mut tracker = RequestTracker::default();
    let token = tracker.begin(RequestMetadata::operation(RequestOperation::new(
        "Saving playlist",
        "Playlist saved",
        "Could not save playlist",
    )));

    assert_eq!(
        tracker.visible_feedback().unwrap().kind,
        RequestFeedbackKind::Pending
    );

    tracker.fail(&token, "network unavailable");
    let feedback = tracker.visible_feedback().unwrap();
    assert_eq!(feedback.kind, RequestFeedbackKind::Error);
    assert!(feedback.message.contains("network unavailable"));
    assert!(feedback.message.contains("See Logs"));
}

#[test]
fn begin_marks_key_loading_and_latest_completion_applies() {
    let mut tracker = RequestTracker::default();
    let search = RequestKey::Search("daft punk".to_string());
    let token = tracker.begin(RequestMetadata::tracked_key(search.clone()));
    assert!(tracker.is_loading(&search));
    assert_eq!(tracker.status(&RequestKey::Queue), None);

    tracker.fail(&token, "timeout");
    assert_eq!(
        tracker.status(&search),
        Some(&RequestStatus::Failed("timeout".to_string()))
    );
    assert!(!tracker.is_loading(&search));
}

#[test]
fn keys_with_different_arguments_are_tracked_apart() {
    let mut tracker = RequestTracker::default();
    let a = RequestKey::Context("a".to_string());
    let b = RequestKey::Context("b".to_string());
    let ta = tracker.begin(RequestMetadata::tracked_key(a.clone()));
    let _tb = tracker.begin(RequestMetadata::tracked_key(b.clone()));
    tracker.succeed(&ta);
    assert_eq!(tracker.status(&a), Some(&RequestStatus::Succeeded));
    assert_eq!(tracker.status(&b), Some(&RequestStatus::Loading));
}

#[test]
fn clear_status_forgets_only_that_key() {
    let mut tracker = RequestTracker::default();
    let _ = tracker.begin(RequestMetadata::tracked_key(RequestKey::Devices));
    let _ = tracker.begin(RequestMetadata::tracked_key(RequestKey::Queue));
    tracker.clear_status(&RequestKey::Devices);
    assert_eq!(tracker.status(&RequestKey::Devices), None);
    assert_eq!(tracker.status(&RequestKey::Queue), Some(&RequestStatus::Loading));
}

#[test]
fn failure_message_has_the_documented_shape() {
    let mut tracker = RequestTracker::default();
    let token = tracker.begin(RequestMetadata::tracked_operation(
        RequestKey::CreatePlaylist,
        RequestOperation::new("Creating", "Created", "Could not create playlist"),
    ));
    tracker.fail(&token, "403");
    let feedback = tracker.visible_feedback().unwrap();
    assert_eq!(
        feedback.message,
        "Could not create playlist: 403. See Logs for details."
    );
    assert_eq!(
        tracker.status(&RequestKey::CreatePlaylist),
        Some(&RequestStatus::Failed("403".to_string()))
    );
}

#[test]
fn success_feedback_is_shown_until_it_expires() {
    let mut tracker = RequestTracker::default();
    let token = tracker.begin(RequestMetadata::operation(RequestOperation::new(
        "Saving", "Saved", "Failed",
    )));
    tracker.succeed(&token);
    let shown = tracker.visible_feedback_given(false).unwrap();
    assert_eq!(shown.kind, RequestFeedbackKind::Success);
    assert_eq!(shown.message, "Saved");
    assert!(tracker.visible_feedback_given(true).is_none());
    // a fresh success message is still visible
    assert!(tracker.visible_feedback().is_some());
}

#[test]
fn stale_operation_cannot_take_over_feedback() {
    let mut tracker = RequestTracker::default();
    let first = tracker.begin(RequestMetadata::operation(RequestOperation::new(
        "First", "First done", "First failed",
    )));
    let _second = tracker.begin(RequestMetadata::operation(RequestOperation::new(
        "Second", "Second done", "Second failed",
    )));
    tracker.succeed(&first);
    let shown = tracker.visible_feedback().unwrap();
    assert_eq!(shown.kind, RequestFeedbackKind::Pending);
    assert_eq!(shown.message, "Second");
}

#[test]
fn success_feedback_lasts_four_seconds() {
    let mut tracker = RequestTracker::default();
    let token = tracker.begin(RequestMetadata::operation(RequestOperation::new(
        "Saving", "Saved", "Failed",
    )));
    assert_eq!(
        tracker.visible_feedback_after(10_000_000_000).unwrap().kind,
        RequestFeedbackKind::Pending
    );
    tracker.succeed(&token);
    assert_eq!(tracker.visible_feedback_after(4_000_000_000).unwrap().message, "Saved");
    assert!(tracker.visible_feedback_after(4_000_000_001).is_none());
}

#[test]
fn stale_completions_never_write_over_a_longer_history() {
    let mut tracker = RequestTracker::default();
    let k = RequestKey::Queue;
    let a = tracker.begin(RequestMetadata::tracked_key(k.clone()));
    let _other = tracker.begin(RequestMetadata::tracked_key(RequestKey::Search("x".to_string())));
    let b = tracker.begin(RequestMetadata::tracked_key(k.clone()));
    tracker.clear_status(&RequestKey::Search("x".to_string()));
    tracker.fail(&a, "late");
    tracker.succeed(&a);
    assert!(tracker.is_loading(&k));
    tracker.fail(&b, "boom");
    assert_eq!(tracker.status(&k), Some(&RequestStatus::Failed("boom".to_string())));
    assert!(!tracker.is_loading(&k));
    tracker.clear_status(&k);
    tracker.succeed(&b);
    assert_eq!(tracker.status(&k), None);
}
