use spotify_player::player::{
    apply_volume, apply_volume_decided, effective_volume, interval_passed, volume_for_request, PlaybackMetadata,
    VolumeRequestError, VolumeSync,
};
use spotify_player::queue::RepeatState;

fn metadata(volume: Option<u32>, mute_state: Option<u32>) -> PlaybackMetadata {
    PlaybackMetadata {
        device_name: "dev".to_string(),
        device_id: None,
        volume,
        is_playing: true,
        repeat_state: RepeatState::Off,
        shuffle_state: false,
        mute_state,
        fake_track_repeat_state: false,
    }
}

#[test]
fn effective_volume_prefers_the_level_before_muting() {
    assert_eq!(effective_volume(&None), None);
    assert_eq!(effective_volume(&Some(metadata(Some(40), None))), Some(40));
    assert_eq!(effective_volume(&Some(metadata(Some(0), Some(70)))), Some(70));
    assert_eq!(effective_volume(&Some(metadata(Some(150), None))), Some(100));
    assert_eq!(effective_volume(&Some(metadata(None, None))), None);
}

#[test]
fn burst_of_volume_changes_accumulates() {
    let mut buffered = Some(metadata(Some(50), Some(80)));
    let mut sync = VolumeSync::default();
    assert!(sync.may_send());
    // the first change is sent at once and unmutes
    assert_eq!(apply_volume(&mut buffered, &mut sync, 55), Some(55));
    assert_eq!(effective_volume(&buffered), Some(55));
    assert!(sync.pending.is_none());
    assert!(sync.last_sent.is_some());
    // the next one, right after, is kept pending but applied locally
    assert_eq!(apply_volume(&mut buffered, &mut sync, 200), None);
    assert_eq!(effective_volume(&buffered), Some(100));
    assert_eq!(sync.pending, Some(100));
}

#[test]
fn volume_without_playback_changes_nothing() {
    let mut buffered = None;
    let mut sync = VolumeSync::default();
    assert_eq!(apply_volume(&mut buffered, &mut sync, 10), None);
    assert!(buffered.is_none());
    assert!(sync.pending.is_none());
}

#[test]
fn send_interval_is_100_milliseconds() {
    assert!(!interval_passed(99_999_999));
    assert!(interval_passed(100_000_000));
}

#[test]
fn command_line_volume_requests() {
    assert_eq!(volume_for_request(None, 10, false), Err(VolumeRequestError::NoPlayback));
    assert_eq!(volume_for_request(Some(None), 10, false), Err(VolumeRequestError::NoVolume));
    assert_eq!(volume_for_request(Some(Some(50)), 30, false), Ok(30));
    assert_eq!(volume_for_request(Some(Some(50)), 10, true), Ok(60));
    assert_eq!(volume_for_request(Some(Some(50)), -80, true), Ok(0));
    assert_eq!(volume_for_request(Some(Some(50)), -5, false), Err(VolumeRequestError::Negative));
}

#[test]
fn decided_volume_is_sent_or_kept_pending() {
    let mut buffered = Some(metadata(Some(50), Some(80)));
    let mut sync = VolumeSync::default();
    assert_eq!(apply_volume_decided(&mut buffered, &mut sync, 30, false), None);
    assert_eq!(sync.pending, Some(30));
    assert!(sync.last_sent.is_none());
    assert_eq!(effective_volume(&buffered), Some(30));
    assert_eq!(apply_volume_decided(&mut buffered, &mut sync, 120, true), Some(100));
    assert!(sync.pending.is_none());
    assert!(sync.last_sent.is_some());
    assert!(!sync.may_send_after(50_000_000));
    assert!(sync.may_send_after(100_000_000));
    assert!(VolumeSync::default().may_send_after(0));
}

#[test]
fn trailing_volume_is_flushed_once_it_may_be_sent() {
    let mut sync = VolumeSync::default();
    assert_eq!(sync.flush_pending(), None);
    sync.pending = Some(42);
    assert_eq!(sync.flush_pending_decided(false), None);
    assert_eq!(sync.pending, Some(42));
    assert_eq!(sync.flush_pending(), Some(42));
    assert!(sync.pending.is_none());
    assert!(sync.last_sent.is_some());
    sync.pending = Some(7);
    assert_eq!(sync.flush_pending_decided(true), Some(7));
    assert!(sync.pending.is_none());
}
