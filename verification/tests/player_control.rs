use spotify_player::client_request::PlayerRequest;
use spotify_player::model::{ContextId, Playback};
use spotify_player::player::PlaybackMetadata;
use spotify_player::player_control::{plan_player_request, PlayerCall, PlayerRequestError};
use spotify_player::queue::RepeatState;

fn playback(is_playing: bool) -> PlaybackMetadata {
    PlaybackMetadata {
        device_name: "Laptop".to_string(),
        device_id: Some("dev".to_string()),
        volume: Some(60),
        is_playing,
        repeat_state: RepeatState::Off,
        shuffle_state: false,
        mute_state: None,
        fake_track_repeat_state: false,
    }
}

#[test]
fn requests_without_playback_fail_except_transfer_and_start() {
    assert!(matches!(
        plan_player_request(PlayerRequest::NextTrack, None),
        Err(PlayerRequestError::NoPlayback)
    ));
    match plan_player_request(PlayerRequest::TransferPlayback("d2".to_string(), true), None) {
        Ok((PlayerCall::Transfer { device_id, force_play }, None)) => {
            assert_eq!(device_id, "d2");
            assert!(force_play);
        }
        other => panic!("unexpected {other:?}"),
    }
    let start = PlayerRequest::StartPlayback(Playback::Context(ContextId::Album("a".to_string()), None), None);
    match plan_player_request(start, None) {
        Ok((PlayerCall::Start { device_id: None, shuffle_after: None, .. }, None)) => {}
        other => panic!("unexpected {other:?}"),
    }
}

#[test]
fn start_uses_the_playback_device_and_shuffle() {
    let start = PlayerRequest::StartPlayback(Playback::URIs(vec![], None), Some(true));
    match plan_player_request(start, Some(playback(true))) {
        Ok((PlayerCall::Start { device_id, shuffle_after, .. }, None)) => {
            assert_eq!(device_id.as_deref(), Some("dev"));
            assert_eq!(shuffle_after, Some(true));
        }
        other => panic!("unexpected {other:?}"),
    }
    let start = PlayerRequest::StartPlayback(Playback::URIs(vec![], None), None);
    match plan_player_request(start, Some(playback(true))) {
        Ok((PlayerCall::Start { shuffle_after, .. }, None)) => assert_eq!(shuffle_after, Some(false)),
        other => panic!("unexpected {other:?}"),
    }
}

#[test]
fn resume_and_pause_only_call_when_needed() {
    match plan_player_request(PlayerRequest::Resume, Some(playback(true))) {
        Ok((PlayerCall::Nothing, Some(p))) => assert!(p.is_playing),
        other => panic!("unexpected {other:?}"),
    }
    match plan_player_request(PlayerRequest::Resume, Some(playback(false))) {
        Ok((PlayerCall::Resume { .. }, Some(p))) => assert!(p.is_playing),
        other => panic!("unexpected {other:?}"),
    }
    match plan_player_request(PlayerRequest::Pause, Some(playback(false))) {
        Ok((PlayerCall::Nothing, Some(p))) => assert!(!p.is_playing),
        other => panic!("unexpected {other:?}"),
    }
    match plan_player_request(PlayerRequest::ResumePause, Some(playback(true))) {
        Ok((PlayerCall::Pause { device_id }, Some(p))) => {
            assert_eq!(device_id.as_deref(), Some("dev"));
            assert!(!p.is_playing);
        }
        other => panic!("unexpected {other:?}"),
    }
}

#[test]
fn repeat_shuffle_and_volume_update_the_playback() {
    match plan_player_request(PlayerRequest::Repeat, Some(playback(true))) {
        Ok((PlayerCall::SetRepeat { state, .. }, Some(p))) => {
            assert_eq!(state, RepeatState::Track);
            assert_eq!(p.repeat_state, RepeatState::Track);
        }
        other => panic!("unexpected {other:?}"),
    }
    match plan_player_request(PlayerRequest::Shuffle, Some(playback(true))) {
        Ok((PlayerCall::SetShuffle { state, .. }, Some(p))) => assert!(state && p.shuffle_state),
        other => panic!("unexpected {other:?}"),
    }
    let mut muted = playback(true);
    muted.mute_state = Some(60);
    match plan_player_request(PlayerRequest::Volume(30), Some(muted)) {
        Ok((PlayerCall::SetVolume { volume, .. }, Some(p))) => {
            assert_eq!(volume, 30);
            assert_eq!(p.volume, Some(30));
            assert_eq!(p.mute_state, None);
        }
        other => panic!("unexpected {other:?}"),
    }
    match plan_player_request(PlayerRequest::SeekTrack(1234), Some(playback(true))) {
        Ok((PlayerCall::Seek { position_ms, .. }, Some(_))) => assert_eq!(position_ms, 1234),
        other => panic!("unexpected {other:?}"),
    }
}

#[test]
fn mute_then_unmute_restores_the_level() {
    let (first, muted) = match plan_player_request(PlayerRequest::ToggleMute, Some(playback(true))) {
        Ok((call, Some(p))) => (call, p),
        other => panic!("unexpected {other:?}"),
    };
    assert!(matches!(first, PlayerCall::SetVolume { volume: 0, .. }));
    assert_eq!(muted.mute_state, Some(60));
    assert_eq!(muted.volume, Some(60));
    match plan_player_request(PlayerRequest::ToggleMute, Some(muted)) {
        Ok((PlayerCall::SetVolume { volume, .. }, Some(p))) => {
            assert_eq!(volume, 60);
            assert_eq!(p.mute_state, None);
            assert_eq!(p.volume, Some(60));
        }
        other => panic!("unexpected {other:?}"),
    }
}

#[test]
fn three_repeats_cycle_back_to_the_start() {
    let mut p = playback(true);
    let mut states = vec![];
    for _ in 0..3 {
        match plan_player_request(PlayerRequest::Repeat, Some(p)) {
            Ok((PlayerCall::SetRepeat { state, .. }, Some(next))) => {
                states.push(state);
                p = next;
            }
            other => panic!("unexpected {other:?}"),
        }
    }
    assert_eq!(states, vec![RepeatState::Track, RepeatState::Context, RepeatState::Off]);
    assert_eq!(p.repeat_state, RepeatState::Off);
}
