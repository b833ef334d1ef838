use spotify_player::model::{ContextId, TracksId};
use spotify_player::player::PlaybackMetadata;
use spotify_player::client_request::ClientRequest;
use spotify_player::player_events::{
    cover_filename, is_new_playback, lyrics_page_update, update_buffered_playback,
    ContextPageChange, NowPlaying, PlaybackRefresh, PlayerEventHandlerState, PlayingTrack,
};
use spotify_player::queue::RepeatState;

fn metadata(device: Option<&str>, volume: Option<u32>) -> PlaybackMetadata {
    PlaybackMetadata {
        device_name: "Laptop".to_string(),
        device_id: device.map(|d| d.to_string()),
        volume,
        is_playing: true,
        repeat_state: RepeatState::Off,
        shuffle_state: false,
        mute_state: None,
        fake_track_repeat_state: false,
    }
}

fn playing(uri: &str, progress: Option<u64>, queue: Option<&str>) -> NowPlaying {
    NowPlaying {
        uri: uri.to_string(),
        duration_ms: 1000,
        progress_ms: progress,
        is_playing: true,
        queue_playing_uri: queue.map(|q| q.to_string()),
    }
}

#[test]
fn new_playback_needs_a_new_non_empty_name() {
    assert!(is_new_playback(&"A".to_string(), &"B".to_string()));
    assert!(!is_new_playback(&"A".to_string(), &"A".to_string()));
    assert!(!is_new_playback(&"A".to_string(), &String::new()));
}

#[test]
fn kept_playback_carries_mute_and_fake_repeat_over() {
    let mut kept = metadata(Some("d1"), Some(0));
    kept.mute_state = Some(40);
    kept.fake_track_repeat_state = true;
    let fresh = metadata(Some("d1"), Some(0));
    let r = update_buffered_playback(Some(kept), Some(fresh), true, false).unwrap();
    assert_eq!(r.volume, Some(40));
    assert_eq!(r.mute_state, Some(40));
    assert!(r.fake_track_repeat_state);
}

#[test]
fn kept_playback_stays_without_a_change() {
    let mut kept = metadata(Some("d1"), Some(10));
    kept.is_playing = false;
    let fresh = metadata(Some("d1"), Some(90));
    let r = update_buffered_playback(Some(kept), Some(fresh), false, false).unwrap();
    assert_eq!(r.volume, Some(10));
    assert!(!r.is_playing);
}

#[test]
fn device_change_or_reset_replaces_the_kept_playback() {
    let r = update_buffered_playback(
        Some(metadata(Some("d1"), Some(10))),
        Some(metadata(Some("d2"), Some(90))),
        false,
        false,
    )
    .unwrap();
    assert_eq!(r.device_id.as_deref(), Some("d2"));
    assert_eq!(r.volume, Some(90));
    let r = update_buffered_playback(
        Some(metadata(Some("d1"), Some(10))),
        Some(metadata(Some("d1"), Some(90))),
        false,
        true,
    )
    .unwrap();
    assert_eq!(r.volume, Some(90));
    assert!(update_buffered_playback(Some(metadata(None, None)), None, false, false).is_none());
    assert!(update_buffered_playback(None, Some(metadata(None, None)), false, false).is_some());
}

#[test]
fn periodic_refresh_follows_its_interval() {
    let mut s = PlayerEventHandlerState::new(0);
    assert!(!s.periodic_refresh(1000, 999));
    assert!(s.periodic_refresh(1000, 1000));
    assert!(!s.periodic_refresh(1000, 1500));
    assert!(s.periodic_refresh(1000, 2000));
    assert!(!s.periodic_refresh(0, 100_000));
}

#[test]
fn end_of_an_item_is_reported_once() {
    let mut s = PlayerEventHandlerState::new(0);
    let p = playing("spotify:track:a", Some(1000), Some("spotify:track:a"));
    assert_eq!(
        s.playback_change(Some(&p), 10),
        PlaybackRefresh { get_current_playback: true, get_queue: false }
    );
    assert!(!s.playback_change(Some(&p), 20).get_current_playback);
    let early = playing("spotify:track:a", Some(10), Some("spotify:track:a"));
    assert!(!s.playback_change(Some(&early), 30).get_current_playback);
    assert!(s.playback_change(Some(&p), 40).get_current_playback);
}

#[test]
fn stale_queue_is_asked_for_once_per_throttle_period() {
    let mut s = PlayerEventHandlerState::new(0);
    let p = playing("spotify:track:a", Some(10), Some("spotify:track:z"));
    assert!(s.playback_change(Some(&p), 100).get_queue);
    assert!(!s.playback_change(Some(&p), 4_000).get_queue);
    assert!(s.playback_change(Some(&p), 5_100).get_queue);
    let other = playing("spotify:track:b", Some(10), None);
    assert!(s.playback_change(Some(&other), 5_200).get_queue);
    assert_eq!(
        s.playback_change(None, 5_300),
        PlaybackRefresh { get_current_playback: false, get_queue: false }
    );
}

#[test]
fn context_page_asks_for_missing_data() {
    let mut s = PlayerEventHandlerState::new(0);
    let album = Some(ContextId::Album("a1".to_string()));
    assert_eq!(
        s.context_page_change(&None, &album, false, 100),
        ContextPageChange { new_context: true, get_context: true }
    );
    assert_eq!(
        s.context_page_change(&album, &album, false, 200),
        ContextPageChange { new_context: false, get_context: false }
    );
    assert_eq!(
        s.context_page_change(&album, &album, false, 5_101),
        ContextPageChange { new_context: false, get_context: true }
    );
    assert_eq!(
        s.context_page_change(&album, &album, true, 20_000),
        ContextPageChange { new_context: false, get_context: false }
    );
    let tracks = Some(ContextId::Tracks(TracksId::new("user:liked", "Liked")));
    assert_eq!(
        s.context_page_change(&album, &tracks, false, 30_000),
        ContextPageChange { new_context: true, get_context: false }
    );
    assert_eq!(
        s.context_page_change(&tracks, &None, false, 40_000),
        ContextPageChange { new_context: true, get_context: false }
    );
}

#[test]
fn cover_file_names_join_name_artist_and_short_id() {
    assert_eq!(
        cover_filename("Abbey Road", "The Beatles", "0ETFjACtuP2ADo6LFhL6HN"),
        "Abbey Road-The Beatles-cover-0ETFjA.jpg"
    );
    assert_eq!(cover_filename("AC/DC Live", "AC/DC", "abcdefgh"), "ACDC Live-ACDC-cover-abcdef.jpg");
}

#[test]
fn lyrics_page_follows_the_playing_track() {
    let playing = PlayingTrack {
        name: "Song".to_string(),
        id: Some("t1".to_string()),
        artists: vec!["A".to_string(), "B".to_string()],
    };
    let (update, request) = lyrics_page_update(&"Old".to_string(), Some(&playing)).unwrap();
    assert_eq!(update.track, "Song");
    assert_eq!(update.artists, "A, B");
    assert_eq!(update.track_uri, "spotify:track:t1");
    assert!(matches!(request, ClientRequest::GetLyrics { track_id } if track_id == "t1"));
    assert!(lyrics_page_update(&"Song".to_string(), Some(&playing)).is_none());
    assert!(lyrics_page_update(&"Old".to_string(), None).is_none());
    let local = PlayingTrack { name: "Local".to_string(), id: None, artists: vec![] };
    assert!(lyrics_page_update(&"Old".to_string(), Some(&local)).is_none());
}
