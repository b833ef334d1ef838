use spotify_player::cli::{Command, ItemType};
use spotify_player::cli_playback::{
    context_player_request, liked_tracks_player_request, radio_player_request,
    id_from_search, seek_player_request, simple_player_request, PlaybackCommandError,
};
use spotify_player::client_request::PlayerRequest;
use spotify_player::model::{ContextId, ItemId, Playback};

fn uris() -> Vec<String> {
    (0..5).map(|i| format!("spotify:track:{i}")).collect()
}

#[test]
fn simple_commands_map_to_player_requests() {
    assert!(matches!(simple_player_request(&Command::PlayPause), Some(PlayerRequest::ResumePause)));
    assert!(matches!(simple_player_request(&Command::Play), Some(PlayerRequest::Resume)));
    assert!(matches!(simple_player_request(&Command::Pause), Some(PlayerRequest::Pause)));
    assert!(matches!(simple_player_request(&Command::Next), Some(PlayerRequest::NextTrack)));
    assert!(matches!(simple_player_request(&Command::Previous), Some(PlayerRequest::PreviousTrack)));
    assert!(matches!(simple_player_request(&Command::Shuffle), Some(PlayerRequest::Shuffle)));
    assert!(matches!(simple_player_request(&Command::Repeat), Some(PlayerRequest::Repeat)));
    assert!(simple_player_request(&Command::Seek(5)).is_none());
}

#[test]
fn seeking_moves_from_the_progress() {
    assert!(matches!(seek_player_request(Some(Some(10_000)), -4_000), Ok(PlayerRequest::SeekTrack(6_000))));
    assert!(matches!(seek_player_request(None, 1), Err(PlaybackCommandError::NoPlayback)));
    assert!(matches!(seek_player_request(Some(None), 1), Err(PlaybackCommandError::NoProgress)));
}

#[test]
fn contexts_start_with_the_shuffle_asked_for() {
    match context_player_request(ItemId::Album("a".to_string()), true) {
        PlayerRequest::StartPlayback(Playback::Context(ContextId::Album(id), None), Some(true)) => {
            assert_eq!(id, "a")
        }
        other => panic!("unexpected {other:?}"),
    }
    match context_player_request(ItemId::Playlist("p".to_string()), false) {
        PlayerRequest::StartPlayback(Playback::Context(ContextId::Playlist(id), None), Some(false)) => {
            assert_eq!(id, "p")
        }
        other => panic!("unexpected {other:?}"),
    }
}

#[test]
fn liked_tracks_are_cut_to_the_limit() {
    match liked_tracks_player_request(uris(), 3, false) {
        PlayerRequest::StartPlayback(Playback::URIs(u, None), None) => assert_eq!(u, uris()[..3].to_vec()),
        other => panic!("unexpected {other:?}"),
    }
    match liked_tracks_player_request(uris(), 10, false) {
        PlayerRequest::StartPlayback(Playback::URIs(u, None), None) => assert_eq!(u, uris()),
        other => panic!("unexpected {other:?}"),
    }
    match liked_tracks_player_request(uris(), 4, true) {
        PlayerRequest::StartPlayback(Playback::URIs(u, None), None) => {
            assert_eq!(u.len(), 4);
            let mut all = u.clone();
            all.sort();
            all.dedup();
            assert_eq!(all.len(), 4);
            assert!(u.iter().all(|x| uris().contains(x)));
        }
        other => panic!("unexpected {other:?}"),
    }
}

#[test]
fn radio_plays_its_tracks() {
    match radio_player_request(uris()) {
        PlayerRequest::StartPlayback(Playback::URIs(u, None), None) => assert_eq!(u, uris()),
        other => panic!("unexpected {other:?}"),
    }
}

#[test]
fn search_by_name_takes_the_first_result() {
    use_first_result();
}

fn use_first_result() {
    match id_from_search(ItemType::Album, "Abbey Road", vec![Some("a1".to_string()), Some("a2".to_string())]) {
        Ok(ItemId::Album(id)) => assert_eq!(id, "a1"),
        other => panic!("unexpected {other:?}"),
    }
    assert_eq!(
        id_from_search(ItemType::Track, "Nothing", vec![]).unwrap_err(),
        "Cannot find track with name='Nothing'"
    );
    assert_eq!(
        id_from_search(ItemType::Album, "Local", vec![None, Some("x".to_string())]).unwrap_err(),
        "Cannot find album with name='Local'"
    );
    match id_from_search(ItemType::Playlist, "Mix", vec![Some("p".to_string())]) {
        Ok(ItemId::Playlist(id)) => assert_eq!(id, "p"),
        other => panic!("unexpected {other:?}"),
    }
}
