use spotify_player::client_request::{
    cache_key, player_request_for, request_step, CacheKind, ClientRequest, PlayerRequest, RequestStep,
};
use spotify_player::command::Command;
use spotify_player::model::{Category, ContextId, ItemId, TracksId};

#[test]
fn stateful_requests_require_ordered_execution() {
    assert!(ClientRequest::Player(PlayerRequest::Pause).requires_ordered_execution());
    assert!(ClientRequest::GetCurrentPlayback.requires_ordered_execution());
    assert!(ClientRequest::CreatePlaylist {
        playlist_name: "playlist".to_owned(),
        public: false,
        collab: false,
        desc: String::new(),
    }
    .requires_ordered_execution());
}

#[test]
fn independent_reads_allow_concurrent_execution() {
    assert!(!ClientRequest::GetBrowseCategories.requires_ordered_execution());
    assert!(!ClientRequest::GetUserSavedAlbums.requires_ordered_execution());
    assert!(!ClientRequest::Search("query".to_owned()).requires_ordered_execution());
}

#[test]
fn library_changes_and_category_reads() {
    assert!(ClientRequest::AddToLibrary(ItemId::Album("id".to_owned())).requires_ordered_execution());
    assert!(ClientRequest::RestartIntegratedClient.requires_ordered_execution());
    assert!(!ClientRequest::GetBrowseCategoryPlaylists(Category {
        id: "pop".to_owned(),
        name: "Pop".to_owned(),
    })
    .requires_ordered_execution());
    assert!(!ClientRequest::GetLyrics {
        track_id: "t".to_owned()
    }
    .requires_ordered_execution());
}

#[test]
fn global_commands_drive_the_player() {
    assert!(matches!(player_request_for(Command::NextTrack, None, 5), Some(PlayerRequest::NextTrack)));
    assert!(matches!(player_request_for(Command::Mute, None, 5), Some(PlayerRequest::ToggleMute)));
    assert!(matches!(player_request_for(Command::SeekForward, Some(10_000), 5), Some(PlayerRequest::SeekTrack(15_000))));
    assert!(matches!(player_request_for(Command::SeekBackward, Some(3_000), 5), Some(PlayerRequest::SeekTrack(0))));
    assert!(matches!(player_request_for(Command::SeekBackward, Some(8_000), 5), Some(PlayerRequest::SeekTrack(3_000))));
    assert!(player_request_for(Command::SeekForward, None, 5).is_none());
    assert!(player_request_for(Command::Quit, Some(0), 5).is_none());
}

#[test]
fn cached_data_is_looked_up_under_its_key() {
    assert_eq!(
        cache_key(&ClientRequest::GetLyrics { track_id: "t1".to_owned() }),
        Some((CacheKind::Lyrics, "spotify:track:t1".to_owned()))
    );
    assert_eq!(
        cache_key(&ClientRequest::GetRadioTracks { seed_uri: "spotify:artist:a".to_owned(), seed_name: "A".to_owned() }),
        Some((CacheKind::Context, "radio:spotify:artist:a".to_owned()))
    );
    assert_eq!(
        cache_key(&ClientRequest::GetUserTopTracks),
        Some((CacheKind::Context, "tracks:user-top-tracks".to_owned()))
    );
    assert_eq!(
        cache_key(&ClientRequest::GetContext(ContextId::Album("al".to_owned()))),
        Some((CacheKind::Context, "spotify:album:al".to_owned()))
    );
    assert_eq!(cache_key(&ClientRequest::GetDevices), None);
    let tracks = ClientRequest::GetContext(ContextId::Tracks(TracksId { uri: "tracks:x".to_owned(), kind: "X".to_owned() }));
    assert_eq!(request_step(&tracks, true), Ok(RequestStep::SkipCached));
    assert_eq!(
        request_step(&tracks, false),
        Err("`GetContext` request for `tracks` context is not supported!".to_owned())
    );
    assert_eq!(request_step(&ClientRequest::Search("q".to_owned()), false), Ok(RequestStep::Carry));
    assert_eq!(request_step(&ClientRequest::GetDevices, true), Ok(RequestStep::Carry));
}
