use spotify_player::client_request::{ClientRequest, PlayerRequest};
use spotify_player::command::{Action, Command};
use spotify_player::global_command::{
    clipboard_link_effect, handle_global_command, handle_mouse_click, CurrentTrack, GlobalCommandInput, NewPage, NewPopup,
    UiChange,
};
use spotify_player::model::{ContextId, Playback};

fn idle() -> GlobalCommandInput {
    GlobalCommandInput {
        effective_volume: None,
        progress_ms: None,
        seek_secs: 10,
        has_playback: false,
        has_focused_popup: false,
        history_len: 1,
        playing: None,
        context_track_ids: None,
    }
}

fn playing(id: Option<&str>) -> GlobalCommandInput {
    let mut input = idle();
    input.has_playback = true;
    input.effective_volume = Some(50);
    input.progress_ms = Some(4_000);
    input.playing = Some(CurrentTrack {
        id: id.map(|s| s.to_string()),
        name: "Song".to_string(),
        artists: "Alice, Bob".to_string(),
        liked: true,
    });
    input
}

#[test]
fn player_commands_send_player_requests() {
    let e = handle_global_command(Command::NextTrack, &idle());
    assert!(e.handled);
    assert!(matches!(e.request, Some(ClientRequest::Player(PlayerRequest::NextTrack))));
    let e = handle_global_command(Command::Mute, &idle());
    assert!(matches!(e.request, Some(ClientRequest::Player(PlayerRequest::ToggleMute))));
    let e = handle_global_command(Command::RefreshPlayback, &idle());
    assert!(matches!(e.request, Some(ClientRequest::GetCurrentPlayback)));
}

#[test]
fn volume_changes_stay_between_zero_and_a_hundred() {
    let input = playing(Some("t"));
    let e = handle_global_command(Command::VolumeChange { offset: 5 }, &input);
    assert!(matches!(e.ui, UiChange::ApplyVolume(55)));
    let e = handle_global_command(Command::VolumeChange { offset: 80 }, &input);
    assert!(matches!(e.ui, UiChange::ApplyVolume(100)));
    let e = handle_global_command(Command::VolumeChange { offset: -70 }, &input);
    assert!(matches!(e.ui, UiChange::ApplyVolume(0)));
    let e = handle_global_command(Command::VolumeChange { offset: 5 }, &idle());
    assert!(e.handled);
    assert!(matches!(e.ui, UiChange::Unchanged));
}

#[test]
fn seeks_move_from_the_progress_and_stop_at_zero() {
    let input = playing(Some("t"));
    let e = handle_global_command(Command::SeekForward, &input);
    assert!(matches!(e.request, Some(ClientRequest::Player(PlayerRequest::SeekTrack(14_000)))));
    let e = handle_global_command(Command::SeekBackward, &input);
    assert!(matches!(e.request, Some(ClientRequest::Player(PlayerRequest::SeekTrack(0)))));
    let e = handle_global_command(Command::SeekForward, &idle());
    assert!(e.handled);
    assert!(e.request.is_none());
}

#[test]
fn pages_open_with_the_request_that_fills_them() {
    let e = handle_global_command(Command::LikedTrackPage, &idle());
    match e.ui {
        UiChange::OpenPage(NewPage::Browsing(ContextId::Tracks(id))) => {
            assert_eq!(id.uri, "tracks:user-liked-tracks");
            assert_eq!(id.kind, "Liked Tracks");
        }
        other => panic!("unexpected {other:?}"),
    }
    assert!(matches!(e.request, Some(ClientRequest::GetUserSavedTracks)));
    let e = handle_global_command(Command::TopTrackPage, &idle());
    assert!(matches!(e.request, Some(ClientRequest::GetUserTopTracks)));
    let e = handle_global_command(Command::BrowsePage, &idle());
    assert!(matches!(e.ui, UiChange::OpenPage(NewPage::Browse)));
    assert!(matches!(e.request, Some(ClientRequest::GetBrowseCategories)));
    let e = handle_global_command(Command::Queue, &idle());
    assert!(matches!(e.ui, UiChange::OpenPage(NewPage::Queue)));
    assert!(matches!(e.request, Some(ClientRequest::GetCurrentUserQueue)));
    let e = handle_global_command(Command::LibraryPage, &idle());
    assert!(matches!(e.ui, UiChange::OpenPage(NewPage::Library)));
    assert!(e.request.is_none());
}

#[test]
fn popups_open_with_the_request_that_fills_them() {
    let e = handle_global_command(Command::SwitchDevice, &idle());
    assert!(matches!(e.ui, UiChange::OpenPopup(NewPopup::Devices)));
    assert!(matches!(e.request, Some(ClientRequest::GetDevices)));
    let e = handle_global_command(Command::BrowseUserPlaylists, &idle());
    assert!(matches!(e.ui, UiChange::OpenPopup(NewPopup::UserPlaylists)));
    assert!(matches!(e.request, Some(ClientRequest::GetUserPlaylists)));
    let e = handle_global_command(Command::SwitchTheme, &idle());
    assert!(matches!(e.ui, UiChange::OpenPopup(NewPopup::Themes)));
    assert!(e.request.is_none());
}

#[test]
fn actions_and_lyrics_of_the_playing_track() {
    let e = handle_global_command(Command::ShowActionsOnCurrentTrack, &playing(Some("t1")));
    match e.ui {
        UiChange::OpenPopup(NewPopup::TrackActions { track_id, actions }) => {
            assert_eq!(track_id, "t1");
            assert!(actions.contains(&Action::DeleteFromLiked));
        }
        other => panic!("unexpected {other:?}"),
    }
    let e = handle_global_command(Command::ShowActionsOnCurrentTrack, &playing(None));
    assert!(matches!(e.ui, UiChange::Unchanged));
    let e = handle_global_command(Command::LyricsPage, &playing(Some("t1")));
    match (e.ui, e.request) {
        (UiChange::OpenPage(NewPage::Lyrics { track, artists }), Some(ClientRequest::GetLyrics { track_id })) => {
            assert_eq!(track, "Song");
            assert_eq!(artists, "Alice, Bob");
            assert_eq!(track_id, "t1");
        }
        other => panic!("unexpected {other:?}"),
    }
}

#[test]
fn going_back_needs_a_page_to_go_back_to() {
    let mut input = idle();
    assert!(matches!(handle_global_command(Command::PreviousPage, &input).ui, UiChange::Unchanged));
    input.history_len = 3;
    assert!(matches!(handle_global_command(Command::PreviousPage, &input).ui, UiChange::PreviousPage));
}

#[test]
fn focus_moves_only_without_a_popup() {
    let mut input = idle();
    assert!(matches!(handle_global_command(Command::FocusNextWindow, &input).ui, UiChange::FocusNextWindow));
    input.has_focused_popup = true;
    let e = handle_global_command(Command::FocusPreviousWindow, &input);
    assert!(e.handled);
    assert!(matches!(e.ui, UiChange::Unchanged));
}

#[test]
fn jumping_selects_the_playing_track_in_the_context() {
    let mut input = playing(Some("b"));
    input.context_track_ids = Some(vec!["a".to_string(), "b".to_string(), "b".to_string()]);
    let e = handle_global_command(Command::JumpToCurrentTrackInContext, &input);
    assert!(e.handled);
    assert!(matches!(e.ui, UiChange::Select(1)));
    input.context_track_ids = Some(vec!["a".to_string()]);
    assert!(matches!(handle_global_command(Command::JumpToCurrentTrackInContext, &input).ui, UiChange::Unchanged));
    let e = handle_global_command(Command::JumpToCurrentTrackInContext, &playing(None));
    assert!(!e.handled);
}

#[test]
fn other_commands_are_not_global() {
    let e = handle_global_command(Command::ChooseSelected, &idle());
    assert!(!e.handled);
    assert!(e.request.is_none());
    let e = handle_global_command(Command::Quit, &idle());
    assert!(matches!(e.ui, UiChange::Quit));
}

#[test]
fn clipboard_links_play_tracks_and_open_pages() {
    match clipboard_link_effect("see https://open.spotify.com/track/abc123?si=x").unwrap().request {
        Some(ClientRequest::Player(PlayerRequest::StartPlayback(Playback::URIs(uris, None), None))) => {
            assert_eq!(uris, vec!["spotify:track:abc123".to_string()]);
        }
        other => panic!("unexpected {other:?}"),
    }
    match clipboard_link_effect("https://open.spotify.com/album/xyz").unwrap().ui {
        UiChange::OpenPage(NewPage::Browsing(ContextId::Album(id))) => assert_eq!(id, "xyz"),
        other => panic!("unexpected {other:?}"),
    }
    let e = clipboard_link_effect("no link here").unwrap();
    assert!(e.handled);
    assert!(matches!(e.ui, UiChange::Unchanged));
    assert_eq!(
        clipboard_link_effect("https://open.spotify.com/episode/e1").unwrap_err(),
        "unsupported Spotify type episode!"
    );
}

#[test]
fn clicking_the_progress_bar_seeks_to_the_same_share() {
    let r = handle_mouse_click(20, 25, 20, 100, 200_000);
    assert!(matches!(r, Some(ClientRequest::Player(PlayerRequest::SeekTrack(50_000)))));
    assert!(handle_mouse_click(19, 25, 20, 100, 200_000).is_none());
}
