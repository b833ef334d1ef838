use spotify_player::client_request::{ClientRequest, PlayerRequest};
use spotify_player::command::{Action, Command};
use spotify_player::list_window::{
    handle_command_for_album_list_window, handle_command_for_artist_list_window,
    handle_command_for_playlist_list_window, handle_command_for_track_list_window, ListWindowEffect,
};
use spotify_player::model::{ContextId, Playback};

fn ids(n: usize) -> Vec<String> {
    (0..n).map(|i| format!("id{i}")).collect()
}

#[test]
fn selection_past_the_list_is_not_handled() {
    let r = handle_command_for_artist_list_window(Command::ChooseSelected, &ids(2), 2, false, 10);
    assert!(matches!(r, ListWindowEffect::NotHandled));
    let r = handle_command_for_track_list_window(Command::SelectNextOrScrollDown, &vec![], 0, false, 10);
    assert!(matches!(r, ListWindowEffect::NotHandled));
}

#[test]
fn navigation_moves_the_selection() {
    let r = handle_command_for_album_list_window(Command::SelectNextOrScrollDown, &ids(3), 1, false, 10);
    assert!(matches!(r, ListWindowEffect::Select(Some(2))));
    let r = handle_command_for_album_list_window(Command::SelectNextOrScrollDown, &ids(3), 2, false, 10);
    assert!(matches!(r, ListWindowEffect::Select(None)));
    let r = handle_command_for_playlist_list_window(Command::PageSelectNextOrScrollDown, &ids(30), 5, false, 10);
    assert!(matches!(r, ListWindowEffect::Select(Some(15))));
    let r = handle_command_for_playlist_list_window(Command::SelectFirstOrScrollToTop, &ids(30), 5, false, 10);
    assert!(matches!(r, ListWindowEffect::Select(Some(0))));
}

#[test]
fn choosing_a_track_plays_it_alone() {
    let uris = vec!["spotify:track:a".to_string(), "spotify:track:b".to_string()];
    match handle_command_for_track_list_window(Command::ChooseSelected, &uris, 1, false, 10) {
        ListWindowEffect::Request(ClientRequest::Player(PlayerRequest::StartPlayback(
            Playback::URIs(list, None),
            None,
        ))) => assert_eq!(list, vec!["spotify:track:b".to_string()]),
        other => panic!("unexpected {other:?}"),
    }
}

#[test]
fn choosing_an_artist_album_or_playlist_browses_it() {
    match handle_command_for_artist_list_window(Command::ChooseSelected, &ids(3), 2, false, 10) {
        ListWindowEffect::Browse(ContextId::Artist(id)) => assert_eq!(id, "id2"),
        other => panic!("unexpected {other:?}"),
    }
    match handle_command_for_album_list_window(Command::ChooseSelected, &ids(3), 0, false, 10) {
        ListWindowEffect::Browse(ContextId::Album(id)) => assert_eq!(id, "id0"),
        other => panic!("unexpected {other:?}"),
    }
    match handle_command_for_playlist_list_window(Command::ChooseSelected, &ids(3), 1, false, 10) {
        ListWindowEffect::Browse(ContextId::Playlist(id)) => assert_eq!(id, "id1"),
        other => panic!("unexpected {other:?}"),
    }
}

#[test]
fn actions_depend_on_the_library() {
    match handle_command_for_artist_list_window(Command::ShowActionsOnSelectedItem, &ids(3), 1, true, 10) {
        ListWindowEffect::ShowActions { item, actions } => {
            assert_eq!(item, 1);
            assert_eq!(actions, vec![Action::GoToRadio, Action::CopyLink, Action::Unfollow]);
        }
        other => panic!("unexpected {other:?}"),
    }
    match handle_command_for_playlist_list_window(Command::ShowActionsOnSelectedItem, &ids(3), 0, false, 10) {
        ListWindowEffect::ShowActions { actions, .. } => {
            assert_eq!(actions, vec![Action::GoToRadio, Action::CopyLink, Action::AddToLibrary]);
        }
        other => panic!("unexpected {other:?}"),
    }
    match handle_command_for_album_list_window(Command::ShowActionsOnSelectedItem, &ids(3), 0, true, 10) {
        ListWindowEffect::ShowActions { actions, .. } => {
            assert_eq!(actions.last(), Some(&Action::DeleteFromLibrary));
            assert_eq!(actions.len(), 6);
        }
        other => panic!("unexpected {other:?}"),
    }
}

#[test]
fn tracks_and_albums_can_be_queued() {
    match handle_command_for_track_list_window(Command::AddSelectedItemToQueue, &ids(2), 0, false, 10) {
        ListWindowEffect::Request(ClientRequest::AddPlayableToQueue(u)) => assert_eq!(u, "id0"),
        other => panic!("unexpected {other:?}"),
    }
    match handle_command_for_album_list_window(Command::AddSelectedItemToQueue, &ids(2), 1, false, 10) {
        ListWindowEffect::Request(ClientRequest::AddAlbumToQueue(u)) => assert_eq!(u, "id1"),
        other => panic!("unexpected {other:?}"),
    }
    let r = handle_command_for_artist_list_window(Command::AddSelectedItemToQueue, &ids(2), 1, false, 10);
    assert!(matches!(r, ListWindowEffect::NotHandled));
    let r = handle_command_for_playlist_list_window(Command::AddSelectedItemToQueue, &ids(2), 1, false, 10);
    assert!(matches!(r, ListWindowEffect::NotHandled));
}
