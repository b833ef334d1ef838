use spotify_player::client_request::{ClientRequest, PlayerRequest};
use spotify_player::command::{Action, Command};
use spotify_player::model::{ContextId, Offset, Playback};
use spotify_player::playlist_edit::PlaylistEdit;
use spotify_player::track_table::{
    handle_command_for_track_table_window, track_table_effect, TrackTableEffect,
};

fn uris(n: usize) -> Vec<String> {
    (0..n).map(|i| format!("spotify:track:t{i}")).collect()
}

#[test]
fn choosing_a_track_plays_it_in_its_context() {
    let context = Some(ContextId::Album("a1".to_string()));
    let r = track_table_effect(
        Command::ChooseSelected,
        &context,
        &uris(5),
        &vec![0, 2, 4],
        1,
        false,
        false,
        0,
        50,
        10,
    );
    match r {
        TrackTableEffect::Request(ClientRequest::Player(PlayerRequest::StartPlayback(
            Playback::Context(ContextId::Album(id), Some(Offset::Uri(uri))),
            None,
        ))) => {
            assert_eq!(id, "a1");
            assert_eq!(uri, "spotify:track:t2");
        }
        other => panic!("unexpected {other:?}"),
    }
}

#[test]
fn choosing_a_track_without_context_plays_the_window_of_tracks() {
    let r = track_table_effect(
        Command::ChooseSelected,
        &None,
        &uris(10),
        &(0..10).collect(),
        7,
        false,
        false,
        0,
        4,
        10,
    );
    match r {
        TrackTableEffect::Request(ClientRequest::Player(PlayerRequest::StartPlayback(
            Playback::URIs(list, Some(Offset::Uri(uri))),
            None,
        ))) => {
            assert_eq!(uri, "spotify:track:t7");
            assert_eq!(list, vec![
                "spotify:track:t5".to_string(),
                "spotify:track:t6".to_string(),
                "spotify:track:t7".to_string(),
                "spotify:track:t8".to_string(),
            ]);
        }
        other => panic!("unexpected {other:?}"),
    }
}

#[test]
fn random_pick_plays_the_drawn_track() {
    let context = Some(ContextId::Playlist("p".to_string()));
    let r = track_table_effect(
        Command::PlayRandom, &context, &uris(5), &vec![0], 0, false, false, 3, 50, 10,
    );
    match r {
        TrackTableEffect::Request(ClientRequest::Player(PlayerRequest::StartPlayback(
            Playback::Context(_, Some(Offset::Uri(uri))),
            None,
        ))) => assert_eq!(uri, "spotify:track:t3"),
        other => panic!("unexpected {other:?}"),
    }
    match handle_command_for_track_table_window(
        Command::PlayRandom, &context, &uris(5), &vec![0], 0, false, false, 50, 10,
    ) {
        TrackTableEffect::Request(ClientRequest::Player(PlayerRequest::StartPlayback(
            Playback::Context(_, Some(Offset::Uri(uri))),
            None,
        ))) => assert!(uris(5).contains(&uri)),
        other => panic!("unexpected {other:?}"),
    }
}

#[test]
fn modifiable_playlists_take_edit_commands() {
    let context = Some(ContextId::Playlist("p".to_string()));
    match track_table_effect(
        Command::MovePlaylistItemDown, &context, &uris(3), &vec![0, 1, 2], 0, true, false, 0, 50, 10,
    ) {
        TrackTableEffect::Edit(PlaylistEdit::Reorder { select, .. }) => assert_eq!(select, 1),
        other => panic!("unexpected {other:?}"),
    }
    match track_table_effect(
        Command::ShowActionsOnSelectedItem, &context, &uris(3), &vec![0, 1, 2], 0, false, true, 0, 50, 10,
    ) {
        TrackTableEffect::ShowActions { track, actions } => {
            assert_eq!(track, 0);
            assert_eq!(actions.len(), 9);
            assert_eq!(actions[8], Action::DeleteFromLiked);
        }
        other => panic!("unexpected {other:?}"),
    }
}

#[test]
fn navigation_and_queueing() {
    match track_table_effect(
        Command::SelectNextOrScrollDown, &None, &uris(3), &vec![0, 2], 0, false, false, 0, 50, 10,
    ) {
        TrackTableEffect::Select(s) => assert_eq!(s, Some(1)),
        other => panic!("unexpected {other:?}"),
    }
    match track_table_effect(
        Command::AddSelectedItemToQueue, &None, &uris(3), &vec![0, 2], 1, false, false, 0, 50, 10,
    ) {
        TrackTableEffect::Request(ClientRequest::AddPlayableToQueue(u)) => {
            assert_eq!(u, "spotify:track:t2")
        }
        other => panic!("unexpected {other:?}"),
    }
    assert!(matches!(
        track_table_effect(Command::Quit, &None, &uris(3), &vec![0], 0, false, false, 0, 50, 10),
        TrackTableEffect::NotHandled
    ));
    assert!(matches!(
        track_table_effect(Command::ChooseSelected, &None, &uris(3), &vec![0], 5, false, false, 0, 50, 10),
        TrackTableEffect::NotHandled
    ));
}
