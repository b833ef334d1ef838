use spotify_player::client_request::ClientRequest;
use spotify_player::command::{Action, Command};
use spotify_player::playlist_edit::{
    handle_playlist_modify_command, insert_before, move_track, PlaylistEdit,
};

fn reorder_of(edit: PlaylistEdit) -> (String, usize, usize, usize) {
    match edit {
        PlaylistEdit::Reorder {
            request:
                ClientRequest::ReorderPlaylistItems {
                    playlist_id,
                    insert_index,
                    range_start,
                    range_length,
                    snapshot_id,
                },
            select,
        } => {
            assert!(range_length.is_none());
            assert!(snapshot_id.is_none());
            (playlist_id, insert_index, range_start, select)
        }
        other => panic!("expected a reorder, got {other:?}"),
    }
}

#[test]
fn moving_up_reorders_before_the_previous_item() {
    let id = "37i9dQZF1DXcBWIGoYBM5M".to_string();
    let edit = handle_playlist_modify_command(2, &id, Command::MovePlaylistItemUp, 5, false);
    assert_eq!(reorder_of(edit), (id, 1, 2, 1));
}

#[test]
fn moving_down_reorders_after_the_next_item() {
    let id = "playlist".to_string();
    let edit = handle_playlist_modify_command(2, &id, Command::MovePlaylistItemDown, 5, false);
    assert_eq!(reorder_of(edit), (id, 3, 2, 3));
}

#[test]
fn moves_past_the_ends_do_nothing() {
    let id = "playlist".to_string();
    assert!(matches!(
        handle_playlist_modify_command(0, &id, Command::MovePlaylistItemUp, 5, false),
        PlaylistEdit::Nothing
    ));
    assert!(matches!(
        handle_playlist_modify_command(4, &id, Command::MovePlaylistItemDown, 5, false),
        PlaylistEdit::Nothing
    ));
    assert!(matches!(
        handle_playlist_modify_command(0, &id, Command::MovePlaylistItemDown, 0, false),
        PlaylistEdit::Nothing
    ));
}

#[test]
fn actions_on_a_playlist_track_include_deleting_it() {
    let id = "playlist".to_string();
    match handle_playlist_modify_command(1, &id, Command::ShowActionsOnSelectedItem, 3, true) {
        PlaylistEdit::ShowActions(actions) => {
            assert_eq!(actions.len(), 10);
            assert_eq!(actions[8], Action::DeleteFromLiked);
            assert_eq!(actions[9], Action::DeleteFromPlaylist);
        }
        other => panic!("expected actions, got {other:?}"),
    }
}

#[test]
fn other_commands_are_ignored() {
    let id = "playlist".to_string();
    assert!(matches!(
        handle_playlist_modify_command(1, &id, Command::NextTrack, 3, false),
        PlaylistEdit::Ignored
    ));
}

#[test]
fn insert_before_counts_positions_before_the_move() {
    assert_eq!(insert_before(3, 2), 4);
    assert_eq!(insert_before(1, 2), 1);
    assert_eq!(insert_before(2, 2), 2);
}

#[test]
fn moving_a_track_and_back_restores_the_order() {
    let mut tracks = vec!["a", "b", "c", "d", "e"];
    move_track(&mut tracks, 1, 3);
    assert_eq!(tracks, vec!["a", "c", "d", "b", "e"]);
    move_track(&mut tracks, 3, 1);
    assert_eq!(tracks, vec!["a", "b", "c", "d", "e"]);
    move_track(&mut tracks, 4, 0);
    assert_eq!(tracks, vec!["e", "a", "b", "c", "d"]);
}
