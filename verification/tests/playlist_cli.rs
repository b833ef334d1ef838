use spotify_player::playlist_cli::{
    playlist_created_message, playlist_delete_message, playlist_fork_header, playlist_list_text, sync_step,
    SyncStep,
};

#[test]
fn playlist_reports() {
    assert_eq!(playlist_created_message("Road", "p1"), "Playlist 'Road' with id 'p1' was created.");
    assert_eq!(playlist_delete_message("p1", true), "Playlist 'p1' was deleted/unfollowed");
    assert_eq!(
        playlist_delete_message("p1", false),
        "Playlist 'p1' was not followed by the user, nothing to be done."
    );
    assert_eq!(playlist_fork_header("a", "b", "Copy"), "Forked a.\nNew playlist: b:Copy\n");
}

#[test]
fn playlist_list_is_one_line_each_trimmed() {
    let entries = vec![("p1".to_string(), "One".to_string()), ("p2".to_string(), "Two ".to_string())];
    assert_eq!(playlist_list_text(&entries), "p1: One\np2: Two");
    assert_eq!(playlist_list_text(&vec![]), "");
}

#[test]
fn sync_skips_other_playlists_and_forgets_unfollowed_ones() {
    assert!(matches!(sync_step(&Some("x".to_string()), &"y".to_string(), true), SyncStep::Skip));
    assert!(matches!(sync_step(&Some("y".to_string()), &"y".to_string(), true), SyncStep::ImportAll));
    assert!(matches!(sync_step(&None, &"y".to_string(), true), SyncStep::ImportAll));
    match sync_step(&None, &"y".to_string(), false) {
        SyncStep::Forget(m) => {
            assert_eq!(m, "Not following playlist 'y'. Deleted its import data in the cache folder...\n")
        }
        other => panic!("unexpected {other:?}"),
    }
}
