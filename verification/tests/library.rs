use spotify_player::contexts::{Playlist, Show};
use spotify_player::library::{arrange_user_playlists, UserData};
use spotify_player::playlist_folders::{PlaylistFolder, PlaylistFolderItem, PlaylistFolderNode};
use spotify_player::tracks::{Album, Artist, Track};

fn playlist(id: &str, owner: &str, collaborative: bool, folder: usize) -> Playlist {
    Playlist {
        id: id.to_string(),
        collaborative,
        name: format!("name-{id}"),
        owner: (format!("display-{owner}"), owner.to_string()),
        desc: String::new(),
        current_folder_id: folder,
        snapshot_id: "s".to_string(),
    }
}

fn folder(name: &str, current: usize, target: usize) -> PlaylistFolderItem<Playlist> {
    PlaylistFolderItem::Folder(PlaylistFolder { name: name.to_string(), current_id: current, target_id: target })
}

fn in_folder(p: Playlist) -> PlaylistFolderItem<Playlist> {
    let f = p.current_folder_id;
    PlaylistFolderItem::Playlist(p, f)
}

fn track(id: &str) -> Track {
    Track {
        id: id.to_string(),
        name: format!("name-{id}"),
        artists: vec![],
        album: None,
        duration_ms: 1000,
        explicit: false,
        added_at: 0,
    }
}

fn album(id: &str) -> Album {
    Album { id: id.to_string(), release_date: "2020".to_string(), name: id.to_string(), artists: vec![], added_at: 0 }
}

fn empty_library(user: Option<&str>) -> UserData {
    UserData {
        user_id: user.map(|u| u.to_string()),
        playlists: vec![],
        followed_artists: vec![],
        saved_shows: vec![],
        saved_albums: vec![],
        saved_tracks: vec![],
    }
}

fn library() -> UserData {
    let mut data = empty_library(Some("me"));
    data.playlists = vec![
        in_folder(playlist("mine", "me", false, 0)),
        folder("Work", 0, 1),
        in_folder(playlist("theirs", "other", false, 0)),
        in_folder(playlist("shared", "other", true, 1)),
        in_folder(playlist("mine-in-work", "me", false, 1)),
    ];
    data
}

#[test]
fn modifiable_items_are_owned_or_collaborative() {
    let data = library();
    assert_eq!(data.modifiable_playlist_items(None), vec![0, 1, 3, 4]);
    assert_eq!(data.modifiable_playlist_items(Some(0)), vec![0, 1]);
    assert_eq!(data.modifiable_playlist_items(Some(1)), vec![3, 4]);
    assert_eq!(data.modifiable_playlist_items(Some(7)), Vec::<usize>::new());
}

#[test]
fn nothing_is_modifiable_before_the_user_is_known() {
    let mut data = library();
    data.user_id = None;
    assert!(data.modifiable_playlist_items(None).is_empty());
}

#[test]
fn folder_items_are_those_shown_in_the_folder() {
    let data = library();
    assert_eq!(data.folder_playlists_items(0), vec![0, 1, 2]);
    assert_eq!(data.folder_playlists_items(1), vec![3, 4]);
    assert!(data.folder_playlists_items(2).is_empty());
}

#[test]
fn followed_playlists_are_found_by_id() {
    let data = library();
    assert!(data.is_followed_playlist(&playlist("shared", "x", false, 9)));
    assert!(!data.is_followed_playlist(&playlist("Work", "x", false, 0)));
    assert!(!data.is_followed_playlist(&playlist("unknown", "me", false, 0)));
}

#[test]
fn liked_tracks_are_kept_once() {
    let mut data = empty_library(Some("me"));
    assert!(!data.is_liked_track(&track("a")));
    data.save_track(track("a"));
    data.save_track(track("b"));
    let mut renamed = track("a");
    renamed.name = "again".to_string();
    data.save_track(renamed);
    assert_eq!(data.saved_tracks.len(), 2);
    assert_eq!(data.saved_tracks[0].name, "again");
    assert!(data.is_liked_track(&track("a")));
    assert!(data.is_liked_track(&track("b")));
}

#[test]
fn removing_a_liked_track_forgets_it() {
    let mut data = empty_library(None);
    data.save_track(track("a"));
    data.save_track(track("b"));
    data.remove_track(&"a".to_string());
    assert!(!data.is_liked_track(&track("a")));
    assert!(data.is_liked_track(&track("b")));
    data.remove_track(&"missing".to_string());
    assert_eq!(data.saved_tracks.len(), 1);
}

#[test]
fn saving_then_removing_a_new_track_restores_the_likes() {
    let mut data = empty_library(None);
    data.save_track(track("a"));
    data.save_track(track("b"));
    data.save_track(track("c"));
    data.remove_track(&"c".to_string());
    let ids: Vec<String> = data.saved_tracks.iter().map(|t| t.id.clone()).collect();
    assert_eq!(ids, vec!["a".to_string(), "b".to_string()]);
}

#[test]
fn new_items_go_to_the_front() {
    let mut data = empty_library(Some("me"));
    data.add_album(album("x"));
    data.add_album(album("y"));
    assert_eq!(data.saved_albums[0].id, "y");
    assert_eq!(data.saved_albums[1].id, "x");
    data.add_artist(Artist { id: "r1".to_string(), name: "One".to_string() });
    data.add_artist(Artist { id: "r2".to_string(), name: "Two".to_string() });
    assert_eq!(data.followed_artists[0].id, "r2");
    data.add_show(Show { id: "s1".to_string(), name: "Talk".to_string() });
    assert_eq!(data.saved_shows[0].id, "s1");
    data.add_playlist(playlist("p", "me", false, 3));
    assert!(data.is_followed_playlist(&playlist("p", "me", false, 0)));
    assert_eq!(data.folder_playlists_items(3), vec![0]);
}

#[test]
fn adding_then_removing_a_new_album_restores_the_albums() {
    let mut data = empty_library(None);
    data.add_album(album("x"));
    data.add_album(album("y"));
    data.add_album(album("z"));
    data.remove_album(&"z".to_string());
    let ids: Vec<String> = data.saved_albums.iter().map(|a| a.id.clone()).collect();
    assert_eq!(ids, vec!["y".to_string(), "x".to_string()]);
}

#[test]
fn removing_items_keeps_the_rest_in_order() {
    let mut data = library();
    data.remove_playlist(&"theirs".to_string());
    assert_eq!(data.playlists.len(), 4);
    assert!(!data.is_followed_playlist(&playlist("theirs", "other", false, 0)));
    data.remove_playlist(&"Work".to_string());
    assert_eq!(data.playlists.len(), 4);
    data.add_artist(Artist { id: "r1".to_string(), name: "One".to_string() });
    data.add_artist(Artist { id: "r2".to_string(), name: "Two".to_string() });
    data.remove_artist(&"r1".to_string());
    assert_eq!(data.followed_artists.len(), 1);
    assert_eq!(data.followed_artists[0].id, "r2");
    data.add_show(Show { id: "s1".to_string(), name: "Talk".to_string() });
    data.remove_show(&"s1".to_string());
    assert!(data.saved_shows.is_empty());
}

fn node(name: Option<&str>, node_type: &str, uri: &str, children: Vec<PlaylistFolderNode>) -> PlaylistFolderNode {
    PlaylistFolderNode { name: name.map(|n| n.to_string()), node_type: node_type.to_string(), uri: uri.to_string(), children }
}

#[test]
fn playlists_without_folders_stay_flat() {
    let items = arrange_user_playlists(vec![playlist("a", "me", false, 0), playlist("b", "me", false, 0)], &None);
    assert_eq!(items.len(), 2);
    assert!(matches!(&items[0], PlaylistFolderItem::Playlist(p, 0) if p.id == "a"));
    let empty_tree = Some(node(None, "folder", "spotify:start-group:root", vec![]));
    let items = arrange_user_playlists(vec![playlist("a", "me", false, 0)], &empty_tree);
    assert_eq!(items.len(), 1);
}

#[test]
fn playlists_are_arranged_by_the_folder_tree() {
    let tree = Some(node(
        None,
        "folder",
        "spotify:start-group:root",
        vec![node(Some("Work"), "folder", "spotify:start-group:w", vec![node(None, "playlist", "spotify:playlist:b", vec![])])],
    ));
    let items = arrange_user_playlists(vec![playlist("a", "me", false, 0), playlist("b", "me", false, 0)], &tree);
    assert_eq!(items.len(), 4);
    assert!(matches!(&items[0], PlaylistFolderItem::Folder(f) if f.name == "Work" && f.current_id == 0 && f.target_id == 1));
    assert!(matches!(&items[1], PlaylistFolderItem::Folder(f) if f.current_id == 1 && f.target_id == 0));
    assert!(matches!(&items[2], PlaylistFolderItem::Playlist(p, 1) if p.id == "b"));
    assert!(matches!(&items[3], PlaylistFolderItem::Playlist(p, 0) if p.id == "a"));
}
