use spotify_player::playlist_folders::{structurize, PlaylistFolderItem, PlaylistFolderNode};

fn node(name: Option<&str>, node_type: &str, uri: &str, children: Vec<PlaylistFolderNode>) -> PlaylistFolderNode {
    PlaylistFolderNode {
        name: name.map(|n| n.to_string()),
        node_type: node_type.to_string(),
        uri: uri.to_string(),
        children,
    }
}

fn describe(items: &[PlaylistFolderItem<&'static str>]) -> Vec<String> {
    items
        .iter()
        .map(|i| match i {
            PlaylistFolderItem::Playlist(p, folder) => format!("{p}@{folder}"),
            PlaylistFolderItem::Folder(f) => format!("[{}] {}->{}", f.name, f.current_id, f.target_id),
        })
        .collect()
}

#[test]
fn playlists_go_into_their_folders() {
    let playlists = vec![
        ("a".to_string(), "A"),
        ("b".to_string(), "B"),
        ("c".to_string(), "C"),
        ("d".to_string(), "D"),
    ];
    let nodes = vec![
        node(
            Some("Rock"),
            "folder",
            "spotify:user:u:folder:1",
            vec![
                node(None, "playlist", "spotify:playlist:b", vec![]),
                node(None, "folder", "spotify:user:u:folder:2", vec![node(None, "playlist", "spotify:playlist:c", vec![])]),
            ],
        ),
        node(None, "playlist", "spotify:playlist:a", vec![]),
        node(None, "playlist", "spotify:playlist:zzz", vec![]),
        node(Some("Skipped"), "folder", "no-colon", vec![node(None, "playlist", "spotify:playlist:d", vec![])]),
    ];
    let items = structurize(playlists, &nodes);
    assert_eq!(
        describe(&items),
        vec![
            "[Rock] 0->1",
            "[\u{2190} Rock] 1->0",
            "B@1",
            "[folder_1] 1->2",
            "[\u{2190} folder_1] 2->1",
            "C@2",
            "A@0",
            "D@0",
        ]
    );
}

#[test]
fn later_playlist_with_the_same_id_wins() {
    let playlists = vec![("a".to_string(), "first"), ("a".to_string(), "second")];
    let items = structurize(playlists, &vec![]);
    assert_eq!(describe(&items), vec!["second@0"]);
}
