use spotify_player::command::Command;
use spotify_player::model::TrackOrder;
use spotify_player::tracks::{
    apply_track_order_command, reverse_tracks, sort_tracks, track_order_of, Album, Artist, Track,
};
use std::cmp::Ordering;

fn artist(name: &str) -> Artist {
    Artist { id: format!("id-{name}"), name: name.to_string() }
}

fn track(name: &str, artists: &[&str], album: Option<&str>, duration_ms: u64, added_at: u64) -> Track {
    Track {
        id: format!("id-{name}"),
        name: name.to_string(),
        artists: artists.iter().map(|a| artist(a)).collect(),
        album: album.map(|a| Album {
            id: format!("id-{a}"),
            release_date: "2020-01-02".to_string(),
            name: a.to_string(),
            artists: vec![],
            added_at: 0,
        }),
        duration_ms,
        explicit: false,
        added_at,
    }
}

fn names(tracks: &[Track]) -> Vec<String> {
    tracks.iter().map(|t| t.name.clone()).collect()
}

#[test]
fn track_text_shows_name_artists_and_album() {
    let mut t = track("Song", &["Alice", "Bob"], Some("Record"), 1000, 0);
    assert_eq!(t.artists_info(), "Alice, Bob");
    assert_eq!(t.album_info(), "Record");
    assert_eq!(t.display_name(), "Song");
    assert_eq!(t.to_text(), "Song • Alice, Bob ▎ Record");
    t.explicit = true;
    t.album = None;
    assert_eq!(t.display_name(), "Song (E)");
    assert_eq!(t.to_text(), "Song (E) • Alice, Bob ▎ ");
}

#[test]
fn album_and_artist_text() {
    let album = Album {
        id: "a".to_string(),
        release_date: "1999-12-31".to_string(),
        name: "Party".to_string(),
        artists: vec![artist("Prince")],
        added_at: 0,
    };
    assert_eq!(album.year(), "1999");
    assert_eq!(album.to_text(), "Party • Prince (1999)");
    assert_eq!(artist("Prince").to_text(), "Prince");
}

#[test]
fn compare_follows_the_order() {
    let a = track("A", &["Zed"], Some("Beta"), 300, 5);
    let b = track("B", &["Amy"], Some("Alpha"), 100, 1);
    assert_eq!(TrackOrder::TrackName.compare(&a, &b), Ordering::Less);
    assert_eq!(TrackOrder::Artists.compare(&a, &b), Ordering::Greater);
    assert_eq!(TrackOrder::Album.compare(&a, &b), Ordering::Greater);
    assert_eq!(TrackOrder::Duration.compare(&a, &b), Ordering::Greater);
    assert_eq!(TrackOrder::AddedAt.compare(&a, &b), Ordering::Greater);
    assert_eq!(TrackOrder::TrackName.compare(&a, &a), Ordering::Equal);
}

#[test]
fn sorting_is_stable() {
    let mut tracks = vec![
        track("c", &["X"], None, 200, 3),
        track("a", &["Y"], None, 100, 2),
        track("b", &["X"], None, 200, 1),
        track("d", &["Y"], None, 100, 4),
    ];
    sort_tracks(&mut tracks, TrackOrder::Duration);
    assert_eq!(names(&tracks), vec!["a", "d", "c", "b"]);
    sort_tracks(&mut tracks, TrackOrder::Artists);
    assert_eq!(names(&tracks), vec!["c", "b", "a", "d"]);
    sort_tracks(&mut tracks, TrackOrder::AddedAt);
    assert_eq!(names(&tracks), vec!["b", "a", "c", "d"]);
    sort_tracks(&mut tracks, TrackOrder::TrackName);
    assert_eq!(names(&tracks), vec!["a", "b", "c", "d"]);
}

#[test]
fn commands_sort_or_reverse() {
    let mut tracks = vec![
        track("b", &[], None, 1, 1),
        track("a", &[], None, 2, 2),
        track("c", &[], None, 3, 3),
    ];
    assert!(apply_track_order_command(&mut tracks, Command::SortTrackByTitle));
    assert_eq!(names(&tracks), vec!["a", "b", "c"]);
    assert!(apply_track_order_command(&mut tracks, Command::ReverseTrackOrder));
    assert_eq!(names(&tracks), vec!["c", "b", "a"]);
    assert!(!apply_track_order_command(&mut tracks, Command::NextTrack));
    assert_eq!(names(&tracks), vec!["c", "b", "a"]);
    assert_eq!(track_order_of(Command::SortTrackByAddedDate), Some(TrackOrder::AddedAt));
    assert_eq!(track_order_of(Command::SortTrackByDuration), Some(TrackOrder::Duration));
    assert_eq!(track_order_of(Command::SortTrackByAlbum), Some(TrackOrder::Album));
    assert_eq!(track_order_of(Command::Quit), None);
}

#[test]
fn reversing_twice_restores_the_order() {
    let mut v = vec![1, 2, 3, 4];
    reverse_tracks(&mut v);
    assert_eq!(v, vec![4, 3, 2, 1]);
    reverse_tracks(&mut v);
    assert_eq!(v, vec![1, 2, 3, 4]);
    let mut empty: Vec<u8> = vec![];
    reverse_tracks(&mut empty);
    assert!(empty.is_empty());
}
