use spotify_player::albums::{process_artist_albums, AlbumEntry};

fn album(date: &str, kind: &str, name: &'static str) -> AlbumEntry<&'static str> {
    AlbumEntry {
        release_date: date.to_string(),
        album_type: kind.to_string(),
        album: name,
    }
}

fn names(albums: Vec<AlbumEntry<&'static str>>) -> Vec<&'static str> {
    albums.into_iter().map(|a| a.album).collect()
}

fn input() -> Vec<AlbumEntry<&'static str>> {
    vec![
        album("2019-01-01", "single", "s2019"),
        album("2021-05-04", "album", "a2021"),
        album("2019", "compilation", "c2019"),
        album("2020-02-02", "single", "s2020"),
        album("2019-01-01", "album", "a2019"),
        album("2015", "appears_on", "x2015"),
        album("2020-02-02", "unknown", "u2020"),
    ]
}

#[test]
fn latest_release_first_ties_keep_their_order() {
    assert_eq!(
        names(process_artist_albums(input(), false)),
        vec!["a2021", "s2020", "u2020", "s2019", "a2019", "c2019", "x2015"]
    );
}

#[test]
fn grouped_by_type_then_latest_first() {
    assert_eq!(
        names(process_artist_albums(input(), true)),
        vec!["a2021", "a2019", "s2020", "s2019", "x2015", "c2019", "u2020"]
    );
}

#[test]
fn matches_the_standard_stable_sort() {
    let mut expected = input();
    expected.sort_by(|x, y| y.release_date.partial_cmp(&x.release_date).unwrap());
    assert_eq!(names(process_artist_albums(input(), false)), names(expected));
    assert!(process_artist_albums(Vec::<AlbumEntry<u8>>::new(), true).is_empty());
}
