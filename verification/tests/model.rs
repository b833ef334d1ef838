use spotify_player::model::{play_time, release_year, ContextId, Offset, Playback, TracksId};

fn uris(n: usize) -> Vec<String> {
    (0..n).map(|i| format!("spotify:track:{i}")).collect()
}

fn offset_uri(p: &Playback) -> Option<String> {
    match p {
        Playback::Context(_, Some(Offset::Uri(u))) | Playback::URIs(_, Some(Offset::Uri(u))) => {
            Some(u.clone())
        }
        _ => None,
    }
}

#[test]
fn short_track_list_is_played_whole() {
    let p = Playback::URIs(uris(5), None);
    let q = p.uri_offset("spotify:track:3".to_string(), 10);
    match &q {
        Playback::URIs(ids, _) => assert_eq!(ids, &uris(5)),
        _ => panic!(),
    }
    assert_eq!(offset_uri(&q).as_deref(), Some("spotify:track:3"));
}

#[test]
fn long_track_list_is_cut_around_the_track() {
    let p = Playback::URIs(uris(100), None);
    match p.uri_offset("spotify:track:50".to_string(), 10) {
        Playback::URIs(ids, _) => assert_eq!(ids, uris(100)[45..55].to_vec()),
        _ => panic!(),
    }
    match p.uri_offset("spotify:track:2".to_string(), 10) {
        Playback::URIs(ids, _) => assert_eq!(ids, uris(100)[0..10].to_vec()),
        _ => panic!(),
    }
    match p.uri_offset("spotify:track:98".to_string(), 10) {
        Playback::URIs(ids, _) => assert_eq!(ids, uris(100)[93..100].to_vec()),
        _ => panic!(),
    }
    // an unknown track starts the window at the first track
    match p.uri_offset("spotify:track:x".to_string(), 10) {
        Playback::URIs(ids, _) => assert_eq!(ids, uris(100)[0..10].to_vec()),
        _ => panic!(),
    }
}

#[test]
fn context_playback_keeps_the_context() {
    let p = Playback::Context(ContextId::Album("abc".to_string()), None);
    let q = p.uri_offset("spotify:track:1".to_string(), 10);
    match &q {
        Playback::Context(id, _) => assert_eq!(id.uri(), "spotify:album:abc"),
        _ => panic!(),
    }
    assert_eq!(offset_uri(&q).as_deref(), Some("spotify:track:1"));
}

#[test]
fn play_time_shows_hours_minutes_and_seconds() {
    assert_eq!(play_time(&[]), "0s");
    assert_eq!(play_time(&[59_999]), "59s");
    assert_eq!(play_time(&[30_000, 30_500]), "1m 0s");
    assert_eq!(play_time(&[3_600_000, 61_000]), "1h 1m 1s");
    assert_eq!(play_time(&[3_600_000, 5_000]), "1h 5s");
}

#[test]
fn release_year_is_text_before_first_dash() {
    assert_eq!(release_year("2021-05-04"), "2021");
    assert_eq!(release_year("1999"), "1999");
    assert_eq!(release_year(""), "");
    assert_eq!(release_year("-01"), "");
}

#[test]
fn tracks_id_keeps_uri_and_kind() {
    let id = TracksId::new("spotify:user:liked", "Liked Tracks");
    assert_eq!(id.uri, "spotify:user:liked");
    assert_eq!(id.kind, "Liked Tracks");
    assert_eq!(ContextId::Tracks(id).uri(), "spotify:user:liked");
}
