use spotify_player::spotify_link::{link_target, parse_spotify_link, LinkTarget};

fn parsed(s: &str) -> Option<(String, String)> {
    parse_spotify_link(s)
}

#[test]
fn finds_type_and_id_of_a_link() {
    assert_eq!(
        parsed("https://open.spotify.com/track/4uLU6hMCjMI75M1A2tKUQC?si=abc"),
        Some(("track".to_string(), "4uLU6hMCjMI75M1A2tKUQC".to_string()))
    );
    assert_eq!(
        parsed("look: https://open.spotify.com/playlist/37i9dQZF1DXcBWIGoYBM5M and more"),
        Some(("playlist".to_string(), "37i9dQZF1DXcBWIGoYBM5M".to_string()))
    );
    // the type ends at the first slash, the id at the first other character
    assert_eq!(
        parsed("https://open.spotify.com/intl-fr/album/xyz"),
        Some(("intl-fr".to_string(), "album".to_string()))
    );
    assert_eq!(
        parsed("https://open.spotify.com/artist/"),
        Some(("artist".to_string(), String::new()))
    );
}

#[test]
fn rejects_text_without_a_link() {
    assert_eq!(parsed("https://open.spotify.com/track"), None);
    assert_eq!(parsed("https://open.spotify.com/track\n/abc"), None);
    assert_eq!(parsed("http://open.spotify.com/track/abc"), None);
    assert_eq!(parsed(""), None);
    // the dots of the host stand for any character on the line
    assert_eq!(
        parsed("https://open-spotify_com/album/a1"),
        Some(("album".to_string(), "a1".to_string()))
    );
    // a line without a slash after the host is skipped for the next link
    assert_eq!(
        parsed("https://open.spotify.com/x\nhttps://open.spotify.com/album/b2"),
        Some(("album".to_string(), "b2".to_string()))
    );
}

#[test]
fn link_types_lead_to_tracks_or_pages() {
    assert!(matches!(link_target("track", "t".to_string()), Ok(LinkTarget::Track(t)) if t == "t"));
    assert!(matches!(link_target("album", "a".to_string()), Ok(LinkTarget::Album(a)) if a == "a"));
    assert!(matches!(link_target("artist", "a".to_string()), Ok(LinkTarget::Artist(_))));
    assert!(matches!(link_target("playlist", "p".to_string()), Ok(LinkTarget::Playlist(_))));
    assert_eq!(
        link_target("show", "s".to_string()).unwrap_err(),
        "unsupported Spotify type show!"
    );
}
