use spotify_player::contexts::{
    playlist_description, strip_html_tags, Context, Episode, Playlist, Show,
};
use spotify_player::playlist_folders::PlaylistFolder;
use spotify_player::tracks::{Album, Artist, Track};

fn track(ms: u64) -> Track {
    Track {
        id: "t".to_string(),
        name: "t".to_string(),
        artists: vec![],
        album: None,
        duration_ms: ms,
        explicit: false,
        added_at: 0,
    }
}

fn playlist() -> Playlist {
    Playlist {
        id: "p".to_string(),
        collaborative: false,
        name: "Road Trip".to_string(),
        owner: ("Alice".to_string(), "alice".to_string()),
        desc: String::new(),
        current_folder_id: 0,
        snapshot_id: "s".to_string(),
    }
}

#[test]
fn album_description_lists_date_songs_and_play_time() {
    let album = Album {
        id: "a".to_string(),
        release_date: "2020-05-01".to_string(),
        name: "Record".to_string(),
        artists: vec![],
        added_at: 0,
    };
    let c = Context::Album { album, tracks: vec![track(3_600_000), track(61_500)] };
    assert_eq!(c.description(), "Record | 2020-05-01 | 2 songs | 1h 1m 1s");
}

#[test]
fn playlist_and_tracks_descriptions() {
    let c = Context::Playlist { playlist: playlist(), tracks: vec![track(59_999)] };
    assert_eq!(c.description(), "Road Trip | Alice | 1 songs | 59s");
    let c = Context::Tracks { tracks: vec![], desc: "Liked Tracks".to_string() };
    assert_eq!(c.description(), "Liked Tracks | 0 songs | 0s");
}

#[test]
fn artist_and_show_descriptions() {
    let artist = Artist { id: "x".to_string(), name: "Prince".to_string() };
    let c = Context::Artist {
        artist,
        top_tracks: vec![],
        albums: vec![],
        related_artists: vec![],
    };
    assert_eq!(c.description(), "Prince");
    let show = Show { id: "s".to_string(), name: "Talk".to_string() };
    let episode = Episode {
        id: "e".to_string(),
        name: "Pilot".to_string(),
        description: String::new(),
        duration_ms: 1,
        show: None,
        release_date: String::new(),
    };
    let c = Context::Show { show, episodes: vec![episode] };
    assert_eq!(c.description(), "Talk | 1 episodes");
}

#[test]
fn items_are_listed_by_name() {
    assert_eq!(playlist().to_text(), "Road Trip • Alice");
    let show = Show { id: "s".to_string(), name: "Talk".to_string() };
    assert_eq!(show.to_text(), "Talk");
    let mut episode = Episode {
        id: "e".to_string(),
        name: "Pilot".to_string(),
        description: String::new(),
        duration_ms: 1,
        show: None,
        release_date: String::new(),
    };
    assert_eq!(episode.to_text(), "Pilot");
    episode.show = Some(show);
    assert_eq!(episode.to_text(), "Pilot • Talk");
    let folder = PlaylistFolder { name: "Mixes".to_string(), current_id: 0, target_id: 1 };
    assert_eq!(folder.to_text(), "Mixes/");
}

#[test]
fn html_tags_are_left_out() {
    assert_eq!(strip_html_tags("<a href=\"x\">Hello</a> <b>world</b>"), "Hello world");
    assert_eq!(strip_html_tags("1 < 2 and 3 > 2"), "1  2");
    assert_eq!(strip_html_tags("a <b\nc> d"), "a <b\nc> d");
    assert_eq!(strip_html_tags("no tags"), "no tags");
    assert_eq!(strip_html_tags("<>x<"), "x<");
}

#[test]
fn playlist_description_strips_tags_and_decodes_entities() {
    assert_eq!(
        playlist_description(Some("Songs <i>for</i> you &amp; me &#39;24")),
        "Songs for you & me '24"
    );
    assert_eq!(playlist_description(Some("Plain text")), "Plain text");
    assert_eq!(playlist_description(None), "");
}
