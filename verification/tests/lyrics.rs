use spotify_player::lyrics::{process_lyric, replace_text, search_results, SongHit};

#[test]
fn sections_get_one_blank_line() {
    let lyric = "[Verse 1]\nline\n\n[Chorus]\nline\n[Verse 2]\nline";
    assert_eq!(
        process_lyric(lyric),
        "[Verse 1]\nline\n\n[Chorus]\nline\n\n[Verse 2]\nline"
    );
    assert_eq!(process_lyric(lyric), lyric.replace("\n\n[", "\n[").replace("\n[", "\n\n["));
}

#[test]
fn replace_matches_std() {
    for (s, from, to) in [
        ("aaaa", "aa", "b"),
        ("abcabc", "bc", ""),
        ("", "x", "y"),
        ("xyz", "", "-"),
        ("ab", "abc", "z"),
    ] {
        if from.is_empty() {
            // std inserts at every position for an empty pattern; the lyric
            // patterns are never empty
            assert_eq!(replace_text(s, from, to), s);
        } else {
            assert_eq!(replace_text(s, from, to), s.replace(from, to), "{s:?} {from:?}");
        }
    }
}

fn hit(kind: &str, title: &str) -> (String, SongHit) {
    (
        kind.to_string(),
        SongHit {
            url: format!("https://genius.com/{title}"),
            title: title.to_string(),
            artist_names: "artist".to_string(),
        },
    )
}

#[test]
fn search_keeps_song_hits_only() {
    let songs = search_results(200, None, Some(vec![hit("song", "a"), hit("album", "b"), hit("song", "c")])).unwrap();
    let titles: Vec<String> = songs.into_iter().map(|s| s.title).collect();
    assert_eq!(titles, vec!["a", "c"]);
    assert!(search_results(200, None, None).unwrap().is_empty());
}

#[test]
fn failed_search_reports_message_or_status() {
    assert_eq!(search_results(404, None, None).unwrap_err(), "request failed with status code: 404");
    assert_eq!(
        search_results(500, Some("boom".to_string()), None).unwrap_err(),
        "boom"
    );
}

#[test]
fn remaster_details_and_their_year_are_cut() {
    assert_eq!(
        spotify_player::lyrics::improve_query("Song Name - 2011 Remastered Version").as_deref(),
        Some("song name version")
    );
}

#[test]
fn remix_details_after_the_last_dash_are_cut() {
    assert_eq!(spotify_player::lyrics::improve_query("Song - Artist Remix").as_deref(), Some("song"));
    assert_eq!(spotify_player::lyrics::improve_query("a-remix").as_deref(), Some("a-remix"));
    assert_eq!(spotify_player::lyrics::improve_query("Hello World").as_deref(), Some("hello world"));
}

#[test]
fn a_remix_cut_that_runs_backwards_is_refused() {
    assert_eq!(spotify_player::lyrics::improve_query("Remixes abc - def"), None);
}

#[test]
fn cuts_are_made_on_utf8_bytes() {
    assert_eq!(spotify_player::lyrics::improve_query("é remaster").as_deref(), Some("é"));
    assert_eq!(spotify_player::lyrics::improve_query("éremaster"), None);
    assert_eq!(spotify_player::lyrics::improve_query("éa-remix").as_deref(), Some("éa"));
    assert_eq!(spotify_player::lyrics::improve_query("Song 2011 Remastered").as_deref(), Some("songed"));
}
