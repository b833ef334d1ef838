use spotify_player::config::NotifyFormat;
use spotify_player::notify::{notification_texts, text_from_format_str, PlayingItem};

fn track() -> PlayingItem {
    PlayingItem::Track {
        name: "Song".to_string(),
        artists: vec!["Alice".to_string(), "Bob".to_string()],
        album: "Record".to_string(),
    }
}

fn episode() -> PlayingItem {
    PlayingItem::Episode { name: "Episode 1".to_string(), show: "The Show".to_string() }
}

#[test]
fn default_format_describes_a_track() {
    let (summary, body) = notification_texts(&NotifyFormat::default(), &track());
    assert_eq!(summary, "Song • Alice, Bob");
    assert_eq!(body, "Record");
}

#[test]
fn default_format_describes_an_episode() {
    let (summary, body) = notification_texts(&NotifyFormat::default(), &episode());
    assert_eq!(summary, "Episode 1 • ");
    assert_eq!(body, "The Show");
}

#[test]
fn unknown_items_leave_placeholders_empty() {
    let (summary, body) = notification_texts(&NotifyFormat::default(), &PlayingItem::Unknown);
    assert_eq!(summary, " • ");
    assert_eq!(body, "");
}

#[test]
fn text_around_placeholders_is_kept() {
    assert_eq!(
        text_from_format_str("Now playing: {track} by {artists} ({album})!", &track()),
        "Now playing: Song by Alice, Bob (Record)!"
    );
}

#[test]
fn unknown_placeholders_are_dropped() {
    assert_eq!(text_from_format_str("a{year}b{}c", &track()), "abc");
}

#[test]
fn unclosed_braces_are_kept() {
    assert_eq!(text_from_format_str("{track", &track()), "{track");
    assert_eq!(text_from_format_str("{tr\nack}", &track()), "{tr\nack}");
    assert_eq!(text_from_format_str("}{track}{", &track()), "}Song{");
}

#[test]
fn placeholder_ends_at_the_first_closing_brace() {
    assert_eq!(text_from_format_str("{{track}}", &track()), "}");
    assert_eq!(text_from_format_str("{x{track}", &track()), "");
}

#[test]
fn single_artist_is_not_joined() {
    let item = PlayingItem::Track {
        name: "Solo".to_string(),
        artists: vec!["Carol".to_string()],
        album: String::new(),
    };
    assert_eq!(text_from_format_str("{artists}|{album}", &item), "Carol|");
}

#[test]
fn non_ascii_text_is_kept() {
    let item = PlayingItem::Track {
        name: "Für Elise".to_string(),
        artists: vec!["Beethoven".to_string()],
        album: "Klavierstücke".to_string(),
    };
    assert_eq!(text_from_format_str("♪ {track} — {album}", &item), "♪ Für Elise — Klavierstücke");
}
