//! Playlists, shows, episodes and the contexts that tracks are played from,
//! as they are described and listed.

use vstd::prelude::*;

use crate::command::{decimal_digits, push_decimal_digits};
use crate::model::{play_time, play_time_text, total};
use crate::playlist_folders::PlaylistFolder;
use crate::text::{chars_of, closing_delim, find_closing, lemma_closing_delim, push_char};
use crate::tracks::{Album, Artist, Track};

verus! {

/// A Spotify playlist; its owner is given by display name and id.
#[derive(Debug)]
pub struct Playlist {
    pub id: String,
    pub collaborative: bool,
    pub name: String,
    pub owner: (String, String),
    pub desc: String,
    pub current_folder_id: usize,
    pub snapshot_id: String,
}

/// A Spotify show (podcast).
#[derive(Debug, Clone)]
pub struct Show {
    pub id: String,
    pub name: String,
}

/// A Spotify episode (of a podcast).
#[derive(Debug, Clone)]
pub struct Episode {
    pub id: String,
    pub name: String,
    pub description: String,
    pub duration_ms: u64,
    pub show: Option<Show>,
    pub release_date: String,
}

impl Playlist {
    /// How the playlist is listed: name and owner.
    pub fn to_text(&self) -> (r: String)
        ensures
            r@ == self.name@ + " • "@ + self.owner.0@,
    {
        let mut out = self.name.clone();
        out.append(" • ");
        out.append(self.owner.0.as_str());
        out
    }
}

impl Show {
    /// How the show is listed: its name.
    pub fn to_text(&self) -> (r: String)
        ensures
            r@ == self.name@,
    {
        self.name.clone()
    }
}

impl Episode {
    /// How the episode is listed: its name, and its show's where known.
    pub fn to_text(&self) -> (r: String)
        ensures
            r@ == match self.show {
                Some(s) => self.name@ + " • "@ + s.name@,
                None => self.name@,
            },
    {
        let mut out = self.name.clone();
        match &self.show {
            Some(s) => {
                out.append(" • ");
                out.append(s.name.as_str());
            },
            None => {},
        }
        out
    }
}

impl PlaylistFolder {
    /// How the folder is listed: its name and a slash.
    pub fn to_text(&self) -> (r: String)
        ensures
            r@ == self.name@ + "/"@,
    {
        let mut out = self.name.clone();
        out.append("/");
        out
    }
}

/// Where tracks are played from.
#[derive(Debug)]
pub enum Context {
    Playlist { playlist: Playlist, tracks: Vec<Track> },
    Album { album: Album, tracks: Vec<Track> },
    Artist {
        artist: Artist,
        top_tracks: Vec<Track>,
        albums: Vec<Album>,
        related_artists: Vec<Artist>,
    },
    Tracks { tracks: Vec<Track>, desc: String },
    Show { show: Show, episodes: Vec<Episode> },
}

/// The durations of `tracks`.
pub open spec fn durations(tracks: Seq<Track>) -> Seq<u64> {
    tracks.map_values(|t: Track| t.duration_ms)
}

/// The number of `tracks` and their total play time, as in `12 songs | 45m 6s`.
pub open spec fn songs_text(tracks: Seq<Track>) -> Seq<char> {
    decimal_digits(tracks.len()) + " songs | "@ + play_time_text(total(durations(tracks)) / 1000)
}

/// Whether the play time of `tracks` in whole seconds fits a `u64`.
pub open spec fn play_time_fits(tracks: Seq<Track>) -> bool {
    total(durations(tracks)) / 1000 <= u64::MAX
}

impl Context {
    /// Whether the context's play time can be described.
    pub open spec fn describable(&self) -> bool {
        match self {
            Context::Playlist { tracks, .. } => play_time_fits(tracks@),
            Context::Album { tracks, .. } => play_time_fits(tracks@),
            Context::Tracks { tracks, .. } => play_time_fits(tracks@),
            _ => true,
        }
    }

    /// The description of the context.
    pub open spec fn description_text(&self) -> Seq<char> {
        match self {
            Context::Album { album, tracks } => album.name@ + " | "@ + album.release_date@ + " | "@
                + songs_text(tracks@),
            Context::Playlist { playlist, tracks } => playlist.name@ + " | "@ + playlist.owner.0@
                + " | "@ + songs_text(tracks@),
            Context::Artist { artist, .. } => artist.name@,
            Context::Tracks { tracks, desc } => desc@ + " | "@ + songs_text(tracks@),
            Context::Show { show, episodes } => show.name@ + " | "@ + decimal_digits(
                episodes@.len(),
            ) + " episodes"@,
        }
    }

    /// The context's description: its name (with the release date of an
    /// album or the owner of a playlist), then the number of tracks and
    /// their play time; an artist's name; a show's name and number of
    /// episodes.
    pub fn description(&self) -> (r: String)
        requires
            self.describable(),
        ensures
            r@ == self.description_text(),
    {
        match self {
            Context::Album { album, tracks } => {
                let mut out = album.name.clone();
                out.append(" | ");
                out.append(album.release_date.as_str());
                out.append(" | ");
                push_songs(&mut out, tracks);
                out
            },
            Context::Playlist { playlist, tracks } => {
                let mut out = playlist.name.clone();
                out.append(" | ");
                out.append(playlist.owner.0.as_str());
                out.append(" | ");
                push_songs(&mut out, tracks);
                out
            },
            Context::Artist { artist, .. } => artist.name.clone(),
            Context::Tracks { tracks, desc } => {
                let mut out = desc.clone();
                out.append(" | ");
                push_songs(&mut out, tracks);
                out
            },
            Context::Show { show, episodes } => {
                let mut out = show.name.clone();
                out.append(" | ");
                push_decimal_digits(&mut out, episodes.len() as u64);
                out.append(" episodes");
                out
            },
        }
    }
}

/// Appends the number of `tracks` and their play time.
fn push_songs(out: &mut String, tracks: &Vec<Track>)
    requires
        play_time_fits(tracks@),
    ensures
        final(out)@ == old(out)@ + songs_text(tracks@),
{
    let mut ms: Vec<u64> = Vec::new();
    let mut i: usize = 0;
    while i < tracks.len()
        invariant
            i <= tracks@.len(),
            ms@ == durations(tracks@.take(i as int)),
        decreases tracks@.len() - i,
    {
        ms.push(tracks[i].duration_ms);
        assert(ms@ =~= durations(tracks@.take(i + 1)));
        i = i + 1;
    }
    assert(tracks@.take(i as int) =~= tracks@);
    push_decimal_digits(out, tracks.len() as u64);
    out.append(" songs | ");
    let time = play_time(ms.as_slice());
    out.append(time.as_str());
}

/// `s` from position `i` on with every tag (a `<` up to the first `>` after
/// it on the same line) left out.
pub open spec fn untagged_from(s: Seq<char>, i: int) -> Seq<char>
    decreases s.len() - i,
{
    if i < 0 || i >= s.len() {
        Seq::empty()
    } else if s[i] == '<' && closing_delim(s, i + 1, '>') is Some {
        proof {
            lemma_closing_delim(s, i + 1, '>');
        }
        untagged_from(s, closing_delim(s, i + 1, '>')->0 + 1)
    } else {
        seq![s[i]] + untagged_from(s, i + 1)
    }
}

/// `text` with its HTML tags left out.
pub fn strip_html_tags(text: &str) -> (r: String)
    ensures
        r@ == untagged_from(text@, 0),
{
    let s = chars_of(text);
    let mut out = String::new();
    let mut i: usize = 0;
    assert(out@ + untagged_from(s@, 0) =~= untagged_from(s@, 0));
    while i < s.len()
        invariant
            s@ == text@,
            i <= s@.len(),
            out@ + untagged_from(s@, i as int) == untagged_from(s@, 0),
        decreases s@.len() - i,
    {
        let ghost before = out@;
        let mut next = i + 1;
        let mut tag = false;
        if s[i] == '<' {
            match find_closing(&s, i + 1, '>') {
                Some(j) => {
                    proof {
                        lemma_closing_delim(s@, i + 1, '>');
                    }
                    next = j + 1;
                    tag = true;
                },
                None => {},
            }
        }
        if !tag {
            push_char(&mut out, s[i]);
        }
        assert(out@ + untagged_from(s@, next as int) =~= before + untagged_from(s@, i as int));
        i = next;
    }
    out
}

/// The text that decoding the HTML entities of `text` gives.
pub uninterp spec fn html_decoded_of(text: Seq<char>) -> Seq<char>;

/// Calls `html_escape::decode_html_entities` on `text`. The decoded text is
/// named `html_decoded_of`; a text without `&` comes back unchanged, since
/// the crate hands back its input when it finds no entity and every entity
/// starts with `&`.
#[verifier::external_body]
fn decode_html_entities(text: &str) -> (r: String)
    ensures
        r@ == html_decoded_of(text@),
        !text@.contains('&') ==> r@ == text@,
{
    html_escape::decode_html_entities(text).into_owned()
}

/// A playlist's description as shown: the description Spotify gives (none
/// counts as empty) with its HTML tags left out and its entities decoded.
pub fn playlist_description(raw: Option<&str>) -> (r: String)
    ensures
        r@ == html_decoded_of(
            untagged_from(
                match raw {
                    Some(d) => d@,
                    None => Seq::<char>::empty(),
                },
                0,
            ),
        ),
{
    let stripped = match raw {
        Some(d) => strip_html_tags(d),
        None => String::new(),
    };
    decode_html_entities(stripped.as_str())
}

} // verus!
