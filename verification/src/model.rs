//! Identifiers of Spotify items and contexts, held as plain text, with the
//! small computations the player makes on them.

use vstd::prelude::*;

use crate::command::{decimal_digits, push_decimal_digits};
use crate::text::push_char;

verus! {

/// The id of a list of tracks that Spotify does not track as a playing
/// context (liked tracks, top tracks, ...).
#[derive(Clone, Debug, PartialEq, Eq)]
pub struct TracksId {
    pub uri: String,
    pub kind: String,
}

/// A tracks id: its URI and kind as characters.
pub struct TracksIdView {
    pub uri: Seq<char>,
    pub kind: Seq<char>,
}

impl View for TracksId {
    type V = TracksIdView;

    open spec fn view(&self) -> TracksIdView {
        TracksIdView { uri: self.uri@, kind: self.kind@ }
    }
}

impl TracksId {
    /// A tracks id with the given URI and kind.
    pub fn new(uri: &str, kind: &str) -> (r: Self)
        ensures
            r.uri@ == uri@,
            r.kind@ == kind@,
    {
        TracksId { uri: String::from_str(uri), kind: String::from_str(kind) }
    }

    /// A copy of this id.
    pub fn duplicate(&self) -> (r: Self)
        ensures
            r@ == self@,
    {
        TracksId { uri: self.uri.clone(), kind: self.kind.clone() }
    }
}

/// Which of the user's own lists of tracks.
#[derive(Debug, Clone, Copy, PartialEq, Eq, Structural)]
pub enum UserTracks {
    Top,
    RecentlyPlayed,
    Liked,
}

/// The URI and kind of one of the user's own lists of tracks.
pub open spec fn user_tracks_id(which: UserTracks) -> TracksIdView {
    match which {
        UserTracks::Top => TracksIdView { uri: "tracks:user-top-tracks"@, kind: "Top Tracks"@ },
        UserTracks::RecentlyPlayed => TracksIdView {
            uri: "tracks:user-recently-played-tracks"@,
            kind: "Recently Played Tracks"@,
        },
        UserTracks::Liked => TracksIdView { uri: "tracks:user-liked-tracks"@, kind: "Liked Tracks"@ },
    }
}

/// The id of one of the user's own lists of tracks.
pub fn user_tracks(which: UserTracks) -> (r: TracksId)
    ensures
        r@ == user_tracks_id(which),
{
    match which {
        UserTracks::Top => TracksId::new("tracks:user-top-tracks", "Top Tracks"),
        UserTracks::RecentlyPlayed => TracksId::new(
            "tracks:user-recently-played-tracks",
            "Recently Played Tracks",
        ),
        UserTracks::Liked => TracksId::new("tracks:user-liked-tracks", "Liked Tracks"),
    }
}

/// The id of a playing context. Playlist, album, artist and show ids are the
/// bare Spotify ids (the last part of their URI).
#[derive(Clone, Debug, PartialEq, Eq)]
pub enum ContextId {
    Playlist(String),
    Album(String),
    Artist(String),
    Tracks(TracksId),
    Show(String),
}

/// A context id with its text as characters.
pub enum ContextIdView {
    Playlist(Seq<char>),
    Album(Seq<char>),
    Artist(Seq<char>),
    Tracks(TracksIdView),
    Show(Seq<char>),
}

impl View for ContextId {
    type V = ContextIdView;

    open spec fn view(&self) -> ContextIdView {
        match self {
            ContextId::Playlist(s) => ContextIdView::Playlist(s@),
            ContextId::Album(s) => ContextIdView::Album(s@),
            ContextId::Artist(s) => ContextIdView::Artist(s@),
            ContextId::Tracks(t) => ContextIdView::Tracks(t@),
            ContextId::Show(s) => ContextIdView::Show(s@),
        }
    }
}

/// The Spotify URI of an item of type `kind` with id `id`.
pub open spec fn spotify_uri(kind: Seq<char>, id: Seq<char>) -> Seq<char> {
    "spotify:"@ + kind + ":"@ + id
}

/// The URI a context id stands for.
pub open spec fn context_uri(c: ContextIdView) -> Seq<char> {
    match c {
        ContextIdView::Playlist(id) => spotify_uri("playlist"@, id),
        ContextIdView::Album(id) => spotify_uri("album"@, id),
        ContextIdView::Artist(id) => spotify_uri("artist"@, id),
        ContextIdView::Tracks(t) => t.uri,
        ContextIdView::Show(id) => spotify_uri("show"@, id),
    }
}

/// Builds `spotify:<kind>:<id>`.
pub(crate) fn build_uri(kind: &str, id: &String) -> (r: String)
    ensures
        r@ == spotify_uri(kind@, id@),
{
    let mut uri = String::from_str("spotify:");
    uri.append(kind);
    uri.append(":");
    uri.append(id.as_str());
    uri
}

impl ContextId {
    /// The context's Spotify URI.
    pub fn uri(&self) -> (r: String)
        ensures
            r@ == context_uri(self@),
    {
        match self {
            ContextId::Album(id) => build_uri("album", id),
            ContextId::Artist(id) => build_uri("artist", id),
            ContextId::Playlist(id) => build_uri("playlist", id),
            ContextId::Tracks(id) => id.uri.clone(),
            ContextId::Show(id) => build_uri("show", id),
        }
    }

    /// A copy of this id.
    pub fn duplicate(&self) -> (r: Self)
        ensures
            r@ == self@,
    {
        match self {
            ContextId::Playlist(s) => ContextId::Playlist(s.clone()),
            ContextId::Album(s) => ContextId::Album(s.clone()),
            ContextId::Artist(s) => ContextId::Artist(s.clone()),
            ContextId::Tracks(t) => ContextId::Tracks(t.duplicate()),
            ContextId::Show(s) => ContextId::Show(s.clone()),
        }
    }
}

/// The data cached in files between runs.
#[derive(Debug, Clone, Copy, PartialEq, Eq, Structural)]
pub enum FileCacheKey {
    Playlists,
    PlaylistFolders,
    FollowedArtists,
    SavedShows,
    SavedAlbums,
    SavedTracks,
}

/// A kind of page of the interface.
#[derive(Debug, Clone, Copy, PartialEq, Eq, Structural)]
pub enum PageType {
    Library,
    Context,
    Search,
    Browse,
    Lyrics,
    Queue,
    CommandHelp,
}

/// A context's URI, by the kind of context.
#[derive(Debug, Clone)]
pub enum ContextURI {
    Playlist(String),
    Album(String),
    Artist(String),
    Unknown(String),
}

/// A Spotify device.
#[derive(Debug, Clone)]
pub struct Device {
    pub id: String,
    pub name: String,
}

/// A Spotify browse category.
#[derive(Debug, Clone)]
pub struct Category {
    pub id: String,
    pub name: String,
}

/// An order of tracks.
#[derive(Debug, Clone, Copy, PartialEq, Eq, Structural)]
pub enum TrackOrder {
    AddedAt,
    TrackName,
    Album,
    Artists,
    Duration,
}

/// The id of a Spotify item, by kind.
#[derive(Debug, Clone)]
pub enum ItemId {
    Track(String),
    Album(String),
    Artist(String),
    Playlist(String),
    Show(String),
}

/// Where playback starts in a context or a list of tracks.
#[derive(Debug, Clone)]
pub enum Offset {
    /// At the track with this URI.
    Uri(String),
    /// At this position, in milliseconds.
    Position(u32),
}

/// An offset with its text as characters.
pub enum OffsetView {
    Uri(Seq<char>),
    Position(u32),
}

impl View for Offset {
    type V = OffsetView;

    open spec fn view(&self) -> OffsetView {
        match self {
            Offset::Uri(u) => OffsetView::Uri(u@),
            Offset::Position(p) => OffsetView::Position(*p),
        }
    }
}

/// What to start playing: a context, or a list of track URIs, with an
/// optional offset.
#[derive(Debug, Clone)]
pub enum Playback {
    Context(ContextId, Option<Offset>),
    URIs(Vec<String>, Option<Offset>),
}

/// A playback with its text as characters.
pub enum PlaybackView {
    Context(ContextIdView, Option<OffsetView>),
    URIs(Seq<Seq<char>>, Option<OffsetView>),
}

/// The abstract value of an optional offset.
pub open spec fn offset_view(o: Option<Offset>) -> Option<OffsetView> {
    match o {
        Some(o) => Some(o@),
        None => None,
    }
}

impl View for Playback {
    type V = PlaybackView;

    open spec fn view(&self) -> PlaybackView {
        match self {
            Playback::Context(id, o) => PlaybackView::Context(id@, offset_view(*o)),
            Playback::URIs(ids, o) => PlaybackView::URIs(
                ids@.map_values(|u: String| u@),
                offset_view(*o),
            ),
        }
    }
}

/// The index of the first of `uris` equal to `uri`, or 0 when none is.
pub open spec fn position_or_first(uris: Seq<Seq<char>>, uri: Seq<char>) -> nat
    decreases uris.len(),
{
    if uris.len() == 0 || uris[0] == uri {
        0
    } else if exists|i: int| 1 <= i < uris.len() && uris[i] == uri {
        1 + position_or_first(uris.drop_first(), uri)
    } else {
        0
    }
}

/// Where the window of at most `limit` tracks played around position `pos`
/// starts: half a window before it, or at the start.
pub open spec fn window_start(pos: nat, limit: nat) -> nat {
    if pos >= limit / 2 {
        (pos - limit / 2) as nat
    } else {
        0
    }
}

/// The tracks played when starting at `uri` in `uris`: all of them when
/// fewer than `limit`, else the window of at most `limit` tracks around it.
pub open spec fn played_window(uris: Seq<Seq<char>>, uri: Seq<char>, limit: nat) -> Seq<Seq<char>> {
    if uris.len() < limit {
        uris
    } else {
        let l = window_start(position_or_first(uris, uri), limit);
        let r: int = if l + limit < uris.len() {
            (l + limit) as int
        } else {
            uris.len() as int
        };
        uris.subrange(l as int, r)
    }
}

/// The index of the first of `uris` equal to `uri`, or 0.
fn find_position(uris: &Vec<String>, uri: &String) -> (r: usize)
    ensures
        r == position_or_first(uris@.map_values(|u: String| u@), uri@),
        r == 0 || r < uris@.len(),
{
    let ghost v = uris@.map_values(|u: String| u@);
    let mut i: usize = 0;
    while i < uris.len()
        invariant
            v == uris@.map_values(|u: String| u@),
            i <= uris@.len(),
            forall|j: int| 0 <= j < i ==> #[trigger] v[j] != uri@,
        decreases uris@.len() - i,
    {
        if uris[i] == *uri {
            proof {
                lemma_position_at(v, uri@, i as int);
            }
            return i;
        }
        i = i + 1;
    }
    proof {
        lemma_position_absent(v, uri@);
    }
    0
}

/// The first match is found at `i`.
proof fn lemma_position_at(uris: Seq<Seq<char>>, uri: Seq<char>, i: int)
    requires
        0 <= i < uris.len(),
        uris[i] == uri,
        forall|j: int| 0 <= j < i ==> #[trigger] uris[j] != uri,
    ensures
        position_or_first(uris, uri) == i,
    decreases i,
{
    if i > 0 {
        let t = uris.drop_first();
        assert(t[i - 1] == uri);
        assert forall|j: int| 0 <= j < i - 1 implies #[trigger] t[j] != uri by {
            assert(t[j] == uris[j + 1]);
        }
        lemma_position_at(t, uri, i - 1);
    }
}

/// With no match, the position is 0.
proof fn lemma_position_absent(uris: Seq<Seq<char>>, uri: Seq<char>)
    requires
        forall|j: int| 0 <= j < uris.len() ==> #[trigger] uris[j] != uri,
    ensures
        position_or_first(uris, uri) == 0,
{
}

/// `p` started at the track `uri`: a list of tracks cut to the window of at
/// most `limit` tracks around it.
pub open spec fn started_at(p: PlaybackView, uri: Seq<char>, limit: nat) -> PlaybackView {
    match p {
        PlaybackView::Context(id, _) => PlaybackView::Context(id, Some(OffsetView::Uri(uri))),
        PlaybackView::URIs(ids, _) => PlaybackView::URIs(
            played_window(ids, uri, limit),
            Some(OffsetView::Uri(uri)),
        ),
    }
}

/// Whether the window of at most `limit` tracks around `uri` in `p` can be
/// counted in a `usize`.
pub open spec fn window_fits(p: Playback, uri: Seq<char>, limit: usize) -> bool {
    match p {
        Playback::URIs(ids, _) => ids@.len() >= limit ==> window_start(
            position_or_first(ids@.map_values(|u: String| u@), uri),
            limit as nat,
        ) + limit <= usize::MAX,
        Playback::Context(..) => true,
    }
}

impl Playback {
    /// A copy of this playback that starts at the track `uri`; a list of
    /// tracks is cut to the window of at most `limit` tracks around it.
    pub fn uri_offset(&self, uri: String, limit: usize) -> (r: Self)
        requires
            window_fits(*self, uri@, limit),
        ensures
            r@ == started_at(self@, uri@, limit as nat),
    {
        match self {
            Playback::Context(id, _) => Playback::Context(id.duplicate(), Some(Offset::Uri(uri))),
            Playback::URIs(ids, _) => {
                let ghost v = ids@.map_values(|u: String| u@);
                let (l, r) = if ids.len() < limit {
                    (0, ids.len())
                } else {
                    let pos = find_position(ids, &uri);
                    let half = limit / 2;
                    let l = if pos >= half {
                        pos - half
                    } else {
                        0
                    };
                    let r = if l + limit < ids.len() {
                        l + limit
                    } else {
                        ids.len()
                    };
                    (l, r)
                };
                let mut out: Vec<String> = Vec::new();
                let mut i: usize = l;
                while i < r
                    invariant
                        v == ids@.map_values(|u: String| u@),
                        l <= i <= r <= ids@.len(),
                        out@.map_values(|u: String| u@) == v.subrange(l as int, i as int),
                    decreases r - i,
                {
                    let ghost before = out@.map_values(|u: String| u@);
                    let uri_i = ids[i].clone();
                    assert(uri_i@ == v[i as int]);
                    out.push(uri_i);
                    assert(out@.map_values(|u: String| u@) =~= before.push(v[i as int]));
                    assert(v.subrange(l as int, i + 1) =~= v.subrange(l as int, i as int).push(v[i as int]));
                    i = i + 1;
                }
                if ids.len() < limit {
                    assert(v.subrange(0, ids@.len() as int) =~= v);
                }
                Playback::URIs(out, Some(Offset::Uri(uri)))
            },
        }
    }
}

/// How a total play time of `secs` seconds is shown: hours and minutes
/// when not zero, then seconds, as in `1h 2m 3s`.
pub open spec fn play_time_text(secs: nat) -> Seq<char> {
    let hours = secs / 3600;
    let minutes = (secs / 60) % 60;
    let seconds = secs % 60;
    (if hours > 0 {
        decimal_digits(hours) + seq!['h', ' ']
    } else {
        seq![]
    }) + (if minutes > 0 {
        decimal_digits(minutes) + seq!['m', ' ']
    } else {
        seq![]
    }) + decimal_digits(seconds) + seq!['s']
}

/// The sum of `ms`.
pub open spec fn total(ms: Seq<u64>) -> nat
    decreases ms.len(),
{
    if ms.len() == 0 {
        0
    } else {
        total(ms.drop_last()) + ms.last() as nat
    }
}

/// The total play time of tracks lasting `durations_ms` milliseconds, in
/// whole seconds.
pub fn play_time(durations_ms: &[u64]) -> (r: String)
    requires
        total(durations_ms@) / 1000 <= u64::MAX,
    ensures
        r@ == play_time_text(total(durations_ms@) / 1000),
{
    let mut sum: u128 = 0;
    let mut i: usize = 0;
    while i < durations_ms.len()
        invariant
            i <= durations_ms@.len(),
            sum == total(durations_ms@.take(i as int)),
            sum <= i * 0xffff_ffff_ffff_ffff,
            i <= usize::MAX,
        decreases durations_ms@.len() - i,
    {
        proof {
            let t = durations_ms@.take(i + 1);
            assert(t.drop_last() =~= durations_ms@.take(i as int));
            assert(t.last() == durations_ms@[i as int]);
            assert(i * 0xffff_ffff_ffff_ffff + 0xffff_ffff_ffff_ffff == (i + 1) * 0xffff_ffff_ffff_ffff) by (nonlinear_arith);
            assert((i + 1) * 0xffff_ffff_ffff_ffff < 0x1_0000_0000_0000_0000 * 0x1_0000_0000_0000_0000) by (nonlinear_arith)
                requires i < 0x1_0000_0000_0000_0000;
        }
        sum = sum + durations_ms[i] as u128;
        i = i + 1;
    }
    assert(durations_ms@.take(durations_ms@.len() as int) =~= durations_ms@);
    let secs = (sum / 1000) as u64;
    let hours = secs / 3600;
    let minutes = (secs / 60) % 60;
    let seconds = secs % 60;
    let mut out = String::new();
    if hours > 0 {
        push_decimal_digits(&mut out, hours);
        push_char(&mut out, 'h');
        push_char(&mut out, ' ');
    }
    if minutes > 0 {
        push_decimal_digits(&mut out, minutes);
        push_char(&mut out, 'm');
        push_char(&mut out, ' ');
    }
    push_decimal_digits(&mut out, seconds);
    push_char(&mut out, 's');
    assert(out@ =~= play_time_text(total(durations_ms@) / 1000));
    out
}

/// The year of a release date written `year-month-day`: its text before
/// the first `-`.
pub open spec fn year_of(date: Seq<char>) -> Seq<char>
    decreases date.len(),
{
    if date.len() == 0 || date[0] == '-' {
        seq![]
    } else {
        seq![date[0]] + year_of(date.drop_first())
    }
}

/// The year of the release date `release_date`.
pub fn release_year(release_date: &str) -> (r: String)
    ensures
        r@ == year_of(release_date@),
{
    let n = release_date.unicode_len();
    let mut out = String::new();
    let mut i: usize = 0;
    assert(release_date@.skip(0) =~= release_date@);
    assert(out@ + year_of(release_date@) =~= year_of(release_date@));
    while i < n && release_date.get_char(i) != '-'
        invariant
            n == release_date@.len(),
            i <= n,
            year_of(release_date@) == out@ + year_of(release_date@.skip(i as int)),
        decreases n - i,
    {
        proof {
            let rest = release_date@.skip(i as int);
            assert(rest.drop_first() =~= release_date@.skip(i + 1));
        }
        push_char(&mut out, release_date.get_char(i));
        i = i + 1;
    }
    assert(year_of(release_date@.skip(i as int)).len() == 0);
    assert(out@ + seq![] =~= out@);
    out
}

} // verus!
