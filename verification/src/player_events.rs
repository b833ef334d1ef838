//! What the player's event watcher asks the client for as the playback and
//! the shown page change, and how a newly retrieved playback replaces the
//! playback the application keeps ahead of Spotify.
//!
//! Times are milliseconds on a monotonic clock.

use vstd::prelude::*;

use crate::client_request::ClientRequest;
use crate::model::{spotify_uri, ContextId, ContextIdView};
use crate::text::{chars_of, join_texts, joined, push_char, texts_of};
use crate::player::PlaybackMetadata;
use crate::rate_limit::elapsed_since;

verus! {

/// How long the watcher waits before asking again for a context it has no
/// data of, in ms.
pub const CONTEXT_REFRESH_THROTTLE_MS: u64 = 5000;

/// How long the watcher waits before asking again for the queue of the same
/// item, in ms.
pub const QUEUE_REFRESH_THROTTLE_MS: u64 = 5000;

/// Whether a retrieved playback plays a new item: the name of what plays
/// changed and is not empty.
pub fn is_new_playback(prev_name: &String, curr_name: &String) -> (r: bool)
    ensures
        r == (prev_name@ != curr_name@ && curr_name@.len() > 0),
{
    !(*prev_name == *curr_name) && !curr_name.as_str().is_empty()
}

/// The device id of `p`, as text.
pub open spec fn device_id_text(p: PlaybackMetadata) -> Option<Seq<char>> {
    match p.device_id {
        Some(id) => Some(id@),
        None => None,
    }
}

/// Whether the kept playback is replaced by a retrieved one: where both
/// exist, when the device changed or a new item plays; where only one
/// exists, always.
pub open spec fn needs_update(
    buffered: Option<PlaybackMetadata>,
    fresh: Option<PlaybackMetadata>,
    new_playback: bool,
) -> bool {
    match (buffered, fresh) {
        (Some(bp), Some(p)) => device_id_text(bp) != device_id_text(p) || new_playback,
        (None, None) => false,
        _ => true,
    }
}

/// The retrieved playback `fresh` with what only the application knows
/// carried over from the kept one: the mute state (and, while muted, the
/// volume before muting) and the emulated track-repeat mode.
pub open spec fn carried_over(fresh: PlaybackMetadata, buffered: Option<PlaybackMetadata>) -> PlaybackMetadata {
    match buffered {
        Some(bp) => PlaybackMetadata {
            device_name: fresh.device_name,
            device_id: fresh.device_id,
            volume: if bp.mute_state is Some {
                bp.mute_state
            } else {
                fresh.volume
            },
            is_playing: fresh.is_playing,
            repeat_state: fresh.repeat_state,
            shuffle_state: fresh.shuffle_state,
            mute_state: bp.mute_state,
            fake_track_repeat_state: bp.fake_track_repeat_state,
        },
        None => fresh,
    }
}

/// Whether two optional device ids are the same.
fn same_device_id(a: &Option<String>, b: &Option<String>) -> (r: bool)
    ensures
        r == (match (a, b) {
            (Some(x), Some(y)) => x@ == y@,
            (None, None) => true,
            _ => false,
        }),
{
    match (a, b) {
        (Some(x), Some(y)) => *x == *y,
        (None, None) => true,
        _ => false,
    }
}

/// The kept playback after `fresh` was retrieved (already read as playback
/// metadata): it is replaced, with what only the application knows carried
/// over, when `reset` asks for it or `needs_update` holds; else it stays.
pub fn update_buffered_playback(
    buffered: Option<PlaybackMetadata>,
    fresh: Option<PlaybackMetadata>,
    new_playback: bool,
    reset: bool,
) -> (r: Option<PlaybackMetadata>)
    ensures
        r == (if reset || needs_update(buffered, fresh, new_playback) {
            match fresh {
                Some(p) => Some(carried_over(p, buffered)),
                None => None,
            }
        } else {
            buffered
        }),
{
    let update = match (&buffered, &fresh) {
        (Some(bp), Some(p)) => !same_device_id(&bp.device_id, &p.device_id) || new_playback,
        (None, None) => false,
        _ => true,
    };
    if !(reset || update) {
        return buffered;
    }
    match fresh {
        Some(p) => match buffered {
            Some(bp) => {
                let volume = if bp.mute_state.is_some() {
                    bp.mute_state
                } else {
                    p.volume
                };
                Some(
                    PlaybackMetadata {
                        device_name: p.device_name,
                        device_id: p.device_id,
                        volume,
                        is_playing: p.is_playing,
                        repeat_state: p.repeat_state,
                        shuffle_state: p.shuffle_state,
                        mute_state: bp.mute_state,
                        fake_track_repeat_state: bp.fake_track_repeat_state,
                    },
                )
            },
            None => Some(p),
        },
        None => None,
    }
}

/// What plays, as the watcher sees it.
#[derive(Debug, Clone)]
pub struct NowPlaying {
    /// The URI of the playing track or episode.
    pub uri: String,
    /// Its duration.
    pub duration_ms: u64,
    /// How far it has played, where that is known.
    pub progress_ms: Option<u64>,
    /// Whether the playback is running.
    pub is_playing: bool,
    /// The URI of what the kept queue says plays, if anything.
    pub queue_playing_uri: Option<String>,
}

/// The requests a playback change calls for.
#[derive(Debug, Clone, Copy, PartialEq, Eq, Structural)]
pub struct PlaybackRefresh {
    /// Ask for the current playback.
    pub get_current_playback: bool,
    /// Ask for the user's queue.
    pub get_queue: bool,
}

/// The item has played to its end while the playback runs.
pub open spec fn has_ended(p: NowPlaying) -> bool {
    p.progress_ms matches Some(progress) && progress >= p.duration_ms && p.is_playing
}

/// The kept queue does not say that the item plays.
pub open spec fn queue_is_stale(p: NowPlaying) -> bool {
    match p.queue_playing_uri {
        Some(u) => u@ != p.uri@,
        None => true,
    }
}

/// The watcher's memory between two checks.
#[derive(Debug)]
pub struct PlayerEventHandlerState {
    /// The item whose end was reported.
    pub ended_playable_uri: Option<String>,
    /// When a context was last asked for.
    pub last_get_context: u64,
    /// When the playback was last asked for on the watcher's own schedule.
    pub last_playback_refresh: u64,
    /// The item whose queue was last asked for, and when.
    pub last_queue_refresh: Option<(String, u64)>,
}

/// The text of an optional item.
pub open spec fn uri_text(u: Option<String>) -> Option<Seq<char>> {
    match u {
        Some(s) => Some(s@),
        None => None,
    }
}

/// The item and time of the last queue request, as text.
pub open spec fn refresh_text(r: Option<(String, u64)>) -> Option<(Seq<char>, u64)> {
    match r {
        Some((u, t)) => Some((u@, t)),
        None => None,
    }
}

impl PlayerEventHandlerState {
    /// A watcher started at `now`: nothing reported, both timers at `now`.
    pub fn new(now: u64) -> (r: Self)
        ensures
            r.ended_playable_uri is None,
            r.last_get_context == now,
            r.last_playback_refresh == now,
            r.last_queue_refresh is None,
    {
        PlayerEventHandlerState {
            ended_playable_uri: None,
            last_get_context: now,
            last_playback_refresh: now,
            last_queue_refresh: None,
        }
    }

    /// Whether the playback is asked for on the watcher's own schedule at
    /// `now`, every `refresh_ms` (never when zero); the timer restarts when
    /// it is.
    pub fn periodic_refresh(&mut self, refresh_ms: u64, now: u64) -> (r: bool)
        ensures
            r == (refresh_ms > 0 && elapsed_since(now, old(self).last_playback_refresh) >= refresh_ms),
            final(self).last_playback_refresh == (if r {
                now
            } else {
                old(self).last_playback_refresh
            }),
            final(self).last_get_context == old(self).last_get_context,
            final(self).ended_playable_uri == old(self).ended_playable_uri,
            final(self).last_queue_refresh == old(self).last_queue_refresh,
    {
        let last = self.last_playback_refresh;
        let elapsed: u64 = if last <= now {
            now - last
        } else {
            0
        };
        if refresh_ms > 0 && elapsed >= refresh_ms {
            self.last_playback_refresh = now;
            true
        } else {
            false
        }
    }

    /// The requests a check of the playback at `now` calls for. The end of
    /// an item is reported once; the queue is asked for while it does not
    /// show the item, at most once per throttle period for one item.
    pub fn playback_change(&mut self, playing: Option<&NowPlaying>, now: u64) -> (r: PlaybackRefresh)
        ensures
            final(self).last_get_context == old(self).last_get_context,
            final(self).last_playback_refresh == old(self).last_playback_refresh,
            match playing {
                None => r == PlaybackRefresh { get_current_playback: false, get_queue: false }
                    && final(self).ended_playable_uri == old(self).ended_playable_uri
                    && final(self).last_queue_refresh == old(self).last_queue_refresh,
                Some(p) => {
                    &&& r.get_current_playback == (has_ended(*p) && uri_text(
                        old(self).ended_playable_uri,
                    ) != Some(p.uri@))
                    &&& uri_text(final(self).ended_playable_uri) == if r.get_current_playback {
                        Some(p.uri@)
                    } else if !has_ended(*p) {
                        None
                    } else {
                        uri_text(old(self).ended_playable_uri)
                    }
                    &&& r.get_queue == (queue_is_stale(*p) && match refresh_text(
                        old(self).last_queue_refresh,
                    ) {
                        Some((u, t)) => u != p.uri@ || elapsed_since(now, t)
                            >= QUEUE_REFRESH_THROTTLE_MS,
                        None => true,
                    })
                    &&& refresh_text(final(self).last_queue_refresh) == if r.get_queue {
                        Some((p.uri@, now))
                    } else if queue_is_stale(*p) {
                        refresh_text(old(self).last_queue_refresh)
                    } else {
                        None
                    }
                },
            },
    {
        let p = match playing {
            None => {
                return PlaybackRefresh { get_current_playback: false, get_queue: false };
            },
            Some(p) => p,
        };
        let ended = match p.progress_ms {
            Some(progress) => progress >= p.duration_ms && p.is_playing,
            None => false,
        };
        let already = match &self.ended_playable_uri {
            Some(u) => *u == p.uri,
            None => false,
        };
        let get_current_playback = ended && !already;
        if get_current_playback {
            self.ended_playable_uri = Some(p.uri.clone());
        } else if !ended {
            self.ended_playable_uri = None;
        }
        let stale = match &p.queue_playing_uri {
            Some(u) => !(*u == p.uri),
            None => true,
        };
        let mut get_queue = false;
        if stale {
            let should = match &self.last_queue_refresh {
                Some((u, t)) => {
                    let elapsed: u64 = if *t <= now {
                        now - *t
                    } else {
                        0
                    };
                    !(*u == p.uri) || elapsed >= QUEUE_REFRESH_THROTTLE_MS
                },
                None => true,
            };
            if should {
                self.last_queue_refresh = Some((p.uri.clone(), now));
                get_queue = true;
            }
        } else {
            self.last_queue_refresh = None;
        }
        PlaybackRefresh { get_current_playback, get_queue }
    }
}

/// An optional context id, as text.
pub open spec fn context_text(c: Option<ContextId>) -> Option<ContextIdView> {
    match c {
        Some(id) => Some(id@),
        None => None,
    }
}

/// Whether two optional context ids are the same.
fn same_context(a: &Option<ContextId>, b: &Option<ContextId>) -> (r: bool)
    ensures
        r == (context_text(*a) == context_text(*b)),
{
    match (a, b) {
        (Some(x), Some(y)) => match (x, y) {
            (ContextId::Playlist(s), ContextId::Playlist(t)) => *s == *t,
            (ContextId::Album(s), ContextId::Album(t)) => *s == *t,
            (ContextId::Artist(s), ContextId::Artist(t)) => *s == *t,
            (ContextId::Show(s), ContextId::Show(t)) => *s == *t,
            (ContextId::Tracks(s), ContextId::Tracks(t)) => {
                let r = s.uri == t.uri && s.kind == t.kind;
                assert(r == (s@ == t@)) by {
                    if s.uri@ == t.uri@ && s.kind@ == t.kind@ {
                        assert(s@ == t@);
                    }
                }
                r
            },
            _ => false,
        },
        (None, None) => true,
        _ => false,
    }
}

/// What a context page check calls for.
#[derive(Debug, Clone, Copy, PartialEq, Eq, Structural)]
pub struct ContextPageChange {
    /// The page moved to another context: its state starts anew.
    pub new_context: bool,
    /// Ask for the context's data.
    pub get_context: bool,
}

impl PlayerEventHandlerState {
    /// The check at `now` of a context page that shows `shown` where it
    /// should show `expected`, whose data is cached or not: the page moves
    /// to `expected`; a context other than a list of tracks is asked for
    /// when its data is missing and the page just moved or the last request
    /// is older than the throttle period.
    pub fn context_page_change(
        &mut self,
        shown: &Option<ContextId>,
        expected: &Option<ContextId>,
        expected_cached: bool,
        now: u64,
    ) -> (r: ContextPageChange)
        ensures
            r.new_context == (context_text(*shown) != context_text(*expected)),
            r.get_context == (expected matches Some(id) && !(id is Tracks) && !expected_cached && (
            r.new_context || elapsed_since(now, old(self).last_get_context)
                > CONTEXT_REFRESH_THROTTLE_MS)),
            final(self).last_get_context == (if r.get_context {
                now
            } else {
                old(self).last_get_context
            }),
            final(self).last_playback_refresh == old(self).last_playback_refresh,
            final(self).ended_playable_uri == old(self).ended_playable_uri,
            final(self).last_queue_refresh == old(self).last_queue_refresh,
    {
        let new_context = !same_context(shown, expected);
        let last = self.last_get_context;
        let elapsed: u64 = if last <= now {
            now - last
        } else {
            0
        };
        let get_context = match expected {
            Some(id) => {
                let tracks = match id {
                    ContextId::Tracks(_) => true,
                    _ => false,
                };
                !tracks && !expected_cached && (new_context || elapsed > CONTEXT_REFRESH_THROTTLE_MS)
            },
            None => false,
        };
        if get_context {
            self.last_get_context = now;
        }
        ContextPageChange { new_context, get_context }
    }
}

/// `s` with every `/` left out.
pub open spec fn without_slashes(s: Seq<char>) -> Seq<char> {
    s.filter(|c: char| c != '/')
}

/// The name of the file a cover image is cached in, for an album (or show)
/// named `name` by `artist` (or publisher) with id `id`: name, artist,
/// `cover` and the first six characters of the id, joined with `-`, then
/// `.jpg`, with every `/` left out.
pub open spec fn cover_filename_text(name: Seq<char>, artist: Seq<char>, id: Seq<char>) -> Seq<char> {
    without_slashes(name + "-"@ + artist + "-cover-"@ + id.take(6) + ".jpg"@)
}

/// The name of the file a cover image is cached in (see
/// `cover_filename_text`).
pub fn cover_filename(name: &str, artist: &str, id: &str) -> (r: String)
    requires
        id@.len() >= 6,
    ensures
        r@ == cover_filename_text(name@, artist@, id@),
{
    let ids = chars_of(id);
    let mut short = String::new();
    let mut k: usize = 0;
    while k < 6
        invariant
            ids@ == id@,
            ids@.len() >= 6,
            k <= 6,
            short@ == id@.take(k as int),
        decreases 6 - k,
    {
        push_char(&mut short, ids[k]);
        assert(short@ =~= id@.take(k + 1));
        k = k + 1;
    }
    let mut full = String::from_str(name);
    full.append("-");
    full.append(artist);
    full.append("-cover-");
    full.append(short.as_str());
    full.append(".jpg");
    let chars = chars_of(full.as_str());
    let mut out = String::new();
    let mut i: usize = 0;
    while i < chars.len()
        invariant
            i <= chars@.len(),
            out@ == without_slashes(chars@.take(i as int)),
        decreases chars@.len() - i,
    {
        proof {
            let t = chars@.take(i + 1);
            assert(t.drop_last() =~= chars@.take(i as int));
            assert(t.last() == chars@[i as int]);
            reveal_with_fuel(Seq::filter, 1);
        }
        if chars[i] != '/' {
            push_char(&mut out, chars[i]);
        }
        i = i + 1;
    }
    assert(chars@.take(i as int) =~= chars@);
    out
}

/// The track that plays, as the lyrics page sees it: its name, its id where
/// it has one, and its artists' names.
#[derive(Debug, Clone)]
pub struct PlayingTrack {
    pub name: String,
    pub id: Option<String>,
    pub artists: Vec<String>,
}

/// What the lyrics page shows anew.
#[derive(Debug, Clone)]
pub struct LyricsPageUpdate {
    pub track: String,
    pub artists: String,
    pub track_uri: String,
}

/// The update of a lyrics page that shows `shown_track` while `playing`
/// plays: when another track with an id plays, the page shows it (name,
/// artists joined with `, `, URI) and its lyrics are asked for.
pub fn lyrics_page_update(shown_track: &String, playing: Option<&PlayingTrack>) -> (r: Option<
    (LyricsPageUpdate, ClientRequest),
>)
    ensures
        match playing {
            Some(t) => if t.name@ != shown_track@ && t.id is Some {
                r matches Some((u, req)) && u.track@ == t.name@ && u.artists@ == joined(
                    texts_of(t.artists@),
                    ", "@,
                ) && u.track_uri@ == spotify_uri("track"@, t.id->0@) && (req matches ClientRequest::GetLyrics {
                    track_id,
                } && track_id@ == t.id->0@)
            } else {
                r is None
            },
            None => r is None,
        },
{
    let t = match playing {
        Some(t) => t,
        None => return None,
    };
    if t.name == *shown_track {
        return None;
    }
    let id = match &t.id {
        Some(id) => id,
        None => return None,
    };
    let mut uri = String::from_str("spotify:");
    uri.append("track");
    uri.append(":");
    uri.append(id.as_str());
    let update = LyricsPageUpdate {
        track: t.name.clone(),
        artists: join_texts(t.artists.as_slice(), ", "),
        track_uri: uri,
    };
    Some((update, ClientRequest::GetLyrics { track_id: id.clone() }))
}

} // verus!
