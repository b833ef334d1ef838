//! Requests to the Spotify client, and which of them must run in the order
//! they were received.

use vstd::prelude::*;

use crate::command::Command;
use crate::model::{
    build_uri, context_uri, spotify_uri, user_tracks, user_tracks_id, Category, ContextId, ItemId, Playback,
    UserTracks,
};

verus! {

/// A request that changes the player's playback.
#[derive(Debug, Clone)]
pub enum PlayerRequest {
    NextTrack,
    PreviousTrack,
    Resume,
    Pause,
    ResumePause,
    /// Seek to this position, in milliseconds.
    SeekTrack(i64),
    Repeat,
    Shuffle,
    Volume(u8),
    ToggleMute,
    TransferPlayback(String, bool),
    StartPlayback(Playback, Option<bool>),
}

/// A request to the client. Items are given by their Spotify ids, playable
/// items by their URIs.
#[derive(Debug, Clone)]
pub enum ClientRequest {
    GetCurrentUser,
    GetDevices,
    GetBrowseCategories,
    GetBrowseCategoryPlaylists(Category),
    GetUserPlaylists,
    GetUserSavedAlbums,
    GetUserSavedShows,
    GetUserFollowedArtists,
    GetUserTopTracks,
    GetUserSavedTracks,
    GetUserRecentlyPlayedTracks,
    /// The tracks of the radio seeded by the item with this URI and name.
    GetRadioTracks { seed_uri: String, seed_name: String },
    GetContext(ContextId),
    GetCurrentPlayback,
    Search(String),
    AddPlayableToQueue(String),
    AddAlbumToQueue(String),
    AddPlayableToPlaylist(String, String),
    DeleteTrackFromPlaylist(String, String),
    ReorderPlaylistItems {
        playlist_id: String,
        insert_index: usize,
        range_start: usize,
        range_length: Option<usize>,
        snapshot_id: Option<String>,
    },
    AddToLibrary(ItemId),
    DeleteFromLibrary(ItemId),
    Player(PlayerRequest),
    GetCurrentUserQueue,
    GetLyrics { track_id: String },
    RestartIntegratedClient,
    CreatePlaylist { playlist_name: String, public: bool, collab: bool, desc: String },
}

/// Whether `r` reads data that no other request changes: such requests
/// may run concurrently.
pub open spec fn is_independent_read(r: ClientRequest) -> bool {
    match r {
        ClientRequest::GetCurrentUser
        | ClientRequest::GetDevices
        | ClientRequest::GetBrowseCategories
        | ClientRequest::GetBrowseCategoryPlaylists(_)
        | ClientRequest::GetUserPlaylists
        | ClientRequest::GetUserSavedAlbums
        | ClientRequest::GetUserSavedShows
        | ClientRequest::GetUserFollowedArtists
        | ClientRequest::GetUserTopTracks
        | ClientRequest::GetUserSavedTracks
        | ClientRequest::GetUserRecentlyPlayedTracks
        | ClientRequest::GetRadioTracks { .. }
        | ClientRequest::GetContext(_)
        | ClientRequest::Search(_)
        | ClientRequest::GetLyrics { .. } => true,
        _ => false,
    }
}

impl ClientRequest {
    /// Whether this request must run in the order it was received: it
    /// changes Spotify state, or refreshes player state that such changes
    /// affect.
    pub fn requires_ordered_execution(&self) -> (r: bool)
        ensures
            r == !is_independent_read(*self),
    {
        match self {
            ClientRequest::GetCurrentUser
            | ClientRequest::GetDevices
            | ClientRequest::GetBrowseCategories
            | ClientRequest::GetBrowseCategoryPlaylists(_)
            | ClientRequest::GetUserPlaylists
            | ClientRequest::GetUserSavedAlbums
            | ClientRequest::GetUserSavedShows
            | ClientRequest::GetUserFollowedArtists
            | ClientRequest::GetUserTopTracks
            | ClientRequest::GetUserSavedTracks
            | ClientRequest::GetUserRecentlyPlayedTracks
            | ClientRequest::GetRadioTracks { .. }
            | ClientRequest::GetContext(_)
            | ClientRequest::Search(_)
            | ClientRequest::GetLyrics { .. } => false,
            ClientRequest::GetCurrentPlayback
            | ClientRequest::AddPlayableToQueue(_)
            | ClientRequest::AddAlbumToQueue(_)
            | ClientRequest::AddPlayableToPlaylist(_, _)
            | ClientRequest::DeleteTrackFromPlaylist(_, _)
            | ClientRequest::ReorderPlaylistItems { .. }
            | ClientRequest::AddToLibrary(_)
            | ClientRequest::DeleteFromLibrary(_)
            | ClientRequest::Player(_)
            | ClientRequest::GetCurrentUserQueue
            | ClientRequest::CreatePlaylist { .. }
            | ClientRequest::RestartIntegratedClient => true,
        }
    }
}

/// The player request a global command sends, given the playback progress
/// in milliseconds, if known, and the seek step in seconds; none for
/// commands that do not drive the player directly, or for a seek without a
/// known progress.
pub open spec fn player_request_of(command: Command, progress_ms: Option<i64>, seek_secs: u16) -> Option<PlayerRequestKind> {
    match command {
        Command::NextTrack => Some(PlayerRequestKind::NextTrack),
        Command::PreviousTrack => Some(PlayerRequestKind::PreviousTrack),
        Command::ResumePause => Some(PlayerRequestKind::ResumePause),
        Command::Repeat => Some(PlayerRequestKind::Repeat),
        Command::Shuffle => Some(PlayerRequestKind::Shuffle),
        Command::Mute => Some(PlayerRequestKind::ToggleMute),
        Command::SeekForward => match progress_ms {
            Some(p) => Some(PlayerRequestKind::SeekTrack(p + seek_secs * 1000)),
            None => None,
        },
        Command::SeekBackward => match progress_ms {
            Some(p) => Some(
                PlayerRequestKind::SeekTrack(
                    if p - seek_secs * 1000 > 0 {
                        p - seek_secs * 1000
                    } else {
                        0
                    },
                ),
            ),
            None => None,
        },
        _ => None,
    }
}

/// The kind of a player request, with the seek position as an integer.
pub enum PlayerRequestKind {
    NextTrack,
    PreviousTrack,
    ResumePause,
    Repeat,
    Shuffle,
    ToggleMute,
    SeekTrack(int),
}

/// The kind of a player request built without a playback or a transfer.
pub open spec fn kind_of(r: PlayerRequest) -> Option<PlayerRequestKind> {
    match r {
        PlayerRequest::NextTrack => Some(PlayerRequestKind::NextTrack),
        PlayerRequest::PreviousTrack => Some(PlayerRequestKind::PreviousTrack),
        PlayerRequest::ResumePause => Some(PlayerRequestKind::ResumePause),
        PlayerRequest::Repeat => Some(PlayerRequestKind::Repeat),
        PlayerRequest::Shuffle => Some(PlayerRequestKind::Shuffle),
        PlayerRequest::ToggleMute => Some(PlayerRequestKind::ToggleMute),
        PlayerRequest::SeekTrack(ms) => Some(PlayerRequestKind::SeekTrack(ms as int)),
        _ => None,
    }
}

/// The player request that the global command `command` sends.
pub fn player_request_for(command: Command, progress_ms: Option<i64>, seek_secs: u16) -> (r: Option<PlayerRequest>)
    requires
        command == Command::SeekForward ==> (progress_ms matches Some(p) ==> p + seek_secs * 1000 <= i64::MAX),
        command == Command::SeekBackward ==> (progress_ms matches Some(p) ==> p - seek_secs * 1000 >= i64::MIN),
    ensures
        match player_request_of(command, progress_ms, seek_secs) {
            Some(k) => r matches Some(req) && kind_of(req) == Some(k),
            None => r is None,
        },
{
    match command {
        Command::NextTrack => Some(PlayerRequest::NextTrack),
        Command::PreviousTrack => Some(PlayerRequest::PreviousTrack),
        Command::ResumePause => Some(PlayerRequest::ResumePause),
        Command::Repeat => Some(PlayerRequest::Repeat),
        Command::Shuffle => Some(PlayerRequest::Shuffle),
        Command::Mute => Some(PlayerRequest::ToggleMute),
        Command::SeekForward => match progress_ms {
            Some(p) => Some(PlayerRequest::SeekTrack(p + (seek_secs as i64) * 1000)),
            None => None,
        },
        Command::SeekBackward => match progress_ms {
            Some(p) => {
                let target = p - (seek_secs as i64) * 1000;
                Some(PlayerRequest::SeekTrack(if target > 0 { target } else { 0 }))
            },
            None => None,
        },
        _ => None,
    }
}

/// The cache a request's data goes to.
#[derive(Debug, Clone, Copy, PartialEq, Eq, Structural)]
pub enum CacheKind {
    Context,
    Search,
    Lyrics,
}

/// The cache and key under which the data a request fetches is kept: a
/// track's lyrics under its URI, radio tracks under `radio:` and the seed's
/// URI, the user's top and recently played tracks under their lists' URIs,
/// a context under its URI, search results under the query. Other requests
/// are not cached.
pub open spec fn cache_key_of(r: ClientRequest) -> Option<(CacheKind, Seq<char>)> {
    match r {
        ClientRequest::GetLyrics { track_id } => Some((CacheKind::Lyrics, spotify_uri("track"@, track_id@))),
        ClientRequest::GetRadioTracks { seed_uri, .. } => Some((CacheKind::Context, "radio:"@ + seed_uri@)),
        ClientRequest::GetUserTopTracks => Some((CacheKind::Context, user_tracks_id(UserTracks::Top).uri)),
        ClientRequest::GetUserRecentlyPlayedTracks => Some(
            (CacheKind::Context, user_tracks_id(UserTracks::RecentlyPlayed).uri),
        ),
        ClientRequest::GetContext(c) => Some((CacheKind::Context, context_uri(c@))),
        ClientRequest::Search(q) => Some((CacheKind::Search, q@)),
        _ => None,
    }
}

/// The cache and key under which the data `r` fetches is kept (see
/// `cache_key_of`).
pub fn cache_key(r: &ClientRequest) -> (k: Option<(CacheKind, String)>)
    ensures
        match cache_key_of(*r) {
            Some((kind, key)) => k matches Some((c, t)) && c == kind && t@ == key,
            None => k is None,
        },
{
    match r {
        ClientRequest::GetLyrics { track_id } => Some((CacheKind::Lyrics, build_uri("track", track_id))),
        ClientRequest::GetRadioTracks { seed_uri, .. } => {
            let mut key = String::from_str("radio:");
            key.append(seed_uri.as_str());
            Some((CacheKind::Context, key))
        },
        ClientRequest::GetUserTopTracks => Some((CacheKind::Context, user_tracks(UserTracks::Top).uri)),
        ClientRequest::GetUserRecentlyPlayedTracks => Some(
            (CacheKind::Context, user_tracks(UserTracks::RecentlyPlayed).uri),
        ),
        ClientRequest::GetContext(c) => Some((CacheKind::Context, c.uri())),
        ClientRequest::Search(q) => Some((CacheKind::Search, q.clone())),
        _ => None,
    }
}

/// What the client does with a request, given whether the data it fetches
/// is cached already.
#[derive(Debug, Clone, Copy, PartialEq, Eq, Structural)]
pub enum RequestStep {
    /// The request is carried out.
    Carry,
    /// The cached data stands; nothing is fetched.
    SkipCached,
}

/// What the client does with `r` when its data is cached (`cached`) or
/// not: cached data stands; the data of a list of tracks cannot be asked
/// for as a context (an error with this message); else the request is
/// carried out.
pub fn request_step(r: &ClientRequest, cached: bool) -> (step: Result<RequestStep, String>)
    ensures
        cache_key_of(*r) is Some && cached ==> step == Ok::<RequestStep, String>(RequestStep::SkipCached),
        !(cache_key_of(*r) is Some && cached) && (r matches ClientRequest::GetContext(ContextId::Tracks(_)))
            ==> (step matches Err(m) && m@ == "`GetContext` request for `tracks` context is not supported!"@),
        !(cache_key_of(*r) is Some && cached) && !(r matches ClientRequest::GetContext(ContextId::Tracks(_)))
            ==> step == Ok::<RequestStep, String>(RequestStep::Carry),
{
    let cacheable = match r {
        ClientRequest::GetLyrics { .. }
        | ClientRequest::GetRadioTracks { .. }
        | ClientRequest::GetUserTopTracks
        | ClientRequest::GetUserRecentlyPlayedTracks
        | ClientRequest::GetContext(_)
        | ClientRequest::Search(_) => true,
        _ => false,
    };
    if cacheable && cached {
        return Ok(RequestStep::SkipCached);
    }
    match r {
        ClientRequest::GetContext(ContextId::Tracks(_)) => Err(
            String::from_str("`GetContext` request for `tracks` context is not supported!"),
        ),
        _ => Ok(RequestStep::Carry),
    }
}

} // verus!
