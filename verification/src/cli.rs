//! The command-line interface's requests to a running player, and the
//! limit on their size.

use vstd::prelude::*;

use crate::command::{decimal_digits, push_decimal_digits};

verus! {

/// A piece of player data the command line can ask for.
#[derive(Debug, Clone, Copy, PartialEq, Eq, Structural)]
pub enum Key {
    Playback,
    Devices,
    UserPlaylists,
    UserLikedTracks,
    UserSavedAlbums,
    UserFollowedArtists,
    UserTopTracks,
    Queue,
}

/// A kind of playing context.
#[derive(Debug, Clone, Copy, PartialEq, Eq, Structural)]
pub enum ContextType {
    Playlist,
    Album,
    Artist,
}

/// A kind of Spotify item.
#[derive(Debug, Clone, Copy, PartialEq, Eq, Structural)]
pub enum ItemType {
    Playlist,
    Album,
    Artist,
    Track,
}

impl From<ContextType> for ItemType {
    fn from(value: ContextType) -> (r: Self) {
        match value {
            ContextType::Playlist => ItemType::Playlist,
            ContextType::Album => ItemType::Album,
            ContextType::Artist => ItemType::Artist,
        }
    }
}

impl vstd::std_specs::convert::FromSpecImpl<ContextType> for ItemType {
    open spec fn obeys_from_spec() -> bool {
        true
    }

    open spec fn from_spec(v: ContextType) -> ItemType {
        match v {
            ContextType::Playlist => ItemType::Playlist,
            ContextType::Album => ItemType::Album,
            ContextType::Artist => ItemType::Artist,
        }
    }
}

/// An item given by its Spotify id or by its name.
#[derive(Debug, Clone)]
pub enum IdOrName {
    Id(String),
    Name(String),
}

/// Adding to or deleting from a playlist.
#[derive(Debug, Clone, Copy, PartialEq, Eq, Structural)]
pub enum EditAction {
    Add,
    Delete,
}

/// A request for data.
#[derive(Debug, Clone)]
pub enum GetRequest {
    Key(Key),
    Item(ItemType, IdOrName),
}

/// A playlist command; playlists and tracks are given by their Spotify ids.
#[derive(Debug, Clone)]
pub enum PlaylistCommand {
    New { name: String, public: bool, collab: bool, description: String },
    Delete { id: String },
    List,
    Import { from: String, to: String, delete: bool },
    Fork { id: String },
    Sync { id: Option<String>, delete: bool },
    Edit { playlist_id: String, action: EditAction, track_id: String },
}

/// A playback command.
#[derive(Debug, Clone)]
pub enum Command {
    StartContext { context_type: ContextType, id_or_name: IdOrName, shuffle: bool },
    StartTrack(IdOrName),
    StartLikedTracks { limit: usize, random: bool },
    StartRadio(ItemType, IdOrName),
    PlayPause,
    Play,
    Pause,
    Next,
    Previous,
    Shuffle,
    Repeat,
    Volume { percent: i8, is_offset: bool },
    Seek(i64),
}

/// A request from the command line to the player.
#[derive(Debug, Clone)]
pub enum Request {
    Get(GetRequest),
    Playback(Command),
    Connect(IdOrName),
    Like { unlike: bool },
    Playlist(PlaylistCommand),
    Search { query: String },
}

/// The player's answer: its output, or an error message, as bytes.
#[derive(Debug, Clone)]
pub enum Response {
    Success(Vec<u8>),
    Failure(Vec<u8>),
}

/// The largest encoded request the player accepts, in bytes.
pub const MAX_REQUEST_SIZE: usize = 4096;

/// The message for an encoded request of `size` bytes that is too large.
pub open spec fn oversized_request_message(size: nat) -> Seq<char> {
    "CLI request is "@ + decimal_digits(size) + " bytes, but the maximum is "@ + decimal_digits(
        MAX_REQUEST_SIZE as nat,
    ) + " bytes; shorten the query or text fields"@
}

/// Accepts an encoded request of `size` bytes unless it is larger than
/// the limit.
pub fn check_request_size(size: usize) -> (r: Result<(), String>)
    ensures
        r is Ok <==> size <= MAX_REQUEST_SIZE,
        r matches Err(message) ==> message@ == oversized_request_message(size as nat),
{
    if size <= MAX_REQUEST_SIZE {
        return Ok(());
    }
    let mut message = String::from_str("CLI request is ");
    push_decimal_digits(&mut message, size as u64);
    message.append(" bytes, but the maximum is ");
    push_decimal_digits(&mut message, MAX_REQUEST_SIZE as u64);
    message.append(" bytes; shorten the query or text fields");
    Err(message)
}

} // verus!
