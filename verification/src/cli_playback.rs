//! The player requests that playback commands from the command line come
//! to, once the items they name are looked up.

use vstd::prelude::*;

use rand::seq::SliceRandom;

use crate::cli::{Command, ItemType};
use crate::client_request::PlayerRequest;
use crate::model::{ContextId, ItemId, Playback};

verus! {

/// Why a playback command from the command line cannot be served.
#[derive(Debug, Clone, Copy, PartialEq, Eq, Structural)]
pub enum PlaybackCommandError {
    /// No playback is active.
    NoPlayback,
    /// The playback reports no progress.
    NoProgress,
}

/// The player request of a command that needs nothing looked up, if the
/// command is one of those.
pub open spec fn simple_request(command: Command) -> Option<PlayerRequest> {
    match command {
        Command::PlayPause => Some(PlayerRequest::ResumePause),
        Command::Play => Some(PlayerRequest::Resume),
        Command::Pause => Some(PlayerRequest::Pause),
        Command::Next => Some(PlayerRequest::NextTrack),
        Command::Previous => Some(PlayerRequest::PreviousTrack),
        Command::Shuffle => Some(PlayerRequest::Shuffle),
        Command::Repeat => Some(PlayerRequest::Repeat),
        _ => None,
    }
}

/// The player request of `command` when it needs nothing looked up.
pub fn simple_player_request(command: &Command) -> (r: Option<PlayerRequest>)
    ensures
        r == simple_request(*command),
{
    match command {
        Command::PlayPause => Some(PlayerRequest::ResumePause),
        Command::Play => Some(PlayerRequest::Resume),
        Command::Pause => Some(PlayerRequest::Pause),
        Command::Next => Some(PlayerRequest::NextTrack),
        Command::Previous => Some(PlayerRequest::PreviousTrack),
        Command::Shuffle => Some(PlayerRequest::Shuffle),
        Command::Repeat => Some(PlayerRequest::Repeat),
        _ => None,
    }
}

/// The request that moves the playback by `offset_ms` from its progress,
/// given the progress of the playback, if one is active.
pub fn seek_player_request(progress_ms: Option<Option<i64>>, offset_ms: i64) -> (r: Result<
    PlayerRequest,
    PlaybackCommandError,
>)
    requires
        progress_ms matches Some(Some(p)) ==> i64::MIN <= p + offset_ms <= i64::MAX,
    ensures
        match progress_ms {
            None => r == Err::<PlayerRequest, PlaybackCommandError>(PlaybackCommandError::NoPlayback),
            Some(None) => r == Err::<PlayerRequest, PlaybackCommandError>(
                PlaybackCommandError::NoProgress,
            ),
            Some(Some(p)) => r matches Ok(PlayerRequest::SeekTrack(ms)) && ms == p + offset_ms,
        },
{
    match progress_ms {
        None => Err(PlaybackCommandError::NoPlayback),
        Some(None) => Err(PlaybackCommandError::NoProgress),
        Some(Some(p)) => Ok(PlayerRequest::SeekTrack(p + offset_ms)),
    }
}

/// The request that plays the context `sid` names, shuffled or not.
pub fn context_player_request(sid: ItemId, shuffle: bool) -> (r: PlayerRequest)
    requires
        !(sid is Track) && !(sid is Show),
    ensures
        r matches PlayerRequest::StartPlayback(Playback::Context(c, None), Some(s)) && s == shuffle
            && match sid {
            ItemId::Playlist(id) => c == ContextId::Playlist(id),
            ItemId::Album(id) => c == ContextId::Album(id),
            ItemId::Artist(id) => c == ContextId::Artist(id),
            _ => false,
        },
{
    let context_id = match sid {
        ItemId::Playlist(id) => ContextId::Playlist(id),
        ItemId::Album(id) => ContextId::Album(id),
        ItemId::Artist(id) => ContextId::Artist(id),
        ItemId::Track(_) | ItemId::Show(_) => vstd::pervasive::unreached(),
    };
    PlayerRequest::StartPlayback(Playback::Context(context_id, None), Some(shuffle))
}

/// The request that plays the tracks `uris` of a radio station.
pub fn radio_player_request(uris: Vec<String>) -> (r: PlayerRequest)
    ensures
        r matches PlayerRequest::StartPlayback(Playback::URIs(u, None), None) && u == uris,
{
    PlayerRequest::StartPlayback(Playback::URIs(uris, None), None)
}

/// Calls `rand::seq::SliceRandom::shuffle` on `uris` with the generator of
/// `rand::rng()`. The crate shuffles in place by swapping elements, so the
/// result is a permutation of the input; which one depends on chance and is
/// not stated.
#[verifier::external_body]
fn shuffle_uris(uris: &mut Vec<String>)
    ensures
        final(uris)@.len() == old(uris)@.len(),
        final(uris)@.to_multiset() == old(uris)@.to_multiset(),
{
    let mut rng = rand::rng();
    uris.shuffle(&mut rng);
}

/// The request that plays at most `limit` of the liked tracks `uris`: the
/// first ones, or, when `random`, the first ones after a shuffle.
pub fn liked_tracks_player_request(uris: Vec<String>, limit: usize, random: bool) -> (r: PlayerRequest)
    ensures
        r matches PlayerRequest::StartPlayback(Playback::URIs(u, None), None) && exists|s: Seq<
            String,
        >|
            #[trigger] s.to_multiset() == uris@.to_multiset() && (!random ==> s == uris@) && u@ == s.take(
                if limit < uris@.len() {
                    limit as int
                } else {
                    uris@.len() as int
                },
            ),
{
    let ghost original = uris@;
    let mut ids = uris;
    if random {
        shuffle_uris(&mut ids);
    }
    let ghost shuffled = ids@;
    ids.truncate(limit);
    assert(ids@ =~= shuffled.take(
        if limit < original.len() {
            limit as int
        } else {
            original.len() as int
        },
    ));
    assert(shuffled.to_multiset() == original.to_multiset() && (!random ==> shuffled == original));
    PlayerRequest::StartPlayback(Playback::URIs(ids, None), None)
}

/// The name of an item type in messages.
pub open spec fn item_kind_name(typ: ItemType) -> Seq<char> {
    match typ {
        ItemType::Playlist => "playlist"@,
        ItemType::Album => "album"@,
        ItemType::Artist => "artist"@,
        ItemType::Track => "track"@,
    }
}

/// The message of a search by name that found nothing.
pub open spec fn not_found_message(typ: ItemType, name: Seq<char>) -> Seq<char> {
    "Cannot find "@ + item_kind_name(typ) + " with name='"@ + name + "'"@
}

/// The id of an item of type `typ` with this bare Spotify id.
pub open spec fn item_id_of(typ: ItemType, id: String) -> ItemId {
    match typ {
        ItemType::Playlist => ItemId::Playlist(id),
        ItemType::Album => ItemId::Album(id),
        ItemType::Artist => ItemId::Artist(id),
        ItemType::Track => ItemId::Track(id),
    }
}

/// The item a search for `name` among items of type `typ` stands for: the
/// first result, when there is one and it has an id; else an error that
/// names what was not found. `result_ids` are the ids of the results, in
/// order.
pub fn id_from_search(typ: ItemType, name: &str, result_ids: Vec<Option<String>>) -> (r: Result<
    ItemId,
    String,
>)
    ensures
        match r {
            Ok(id) => result_ids@.len() > 0 && (result_ids@[0] matches Some(first) && id
                == item_id_of(typ, first)),
            Err(msg) => !(result_ids@.len() > 0 && result_ids@[0] is Some) && msg@
                == not_found_message(typ, name@),
        },
{
    let mut ids = result_ids;
    if ids.len() > 0 {
        match ids.remove(0) {
            Some(id) => {
                return Ok(
                    match typ {
                        ItemType::Playlist => ItemId::Playlist(id),
                        ItemType::Album => ItemId::Album(id),
                        ItemType::Artist => ItemId::Artist(id),
                        ItemType::Track => ItemId::Track(id),
                    },
                );
            },
            None => {},
        }
    }
    let mut msg = String::from_str("Cannot find ");
    msg.append(
        match typ {
            ItemType::Playlist => "playlist",
            ItemType::Album => "album",
            ItemType::Artist => "artist",
            ItemType::Track => "track",
        },
    );
    msg.append(" with name='");
    msg.append(name);
    msg.append("'");
    Err(msg)
}

} // verus!
