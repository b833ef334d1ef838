//! Moving an item of a playlist: the command that asks for it, the request
//! sent to the Web API, and the same move made on the tracks kept in memory.

use vstd::prelude::*;

use crate::client_request::ClientRequest;
use crate::command::{construct_track_actions, track_actions, Action, Command};

verus! {

/// `s` with its item at `from` taken out and put back at `to`.
pub open spec fn moved<T>(s: Seq<T>, from: int, to: int) -> Seq<T> {
    s.remove(from).insert(to, s[from])
}

/// What the Web API makes of `s` when the item at `range_start` is moved
/// before the item at `insert_before` (positions in `s` as it was).
pub open spec fn reordered<T>(s: Seq<T>, range_start: int, insert_before: int) -> Seq<T> {
    if insert_before > range_start {
        s.subrange(0, range_start) + s.subrange(range_start + 1, insert_before) + seq![s[range_start]]
            + s.subrange(insert_before, s.len() as int)
    } else {
        s.subrange(0, insert_before) + seq![s[range_start]] + s.subrange(insert_before, range_start)
            + s.subrange(range_start + 1, s.len() as int)
    }
}

/// The `insert_before` position the Web API is given to move an item from
/// `range_start` to `insert_index`.
pub open spec fn insert_before_of(insert_index: int, range_start: int) -> int {
    if insert_index > range_start {
        insert_index + 1
    } else {
        insert_index
    }
}

/// The `insert_before` position the Web API is given to move an item from
/// `range_start` to `insert_index`: past the target where the item moves
/// down, since the API counts positions before the move.
pub fn insert_before(insert_index: usize, range_start: usize) -> (r: usize)
    requires
        insert_index < usize::MAX,
    ensures
        r == insert_before_of(insert_index as int, range_start as int),
{
    if insert_index > range_start {
        insert_index + 1
    } else {
        insert_index
    }
}

/// Moves the track at `range_start` to `insert_index`, as the Web API does
/// with the playlist.
pub fn move_track<T>(tracks: &mut Vec<T>, range_start: usize, insert_index: usize)
    requires
        range_start < old(tracks)@.len(),
        insert_index < old(tracks)@.len(),
    ensures
        final(tracks)@ == moved(old(tracks)@, range_start as int, insert_index as int),
{
    let track = tracks.remove(range_start);
    tracks.insert(insert_index, track);
}

/// Moving an item in memory gives what the Web API makes of the playlist
/// when told the matching `insert_before` position.
pub proof fn law_local_move_matches_web_api<T>(s: Seq<T>, range_start: int, insert_index: int)
    requires
        0 <= range_start < s.len(),
        0 <= insert_index < s.len(),
    ensures
        moved(s, range_start, insert_index) == reordered(
            s,
            range_start,
            insert_before_of(insert_index, range_start),
        ),
{
    let m = moved(s, range_start, insert_index);
    let r = reordered(s, range_start, insert_before_of(insert_index, range_start));
    assert(m.len() == r.len());
    assert forall|k: int| 0 <= k < m.len() implies m[k] == r[k] by {
        if insert_index > range_start {
            if k < range_start {
            } else if k < insert_index {
            } else if k == insert_index {
            } else {
            }
        } else {
            if k < insert_index {
            } else if k == insert_index {
            } else if k <= range_start {
            } else {
            }
        }
    }
    assert(m =~= r);
}

/// Moving an item back to where it came from undoes the move.
pub proof fn law_move_back_undoes_move<T>(s: Seq<T>, from: int, to: int)
    requires
        0 <= from < s.len(),
        0 <= to < s.len(),
    ensures
        moved(moved(s, from, to), to, from) == s,
{
    let m = moved(s, from, to);
    assert(m[to] == s[from]);
    assert(moved(m, to, from) =~= s);
}

/// What a command on a playlist's selected item comes to.
#[derive(Debug, Clone)]
pub enum PlaylistEdit {
    /// The command is not about playlist items.
    Ignored,
    /// The command was taken, with nothing to do.
    Nothing,
    /// The item moves: the request to send and the position to select.
    Reorder { request: ClientRequest, select: usize },
    /// The actions to offer on the selected track.
    ShowActions(Vec<Action>),
}

/// The request that moves the item at `range_start` of `playlist_id` to
/// `insert_index`.
pub open spec fn is_reorder_request(
    r: ClientRequest,
    playlist_id: Seq<char>,
    insert_index: int,
    range_start: int,
) -> bool {
    r matches ClientRequest::ReorderPlaylistItems {
        playlist_id: p,
        insert_index: i,
        range_start: s,
        range_length: None,
        snapshot_id: None,
    } && p@ == playlist_id && i == insert_index && s == range_start
}

/// What `command` on the item at `selected` of a playlist of `len` tracks,
/// whose selected track the user likes or not, comes to: the item moves one
/// place up or down where there is room; the track's actions are offered,
/// with deleting it from the playlist; other commands are not about
/// playlist items.
pub open spec fn playlist_edit_for(
    selected: usize,
    playlist_id: Seq<char>,
    command: Command,
    len: usize,
    is_liked: bool,
    r: PlaylistEdit,
) -> bool {
    &&& command == Command::MovePlaylistItemUp ==> if selected > 0 {
        r matches PlaylistEdit::Reorder { request, select } && select == selected - 1
            && is_reorder_request(request, playlist_id, selected - 1, selected as int)
    } else {
        r is Nothing
    }
    &&& command == Command::MovePlaylistItemDown ==> if selected + 1 < len {
        r matches PlaylistEdit::Reorder { request, select } && select == selected + 1
            && is_reorder_request(request, playlist_id, selected + 1, selected as int)
    } else {
        r is Nothing
    }
    &&& command == Command::ShowActionsOnSelectedItem ==> (r matches PlaylistEdit::ShowActions(a)
        && a@ == track_actions(is_liked).push(Action::DeleteFromPlaylist))
    &&& command != Command::MovePlaylistItemUp && command != Command::MovePlaylistItemDown
        && command != Command::ShowActionsOnSelectedItem ==> r is Ignored
}

/// Handles `command` on the item at `selected` of a playlist of `len`
/// tracks whose selected track the user likes or not (see
/// `playlist_edit_for`).
pub fn handle_playlist_modify_command(
    selected: usize,
    playlist_id: &String,
    command: Command,
    len: usize,
    is_liked: bool,
) -> (r: PlaylistEdit)
    ensures
        playlist_edit_for(selected, playlist_id@, command, len, is_liked, r),
{
    match command {
        Command::MovePlaylistItemUp => {
            if selected > 0 {
                PlaylistEdit::Reorder {
                    request: ClientRequest::ReorderPlaylistItems {
                        playlist_id: playlist_id.clone(),
                        insert_index: selected - 1,
                        range_start: selected,
                        range_length: None,
                        snapshot_id: None,
                    },
                    select: selected - 1,
                }
            } else {
                PlaylistEdit::Nothing
            }
        },
        Command::MovePlaylistItemDown => {
            if len > 0 && selected < len - 1 {
                PlaylistEdit::Reorder {
                    request: ClientRequest::ReorderPlaylistItems {
                        playlist_id: playlist_id.clone(),
                        insert_index: selected + 1,
                        range_start: selected,
                        range_length: None,
                        snapshot_id: None,
                    },
                    select: selected + 1,
                }
            } else {
                PlaylistEdit::Nothing
            }
        },
        Command::ShowActionsOnSelectedItem => {
            let mut actions = construct_track_actions(is_liked);
            actions.push(Action::DeleteFromPlaylist);
            PlaylistEdit::ShowActions(actions)
        },
        _ => PlaylistEdit::Ignored,
    }
}

} // verus!
