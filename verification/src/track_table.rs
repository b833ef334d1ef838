//! Commands on a table of tracks: editing a playlist the user may modify,
//! moving the selection, playing the selected (or a random) track, showing
//! the selected track's actions, or queueing it.

use vstd::prelude::*;

use rand::Rng;

use crate::client_request::{ClientRequest, PlayerRequest};
use crate::command::{construct_track_actions, track_actions, Action, Command};
use crate::model::{position_or_first, started_at, ContextId, Playback, PlaybackView};
use crate::navigation::{handle_navigation_command, navigation};
use crate::playlist_edit::{handle_playlist_modify_command, playlist_edit_for, PlaylistEdit};

verus! {

/// What a command on a track table comes to.
#[derive(Debug)]
pub enum TrackTableEffect {
    /// The command is not one for the table.
    NotHandled,
    /// A playlist edit (see `playlist_edit_for`).
    Edit(PlaylistEdit),
    /// The selection moves to this row, or stays.
    Select(Option<usize>),
    /// This request goes to the client.
    Request(ClientRequest),
    /// The actions to offer on the track at this position.
    ShowActions { track: usize, actions: Vec<Action> },
}

/// The texts of `uris`.
pub open spec fn uri_texts(uris: Seq<String>) -> Seq<Seq<char>> {
    uris.map_values(|u: String| u@)
}

/// What playing a track of the table starts from: the table's context, or
/// else the list of its tracks.
pub open spec fn base_playback(context_id: Option<ContextId>, uris: Seq<Seq<char>>) -> PlaybackView {
    match context_id {
        Some(c) => PlaybackView::Context(c@, None),
        None => PlaybackView::URIs(uris, None),
    }
}

/// Whether a command goes to the playlist editor: the table shows a
/// playlist the user may modify and the command moves an item or shows its
/// actions.
pub open spec fn edits_playlist(context_id: Option<ContextId>, modifiable: bool, command: Command) -> bool {
    &&& context_id matches Some(ContextId::Playlist(_))
    &&& modifiable
    &&& (command == Command::MovePlaylistItemUp || command == Command::MovePlaylistItemDown
        || command == Command::ShowActionsOnSelectedItem)
}

/// The id of the playlist a table shows.
pub open spec fn playlist_of(context_id: Option<ContextId>) -> Seq<char> {
    match context_id {
        Some(ContextId::Playlist(p)) => p@,
        _ => Seq::empty(),
    }
}

/// What `command` comes to on a table of tracks with URIs `uris`, of which
/// the rows `filtered` are shown, with row `selected` selected: nothing
/// when the selection is past the rows; a playlist edit; a move of the
/// selection; playback of the selected track (or of the track at
/// `random_pick` for a random pick) from the table's context or its list of
/// tracks, cut to `limit` tracks; the selected track's actions; or queueing
/// it.
pub open spec fn track_table_outcome(
    command: Command,
    context_id: Option<ContextId>,
    uris: Seq<Seq<char>>,
    filtered: Seq<usize>,
    selected: usize,
    modifiable: bool,
    is_liked: bool,
    random_pick: usize,
    limit: usize,
    page_size: usize,
    r: TrackTableEffect,
) -> bool {
    if selected >= filtered.len() {
        r is NotHandled
    } else if edits_playlist(context_id, modifiable, command) {
        r matches TrackTableEffect::Edit(e) && playlist_edit_for(
            selected,
            playlist_of(context_id),
            command,
            filtered.len() as usize,
            is_liked,
            e,
        )
    } else if navigation(command, selected as nat, filtered.len(), page_size as nat) is Some {
        r matches TrackTableEffect::Select(s) && match navigation(
            command,
            selected as nat,
            filtered.len(),
            page_size as nat,
        ) {
            Some(Some(t)) => s == Some(t as usize),
            _ => s is None,
        }
    } else if command == Command::PlayRandom || command == Command::ChooseSelected {
        let uri = if command == Command::PlayRandom {
            uris[random_pick as int]
        } else {
            uris[filtered[selected as int] as int]
        };
        r matches TrackTableEffect::Request(ClientRequest::Player(PlayerRequest::StartPlayback(p, None)))
            && p@ == started_at(base_playback(context_id, uris), uri, limit as nat)
    } else if command == Command::ShowActionsOnSelectedItem {
        r matches TrackTableEffect::ShowActions { track, actions } && track == selected && actions@
            == track_actions(is_liked)
    } else if command == Command::AddSelectedItemToQueue {
        r matches TrackTableEffect::Request(ClientRequest::AddPlayableToQueue(u)) && u@
            == uris[filtered[selected as int] as int]
    } else {
        r is NotHandled
    }
}

/// Where a search of `uri` in `uris` lands: before the end.
proof fn lemma_position_in_range(uris: Seq<Seq<char>>, uri: Seq<char>)
    ensures
        uris.len() > 0 ==> position_or_first(uris, uri) < uris.len(),
    decreases uris.len(),
{
    if uris.len() > 1 && uris[0] != uri && exists|i: int| 1 <= i < uris.len() && uris[i] == uri {
        lemma_position_in_range(uris.drop_first(), uri);
    }
}

/// What `command` comes to on a table of tracks (see `track_table_outcome`),
/// with the track drawn for a random pick given as `random_pick`.
pub fn track_table_effect(
    command: Command,
    context_id: &Option<ContextId>,
    track_uris: &Vec<String>,
    filtered: &Vec<usize>,
    selected: usize,
    modifiable: bool,
    is_liked: bool,
    random_pick: usize,
    limit: usize,
    page_size: usize,
) -> (r: TrackTableEffect)
    requires
        forall|k: int| 0 <= k < filtered@.len() ==> (#[trigger] filtered@[k]) < track_uris@.len(),
        command == Command::PlayRandom ==> random_pick < track_uris@.len(),
        track_uris@.len() + limit <= usize::MAX,
        filtered@.len() + page_size <= usize::MAX,
    ensures
        track_table_outcome(
            command,
            *context_id,
            uri_texts(track_uris@),
            filtered@,
            selected,
            modifiable,
            is_liked,
            random_pick,
            limit,
            page_size,
            r,
        ),
{
    let len = filtered.len();
    if selected >= len {
        return TrackTableEffect::NotHandled;
    }
    let edits = match context_id {
        Some(ContextId::Playlist(_)) => modifiable && (command == Command::MovePlaylistItemUp
            || command == Command::MovePlaylistItemDown || command
            == Command::ShowActionsOnSelectedItem),
        _ => false,
    };
    if edits {
        match context_id {
            Some(ContextId::Playlist(playlist_id)) => {
                let e = handle_playlist_modify_command(selected, playlist_id, command, len, is_liked);
                return TrackTableEffect::Edit(e);
            },
            _ => {
                return TrackTableEffect::NotHandled;
            },
        }
    }
    let (navigated, target) = handle_navigation_command(command, selected, len, page_size);
    if navigated {
        return TrackTableEffect::Select(target);
    }
    if command == Command::PlayRandom || command == Command::ChooseSelected {
        let pick = if command == Command::PlayRandom {
            random_pick
        } else {
            filtered[selected]
        };
        let uri = track_uris[pick].clone();
        let base = match context_id {
            Some(c) => Playback::Context(c.duplicate(), None),
            None => {
                let mut all: Vec<String> = Vec::new();
                let mut i: usize = 0;
                while i < track_uris.len()
                    invariant
                        i <= track_uris@.len(),
                        uri_texts(all@) == uri_texts(track_uris@).take(i as int),
                    decreases track_uris@.len() - i,
                {
                    let ghost before = all@;
                    let u = track_uris[i].clone();
                    all.push(u);
                    assert(all@ == before.push(track_uris@[i as int]));
                    assert(uri_texts(all@) =~= uri_texts(before).push(track_uris@[i as int]@));
                    assert(uri_texts(track_uris@).take(i + 1) =~= uri_texts(track_uris@).take(
                        i as int,
                    ).push(track_uris@[i as int]@));
                    i = i + 1;
                }
                assert(uri_texts(track_uris@).take(i as int) =~= uri_texts(track_uris@));
                Playback::URIs(all, None)
            },
        };
        proof {
            lemma_position_in_range(uri_texts(track_uris@), uri@);
            assert(base@ == base_playback(*context_id, uri_texts(track_uris@)));
        }
        let p = base.uri_offset(uri, limit);
        return TrackTableEffect::Request(ClientRequest::Player(PlayerRequest::StartPlayback(p, None)));
    }
    if command == Command::ShowActionsOnSelectedItem {
        return TrackTableEffect::ShowActions {
            track: selected,
            actions: construct_track_actions(is_liked),
        };
    }
    if command == Command::AddSelectedItemToQueue {
        return TrackTableEffect::Request(
            ClientRequest::AddPlayableToQueue(track_uris[filtered[selected]].clone()),
        );
    }
    TrackTableEffect::NotHandled
}

/// Calls `rand::Rng::random_range` with the generator of `rand::rng()` on
/// `0..n`. The crate draws from the range it is given, so the result is below
/// `n`; which value comes depends on chance and is not stated.
#[verifier::external_body]
fn random_below(n: usize) -> (r: usize)
    requires
        n > 0,
    ensures
        r < n,
{
    rand::rng().random_range(0..n)
}

/// What `command` comes to on a table of tracks (see
/// `track_table_outcome`); a random pick draws one of all the tracks.
pub fn handle_command_for_track_table_window(
    command: Command,
    context_id: &Option<ContextId>,
    track_uris: &Vec<String>,
    filtered: &Vec<usize>,
    selected: usize,
    modifiable: bool,
    is_liked: bool,
    limit: usize,
    page_size: usize,
) -> (r: TrackTableEffect)
    requires
        forall|k: int| 0 <= k < filtered@.len() ==> (#[trigger] filtered@[k]) < track_uris@.len(),
        track_uris@.len() + limit <= usize::MAX,
        filtered@.len() + page_size <= usize::MAX,
    ensures
        exists|pick: usize|
            (command == Command::PlayRandom && selected < filtered@.len() ==> pick < track_uris@.len())
                && #[trigger] track_table_outcome(
                command,
                *context_id,
                uri_texts(track_uris@),
                filtered@,
                selected,
                modifiable,
                is_liked,
                pick,
                limit,
                page_size,
                r,
            ),
{
    let pick = if command == Command::PlayRandom && selected < filtered.len() {
        assert(filtered@[selected as int] < track_uris@.len());
        random_below(track_uris.len())
    } else {
        0
    };
    let r = if command == Command::PlayRandom && selected >= filtered.len() {
        TrackTableEffect::NotHandled
    } else {
        track_table_effect(
            command,
            context_id,
            track_uris,
            filtered,
            selected,
            modifiable,
            is_liked,
            pick,
            limit,
            page_size,
        )
    };
    assert(track_table_outcome(
        command,
        *context_id,
        uri_texts(track_uris@),
        filtered@,
        selected,
        modifiable,
        is_liked,
        pick,
        limit,
        page_size,
        r,
    ));
    r
}

} // verus!
