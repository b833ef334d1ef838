//! Commands on a list of tracks, artists, albums or playlists: moving the
//! selection, playing or browsing the selected item, showing its actions,
//! or queueing it.

use vstd::prelude::*;

use crate::client_request::{ClientRequest, PlayerRequest};
use crate::command::{
    construct_album_actions, construct_artist_actions, construct_playlist_actions,
    construct_track_actions, track_actions, Action, Command,
};
use crate::model::{ContextId, ContextIdView, Playback, PlaybackView};
use crate::navigation::{handle_navigation_command, navigation};

verus! {

/// What a list shows.
#[derive(Debug, Clone, Copy, PartialEq, Eq, Structural)]
pub enum ListItemKind {
    Track,
    Artist,
    Album,
    Playlist,
}

/// What a command on a list comes to.
#[derive(Debug)]
pub enum ListWindowEffect {
    /// The command is not one for the list.
    NotHandled,
    /// The selection moves to this item, or stays.
    Select(Option<usize>),
    /// A new page browses this context.
    Browse(ContextId),
    /// The actions to offer on the item at this position.
    ShowActions { item: usize, actions: Vec<Action> },
    /// This request goes to the client.
    Request(ClientRequest),
}

/// The actions offered on an item of a list of `kind`; `saved` says whether
/// the user likes, follows or saved it.
pub open spec fn list_item_actions(kind: ListItemKind, saved: bool) -> Seq<Action> {
    match kind {
        ListItemKind::Track => track_actions(saved),
        ListItemKind::Artist => seq![
            Action::GoToRadio,
            Action::CopyLink,
            if saved { Action::Unfollow } else { Action::Follow },
        ],
        ListItemKind::Album => seq![
            Action::GoToArtist,
            Action::GoToRadio,
            Action::ShowActionsOnArtist,
            Action::CopyLink,
            Action::AddToQueue,
            if saved { Action::DeleteFromLibrary } else { Action::AddToLibrary },
        ],
        ListItemKind::Playlist => seq![
            Action::GoToRadio,
            Action::CopyLink,
            if saved { Action::DeleteFromLibrary } else { Action::AddToLibrary },
        ],
    }
}

/// The context that browsing the item `id` of a list of `kind` opens;
/// tracks open none.
pub open spec fn browsed_context(kind: ListItemKind, id: Seq<char>) -> Option<ContextIdView> {
    match kind {
        ListItemKind::Track => None,
        ListItemKind::Artist => Some(ContextIdView::Artist(id)),
        ListItemKind::Album => Some(ContextIdView::Album(id)),
        ListItemKind::Playlist => Some(ContextIdView::Playlist(id)),
    }
}

/// What `command` comes to on a list of `kind` whose items are `ids` (URIs
/// for tracks), with item `selected` selected and pages of `page_size`
/// rows: nothing when the selection is past the list; a move of the
/// selection; for `ChooseSelected`, playback of the selected track alone,
/// or a new page browsing the selected artist, album or playlist; the
/// selected item's actions; or, for a track or an album, queueing it.
pub open spec fn list_window_outcome(
    kind: ListItemKind,
    command: Command,
    ids: Seq<Seq<char>>,
    selected: usize,
    saved: bool,
    page_size: usize,
    r: ListWindowEffect,
) -> bool {
    if selected >= ids.len() {
        r is NotHandled
    } else if navigation(command, selected as nat, ids.len(), page_size as nat) is Some {
        r matches ListWindowEffect::Select(s) && match navigation(
            command,
            selected as nat,
            ids.len(),
            page_size as nat,
        ) {
            Some(Some(t)) => s == Some(t as usize),
            _ => s is None,
        }
    } else if command == Command::ChooseSelected {
        match browsed_context(kind, ids[selected as int]) {
            Some(c) => r matches ListWindowEffect::Browse(b) && b@ == c,
            None => r matches ListWindowEffect::Request(
                ClientRequest::Player(PlayerRequest::StartPlayback(p, None)),
            ) && p@ == PlaybackView::URIs(seq![ids[selected as int]], None),
        }
    } else if command == Command::ShowActionsOnSelectedItem {
        r matches ListWindowEffect::ShowActions { item, actions } && item == selected && actions@
            == list_item_actions(kind, saved)
    } else if command == Command::AddSelectedItemToQueue && kind == ListItemKind::Track {
        r matches ListWindowEffect::Request(ClientRequest::AddPlayableToQueue(u)) && u@ == ids[selected as int]
    } else if command == Command::AddSelectedItemToQueue && kind == ListItemKind::Album {
        r matches ListWindowEffect::Request(ClientRequest::AddAlbumToQueue(u)) && u@ == ids[selected as int]
    } else {
        r is NotHandled
    }
}

/// What `command` comes to on a list (see `list_window_outcome`); `saved`
/// tells whether the user likes, follows or saved the selected item.
pub fn handle_command_for_list_window(
    kind: ListItemKind,
    command: Command,
    ids: &Vec<String>,
    selected: usize,
    saved: bool,
    page_size: usize,
) -> (r: ListWindowEffect)
    requires
        ids@.len() + page_size <= usize::MAX,
    ensures
        list_window_outcome(kind, command, ids@.map_values(|s: String| s@), selected, saved, page_size, r),
{
    let ghost texts = ids@.map_values(|s: String| s@);
    let len = ids.len();
    if selected >= len {
        return ListWindowEffect::NotHandled;
    }
    let (navigated, target) = handle_navigation_command(command, selected, len, page_size);
    if navigated {
        return ListWindowEffect::Select(target);
    }
    assert(texts[selected as int] == ids@[selected as int]@);
    if command == Command::ChooseSelected {
        let id = ids[selected].clone();
        return match kind {
            ListItemKind::Track => {
                let uris = vec![id];
                assert(uris@.map_values(|s: String| s@) =~= seq![texts[selected as int]]);
                ListWindowEffect::Request(
                    ClientRequest::Player(PlayerRequest::StartPlayback(Playback::URIs(uris, None), None)),
                )
            },
            ListItemKind::Artist => ListWindowEffect::Browse(ContextId::Artist(id)),
            ListItemKind::Album => ListWindowEffect::Browse(ContextId::Album(id)),
            ListItemKind::Playlist => ListWindowEffect::Browse(ContextId::Playlist(id)),
        };
    }
    if command == Command::ShowActionsOnSelectedItem {
        let actions = match kind {
            ListItemKind::Track => construct_track_actions(saved),
            ListItemKind::Artist => construct_artist_actions(saved),
            ListItemKind::Album => construct_album_actions(saved),
            ListItemKind::Playlist => construct_playlist_actions(saved),
        };
        return ListWindowEffect::ShowActions { item: selected, actions };
    }
    if command == Command::AddSelectedItemToQueue {
        match kind {
            ListItemKind::Track => {
                return ListWindowEffect::Request(ClientRequest::AddPlayableToQueue(ids[selected].clone()));
            },
            ListItemKind::Album => {
                return ListWindowEffect::Request(ClientRequest::AddAlbumToQueue(ids[selected].clone()));
            },
            _ => {},
        }
    }
    ListWindowEffect::NotHandled
}

/// What `command` comes to on a list of tracks, given by their URIs (see
/// `list_window_outcome`); `liked` tells whether the user has the selected
/// one in the library.
pub fn handle_command_for_track_list_window(
    command: Command,
    ids: &Vec<String>,
    selected: usize,
    liked: bool,
    page_size: usize,
) -> (r: ListWindowEffect)
    requires
        ids@.len() + page_size <= usize::MAX,
    ensures
        list_window_outcome(
            ListItemKind::Track,
            command,
            ids@.map_values(|s: String| s@),
            selected,
            liked,
            page_size,
            r,
        ),
{
    handle_command_for_list_window(ListItemKind::Track, command, ids, selected, liked, page_size)
}

/// What `command` comes to on a list of artists, given by their ids (see
/// `list_window_outcome`); `followed` tells whether the user has the selected
/// one in the library.
pub fn handle_command_for_artist_list_window(
    command: Command,
    ids: &Vec<String>,
    selected: usize,
    followed: bool,
    page_size: usize,
) -> (r: ListWindowEffect)
    requires
        ids@.len() + page_size <= usize::MAX,
    ensures
        list_window_outcome(
            ListItemKind::Artist,
            command,
            ids@.map_values(|s: String| s@),
            selected,
            followed,
            page_size,
            r,
        ),
{
    handle_command_for_list_window(ListItemKind::Artist, command, ids, selected, followed, page_size)
}

/// What `command` comes to on a list of albums, given by their ids (see
/// `list_window_outcome`); `saved` tells whether the user has the selected
/// one in the library.
pub fn handle_command_for_album_list_window(
    command: Command,
    ids: &Vec<String>,
    selected: usize,
    saved: bool,
    page_size: usize,
) -> (r: ListWindowEffect)
    requires
        ids@.len() + page_size <= usize::MAX,
    ensures
        list_window_outcome(
            ListItemKind::Album,
            command,
            ids@.map_values(|s: String| s@),
            selected,
            saved,
            page_size,
            r,
        ),
{
    handle_command_for_list_window(ListItemKind::Album, command, ids, selected, saved, page_size)
}

/// What `command` comes to on a list of playlists, given by their ids (see
/// `list_window_outcome`); `saved` tells whether the user has the selected
/// one in the library.
pub fn handle_command_for_playlist_list_window(
    command: Command,
    ids: &Vec<String>,
    selected: usize,
    saved: bool,
    page_size: usize,
) -> (r: ListWindowEffect)
    requires
        ids@.len() + page_size <= usize::MAX,
    ensures
        list_window_outcome(
            ListItemKind::Playlist,
            command,
            ids@.map_values(|s: String| s@),
            selected,
            saved,
            page_size,
            r,
        ),
{
    handle_command_for_list_window(ListItemKind::Playlist, command, ids, selected, saved, page_size)
}

} // verus!
