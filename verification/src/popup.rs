//! Key handling of popups: editing the search query, moving in and choosing
//! from a list popup, choosing an action by its number, and scrolling the
//! help and queue popups.

use vstd::prelude::*;

use crate::command::{Action, Command};
use crate::client_request::{ClientRequest, PlayerRequest};
use crate::global_command::{NewPage, NewPageView};
use crate::item_action::{
    action_outcome, handle_action_in_context, radio, radio_page, text_of, ActionContext, ActionOutcome,
    ActionUi,
};
use crate::model::{spotify_uri, ContextId, ContextIdView};
use crate::key::{Key, KeyCode, KeySequence};
use crate::library::UserData;
use crate::text::{chars_of, push_char};

verus! {

/// How the search query changes when `keys` are typed, if it does: a lone
/// character is added, a lone backspace removes the last character, if any.
pub open spec fn edited_query(query: Seq<char>, keys: Seq<Key>) -> Option<Seq<char>> {
    if keys.len() == 1 {
        match keys[0] {
            Key::NoModifier(KeyCode::Char(c)) => Some(query.push(c)),
            Key::NoModifier(KeyCode::Backspace) => Some(
                if query.len() > 0 {
                    query.drop_last()
                } else {
                    query
                },
            ),
            _ => None,
        }
    } else {
        None
    }
}

/// `s` without its last character.
fn without_last(s: &String) -> (r: String)
    requires
        s@.len() > 0,
    ensures
        r@ == s@.drop_last(),
{
    let chars = chars_of(s.as_str());
    let mut out = String::new();
    let last = chars.len() - 1;
    let mut i: usize = 0;
    while i < last
        invariant
            chars@ == s@,
            last == chars@.len() - 1,
            i <= last,
            out@ == chars@.take(i as int),
        decreases chars@.len() - i,
    {
        push_char(&mut out, chars[i]);
        i = i + 1;
        assert(out@ =~= chars@.take(i as int));
    }
    assert(chars@.take(i as int) =~= s@.drop_last());
    out
}

/// Applies the typed `keys` to the search query; whether they edited it.
pub fn edit_search_query(query: &mut String, keys: &KeySequence) -> (handled: bool)
    ensures
        match edited_query(old(query)@, keys@) {
            Some(q) => handled && final(query)@ == q,
            None => !handled && final(query)@ == old(query)@,
        },
{
    if keys.keys.len() != 1 {
        return false;
    }
    match keys.keys[0] {
        Key::NoModifier(KeyCode::Char(c)) => {
            push_char(query, c);
            true
        },
        Key::NoModifier(KeyCode::Backspace) => {
            if query.unicode_len() > 0 {
                *query = without_last(query);
            }
            true
        },
        _ => false,
    }
}

/// Typing a character and then a backspace leaves the search query as it
/// was.
pub proof fn law_backspace_undoes_typing(query: Seq<char>, c: char)
    ensures
        edited_query(query, seq![Key::NoModifier(KeyCode::Char(c))]) matches Some(q) && edited_query(
            q,
            seq![Key::NoModifier(KeyCode::Backspace)],
        ) == Some(query),
{
    assert(query.push(c).drop_last() =~= query);
}

/// The action chosen by typing its number: a first key that is a digit
/// below the number of actions.
pub open spec fn digit_choice(keys: Seq<Key>, n_actions: nat) -> Option<nat> {
    if keys.len() > 0 {
        match keys[0] {
            Key::NoModifier(KeyCode::Char(c)) => {
                let d = (c as u32) - 0x30;
                if 0x30 <= (c as u32) <= 0x39 && d < n_actions {
                    Some(d as nat)
                } else {
                    None
                }
            },
            _ => None,
        }
    } else {
        None
    }
}

/// The number of the action chosen by the typed `keys`, if they choose one.
pub fn digit_action_choice(keys: &KeySequence, n_actions: usize) -> (r: Option<usize>)
    ensures
        match digit_choice(keys@, n_actions as nat) {
            Some(d) => r == Some(d as usize),
            None => r is None,
        },
{
    if keys.keys.len() == 0 {
        return None;
    }
    match keys.keys[0] {
        Key::NoModifier(KeyCode::Char(c)) => {
            let v = c as u32;
            if 0x30 <= v && v <= 0x39 && ((v - 0x30) as usize) < n_actions {
                Some((v - 0x30) as usize)
            } else {
                None
            }
        },
        _ => None,
    }
}

/// What a command does in a list popup.
#[derive(Debug, Clone, Copy, PartialEq, Eq, Structural)]
pub enum ListPopupStep {
    /// The command is not one for the popup.
    NotHandled,
    /// The selection moves to this item.
    Moved(usize),
    /// The command is taken, and nothing changes.
    Stayed,
    /// The item at this position is chosen.
    Chosen(usize),
    /// The popup closes.
    Closed,
}

/// What `command` does in a list popup of `n_items` items with the item
/// `current` selected: the selection moves up or down within the list, the
/// selected item is chosen when there is one, or the popup closes.
pub open spec fn list_popup_step_of(command: Command, current: nat, n_items: nat) -> ListPopupStep {
    match command {
        Command::SelectPreviousOrScrollUp => if current > 0 {
            ListPopupStep::Moved((current - 1) as usize)
        } else {
            ListPopupStep::Stayed
        },
        Command::SelectNextOrScrollDown => if current + 1 < n_items {
            ListPopupStep::Moved((current + 1) as usize)
        } else {
            ListPopupStep::Stayed
        },
        Command::ChooseSelected => if current < n_items {
            ListPopupStep::Chosen(current as usize)
        } else {
            ListPopupStep::Stayed
        },
        Command::ClosePopup => ListPopupStep::Closed,
        _ => ListPopupStep::NotHandled,
    }
}

/// What `command` does in a list popup (see `list_popup_step_of`).
pub fn handle_command_for_list_popup(command: Command, current: usize, n_items: usize) -> (r: ListPopupStep)
    ensures
        r == list_popup_step_of(command, current as nat, n_items as nat),
{
    match command {
        Command::SelectPreviousOrScrollUp => if current > 0 {
            ListPopupStep::Moved(current - 1)
        } else {
            ListPopupStep::Stayed
        },
        Command::SelectNextOrScrollDown => if current < n_items && current + 1 < n_items {
            ListPopupStep::Moved(current + 1)
        } else {
            ListPopupStep::Stayed
        },
        Command::ChooseSelected => if current < n_items {
            ListPopupStep::Chosen(current)
        } else {
            ListPopupStep::Stayed
        },
        Command::ClosePopup => ListPopupStep::Closed,
        _ => ListPopupStep::NotHandled,
    }
}

/// What a command does in a scrolled popup.
#[derive(Debug, Clone, Copy, PartialEq, Eq, Structural)]
pub enum ScrollStep {
    NotHandled,
    /// The popup scrolls to this offset.
    Scrolled(usize),
    Closed,
}

/// What `command` does in the command help popup scrolled to `offset`,
/// with pages of `page_size` rows: a row or a page down or up (not above
/// the top), to the top, or to a far offset that the drawing brings back to
/// the last row; or the popup closes.
pub open spec fn help_scroll_of(command: Command, offset: nat, page_size: nat) -> ScrollStep {
    match command {
        Command::ClosePopup => ScrollStep::Closed,
        Command::SelectNextOrScrollDown => ScrollStep::Scrolled((offset + 1) as usize),
        Command::SelectPreviousOrScrollUp => ScrollStep::Scrolled(
            if offset > 0 {
                (offset - 1) as usize
            } else {
                offset as usize
            },
        ),
        Command::PageSelectNextOrScrollDown => ScrollStep::Scrolled((offset + page_size) as usize),
        Command::PageSelectPreviousOrScrollUp => ScrollStep::Scrolled(
            if offset >= page_size {
                (offset - page_size) as usize
            } else {
                0
            },
        ),
        Command::SelectFirstOrScrollToTop => ScrollStep::Scrolled(0),
        Command::SelectLastOrScrollToBottom => ScrollStep::Scrolled(1024),
        _ => ScrollStep::NotHandled,
    }
}

/// What `command` does in the command help popup (see `help_scroll_of`).
pub fn handle_command_for_command_help_popup(command: Command, offset: usize, page_size: usize) -> (r: ScrollStep)
    requires
        command == Command::SelectNextOrScrollDown ==> offset < usize::MAX,
        command == Command::PageSelectNextOrScrollDown ==> offset + page_size <= usize::MAX,
    ensures
        r == help_scroll_of(command, offset as nat, page_size as nat),
{
    match command {
        Command::ClosePopup => ScrollStep::Closed,
        Command::SelectNextOrScrollDown => ScrollStep::Scrolled(offset + 1),
        Command::SelectPreviousOrScrollUp => ScrollStep::Scrolled(if offset > 0 { offset - 1 } else { offset }),
        Command::PageSelectNextOrScrollDown => ScrollStep::Scrolled(offset + page_size),
        Command::PageSelectPreviousOrScrollUp => ScrollStep::Scrolled(
            if offset >= page_size {
                offset - page_size
            } else {
                0
            },
        ),
        Command::SelectFirstOrScrollToTop => ScrollStep::Scrolled(0),
        Command::SelectLastOrScrollToBottom => ScrollStep::Scrolled(1024),
        _ => ScrollStep::NotHandled,
    }
}

/// What `command` does in the queue popup scrolled to `offset`: a row down
/// or up (not above the top), or the popup closes.
pub open spec fn queue_scroll_of(command: Command, offset: nat) -> ScrollStep {
    match command {
        Command::ClosePopup => ScrollStep::Closed,
        Command::SelectNextOrScrollDown => ScrollStep::Scrolled((offset + 1) as usize),
        Command::SelectPreviousOrScrollUp => ScrollStep::Scrolled(
            if offset > 0 {
                (offset - 1) as usize
            } else {
                offset as usize
            },
        ),
        _ => ScrollStep::NotHandled,
    }
}

/// What `command` does in the queue popup (see `queue_scroll_of`).
pub fn handle_command_for_queue_popup(command: Command, offset: usize) -> (r: ScrollStep)
    requires
        command == Command::SelectNextOrScrollDown ==> offset < usize::MAX,
    ensures
        r == queue_scroll_of(command, offset as nat),
{
    match command {
        Command::ClosePopup => ScrollStep::Closed,
        Command::SelectNextOrScrollDown => ScrollStep::Scrolled(offset + 1),
        Command::SelectPreviousOrScrollUp => ScrollStep::Scrolled(if offset > 0 { offset - 1 } else { offset }),
        _ => ScrollStep::NotHandled,
    }
}

/// Choosing the action at position `n` of the `actions` offered on `item`
/// (see `item_action::action_outcome`).
pub fn handle_nth_action(
    n: usize,
    item: &ActionContext,
    actions: &Vec<Action>,
    data: &UserData,
    page_playlist: &Option<String>,
) -> (r: ActionOutcome)
    requires
        n < actions@.len(),
    ensures
        action_outcome(actions@[n as int], *item, *data, text_of(*page_playlist), r),
{
    handle_action_in_context(actions[n], item, data, page_playlist)
}

/// What a list popup lists, with what choosing an item does.
#[derive(Debug)]
pub enum ListPopupKind {
    /// Artists, to browse the chosen one.
    ArtistsToBrowse,
    /// Artists, to open the chosen one's radio.
    ArtistsForRadio,
    /// The user's playlists, to browse the chosen one.
    Playlists,
    /// The user's playlists, to add the track with this URI to the chosen one.
    PlaylistsToAddTrack(String),
    /// The artists the user follows, to browse the chosen one.
    FollowedArtists,
    /// The albums the user saved, to browse the chosen one.
    SavedAlbums,
    /// The themes, previewed as they are selected.
    Themes,
    /// The devices, to move the playback to the chosen one, playing or not
    /// as it is now.
    Devices { is_playing: bool },
}

/// What a step in a list popup does to the interface.
#[derive(Debug)]
pub enum PopupUi {
    Unchanged,
    /// The selection moves to this item.
    Select(usize),
    /// The selection moves to this theme, which is shown at once.
    PreviewTheme(usize),
    /// The popup closes.
    Close,
    /// The first theme (the one in use when the popup opened) comes back,
    /// and the popup closes.
    RestoreFirstTheme,
    /// A new page opens (and the popup closes).
    OpenPage(NewPage),
}

/// What a step in a list popup comes to: whether the command was one for
/// the popup, the change to the interface, and the request for the client.
#[derive(Debug)]
pub struct PopupOutcome {
    pub handled: bool,
    pub ui: PopupUi,
    pub request: Option<ClientRequest>,
}

/// What the step `step` comes to in a list popup of `kind` whose items
/// have the ids and names `items`: moves select (and preview a theme);
/// choosing browses an artist, playlist or album, opens an artist's radio,
/// adds the track to a playlist, moves the playback to a device, or keeps
/// the previewed theme; closing the theme list brings back the first theme.
pub open spec fn popup_outcome_of(
    kind: ListPopupKind,
    step: ListPopupStep,
    items: Seq<(String, String)>,
    r: PopupOutcome,
) -> bool {
    match step {
        ListPopupStep::NotHandled => !r.handled && r.ui is Unchanged && r.request is None,
        ListPopupStep::Stayed => r.handled && r.ui is Unchanged && r.request is None,
        ListPopupStep::Moved(i) => r.handled && r.request is None && match kind {
            ListPopupKind::Themes => r.ui == PopupUi::PreviewTheme(i),
            _ => r.ui == PopupUi::Select(i),
        },
        ListPopupStep::Closed => r.handled && r.request is None && match kind {
            ListPopupKind::Themes => r.ui is RestoreFirstTheme,
            _ => r.ui is Close,
        },
        ListPopupStep::Chosen(i) => r.handled && 0 <= i < items.len() && {
            let id = items[i as int].0@;
            match kind {
                ListPopupKind::ArtistsToBrowse | ListPopupKind::FollowedArtists => r.request is None
                    && (r.ui matches PopupUi::OpenPage(p) && p@ == NewPageView::Browsing(ContextIdView::Artist(id))),
                ListPopupKind::Playlists => r.request is None && (r.ui matches PopupUi::OpenPage(p) && p@
                    == NewPageView::Browsing(ContextIdView::Playlist(id))),
                ListPopupKind::SavedAlbums => r.request is None && (r.ui matches PopupUi::OpenPage(p) && p@
                    == NewPageView::Browsing(ContextIdView::Album(id))),
                ListPopupKind::ArtistsForRadio => (r.ui matches PopupUi::OpenPage(p) && p@ == radio_page(
                    spotify_uri("artist"@, id),
                )) && (r.request matches Some(ClientRequest::GetRadioTracks { seed_uri, seed_name })
                    && seed_uri@ == spotify_uri("artist"@, id) && seed_name@ == items[i as int].1@),
                ListPopupKind::PlaylistsToAddTrack(track) => r.ui is Close && (r.request matches Some(
                    ClientRequest::AddPlayableToPlaylist(pl, t),
                ) && pl@ == id && t@ == track@),
                ListPopupKind::Devices { is_playing } => r.ui is Close && (r.request matches Some(
                    ClientRequest::Player(PlayerRequest::TransferPlayback(d, play)),
                ) && d@ == id && play == is_playing),
                ListPopupKind::Themes => r.ui is Close && r.request is None,
            }
        },
    }
}

/// What `command` does in a list popup of `kind` with the item `current`
/// selected, among `items` (ids and names): the step of
/// `handle_command_for_list_popup`, then its outcome (see
/// `popup_outcome_of`).
pub fn handle_command_for_popup_list(
    kind: &ListPopupKind,
    command: Command,
    current: usize,
    items: &Vec<(String, String)>,
) -> (r: PopupOutcome)
    ensures
        popup_outcome_of(
            *kind,
            list_popup_step_of(command, current as nat, items@.len() as nat),
            items@,
            r,
        ),
{
    let step = handle_command_for_list_popup(command, current, items.len());
    match step {
        ListPopupStep::NotHandled => PopupOutcome { handled: false, ui: PopupUi::Unchanged, request: None },
        ListPopupStep::Stayed => PopupOutcome { handled: true, ui: PopupUi::Unchanged, request: None },
        ListPopupStep::Moved(i) => {
            let ui = match kind {
                ListPopupKind::Themes => PopupUi::PreviewTheme(i),
                _ => PopupUi::Select(i),
            };
            PopupOutcome { handled: true, ui, request: None }
        },
        ListPopupStep::Closed => {
            let ui = match kind {
                ListPopupKind::Themes => PopupUi::RestoreFirstTheme,
                _ => PopupUi::Close,
            };
            PopupOutcome { handled: true, ui, request: None }
        },
        ListPopupStep::Chosen(i) => {
            let id = items[i].0.clone();
            match kind {
                ListPopupKind::ArtistsToBrowse | ListPopupKind::FollowedArtists => PopupOutcome {
                    handled: true,
                    ui: PopupUi::OpenPage(NewPage::Browsing(ContextId::Artist(id))),
                    request: None,
                },
                ListPopupKind::Playlists => PopupOutcome {
                    handled: true,
                    ui: PopupUi::OpenPage(NewPage::Browsing(ContextId::Playlist(id))),
                    request: None,
                },
                ListPopupKind::SavedAlbums => PopupOutcome {
                    handled: true,
                    ui: PopupUi::OpenPage(NewPage::Browsing(ContextId::Album(id))),
                    request: None,
                },
                ListPopupKind::ArtistsForRadio => {
                    let o = radio("artist", &id, &items[i].1);
                    match o.ui {
                        ActionUi::OpenPage(p) => PopupOutcome {
                            handled: true,
                            ui: PopupUi::OpenPage(p),
                            request: o.request,
                        },
                        _ => PopupOutcome { handled: true, ui: PopupUi::Unchanged, request: o.request },
                    }
                },
                ListPopupKind::PlaylistsToAddTrack(track) => PopupOutcome {
                    handled: true,
                    ui: PopupUi::Close,
                    request: Some(ClientRequest::AddPlayableToPlaylist(id, track.clone())),
                },
                ListPopupKind::Devices { is_playing } => PopupOutcome {
                    handled: true,
                    ui: PopupUi::Close,
                    request: Some(ClientRequest::Player(PlayerRequest::TransferPlayback(id, *is_playing))),
                },
                ListPopupKind::Themes => PopupOutcome { handled: true, ui: PopupUi::Close, request: None },
            }
        },
    }
}

} // verus!
