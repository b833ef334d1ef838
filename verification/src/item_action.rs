//! Actions on an item (a track, album, artist, playlist, episode, folder or
//! show): which are offered, and what choosing one does.

use vstd::prelude::*;

use crate::client_request::ClientRequest;
use crate::command::{
    construct_album_actions, construct_artist_actions, construct_episode_actions, construct_playlist_actions,
    construct_show_actions, construct_track_actions, track_actions, Action,
};
use crate::contexts::{Episode, Playlist, Show};
use crate::global_command::{NewPage, NewPageView};
use crate::library::{is_playlist, track_ids, UserData};
use crate::model::{build_uri, spotify_uri, ContextId, ContextIdView, ItemId, TracksId, TracksIdView};
use crate::playlist_folders::PlaylistFolder;
use crate::tracks::{Album, Artist, Track};

verus! {

/// The item an action applies to.
#[derive(Debug)]
pub enum ActionContext {
    Track(Track),
    Album(Album),
    Artist(Artist),
    Playlist(Playlist),
    Episode(Episode),
    PlaylistFolder(PlaylistFolder),
    Show(Show),
}

/// Whether the library follows the artist with id `id`.
pub open spec fn follows_artist(d: UserData, id: Seq<char>) -> bool {
    exists|i: int| 0 <= i < d.followed_artists@.len() && #[trigger] d.followed_artists@[i].id@ == id
}

/// Whether the library holds the album with id `id`.
pub open spec fn saves_album(d: UserData, id: Seq<char>) -> bool {
    exists|i: int| 0 <= i < d.saved_albums@.len() && #[trigger] d.saved_albums@[i].id@ == id
}

/// Whether the library holds the show with id `id`.
pub open spec fn saves_show(d: UserData, id: Seq<char>) -> bool {
    exists|i: int| 0 <= i < d.saved_shows@.len() && #[trigger] d.saved_shows@[i].id@ == id
}

/// Whether the library follows the playlist with id `id`.
pub open spec fn follows_playlist(d: UserData, id: Seq<char>) -> bool {
    exists|i: int| 0 <= i < d.playlists@.len() && is_playlist(#[trigger] d.playlists@[i], id)
}

/// The actions offered on an album.
pub open spec fn album_actions(saved: bool) -> Seq<Action> {
    seq![
        Action::GoToArtist,
        Action::GoToRadio,
        Action::ShowActionsOnArtist,
        Action::CopyLink,
        Action::AddToQueue,
        if saved { Action::DeleteFromLibrary } else { Action::AddToLibrary },
    ]
}

/// The actions offered on an artist.
pub open spec fn artist_actions(followed: bool) -> Seq<Action> {
    seq![Action::GoToRadio, Action::CopyLink, if followed { Action::Unfollow } else { Action::Follow }]
}

/// The actions offered on `item`, given the library `d`: none on a folder.
pub open spec fn available_actions(item: ActionContext, d: UserData) -> Seq<Action> {
    match item {
        ActionContext::Track(t) => track_actions(track_ids(d.saved_tracks@).contains(t.id@)),
        ActionContext::Album(a) => album_actions(saves_album(d, a.id@)),
        ActionContext::Artist(a) => artist_actions(follows_artist(d, a.id@)),
        ActionContext::Playlist(p) => seq![
            Action::GoToRadio,
            Action::CopyLink,
            if follows_playlist(d, p.id@) { Action::DeleteFromLibrary } else { Action::AddToLibrary },
        ],
        ActionContext::Episode(e) => if e.show is Some {
            seq![
                Action::CopyLink,
                Action::AddToPlaylist,
                Action::AddToQueue,
                Action::ShowActionsOnShow,
                Action::GoToShow,
            ]
        } else {
            seq![Action::CopyLink, Action::AddToPlaylist, Action::AddToQueue]
        },
        ActionContext::PlaylistFolder(_) => Seq::empty(),
        ActionContext::Show(s) => seq![
            Action::CopyLink,
            if saves_show(d, s.id@) { Action::DeleteFromLibrary } else { Action::AddToLibrary },
        ],
    }
}

impl ActionContext {
    /// The actions offered on the item (see `available_actions`).
    pub fn get_available_actions(&self, data: &UserData) -> (r: Vec<Action>)
        ensures
            r@ == available_actions(*self, *data),
    {
        match self {
            ActionContext::Track(t) => construct_track_actions(data.is_liked_track(t)),
            ActionContext::Album(a) => construct_album_actions(data.is_saved_album(&a.id)),
            ActionContext::Artist(a) => construct_artist_actions(data.is_followed_artist(&a.id)),
            ActionContext::Playlist(p) => construct_playlist_actions(data.is_followed_playlist(p)),
            ActionContext::Episode(e) => construct_episode_actions(e.show.is_some()),
            ActionContext::PlaylistFolder(_) => Vec::new(),
            ActionContext::Show(s) => construct_show_actions(data.is_saved_show(&s.id)),
        }
    }
}

/// What choosing an action does to the interface.
#[derive(Debug)]
pub enum ActionUi {
    Unchanged,
    OpenPage(NewPage),
    /// A popup lists the item's artists, to browse one (`browse`) or to
    /// show the actions on one.
    ArtistList { browse: bool },
    /// A popup offers these actions on the track's album.
    AlbumActions { actions: Vec<Action> },
    /// A popup offers these actions on the item's only artist.
    ArtistActions { actions: Vec<Action> },
    /// A popup lists the user's playlists to add the track with this id to.
    PlaylistPicker { track_id: String },
}

/// What choosing an action comes to: the change to the interface, the
/// request for the client, the text to copy to the clipboard, and whether
/// the popup closes.
#[derive(Debug)]
pub struct ActionOutcome {
    pub ui: ActionUi,
    pub request: Option<ClientRequest>,
    pub copy: Option<String>,
    pub close_popup: bool,
}

/// The web link of the item of type `kind` with id `id`.
pub open spec fn web_link(kind: Seq<char>, id: Seq<char>) -> Seq<char> {
    "https://open.spotify.com/"@ + kind + "/"@ + id
}

/// The radio page seeded by the item with URI `uri`.
pub open spec fn radio_page(uri: Seq<char>) -> NewPageView {
    NewPageView::Browsing(ContextIdView::Tracks(TracksIdView { uri: "radio:"@ + uri, kind: "Recommendations"@ }))
}

/// Nothing happens.
pub open spec fn quiet(r: ActionOutcome) -> bool {
    r.ui is Unchanged && r.request is None && r.copy is None && !r.close_popup
}

/// Only `text` is copied, and the popup closes.
pub open spec fn copies_and_closes(r: ActionOutcome, text: Seq<char>) -> bool {
    r.ui is Unchanged && r.request is None && (r.copy matches Some(c) && c@ == text) && r.close_popup
}

/// The radio page of the item with URI `uri` and name `name` opens, and its
/// tracks are asked for.
pub open spec fn opens_radio(r: ActionOutcome, uri: Seq<char>, name: Seq<char>) -> bool {
    &&& r.ui matches ActionUi::OpenPage(p) && p@ == radio_page(uri)
    &&& r.request matches Some(ClientRequest::GetRadioTracks { seed_uri, seed_name }) && seed_uri@ == uri
        && seed_name@ == name
    &&& r.copy is None && !r.close_popup
}

/// Only the interface changes.
pub open spec fn only_ui(r: ActionOutcome) -> bool {
    r.request is None && r.copy is None && !r.close_popup
}

/// Going to the artists `artists`: the page of the only one, else a popup
/// to pick one.
pub open spec fn goes_to_artist(r: ActionOutcome, artists: Seq<Artist>) -> bool {
    only_ui(r) && if artists.len() == 1 {
        r.ui matches ActionUi::OpenPage(p) && p@ == NewPageView::Browsing(ContextIdView::Artist(artists[0].id@))
    } else {
        r.ui matches ActionUi::ArtistList { browse } && browse
    }
}

/// Showing the actions on the artists `artists`: those on the only one,
/// else a popup to pick one.
pub open spec fn shows_artist_actions(r: ActionOutcome, artists: Seq<Artist>, d: UserData) -> bool {
    only_ui(r) && if artists.len() == 1 {
        r.ui matches ActionUi::ArtistActions { actions } && actions@ == artist_actions(
            follows_artist(d, artists[0].id@),
        )
    } else {
        r.ui matches ActionUi::ArtistList { browse } && !browse
    }
}

/// What choosing `action` on `item` comes to, with the library `d` and,
/// when the current page shows a playlist, its id `page_playlist`.
/// Actions that do not apply to the item do nothing.
pub open spec fn action_outcome(
    action: Action,
    item: ActionContext,
    d: UserData,
    page_playlist: Option<Seq<char>>,
    r: ActionOutcome,
) -> bool {
    match item {
        ActionContext::Track(t) => match action {
            Action::GoToAlbum => match t.album {
                Some(a) => only_ui(r) && (r.ui matches ActionUi::OpenPage(p) && p@ == NewPageView::Browsing(
                    ContextIdView::Album(a.id@),
                )),
                None => quiet(r),
            },
            Action::GoToArtist => goes_to_artist(r, t.artists@),
            Action::AddToQueue => r.ui is Unchanged && (r.request matches Some(ClientRequest::AddPlayableToQueue(u)) && u@
                == spotify_uri("track"@, t.id@)) && r.copy is None && r.close_popup,
            Action::CopyLink => copies_and_closes(r, web_link("track"@, t.id@)),
            Action::AddToPlaylist => (r.ui matches ActionUi::PlaylistPicker { track_id } && track_id@ == t.id@)
                && r.request == Some(ClientRequest::GetUserPlaylists) && r.copy is None && !r.close_popup,
            Action::ToggleLiked => if track_ids(d.saved_tracks@).contains(t.id@) {
                r.ui is Unchanged && (r.request matches Some(ClientRequest::DeleteFromLibrary(ItemId::Track(i))) && i@ == t.id@) && r.copy is None && r.close_popup
            } else {
                r.ui is Unchanged && (r.request matches Some(ClientRequest::AddToLibrary(ItemId::Track(i))) && i@ == t.id@) && r.copy is None && r.close_popup
            },
            Action::AddToLiked => r.ui is Unchanged && (r.request matches Some(ClientRequest::AddToLibrary(ItemId::Track(i))) && i@ == t.id@) && r.copy is None && r.close_popup,
            Action::DeleteFromLiked => r.ui is Unchanged && (r.request matches Some(ClientRequest::DeleteFromLibrary(ItemId::Track(i))) && i@ == t.id@) && r.copy is None && r.close_popup,
            Action::GoToRadio => opens_radio(r, spotify_uri("track"@, t.id@), t.name@),
            Action::ShowActionsOnArtist => shows_artist_actions(r, t.artists@, d),
            Action::ShowActionsOnAlbum => match t.album {
                Some(a) => only_ui(r) && (r.ui matches ActionUi::AlbumActions { actions } && actions@
                    == album_actions(saves_album(d, a.id@))),
                None => quiet(r),
            },
            Action::DeleteFromPlaylist => r.ui is Unchanged && r.copy is None && r.close_popup && match page_playlist {
                Some(p) => r.request matches Some(ClientRequest::DeleteTrackFromPlaylist(pl, tr)) && pl@ == p && tr@
                    == t.id@,
                None => r.request is None,
            },
            _ => quiet(r),
        },
        ActionContext::Album(a) => match action {
            Action::GoToArtist => goes_to_artist(r, a.artists@),
            Action::GoToRadio => opens_radio(r, spotify_uri("album"@, a.id@), a.name@),
            Action::ShowActionsOnArtist => shows_artist_actions(r, a.artists@, d),
            Action::AddToLibrary => r.ui is Unchanged && (r.request matches Some(ClientRequest::AddToLibrary(ItemId::Album(i))) && i@ == a.id@) && r.copy is None && r.close_popup,
            Action::DeleteFromLibrary => r.ui is Unchanged && (r.request matches Some(ClientRequest::DeleteFromLibrary(ItemId::Album(i))) && i@ == a.id@) && r.copy is None && r.close_popup,
            Action::CopyLink => copies_and_closes(r, web_link("album"@, a.id@)),
            Action::AddToQueue => r.ui is Unchanged && (r.request matches Some(ClientRequest::AddAlbumToQueue(i)) && i@ == a.id@) && r.copy is None && r.close_popup,
            _ => quiet(r),
        },
        ActionContext::Artist(a) => match action {
            Action::Follow => r.ui is Unchanged && (r.request matches Some(ClientRequest::AddToLibrary(ItemId::Artist(i))) && i@ == a.id@) && r.copy is None && r.close_popup,
            Action::Unfollow => r.ui is Unchanged && (r.request matches Some(ClientRequest::DeleteFromLibrary(ItemId::Artist(i))) && i@ == a.id@) && r.copy is None && r.close_popup,
            Action::CopyLink => copies_and_closes(r, web_link("artist"@, a.id@)),
            Action::GoToRadio => opens_radio(r, spotify_uri("artist"@, a.id@), a.name@),
            _ => quiet(r),
        },
        ActionContext::Playlist(p) => match action {
            Action::AddToLibrary => r.ui is Unchanged && (r.request matches Some(ClientRequest::AddToLibrary(ItemId::Playlist(i))) && i@ == p.id@) && r.copy is None && r.close_popup,
            Action::GoToRadio => opens_radio(r, spotify_uri("playlist"@, p.id@), p.name@),
            Action::CopyLink => copies_and_closes(r, web_link("playlist"@, p.id@)),
            Action::DeleteFromLibrary => r.ui is Unchanged && (r.request matches Some(ClientRequest::DeleteFromLibrary(ItemId::Playlist(i))) && i@ == p.id@) && r.copy is None && r.close_popup,
            _ => quiet(r),
        },
        _ => quiet(r),
    }
}

/// `https://open.spotify.com/<kind>/<id>`.
fn build_web_link(kind: &str, id: &String) -> (r: String)
    ensures
        r@ == web_link(kind@, id@),
{
    let mut link = String::from_str("https://open.spotify.com/");
    link.append(kind);
    link.append("/");
    link.append(id.as_str());
    link
}

/// The outcome that changes nothing.
fn nothing() -> (r: ActionOutcome)
    ensures
        quiet(r),
{
    ActionOutcome { ui: ActionUi::Unchanged, request: None, copy: None, close_popup: false }
}

/// The outcome that sends `request` and closes the popup.
fn send_and_close(request: ClientRequest) -> (r: ActionOutcome)
    ensures
        r.ui is Unchanged && r.request == Some(request) && r.copy is None && r.close_popup,
{
    ActionOutcome { ui: ActionUi::Unchanged, request: Some(request), copy: None, close_popup: true }
}

/// The outcome that copies the web link of an item and closes the popup.
fn copy_link(kind: &str, id: &String) -> (r: ActionOutcome)
    ensures
        copies_and_closes(r, web_link(kind@, id@)),
{
    ActionOutcome { ui: ActionUi::Unchanged, request: None, copy: Some(build_web_link(kind, id)), close_popup: true }
}

/// The outcome that opens the radio of the item of type `kind` with id `id`
/// and name `name`.
pub(crate) fn radio(kind: &str, id: &String, name: &String) -> (r: ActionOutcome)
    ensures
        opens_radio(r, spotify_uri(kind@, id@), name@),
{
    let uri = build_uri(kind, id);
    let mut page_uri = String::from_str("radio:");
    page_uri.append(uri.as_str());
    let tracks = TracksId { uri: page_uri, kind: String::from_str("Recommendations") };
    ActionOutcome {
        ui: ActionUi::OpenPage(NewPage::Browsing(ContextId::Tracks(tracks))),
        request: Some(ClientRequest::GetRadioTracks { seed_uri: uri, seed_name: name.clone() }),
        copy: None,
        close_popup: false,
    }
}

/// The outcome of going to one of `artists` (see `goes_to_artist`).
fn go_to_artist(artists: &Vec<Artist>) -> (r: ActionOutcome)
    ensures
        goes_to_artist(r, artists@),
{
    let ui = if artists.len() == 1 {
        ActionUi::OpenPage(NewPage::Browsing(ContextId::Artist(artists[0].id.clone())))
    } else {
        ActionUi::ArtistList { browse: true }
    };
    ActionOutcome { ui, request: None, copy: None, close_popup: false }
}

/// The outcome of showing the actions on one of `artists` (see
/// `shows_artist_actions`).
fn show_artist_actions(artists: &Vec<Artist>, data: &UserData) -> (r: ActionOutcome)
    ensures
        shows_artist_actions(r, artists@, *data),
{
    let ui = if artists.len() == 1 {
        ActionUi::ArtistActions { actions: construct_artist_actions(data.is_followed_artist(&artists[0].id)) }
    } else {
        ActionUi::ArtistList { browse: false }
    };
    ActionOutcome { ui, request: None, copy: None, close_popup: false }
}

/// The text of an optional string.
pub open spec fn text_of(s: Option<String>) -> Option<Seq<char>> {
    match s {
        Some(t) => Some(t@),
        None => None,
    }
}

/// What choosing `action` on `item` comes to (see `action_outcome`).
pub fn handle_action_in_context(
    action: Action,
    item: &ActionContext,
    data: &UserData,
    page_playlist: &Option<String>,
) -> (r: ActionOutcome)
    ensures
        action_outcome(
            action,
            *item,
            *data,
            text_of(*page_playlist),
            r,
        ),
{
    match item {
        ActionContext::Track(t) => match action {
            Action::GoToAlbum => match &t.album {
                Some(a) => ActionOutcome {
                    ui: ActionUi::OpenPage(NewPage::Browsing(ContextId::Album(a.id.clone()))),
                    request: None,
                    copy: None,
                    close_popup: false,
                },
                None => nothing(),
            },
            Action::GoToArtist => go_to_artist(&t.artists),
            Action::AddToQueue => send_and_close(ClientRequest::AddPlayableToQueue(build_uri("track", &t.id))),
            Action::CopyLink => copy_link("track", &t.id),
            Action::AddToPlaylist => ActionOutcome {
                ui: ActionUi::PlaylistPicker { track_id: t.id.clone() },
                request: Some(ClientRequest::GetUserPlaylists),
                copy: None,
                close_popup: false,
            },
            Action::ToggleLiked => {
                if data.is_liked_track(t) {
                    send_and_close(ClientRequest::DeleteFromLibrary(ItemId::Track(t.id.clone())))
                } else {
                    send_and_close(ClientRequest::AddToLibrary(ItemId::Track(t.id.clone())))
                }
            },
            Action::AddToLiked => send_and_close(ClientRequest::AddToLibrary(ItemId::Track(t.id.clone()))),
            Action::DeleteFromLiked => send_and_close(ClientRequest::DeleteFromLibrary(ItemId::Track(t.id.clone()))),
            Action::GoToRadio => radio("track", &t.id, &t.name),
            Action::ShowActionsOnArtist => show_artist_actions(&t.artists, data),
            Action::ShowActionsOnAlbum => match &t.album {
                Some(a) => ActionOutcome {
                    ui: ActionUi::AlbumActions { actions: construct_album_actions(data.is_saved_album(&a.id)) },
                    request: None,
                    copy: None,
                    close_popup: false,
                },
                None => nothing(),
            },
            Action::DeleteFromPlaylist => {
                let request = match page_playlist {
                    Some(p) => Some(ClientRequest::DeleteTrackFromPlaylist(p.clone(), t.id.clone())),
                    None => None,
                };
                ActionOutcome { ui: ActionUi::Unchanged, request, copy: None, close_popup: true }
            },
            _ => nothing(),
        },
        ActionContext::Album(a) => match action {
            Action::GoToArtist => go_to_artist(&a.artists),
            Action::GoToRadio => radio("album", &a.id, &a.name),
            Action::ShowActionsOnArtist => show_artist_actions(&a.artists, data),
            Action::AddToLibrary => send_and_close(ClientRequest::AddToLibrary(ItemId::Album(a.id.clone()))),
            Action::DeleteFromLibrary => send_and_close(ClientRequest::DeleteFromLibrary(ItemId::Album(a.id.clone()))),
            Action::CopyLink => copy_link("album", &a.id),
            Action::AddToQueue => send_and_close(ClientRequest::AddAlbumToQueue(a.id.clone())),
            _ => nothing(),
        },
        ActionContext::Artist(a) => match action {
            Action::Follow => send_and_close(ClientRequest::AddToLibrary(ItemId::Artist(a.id.clone()))),
            Action::Unfollow => send_and_close(ClientRequest::DeleteFromLibrary(ItemId::Artist(a.id.clone()))),
            Action::CopyLink => copy_link("artist", &a.id),
            Action::GoToRadio => radio("artist", &a.id, &a.name),
            _ => nothing(),
        },
        ActionContext::Playlist(p) => match action {
            Action::AddToLibrary => send_and_close(ClientRequest::AddToLibrary(ItemId::Playlist(p.id.clone()))),
            Action::GoToRadio => radio("playlist", &p.id, &p.name),
            Action::CopyLink => copy_link("playlist", &p.id),
            Action::DeleteFromLibrary => send_and_close(
                ClientRequest::DeleteFromLibrary(ItemId::Playlist(p.id.clone())),
            ),
            _ => nothing(),
        },
        _ => nothing(),
    }
}

} // verus!
