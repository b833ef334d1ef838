//! Commands that work wherever the user is: driving the player, opening
//! pages and popups, going back, moving the focus, and following a Spotify
//! link from the clipboard.

use vstd::prelude::*;

use crate::client_request::{player_request_for, ClientRequest, PlayerRequest};
use crate::command::{construct_track_actions, track_actions, Action, Command};
use crate::model::{
    build_uri, spotify_uri, user_tracks, user_tracks_id, ContextId, ContextIdView, Playback, PlaybackView,
    UserTracks,
};
use crate::spotify_link::{
    link_target, link_target_of, parse_spotify_link, spotify_link, LinkTarget, LinkTargetView,
};

verus! {

/// The track that is playing, as the global commands need it.
#[derive(Debug)]
pub struct CurrentTrack {
    /// The track's id; a local file has none.
    pub id: Option<String>,
    pub name: String,
    /// The track's artists, joined by `, `.
    pub artists: String,
    /// Whether the user likes the track.
    pub liked: bool,
}

/// What the global commands read of the application's state.
#[derive(Debug)]
pub struct GlobalCommandInput {
    /// The volume a further adjustment applies to (see
    /// `player::effective_volume`).
    pub effective_volume: Option<u8>,
    /// The playback's progress in milliseconds, when known.
    pub progress_ms: Option<i64>,
    /// How far a seek moves, in seconds.
    pub seek_secs: u16,
    /// Whether there is buffered playback.
    pub has_playback: bool,
    /// Whether a popup has the focus.
    pub has_focused_popup: bool,
    /// How many pages are open.
    pub history_len: usize,
    /// The track that is playing.
    pub playing: Option<CurrentTrack>,
    /// The ids of the tracks of the context the current page shows, when it
    /// is a context page whose tracks are known.
    pub context_track_ids: Option<Vec<String>>,
}

/// A page the application opens.
#[derive(Debug)]
pub enum NewPage {
    CommandHelp,
    CurrentPlayingContext,
    Browsing(ContextId),
    Library,
    Search,
    Browse,
    Queue,
    Lyrics { track: String, artists: String },
}

/// A popup the application opens.
#[derive(Debug)]
pub enum NewPopup {
    UserPlaylists,
    UserFollowedArtists,
    UserSavedAlbums,
    Devices,
    Themes,
    CreatePlaylist,
    /// The actions on the playing track with this id.
    TrackActions { track_id: String, actions: Vec<Action> },
}

/// What a global command does to the interface.
#[derive(Debug)]
pub enum UiChange {
    Unchanged,
    Quit,
    ToggleFakeTrackRepeat,
    /// Sets the playback's volume to this level, which the player then sends
    /// or keeps pending (see `player::apply_volume`).
    ApplyVolume(u8),
    OpenPage(NewPage),
    OpenPopup(NewPopup),
    /// Leaves the current page and closes any popup.
    PreviousPage,
    ClosePopup,
    FocusNextWindow,
    FocusPreviousWindow,
    /// Selects the row at this position.
    Select(usize),
}

/// What a global command comes to: whether it was one, the change to the
/// interface, and the request for the client.
#[derive(Debug)]
pub struct GlobalEffect {
    pub handled: bool,
    pub ui: UiChange,
    pub request: Option<ClientRequest>,
}

/// The first position of `id` in `ids`.
pub open spec fn first_position(ids: Seq<Seq<char>>, id: Seq<char>) -> Option<int>
    decreases ids.len(),
{
    if ids.len() == 0 {
        None
    } else if ids.last() == id && first_position(ids.drop_last(), id) is None {
        Some(ids.len() - 1)
    } else {
        first_position(ids.drop_last(), id)
    }
}

/// The volume that a change of `offset` from `volume` comes to, kept
/// between 0 and 100.
pub open spec fn changed_volume(volume: u8, offset: i32) -> u8 {
    let v = volume + offset;
    if v < 0 {
        0
    } else if v > 100 {
        100
    } else {
        v as u8
    }
}

/// The request for the global `command` that only asks the client:
/// driving the player (seeks excepted) or fetching data.
pub open spec fn plain_request(command: Command) -> Option<ClientRequest> {
    match command {
        Command::NextTrack => Some(ClientRequest::Player(PlayerRequest::NextTrack)),
        Command::PreviousTrack => Some(ClientRequest::Player(PlayerRequest::PreviousTrack)),
        Command::ResumePause => Some(ClientRequest::Player(PlayerRequest::ResumePause)),
        Command::Repeat => Some(ClientRequest::Player(PlayerRequest::Repeat)),
        Command::Shuffle => Some(ClientRequest::Player(PlayerRequest::Shuffle)),
        Command::Mute => Some(ClientRequest::Player(PlayerRequest::ToggleMute)),
        Command::RefreshPlayback => Some(ClientRequest::GetCurrentPlayback),
        Command::RestartIntegratedClient => Some(ClientRequest::RestartIntegratedClient),
        _ => None,
    }
}

/// The page a global `command` opens, with the request sent with it; the
/// lyrics page is left out (see `global_outcome`).
pub open spec fn page_of(command: Command) -> Option<(NewPageView, Option<ClientRequest>)> {
    match command {
        Command::OpenCommandHelp => Some((NewPageView::CommandHelp, None)),
        Command::CurrentlyPlayingContextPage => Some((NewPageView::CurrentPlayingContext, None)),
        Command::TopTrackPage => Some(
            (
                NewPageView::Browsing(ContextIdView::Tracks(user_tracks_id(UserTracks::Top))),
                Some(ClientRequest::GetUserTopTracks),
            ),
        ),
        Command::RecentlyPlayedTrackPage => Some(
            (
                NewPageView::Browsing(ContextIdView::Tracks(user_tracks_id(UserTracks::RecentlyPlayed))),
                Some(ClientRequest::GetUserRecentlyPlayedTracks),
            ),
        ),
        Command::LikedTrackPage => Some(
            (
                NewPageView::Browsing(ContextIdView::Tracks(user_tracks_id(UserTracks::Liked))),
                Some(ClientRequest::GetUserSavedTracks),
            ),
        ),
        Command::LibraryPage => Some((NewPageView::Library, None)),
        Command::SearchPage => Some((NewPageView::Search, None)),
        Command::BrowsePage => Some((NewPageView::Browse, Some(ClientRequest::GetBrowseCategories))),
        Command::Queue => Some((NewPageView::Queue, Some(ClientRequest::GetCurrentUserQueue))),
        _ => None,
    }
}

/// A page with its texts as characters.
pub enum NewPageView {
    CommandHelp,
    CurrentPlayingContext,
    Browsing(ContextIdView),
    Library,
    Search,
    Browse,
    Queue,
    Lyrics { track: Seq<char>, artists: Seq<char> },
}

impl View for NewPage {
    type V = NewPageView;

    open spec fn view(&self) -> NewPageView {
        match self {
            NewPage::CommandHelp => NewPageView::CommandHelp,
            NewPage::CurrentPlayingContext => NewPageView::CurrentPlayingContext,
            NewPage::Browsing(c) => NewPageView::Browsing(c@),
            NewPage::Library => NewPageView::Library,
            NewPage::Search => NewPageView::Search,
            NewPage::Browse => NewPageView::Browse,
            NewPage::Queue => NewPageView::Queue,
            NewPage::Lyrics { track, artists } => NewPageView::Lyrics { track: track@, artists: artists@ },
        }
    }
}

/// The popup a global `command` opens, with the request sent with it; the
/// track actions are left out (see `global_outcome`).
pub open spec fn popup_of(command: Command) -> Option<(NewPopupKind, Option<ClientRequest>)> {
    match command {
        Command::BrowseUserPlaylists => Some((NewPopupKind::UserPlaylists, Some(ClientRequest::GetUserPlaylists))),
        Command::BrowseUserFollowedArtists => Some(
            (NewPopupKind::UserFollowedArtists, Some(ClientRequest::GetUserFollowedArtists)),
        ),
        Command::BrowseUserSavedAlbums => Some(
            (NewPopupKind::UserSavedAlbums, Some(ClientRequest::GetUserSavedAlbums)),
        ),
        Command::SwitchDevice => Some((NewPopupKind::Devices, Some(ClientRequest::GetDevices))),
        Command::SwitchTheme => Some((NewPopupKind::Themes, None)),
        Command::CreatePlaylist => Some((NewPopupKind::CreatePlaylist, None)),
        _ => None,
    }
}

/// The popups that carry nothing.
#[derive(Debug, Clone, Copy, PartialEq, Eq, Structural)]
pub enum NewPopupKind {
    UserPlaylists,
    UserFollowedArtists,
    UserSavedAlbums,
    Devices,
    Themes,
    CreatePlaylist,
}

/// Whether `p` is the popup of kind `k`.
pub open spec fn popup_is(p: NewPopup, k: NewPopupKind) -> bool {
    match k {
        NewPopupKind::UserPlaylists => p is UserPlaylists,
        NewPopupKind::UserFollowedArtists => p is UserFollowedArtists,
        NewPopupKind::UserSavedAlbums => p is UserSavedAlbums,
        NewPopupKind::Devices => p is Devices,
        NewPopupKind::Themes => p is Themes,
        NewPopupKind::CreatePlaylist => p is CreatePlaylist,
    }
}

/// Whether `r` asks for the same as `q`, both absent or both the same
/// request of the kinds global commands send.
pub open spec fn same_request(r: Option<ClientRequest>, q: Option<ClientRequest>) -> bool {
    match (r, q) {
        (None, None) => true,
        (Some(a), Some(b)) => a == b,
        _ => false,
    }
}

/// The ids of the tracks of the context shown, as characters.
pub open spec fn ids_view(ids: Option<Vec<String>>) -> Option<Seq<Seq<char>>> {
    match ids {
        Some(v) => Some(v@.map_values(|s: String| s@)),
        None => None,
    }
}

/// What the global `command` comes to on `input`, apart from following a
/// link from the clipboard (see `clipboard_link_effect`): the player
/// requests; the fake track repeat toggled when there is playback; the
/// volume changed by the offset from the effective volume; a seek from the
/// known progress (not before zero); a page or popup opened, with the
/// request that fills it; the actions on the playing track, when it has an
/// id; the lyrics page of the playing track, asking for its lyrics when it
/// has an id; going back when more than one page is open; the focus moved
/// when no popup has it; the playing track selected in the context shown
/// (not handled when no track with an id plays); the popup closed; `Quit`.
/// Other commands are not handled.
pub open spec fn global_outcome(command: Command, input: GlobalCommandInput, r: GlobalEffect) -> bool {
    if plain_request(command) is Some {
        r.handled && r.ui is Unchanged && same_request(r.request, plain_request(command))
    } else if let Some((page, req)) = page_of(command) {
        r.handled && (r.ui matches UiChange::OpenPage(p) && p@ == page) && same_request(r.request, req)
    } else if let Some((kind, req)) = popup_of(command) {
        r.handled && (r.ui matches UiChange::OpenPopup(p) && popup_is(p, kind)) && same_request(
            r.request,
            req,
        )
    } else {
        match command {
            Command::Quit => r.handled && r.ui is Quit && r.request is None,
            Command::ToggleFakeTrackRepeatMode => r.handled && r.request is None && (if input.has_playback {
                r.ui is ToggleFakeTrackRepeat
            } else {
                r.ui is Unchanged
            }),
            Command::VolumeChange { offset } => r.handled && r.request is None && match input.effective_volume {
                Some(v) => r.ui == UiChange::ApplyVolume(changed_volume(v, offset)),
                None => r.ui is Unchanged,
            },
            Command::SeekForward | Command::SeekBackward => r.handled && r.ui is Unchanged && match input.progress_ms {
                Some(p) => r.request matches Some(ClientRequest::Player(PlayerRequest::SeekTrack(ms))) && ms == (
                if command == Command::SeekForward {
                    p + input.seek_secs * 1000
                } else if p - input.seek_secs * 1000 > 0 {
                    p - input.seek_secs * 1000
                } else {
                    0
                }),
                None => r.request is None,
            },
            Command::ShowActionsOnCurrentTrack => r.handled && r.request is None && match input.playing {
                Some(CurrentTrack { id: Some(id), liked, .. }) => r.ui matches UiChange::OpenPopup(
                    NewPopup::TrackActions { track_id, actions },
                ) && track_id@ == id@ && actions@ == track_actions(liked),
                _ => r.ui is Unchanged,
            },
            Command::LyricsPage => r.handled && match input.playing {
                Some(t) => (r.ui matches UiChange::OpenPage(p) && p@ == NewPageView::Lyrics {
                    track: t.name@,
                    artists: t.artists@,
                }) && match t.id {
                    Some(id) => r.request matches Some(ClientRequest::GetLyrics { track_id }) && track_id@
                        == id@,
                    None => r.request is None,
                },
                None => r.ui is Unchanged && r.request is None,
            },
            Command::PreviousPage => r.handled && r.request is None && (if input.history_len > 1 {
                r.ui is PreviousPage
            } else {
                r.ui is Unchanged
            }),
            Command::FocusNextWindow => r.handled && r.request is None && (if input.has_focused_popup {
                r.ui is Unchanged
            } else {
                r.ui is FocusNextWindow
            }),
            Command::FocusPreviousWindow => r.handled && r.request is None && (if input.has_focused_popup {
                r.ui is Unchanged
            } else {
                r.ui is FocusPreviousWindow
            }),
            Command::JumpToCurrentTrackInContext => r.request is None && match input.playing {
                Some(CurrentTrack { id: Some(id), .. }) => r.handled && match ids_view(input.context_track_ids) {
                    Some(ids) => match first_position(ids, id@) {
                        Some(p) => r.ui == UiChange::Select(p as usize),
                        None => r.ui is Unchanged,
                    },
                    None => r.ui is Unchanged,
                },
                _ => !r.handled && r.ui is Unchanged,
            },
            Command::ClosePopup => r.handled && r.ui is ClosePopup && r.request is None,
            _ => !r.handled && r.ui is Unchanged && r.request is None,
        }
    }
}

/// The position of `id` in `ids`, first match first.
fn position_of_id(ids: &Vec<String>, id: &String) -> (r: Option<usize>)
    ensures
        match first_position(ids@.map_values(|s: String| s@), id@) {
            Some(p) => r == Some(p as usize),
            None => r is None,
        },
{
    let ghost v = ids@.map_values(|s: String| s@);
    let mut i: usize = 0;
    while i < ids.len()
        invariant
            v == ids@.map_values(|s: String| s@),
            i <= v.len(),
            first_position(v.take(i as int), id@) is None,
        decreases v.len() - i,
    {
        proof {
            let t = v.take(i + 1);
            assert(t.drop_last() =~= v.take(i as int));
            assert(t.last() == v[i as int]);
        }
        if ids[i] == *id {
            proof {
                lemma_first_position_prefix(v, id@, i + 1);
            }
            return Some(i);
        }
        i = i + 1;
    }
    assert(v.take(i as int) =~= v);
    None
}

/// A first position found in a prefix is the first position in the whole.
proof fn lemma_first_position_prefix(ids: Seq<Seq<char>>, id: Seq<char>, n: int)
    requires
        0 <= n <= ids.len(),
        first_position(ids.take(n), id) is Some,
    ensures
        first_position(ids, id) == first_position(ids.take(n), id),
    decreases ids.len() - n,
{
    if n < ids.len() {
        let t = ids.take(n + 1);
        assert(t.drop_last() =~= ids.take(n));
        lemma_first_position_prefix(ids, id, n + 1);
    } else {
        assert(ids.take(n) =~= ids);
    }
}

/// What the global `command` comes to on `input` (see `global_outcome`).
pub fn handle_global_command(command: Command, input: &GlobalCommandInput) -> (r: GlobalEffect)
    requires
        command == Command::SeekForward ==> (input.progress_ms matches Some(p) ==> p + input.seek_secs * 1000
            <= i64::MAX),
        command == Command::SeekBackward ==> (input.progress_ms matches Some(p) ==> p - input.seek_secs * 1000
            >= i64::MIN),
    ensures
        global_outcome(command, *input, r),
{
    match command {
        Command::NextTrack => GlobalEffect {
            handled: true,
            ui: UiChange::Unchanged,
            request: Some(ClientRequest::Player(PlayerRequest::NextTrack)),
        },
        Command::PreviousTrack => GlobalEffect {
            handled: true,
            ui: UiChange::Unchanged,
            request: Some(ClientRequest::Player(PlayerRequest::PreviousTrack)),
        },
        Command::ResumePause => GlobalEffect {
            handled: true,
            ui: UiChange::Unchanged,
            request: Some(ClientRequest::Player(PlayerRequest::ResumePause)),
        },
        Command::Repeat => GlobalEffect {
            handled: true,
            ui: UiChange::Unchanged,
            request: Some(ClientRequest::Player(PlayerRequest::Repeat)),
        },
        Command::Shuffle => GlobalEffect {
            handled: true,
            ui: UiChange::Unchanged,
            request: Some(ClientRequest::Player(PlayerRequest::Shuffle)),
        },
        Command::Mute => GlobalEffect {
            handled: true,
            ui: UiChange::Unchanged,
            request: Some(ClientRequest::Player(PlayerRequest::ToggleMute)),
        },
        Command::RefreshPlayback => GlobalEffect {
            handled: true,
            ui: UiChange::Unchanged,
            request: Some(ClientRequest::GetCurrentPlayback),
        },
        Command::RestartIntegratedClient => GlobalEffect {
            handled: true,
            ui: UiChange::Unchanged,
            request: Some(ClientRequest::RestartIntegratedClient),
        },
        Command::OpenCommandHelp => page(NewPage::CommandHelp, None),
        Command::CurrentlyPlayingContextPage => page(NewPage::CurrentPlayingContext, None),
        Command::TopTrackPage => page(
            NewPage::Browsing(ContextId::Tracks(user_tracks(UserTracks::Top))),
            Some(ClientRequest::GetUserTopTracks),
        ),
        Command::RecentlyPlayedTrackPage => page(
            NewPage::Browsing(ContextId::Tracks(user_tracks(UserTracks::RecentlyPlayed))),
            Some(ClientRequest::GetUserRecentlyPlayedTracks),
        ),
        Command::LikedTrackPage => page(
            NewPage::Browsing(ContextId::Tracks(user_tracks(UserTracks::Liked))),
            Some(ClientRequest::GetUserSavedTracks),
        ),
        Command::LibraryPage => page(NewPage::Library, None),
        Command::SearchPage => page(NewPage::Search, None),
        Command::BrowsePage => page(NewPage::Browse, Some(ClientRequest::GetBrowseCategories)),
        Command::Queue => page(NewPage::Queue, Some(ClientRequest::GetCurrentUserQueue)),
        Command::BrowseUserPlaylists => popup(NewPopup::UserPlaylists, Some(ClientRequest::GetUserPlaylists)),
        Command::BrowseUserFollowedArtists => popup(
            NewPopup::UserFollowedArtists,
            Some(ClientRequest::GetUserFollowedArtists),
        ),
        Command::BrowseUserSavedAlbums => popup(
            NewPopup::UserSavedAlbums,
            Some(ClientRequest::GetUserSavedAlbums),
        ),
        Command::SwitchDevice => popup(NewPopup::Devices, Some(ClientRequest::GetDevices)),
        Command::SwitchTheme => popup(NewPopup::Themes, None),
        Command::CreatePlaylist => popup(NewPopup::CreatePlaylist, None),
        Command::Quit => GlobalEffect { handled: true, ui: UiChange::Quit, request: None },
        Command::ToggleFakeTrackRepeatMode => GlobalEffect {
            handled: true,
            ui: if input.has_playback {
                UiChange::ToggleFakeTrackRepeat
            } else {
                UiChange::Unchanged
            },
            request: None,
        },
        Command::VolumeChange { offset } => match input.effective_volume {
            Some(v) => {
                let target: i64 = (v as i64) + (offset as i64);
                let level: u8 = if target < 0 {
                    0
                } else if target > 100 {
                    100
                } else {
                    target as u8
                };
                GlobalEffect { handled: true, ui: UiChange::ApplyVolume(level), request: None }
            },
            None => GlobalEffect { handled: true, ui: UiChange::Unchanged, request: None },
        },
        Command::SeekForward | Command::SeekBackward => {
            let request = match player_request_for(command, input.progress_ms, input.seek_secs) {
                Some(p) => Some(ClientRequest::Player(p)),
                None => None,
            };
            GlobalEffect { handled: true, ui: UiChange::Unchanged, request }
        },
        Command::ShowActionsOnCurrentTrack => {
            let ui = match &input.playing {
                Some(t) => match &t.id {
                    Some(id) => UiChange::OpenPopup(
                        NewPopup::TrackActions { track_id: id.clone(), actions: construct_track_actions(t.liked) },
                    ),
                    None => UiChange::Unchanged,
                },
                None => UiChange::Unchanged,
            };
            GlobalEffect { handled: true, ui, request: None }
        },
        Command::LyricsPage => match &input.playing {
            Some(t) => {
                let request = match &t.id {
                    Some(id) => Some(ClientRequest::GetLyrics { track_id: id.clone() }),
                    None => None,
                };
                GlobalEffect {
                    handled: true,
                    ui: UiChange::OpenPage(NewPage::Lyrics { track: t.name.clone(), artists: t.artists.clone() }),
                    request,
                }
            },
            None => GlobalEffect { handled: true, ui: UiChange::Unchanged, request: None },
        },
        Command::PreviousPage => GlobalEffect {
            handled: true,
            ui: if input.history_len > 1 {
                UiChange::PreviousPage
            } else {
                UiChange::Unchanged
            },
            request: None,
        },
        Command::FocusNextWindow => GlobalEffect {
            handled: true,
            ui: if input.has_focused_popup {
                UiChange::Unchanged
            } else {
                UiChange::FocusNextWindow
            },
            request: None,
        },
        Command::FocusPreviousWindow => GlobalEffect {
            handled: true,
            ui: if input.has_focused_popup {
                UiChange::Unchanged
            } else {
                UiChange::FocusPreviousWindow
            },
            request: None,
        },
        Command::JumpToCurrentTrackInContext => {
            let id = match &input.playing {
                Some(t) => match &t.id {
                    Some(id) => id,
                    None => return GlobalEffect { handled: false, ui: UiChange::Unchanged, request: None },
                },
                None => return GlobalEffect { handled: false, ui: UiChange::Unchanged, request: None },
            };
            let ui = match &input.context_track_ids {
                Some(ids) => match position_of_id(ids, id) {
                    Some(p) => UiChange::Select(p),
                    None => UiChange::Unchanged,
                },
                None => UiChange::Unchanged,
            };
            GlobalEffect { handled: true, ui, request: None }
        },
        Command::ClosePopup => GlobalEffect { handled: true, ui: UiChange::ClosePopup, request: None },
        _ => GlobalEffect { handled: false, ui: UiChange::Unchanged, request: None },
    }
}

/// The effect of opening `p`, sending `request` along.
fn page(p: NewPage, request: Option<ClientRequest>) -> (r: GlobalEffect)
    ensures
        r.handled,
        r.ui matches UiChange::OpenPage(q) && q@ == p@,
        r.request == request,
{
    GlobalEffect { handled: true, ui: UiChange::OpenPage(p), request }
}

/// The effect of opening `p`, sending `request` along.
fn popup(p: NewPopup, request: Option<ClientRequest>) -> (r: GlobalEffect)
    ensures
        r.handled,
        r.ui == UiChange::OpenPopup(p),
        r.request == request,
{
    GlobalEffect { handled: true, ui: UiChange::OpenPopup(p), request }
}

/// What following the first Spotify link in `content` comes to: a track is
/// played on its own, a playlist, artist or album page opened; a link of
/// another type is refused with the message of `link_target_of`; without a
/// link nothing happens.
pub open spec fn clipboard_link_outcome(content: Seq<char>, r: Result<GlobalEffect, String>) -> bool {
    match spotify_link(content) {
        None => r matches Ok(e) && e.handled && e.ui is Unchanged && e.request is None,
        Some((kind, id)) => match link_target_of(kind, id) {
            Ok(LinkTargetView::Track(t)) => r matches Ok(e) && e.handled && e.ui is Unchanged && (e.request
                matches Some(ClientRequest::Player(PlayerRequest::StartPlayback(p, None))) && p@
                == PlaybackView::URIs(seq![spotify_uri("track"@, t)], None)),
            Ok(LinkTargetView::Playlist(t)) => r matches Ok(e) && e.handled && e.request is None && (e.ui matches UiChange::OpenPage(p) && p@ == NewPageView::Browsing(ContextIdView::Playlist(t))),
            Ok(LinkTargetView::Artist(t)) => r matches Ok(e) && e.handled && e.request is None && (e.ui matches UiChange::OpenPage(p) && p@ == NewPageView::Browsing(ContextIdView::Artist(t))),
            Ok(LinkTargetView::Album(t)) => r matches Ok(e) && e.handled && e.request is None && (e.ui matches UiChange::OpenPage(p) && p@ == NewPageView::Browsing(ContextIdView::Album(t))),
            Err(m) => r matches Err(msg) && msg@ == m,
        },
    }
}

/// What following the first Spotify link in the clipboard's `content`
/// comes to (see `clipboard_link_outcome`).
pub fn clipboard_link_effect(content: &str) -> (r: Result<GlobalEffect, String>)
    ensures
        clipboard_link_outcome(content@, r),
{
    let (kind, id) = match parse_spotify_link(content) {
        Some(found) => found,
        None => return Ok(GlobalEffect { handled: true, ui: UiChange::Unchanged, request: None }),
    };
    match link_target(kind.as_str(), id) {
        Ok(LinkTarget::Track(t)) => {
            let uri = build_uri("track", &t);
            let uris = vec![uri];
            assert(uris@.map_values(|u: String| u@) =~= seq![spotify_uri("track"@, t@)]);
            Ok(
                GlobalEffect {
                    handled: true,
                    ui: UiChange::Unchanged,
                    request: Some(ClientRequest::Player(PlayerRequest::StartPlayback(Playback::URIs(uris, None), None))),
                },
            )
        },
        Ok(LinkTarget::Playlist(t)) => Ok(page(NewPage::Browsing(ContextId::Playlist(t)), None)),
        Ok(LinkTarget::Artist(t)) => Ok(page(NewPage::Browsing(ContextId::Artist(t)), None)),
        Ok(LinkTarget::Album(t)) => Ok(page(NewPage::Browsing(ContextId::Album(t)), None)),
        Err(m) => Err(m),
    }
}

/// The position a left click at row `row` and column `column` seeks to, in
/// milliseconds, when the progress bar is drawn on row `bar_row` with
/// `bar_width` columns and the playing track lasts `duration_ms`: the same
/// share of the track as the column is of the bar; clicks off the bar's row
/// seek nowhere.
pub open spec fn click_seek_of(row: u16, column: u16, bar_row: u16, bar_width: u16, duration_ms: i64) -> Option<int> {
    if row == bar_row {
        Some(duration_ms * column / (bar_width as int))
    } else {
        None
    }
}

/// The seek request for a left click on the progress bar (see
/// `click_seek_of`).
pub fn handle_mouse_click(row: u16, column: u16, bar_row: u16, bar_width: u16, duration_ms: i64) -> (r: Option<ClientRequest>)
    requires
        row == bar_row ==> bar_width > 0,
        0 <= duration_ms <= i64::MAX / 65536,
    ensures
        match click_seek_of(row, column, bar_row, bar_width, duration_ms) {
            Some(ms) => r matches Some(ClientRequest::Player(PlayerRequest::SeekTrack(p))) && p == ms,
            None => r is None,
        },
{
    if row != bar_row {
        return None;
    }
    assert(0 <= duration_ms * column <= duration_ms * 65536) by (nonlinear_arith)
        requires
            0 <= duration_ms,
            column < 65536,
    ;
    let position: i64 = duration_ms * (column as i64) / (bar_width as i64);
    Some(ClientRequest::Player(PlayerRequest::SeekTrack(position)))
}

} // verus!
