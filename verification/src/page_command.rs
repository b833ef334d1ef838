//! Which part of the current page a command goes to, and what the browse
//! and scrolled pages do with one.

use vstd::prelude::*;

use crate::client_request::ClientRequest;
use crate::command::Command;
use crate::focus::{ArtistFocusState, LibraryFocusState, SearchFocusState};
use crate::list_window::ListItemKind;
use crate::model::{Category, ContextId, ContextIdView};
use crate::navigation::{handle_navigation_command, navigation};
use crate::tracks::{sort_order, track_order_of};

verus! {

/// The kind of the current page, with the focused window where the page
/// has several.
#[derive(Debug, Clone, Copy, PartialEq, Eq, Structural)]
pub enum PageKind {
    Library(LibraryFocusState),
    Search(SearchFocusState),
    Context,
    Browse,
    Lyrics,
    Queue,
    CommandHelp,
}

/// Where a command on a page goes.
#[derive(Debug, Clone, Copy, PartialEq, Eq, Structural)]
pub enum PageRoute {
    /// The command is not one for the page.
    NotHandled,
    /// The search popup opens on the page.
    SearchPopup,
    /// The focused list window of this kind handles the command.
    ListWindow(ListItemKind),
    /// The focused window of the context page handles the command.
    ContextWindow,
    /// The list of the browse page handles the command.
    BrowseList,
    /// The page scrolls.
    Scroll,
    /// The search input takes the keys.
    SearchInput,
}

/// Where `command` goes on a page of kind `page`: `Search` opens the
/// search popup on the library, context and help pages; the library page
/// hands commands to its focused list, the search page to its input or its
/// focused list of tracks, artists, albums or playlists (its lists of shows
/// and episodes take none), a context page to its focused window; the
/// browse page to its list; the lyrics, queue and help pages scroll.
pub open spec fn page_route_of(page: PageKind, command: Command) -> PageRoute {
    match page {
        PageKind::Library(focus) => if command == Command::Search {
            PageRoute::SearchPopup
        } else {
            PageRoute::ListWindow(
                match focus {
                    LibraryFocusState::Playlists => ListItemKind::Playlist,
                    LibraryFocusState::SavedAlbums => ListItemKind::Album,
                    LibraryFocusState::FollowedArtists => ListItemKind::Artist,
                },
            )
        },
        PageKind::Search(focus) => match focus {
            SearchFocusState::Input => PageRoute::SearchInput,
            SearchFocusState::Tracks => PageRoute::ListWindow(ListItemKind::Track),
            SearchFocusState::Artists => PageRoute::ListWindow(ListItemKind::Artist),
            SearchFocusState::Albums => PageRoute::ListWindow(ListItemKind::Album),
            SearchFocusState::Playlists => PageRoute::ListWindow(ListItemKind::Playlist),
            _ => PageRoute::NotHandled,
        },
        PageKind::Context => if command == Command::Search {
            PageRoute::SearchPopup
        } else {
            PageRoute::ContextWindow
        },
        PageKind::Browse => PageRoute::BrowseList,
        PageKind::Lyrics | PageKind::Queue => PageRoute::Scroll,
        PageKind::CommandHelp => if command == Command::Search {
            PageRoute::SearchPopup
        } else {
            PageRoute::Scroll
        },
    }
}

/// Where `command` goes on a page of kind `page` (see `page_route_of`).
pub fn page_command_route(page: PageKind, command: Command) -> (r: PageRoute)
    ensures
        r == page_route_of(page, command),
{
    match page {
        PageKind::Library(focus) => {
            if command == Command::Search {
                PageRoute::SearchPopup
            } else {
                PageRoute::ListWindow(
                    match focus {
                        LibraryFocusState::Playlists => ListItemKind::Playlist,
                        LibraryFocusState::SavedAlbums => ListItemKind::Album,
                        LibraryFocusState::FollowedArtists => ListItemKind::Artist,
                    },
                )
            }
        },
        PageKind::Search(focus) => match focus {
            SearchFocusState::Input => PageRoute::SearchInput,
            SearchFocusState::Tracks => PageRoute::ListWindow(ListItemKind::Track),
            SearchFocusState::Artists => PageRoute::ListWindow(ListItemKind::Artist),
            SearchFocusState::Albums => PageRoute::ListWindow(ListItemKind::Album),
            SearchFocusState::Playlists => PageRoute::ListWindow(ListItemKind::Playlist),
            _ => PageRoute::NotHandled,
        },
        PageKind::Context => {
            if command == Command::Search {
                PageRoute::SearchPopup
            } else {
                PageRoute::ContextWindow
            }
        },
        PageKind::Browse => PageRoute::BrowseList,
        PageKind::Lyrics | PageKind::Queue => PageRoute::Scroll,
        PageKind::CommandHelp => {
            if command == Command::Search {
                PageRoute::SearchPopup
            } else {
                PageRoute::Scroll
            }
        },
    }
}

/// The kind of a context whose data is at hand.
#[derive(Debug, Clone, Copy, PartialEq, Eq, Structural)]
pub enum ContextKind {
    Playlist,
    Album,
    Artist,
    Tracks,
    Show,
}

/// Which window of a context page a command goes to.
#[derive(Debug, Clone, Copy, PartialEq, Eq, Structural)]
pub enum ContextWindowRoute {
    /// The command is not one for the page.
    NotHandled,
    /// The context's tracks are sorted or reversed (see
    /// `tracks::apply_track_order_command`).
    ReorderTracks,
    /// The table of the context's tracks, played within the context or not.
    TrackTable { in_context: bool },
    AlbumList,
    ArtistList,
}

/// Where `command` goes on a context page that shows a context (`has_id`)
/// whose data is at hand (`cached`), with the artist page's focus `focus`:
/// nothing without a context; sorting and reversing commands reorder the
/// tracks; else, without data nothing; an artist page hands the command to
/// its focused list (its top tracks play outside the context); an album or
/// playlist page to its track table, within the context; a list of tracks
/// to its table, outside any context. Show pages take none.
pub open spec fn context_route_of(
    command: Command,
    has_id: bool,
    cached: Option<ContextKind>,
    focus: ArtistFocusState,
) -> ContextWindowRoute {
    if !has_id {
        ContextWindowRoute::NotHandled
    } else if sort_order(command) is Some || command == Command::ReverseTrackOrder {
        ContextWindowRoute::ReorderTracks
    } else {
        match cached {
            None => ContextWindowRoute::NotHandled,
            Some(ContextKind::Artist) => match focus {
                ArtistFocusState::Albums => ContextWindowRoute::AlbumList,
                ArtistFocusState::RelatedArtists => ContextWindowRoute::ArtistList,
                ArtistFocusState::TopTracks => ContextWindowRoute::TrackTable { in_context: false },
            },
            Some(ContextKind::Album) | Some(ContextKind::Playlist) => ContextWindowRoute::TrackTable {
                in_context: true,
            },
            Some(ContextKind::Tracks) => ContextWindowRoute::TrackTable { in_context: false },
            Some(ContextKind::Show) => ContextWindowRoute::NotHandled,
        }
    }
}

/// Where `command` goes on a context page (see `context_route_of`).
pub fn handle_command_for_focused_context_window(
    command: Command,
    has_id: bool,
    cached: Option<ContextKind>,
    focus: ArtistFocusState,
) -> (r: ContextWindowRoute)
    ensures
        r == context_route_of(command, has_id, cached, focus),
{
    if !has_id {
        return ContextWindowRoute::NotHandled;
    }
    if track_order_of(command).is_some() || command == Command::ReverseTrackOrder {
        return ContextWindowRoute::ReorderTracks;
    }
    match cached {
        None => ContextWindowRoute::NotHandled,
        Some(ContextKind::Artist) => match focus {
            ArtistFocusState::Albums => ContextWindowRoute::AlbumList,
            ArtistFocusState::RelatedArtists => ContextWindowRoute::ArtistList,
            ArtistFocusState::TopTracks => ContextWindowRoute::TrackTable { in_context: false },
        },
        Some(ContextKind::Album) | Some(ContextKind::Playlist) => ContextWindowRoute::TrackTable {
            in_context: true,
        },
        Some(ContextKind::Tracks) => ContextWindowRoute::TrackTable { in_context: false },
        Some(ContextKind::Show) => ContextWindowRoute::NotHandled,
    }
}

/// What a command on the browse page comes to.
#[derive(Debug)]
pub enum BrowseEffect {
    NotHandled,
    /// The selection moves to this row, or stays.
    Select(Option<usize>),
    /// The playlists of this category are asked for and shown on a new page.
    OpenCategory(Category),
    /// A new page browses this playlist.
    OpenPlaylist(ContextId),
    SearchPopup,
}

/// What `command` comes to on the browse page listing `n` rows, with row
/// `selected` selected and pages of `page_size` rows; `chosen` says what
/// choosing the selected row opens: nothing when the selection is past the
/// list; a move of the selection; the chosen row opened; the search popup.
pub open spec fn browse_outcome(
    command: Command,
    n: nat,
    selected: usize,
    page_size: usize,
    chosen: spec_fn(BrowseEffect) -> bool,
    r: BrowseEffect,
) -> bool {
    if selected >= n {
        r is NotHandled
    } else if navigation(command, selected as nat, n, page_size as nat) is Some {
        r matches BrowseEffect::Select(s) && match navigation(command, selected as nat, n, page_size as nat) {
            Some(Some(t)) => s == Some(t as usize),
            _ => s is None,
        }
    } else if command == Command::ChooseSelected {
        chosen(r)
    } else if command == Command::Search {
        r is SearchPopup
    } else {
        r is NotHandled
    }
}

/// A copy of a category.
fn copy_category(c: &Category) -> (r: Category)
    ensures
        r.id@ == c.id@ && r.name@ == c.name@,
{
    Category { id: c.id.clone(), name: c.name.clone() }
}

/// What `command` comes to on the browse page listing `categories` (see
/// `browse_outcome`): choosing a category opens its playlists.
pub fn handle_command_for_category_list(
    command: Command,
    categories: &Vec<Category>,
    selected: usize,
    page_size: usize,
) -> (r: BrowseEffect)
    requires
        categories@.len() + page_size <= usize::MAX,
    ensures
        browse_outcome(
            command,
            categories@.len(),
            selected,
            page_size,
            |e: BrowseEffect| e matches BrowseEffect::OpenCategory(c) && c.id@ == categories@[selected as int].id@
                && c.name@ == categories@[selected as int].name@,
            r,
        ),
{
    let n = categories.len();
    if selected >= n {
        return BrowseEffect::NotHandled;
    }
    let (navigated, target) = handle_navigation_command(command, selected, n, page_size);
    if navigated {
        return BrowseEffect::Select(target);
    }
    if command == Command::ChooseSelected {
        return BrowseEffect::OpenCategory(copy_category(&categories[selected]));
    }
    if command == Command::Search {
        return BrowseEffect::SearchPopup;
    }
    BrowseEffect::NotHandled
}

/// What `command` comes to on the browse page listing the playlists with
/// ids `playlist_ids` of a category (see `browse_outcome`): choosing one
/// browses it.
pub fn handle_command_for_category_playlist_list(
    command: Command,
    playlist_ids: &Vec<String>,
    selected: usize,
    page_size: usize,
) -> (r: BrowseEffect)
    requires
        playlist_ids@.len() + page_size <= usize::MAX,
    ensures
        browse_outcome(
            command,
            playlist_ids@.len(),
            selected,
            page_size,
            |e: BrowseEffect| e matches BrowseEffect::OpenPlaylist(c) && c@ == ContextIdView::Playlist(
                playlist_ids@[selected as int]@,
            ),
            r,
        ),
{
    let n = playlist_ids.len();
    if selected >= n {
        return BrowseEffect::NotHandled;
    }
    let (navigated, target) = handle_navigation_command(command, selected, n, page_size);
    if navigated {
        return BrowseEffect::Select(target);
    }
    if command == Command::ChooseSelected {
        return BrowseEffect::OpenPlaylist(ContextId::Playlist(playlist_ids[selected].clone()));
    }
    if command == Command::Search {
        return BrowseEffect::SearchPopup;
    }
    BrowseEffect::NotHandled
}

/// The number of rows a scrolled page may scroll over.
pub const SCROLL_ROWS: usize = 10000;

/// The offset a scrolled page moves to on `command` from `offset`, with
/// pages of `page_size` rows: `None` when the command does not scroll,
/// `Some(None)` when it is taken but the offset stays.
pub open spec fn scroll_of(command: Command, offset: usize, page_size: usize) -> Option<Option<nat>> {
    navigation(command, offset as nat, SCROLL_ROWS as nat, page_size as nat)
}

/// How `command` scrolls a page (the lyrics, queue or help page) at
/// `offset`: whether it is taken, and the new offset if it moves.
pub fn handle_command_for_scroll_page(command: Command, offset: usize, page_size: usize) -> (r: (bool, Option<usize>))
    requires
        page_size <= usize::MAX - SCROLL_ROWS,
        offset < usize::MAX - page_size,
    ensures
        match scroll_of(command, offset, page_size) {
            None => !r.0 && r.1 is None,
            Some(target) => r.0 && match target {
                Some(t) => r.1 == Some(t as usize),
                None => r.1 is None,
            },
        },
{
    handle_navigation_command(command, offset, SCROLL_ROWS, page_size)
}

/// What the Enter key does in the search input holding `line`: a search
/// for a line that is not empty, nothing otherwise.
pub fn search_input_submit(line: &String) -> (r: Option<ClientRequest>)
    ensures
        line@.len() > 0 ==> (r matches Some(ClientRequest::Search(q)) && q@ == line@),
        line@.len() == 0 ==> r is None,
{
    if line.unicode_len() > 0 {
        Some(ClientRequest::Search(line.clone()))
    } else {
        None
    }
}

} // verus!
