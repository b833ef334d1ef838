//! Which window of a page has the focus, and how the focus moves from one
//! window to the next in a cycle.

use vstd::prelude::*;

verus! {

/// The focused window of the library page.
#[derive(Debug, Clone, Copy, PartialEq, Eq, Structural)]
pub enum LibraryFocusState {
    Playlists,
    SavedAlbums,
    FollowedArtists,
}

/// The window after `f` in the cycle of the library page.
pub open spec fn library_focus_state_next(f: LibraryFocusState) -> LibraryFocusState {
    match f {
        LibraryFocusState::Playlists => LibraryFocusState::SavedAlbums,
        LibraryFocusState::SavedAlbums => LibraryFocusState::FollowedArtists,
        LibraryFocusState::FollowedArtists => LibraryFocusState::Playlists,
    }
}

/// The window before `f` in the cycle of the library page.
pub open spec fn library_focus_state_previous(f: LibraryFocusState) -> LibraryFocusState {
    match f {
        LibraryFocusState::Playlists => LibraryFocusState::FollowedArtists,
        LibraryFocusState::SavedAlbums => LibraryFocusState::Playlists,
        LibraryFocusState::FollowedArtists => LibraryFocusState::SavedAlbums,
    }
}

impl LibraryFocusState {
    /// Moves the focus to the next window.
    pub fn next(&mut self)
        ensures
            *final(self) == library_focus_state_next(*old(self)),
    {
        *self = match *self {
            LibraryFocusState::Playlists => LibraryFocusState::SavedAlbums,
            LibraryFocusState::SavedAlbums => LibraryFocusState::FollowedArtists,
            LibraryFocusState::FollowedArtists => LibraryFocusState::Playlists,
        };
    }

    /// Moves the focus to the previous window.
    pub fn previous(&mut self)
        ensures
            *final(self) == library_focus_state_previous(*old(self)),
    {
        *self = match *self {
            LibraryFocusState::Playlists => LibraryFocusState::FollowedArtists,
            LibraryFocusState::SavedAlbums => LibraryFocusState::Playlists,
            LibraryFocusState::FollowedArtists => LibraryFocusState::SavedAlbums,
        };
    }
}

/// On the library page, moving the focus back undoes moving it forward and the other
/// way round, and moving it forward through all three windows comes back to the
/// same window.
pub proof fn law_library_focus_state_cycle(f: LibraryFocusState)
    ensures
        library_focus_state_previous(library_focus_state_next(f)) == f,
        library_focus_state_next(library_focus_state_previous(f)) == f,
        library_focus_state_next(library_focus_state_next(library_focus_state_next(f))) == f,
{
}

/// The focused window of an artist page.
#[derive(Debug, Clone, Copy, PartialEq, Eq, Structural)]
pub enum ArtistFocusState {
    TopTracks,
    Albums,
    RelatedArtists,
}

/// The window after `f` in the cycle of an artist page.
pub open spec fn artist_focus_state_next(f: ArtistFocusState) -> ArtistFocusState {
    match f {
        ArtistFocusState::TopTracks => ArtistFocusState::Albums,
        ArtistFocusState::Albums => ArtistFocusState::RelatedArtists,
        ArtistFocusState::RelatedArtists => ArtistFocusState::TopTracks,
    }
}

/// The window before `f` in the cycle of an artist page.
pub open spec fn artist_focus_state_previous(f: ArtistFocusState) -> ArtistFocusState {
    match f {
        ArtistFocusState::TopTracks => ArtistFocusState::RelatedArtists,
        ArtistFocusState::Albums => ArtistFocusState::TopTracks,
        ArtistFocusState::RelatedArtists => ArtistFocusState::Albums,
    }
}

impl ArtistFocusState {
    /// Moves the focus to the next window.
    pub fn next(&mut self)
        ensures
            *final(self) == artist_focus_state_next(*old(self)),
    {
        *self = match *self {
            ArtistFocusState::TopTracks => ArtistFocusState::Albums,
            ArtistFocusState::Albums => ArtistFocusState::RelatedArtists,
            ArtistFocusState::RelatedArtists => ArtistFocusState::TopTracks,
        };
    }

    /// Moves the focus to the previous window.
    pub fn previous(&mut self)
        ensures
            *final(self) == artist_focus_state_previous(*old(self)),
    {
        *self = match *self {
            ArtistFocusState::TopTracks => ArtistFocusState::RelatedArtists,
            ArtistFocusState::Albums => ArtistFocusState::TopTracks,
            ArtistFocusState::RelatedArtists => ArtistFocusState::Albums,
        };
    }
}

/// On an artist page, moving the focus back undoes moving it forward and the other
/// way round, and moving it forward through all three windows comes back to the
/// same window.
pub proof fn law_artist_focus_state_cycle(f: ArtistFocusState)
    ensures
        artist_focus_state_previous(artist_focus_state_next(f)) == f,
        artist_focus_state_next(artist_focus_state_previous(f)) == f,
        artist_focus_state_next(artist_focus_state_next(artist_focus_state_next(f))) == f,
{
}

/// The focused window of the search page.
#[derive(Debug, Clone, Copy, PartialEq, Eq, Structural)]
pub enum SearchFocusState {
    Input,
    Tracks,
    Albums,
    Artists,
    Playlists,
    Shows,
    Episodes,
}

/// The window after `f` in the cycle of the search page.
pub open spec fn search_focus_state_next(f: SearchFocusState) -> SearchFocusState {
    match f {
        SearchFocusState::Input => SearchFocusState::Tracks,
        SearchFocusState::Tracks => SearchFocusState::Albums,
        SearchFocusState::Albums => SearchFocusState::Artists,
        SearchFocusState::Artists => SearchFocusState::Playlists,
        SearchFocusState::Playlists => SearchFocusState::Shows,
        SearchFocusState::Shows => SearchFocusState::Episodes,
        SearchFocusState::Episodes => SearchFocusState::Input,
    }
}

/// The window before `f` in the cycle of the search page.
pub open spec fn search_focus_state_previous(f: SearchFocusState) -> SearchFocusState {
    match f {
        SearchFocusState::Input => SearchFocusState::Episodes,
        SearchFocusState::Tracks => SearchFocusState::Input,
        SearchFocusState::Albums => SearchFocusState::Tracks,
        SearchFocusState::Artists => SearchFocusState::Albums,
        SearchFocusState::Playlists => SearchFocusState::Artists,
        SearchFocusState::Shows => SearchFocusState::Playlists,
        SearchFocusState::Episodes => SearchFocusState::Shows,
    }
}

impl SearchFocusState {
    /// Moves the focus to the next window.
    pub fn next(&mut self)
        ensures
            *final(self) == search_focus_state_next(*old(self)),
    {
        *self = match *self {
            SearchFocusState::Input => SearchFocusState::Tracks,
            SearchFocusState::Tracks => SearchFocusState::Albums,
            SearchFocusState::Albums => SearchFocusState::Artists,
            SearchFocusState::Artists => SearchFocusState::Playlists,
            SearchFocusState::Playlists => SearchFocusState::Shows,
            SearchFocusState::Shows => SearchFocusState::Episodes,
            SearchFocusState::Episodes => SearchFocusState::Input,
        };
    }

    /// Moves the focus to the previous window.
    pub fn previous(&mut self)
        ensures
            *final(self) == search_focus_state_previous(*old(self)),
    {
        *self = match *self {
            SearchFocusState::Input => SearchFocusState::Episodes,
            SearchFocusState::Tracks => SearchFocusState::Input,
            SearchFocusState::Albums => SearchFocusState::Tracks,
            SearchFocusState::Artists => SearchFocusState::Albums,
            SearchFocusState::Playlists => SearchFocusState::Artists,
            SearchFocusState::Shows => SearchFocusState::Playlists,
            SearchFocusState::Episodes => SearchFocusState::Shows,
        };
    }
}

/// On the search page, moving the focus back undoes moving it forward and the other
/// way round, and moving it forward through all seven windows comes back to the
/// same window.
pub proof fn law_search_focus_state_cycle(f: SearchFocusState)
    ensures
        search_focus_state_previous(search_focus_state_next(f)) == f,
        search_focus_state_next(search_focus_state_previous(f)) == f,
        search_focus_state_next(search_focus_state_next(search_focus_state_next(search_focus_state_next(search_focus_state_next(search_focus_state_next(search_focus_state_next(f))))))) == f,
{
}

} // verus!
