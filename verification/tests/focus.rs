use spotify_player::focus::{ArtistFocusState, LibraryFocusState, SearchFocusState};

#[test]
fn library_focus_cycles_through_three_windows() {
    let mut f = LibraryFocusState::Playlists;
    f.next();
    assert_eq!(f, LibraryFocusState::SavedAlbums);
    f.next();
    assert_eq!(f, LibraryFocusState::FollowedArtists);
    f.next();
    assert_eq!(f, LibraryFocusState::Playlists);
    f.previous();
    assert_eq!(f, LibraryFocusState::FollowedArtists);
}

#[test]
fn artist_and_search_focus_wrap_around() {
    let mut a = ArtistFocusState::TopTracks;
    a.previous();
    assert_eq!(a, ArtistFocusState::RelatedArtists);
    let mut s = SearchFocusState::Episodes;
    s.next();
    assert_eq!(s, SearchFocusState::Input);
    for _ in 0..7 {
        s.next();
    }
    assert_eq!(s, SearchFocusState::Input);
}
