use spotify_player::client_request::ClientRequest;
use spotify_player::command::Command;
use spotify_player::focus::{ArtistFocusState, LibraryFocusState, SearchFocusState};
use spotify_player::list_window::ListItemKind;
use spotify_player::model::{Category, ContextId};
use spotify_player::page_command::{
    handle_command_for_category_list, handle_command_for_category_playlist_list,
    handle_command_for_focused_context_window, handle_command_for_scroll_page, page_command_route,
    search_input_submit, BrowseEffect, ContextKind, ContextWindowRoute, PageKind, PageRoute,
};

#[test]
fn pages_route_commands_to_their_focused_window() {
    assert_eq!(
        page_command_route(PageKind::Library(LibraryFocusState::SavedAlbums), Command::ChooseSelected),
        PageRoute::ListWindow(ListItemKind::Album)
    );
    assert_eq!(
        page_command_route(PageKind::Library(LibraryFocusState::Playlists), Command::Search),
        PageRoute::SearchPopup
    );
    assert_eq!(
        page_command_route(PageKind::Search(SearchFocusState::Artists), Command::ChooseSelected),
        PageRoute::ListWindow(ListItemKind::Artist)
    );
    assert_eq!(
        page_command_route(PageKind::Search(SearchFocusState::Input), Command::ChooseSelected),
        PageRoute::SearchInput
    );
    assert_eq!(
        page_command_route(PageKind::Search(SearchFocusState::Shows), Command::ChooseSelected),
        PageRoute::NotHandled
    );
    assert_eq!(page_command_route(PageKind::Context, Command::Search), PageRoute::SearchPopup);
    assert_eq!(page_command_route(PageKind::Context, Command::ChooseSelected), PageRoute::ContextWindow);
    assert_eq!(page_command_route(PageKind::Queue, Command::Search), PageRoute::Scroll);
    assert_eq!(page_command_route(PageKind::CommandHelp, Command::Search), PageRoute::SearchPopup);
    assert_eq!(page_command_route(PageKind::Browse, Command::Search), PageRoute::BrowseList);
}

#[test]
fn context_pages_route_by_context_and_focus() {
    let route = handle_command_for_focused_context_window;
    assert_eq!(
        route(Command::SortTrackByTitle, true, None, ArtistFocusState::TopTracks),
        ContextWindowRoute::ReorderTracks
    );
    assert_eq!(
        route(Command::ReverseTrackOrder, false, None, ArtistFocusState::TopTracks),
        ContextWindowRoute::NotHandled
    );
    assert_eq!(
        route(Command::ChooseSelected, true, Some(ContextKind::Artist), ArtistFocusState::Albums),
        ContextWindowRoute::AlbumList
    );
    assert_eq!(
        route(Command::ChooseSelected, true, Some(ContextKind::Artist), ArtistFocusState::TopTracks),
        ContextWindowRoute::TrackTable { in_context: false }
    );
    assert_eq!(
        route(Command::ChooseSelected, true, Some(ContextKind::Playlist), ArtistFocusState::TopTracks),
        ContextWindowRoute::TrackTable { in_context: true }
    );
    assert_eq!(
        route(Command::ChooseSelected, true, None, ArtistFocusState::TopTracks),
        ContextWindowRoute::NotHandled
    );
}

#[test]
fn browse_page_opens_categories_and_playlists() {
    let categories = vec![
        Category { id: "c1".to_string(), name: "Pop".to_string() },
        Category { id: "c2".to_string(), name: "Jazz".to_string() },
    ];
    match handle_command_for_category_list(Command::ChooseSelected, &categories, 1, 10) {
        BrowseEffect::OpenCategory(c) => {
            assert_eq!(c.id, "c2");
            assert_eq!(c.name, "Jazz");
        }
        other => panic!("unexpected {other:?}"),
    }
    assert!(matches!(
        handle_command_for_category_list(Command::SelectNextOrScrollDown, &categories, 0, 10),
        BrowseEffect::Select(Some(1))
    ));
    assert!(matches!(
        handle_command_for_category_list(Command::ChooseSelected, &categories, 2, 10),
        BrowseEffect::NotHandled
    ));
    let ids = vec!["p1".to_string()];
    match handle_command_for_category_playlist_list(Command::ChooseSelected, &ids, 0, 10) {
        BrowseEffect::OpenPlaylist(ContextId::Playlist(id)) => assert_eq!(id, "p1"),
        other => panic!("unexpected {other:?}"),
    }
    assert!(matches!(
        handle_command_for_category_playlist_list(Command::Search, &ids, 0, 10),
        BrowseEffect::SearchPopup
    ));
}

#[test]
fn scrolled_pages_move_their_offset() {
    assert_eq!(handle_command_for_scroll_page(Command::SelectNextOrScrollDown, 3, 20), (true, Some(4)));
    assert_eq!(handle_command_for_scroll_page(Command::SelectPreviousOrScrollUp, 0, 20), (true, None));
    assert_eq!(handle_command_for_scroll_page(Command::PageSelectNextOrScrollDown, 3, 20), (true, Some(23)));
    assert_eq!(handle_command_for_scroll_page(Command::SelectLastOrScrollToBottom, 3, 20), (true, Some(9999)));
    assert_eq!(handle_command_for_scroll_page(Command::ChooseSelected, 3, 20), (false, None));
}

#[test]
fn enter_searches_for_a_line_that_is_not_empty() {
    assert!(matches!(search_input_submit(&"jazz".to_string()), Some(ClientRequest::Search(ref q)) if q == "jazz"));
    assert!(search_input_submit(&String::new()).is_none());
}
