use spotify_player::key::{Key, KeyCode, KeySequence};
use spotify_player::client_request::{ClientRequest, PlayerRequest};
use spotify_player::global_command::NewPage;
use spotify_player::model::ContextId;
use spotify_player::command::{Action, Command};
use spotify_player::item_action::ActionContext;
use spotify_player::library::UserData;
use spotify_player::model::ItemId;
use spotify_player::popup::{
    digit_action_choice, edit_search_query, handle_command_for_command_help_popup, handle_command_for_list_popup,
    handle_command_for_popup_list, handle_command_for_queue_popup, handle_nth_action, ListPopupKind, ListPopupStep,
    PopupUi, ScrollStep,
};
use spotify_player::tracks::Artist;

fn keys(keys: Vec<Key>) -> KeySequence {
    KeySequence { keys }
}

#[test]
fn typing_and_backspace_edit_the_query() {
    let mut query = String::from("ab");
    assert!(edit_search_query(&mut query, &keys(vec![Key::NoModifier(KeyCode::Char('é'))])));
    assert_eq!(query, "abé");
    assert!(edit_search_query(&mut query, &keys(vec![Key::NoModifier(KeyCode::Backspace)])));
    assert_eq!(query, "ab");
    let mut empty = String::new();
    assert!(edit_search_query(&mut empty, &keys(vec![Key::NoModifier(KeyCode::Backspace)])));
    assert_eq!(empty, "");
    assert!(!edit_search_query(&mut query, &keys(vec![Key::Ctrl(KeyCode::Char('a'))])));
    assert!(!edit_search_query(
        &mut query,
        &keys(vec![Key::NoModifier(KeyCode::Char('g')), Key::NoModifier(KeyCode::Char('a'))])
    ));
    assert_eq!(query, "ab");
}

#[test]
fn digits_choose_an_action() {
    let k = |c| keys(vec![Key::NoModifier(KeyCode::Char(c))]);
    assert_eq!(digit_action_choice(&k('0'), 3), Some(0));
    assert_eq!(digit_action_choice(&k('2'), 3), Some(2));
    assert_eq!(digit_action_choice(&k('3'), 3), None);
    assert_eq!(digit_action_choice(&k('x'), 3), None);
    assert_eq!(digit_action_choice(&keys(vec![]), 3), None);
}

#[test]
fn list_popup_moves_within_the_list() {
    assert_eq!(handle_command_for_list_popup(Command::SelectNextOrScrollDown, 0, 3), ListPopupStep::Moved(1));
    assert_eq!(handle_command_for_list_popup(Command::SelectNextOrScrollDown, 2, 3), ListPopupStep::Stayed);
    assert_eq!(handle_command_for_list_popup(Command::SelectPreviousOrScrollUp, 0, 3), ListPopupStep::Stayed);
    assert_eq!(handle_command_for_list_popup(Command::SelectPreviousOrScrollUp, 2, 3), ListPopupStep::Moved(1));
    assert_eq!(handle_command_for_list_popup(Command::ChooseSelected, 2, 3), ListPopupStep::Chosen(2));
    assert_eq!(handle_command_for_list_popup(Command::ChooseSelected, 0, 0), ListPopupStep::Stayed);
    assert_eq!(handle_command_for_list_popup(Command::ClosePopup, 0, 0), ListPopupStep::Closed);
    assert_eq!(handle_command_for_list_popup(Command::Search, 0, 3), ListPopupStep::NotHandled);
}

#[test]
fn help_and_queue_popups_scroll() {
    assert_eq!(handle_command_for_command_help_popup(Command::SelectNextOrScrollDown, 3, 10), ScrollStep::Scrolled(4));
    assert_eq!(handle_command_for_command_help_popup(Command::PageSelectNextOrScrollDown, 3, 10), ScrollStep::Scrolled(13));
    assert_eq!(handle_command_for_command_help_popup(Command::PageSelectPreviousOrScrollUp, 3, 10), ScrollStep::Scrolled(0));
    assert_eq!(handle_command_for_command_help_popup(Command::SelectLastOrScrollToBottom, 3, 10), ScrollStep::Scrolled(1024));
    assert_eq!(handle_command_for_command_help_popup(Command::SelectFirstOrScrollToTop, 3, 10), ScrollStep::Scrolled(0));
    assert_eq!(handle_command_for_command_help_popup(Command::ClosePopup, 3, 10), ScrollStep::Closed);
    assert_eq!(handle_command_for_queue_popup(Command::SelectPreviousOrScrollUp, 0), ScrollStep::Scrolled(0));
    assert_eq!(handle_command_for_queue_popup(Command::SelectNextOrScrollDown, 0), ScrollStep::Scrolled(1));
    assert_eq!(handle_command_for_queue_popup(Command::ChooseSelected, 0), ScrollStep::NotHandled);
}

#[test]
fn the_nth_action_is_the_one_chosen() {
    let data = UserData {
        user_id: None,
        playlists: vec![],
        followed_artists: vec![],
        saved_shows: vec![],
        saved_albums: vec![],
        saved_tracks: vec![],
    };
    let artist = Artist { id: "a1".to_string(), name: "A".to_string() };
    let item = ActionContext::Artist(artist);
    let actions = vec![Action::GoToRadio, Action::CopyLink, Action::Follow];
    let r = handle_nth_action(1, &item, &actions, &data, &None);
    assert_eq!(r.copy.as_deref(), Some("https://open.spotify.com/artist/a1"));
    let r = handle_nth_action(2, &item, &actions, &data, &None);
    assert!(matches!(r.request, Some(ClientRequest::AddToLibrary(ItemId::Artist(ref i))) if i == "a1"));
}

fn items() -> Vec<(String, String)> {
    vec![("a1".to_string(), "One".to_string()), ("a2".to_string(), "Two".to_string())]
}

#[test]
fn choosing_in_list_popups() {
    let r = handle_command_for_popup_list(&ListPopupKind::ArtistsToBrowse, Command::ChooseSelected, 1, &items());
    assert!(r.handled);
    assert!(matches!(r.ui, PopupUi::OpenPage(NewPage::Browsing(ContextId::Artist(ref id))) if id == "a2"));
    let r = handle_command_for_popup_list(&ListPopupKind::Devices { is_playing: true }, Command::ChooseSelected, 0, &items());
    assert!(matches!(r.ui, PopupUi::Close));
    assert!(matches!(r.request, Some(ClientRequest::Player(PlayerRequest::TransferPlayback(ref d, true))) if d == "a1"));
    let r = handle_command_for_popup_list(
        &ListPopupKind::PlaylistsToAddTrack("spotify:track:t".to_string()),
        Command::ChooseSelected,
        1,
        &items(),
    );
    assert!(matches!(r.request, Some(ClientRequest::AddPlayableToPlaylist(ref p, ref t)) if p == "a2" && t == "spotify:track:t"));
    let r = handle_command_for_popup_list(&ListPopupKind::ArtistsForRadio, Command::ChooseSelected, 0, &items());
    assert!(matches!(r.request, Some(ClientRequest::GetRadioTracks { ref seed_uri, ref seed_name }) if seed_uri == "spotify:artist:a1" && seed_name == "One"));
}

#[test]
fn theme_list_previews_and_restores() {
    let r = handle_command_for_popup_list(&ListPopupKind::Themes, Command::SelectNextOrScrollDown, 0, &items());
    assert!(matches!(r.ui, PopupUi::PreviewTheme(1)));
    let r = handle_command_for_popup_list(&ListPopupKind::Themes, Command::ClosePopup, 1, &items());
    assert!(matches!(r.ui, PopupUi::RestoreFirstTheme));
    let r = handle_command_for_popup_list(&ListPopupKind::SavedAlbums, Command::ClosePopup, 1, &items());
    assert!(matches!(r.ui, PopupUi::Close));
    let r = handle_command_for_popup_list(&ListPopupKind::SavedAlbums, Command::Search, 1, &items());
    assert!(!r.handled);
}
