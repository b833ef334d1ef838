use spotify_player::client_request::ClientRequest;
use spotify_player::command::Action;
use spotify_player::contexts::{Episode, Playlist, Show};
use spotify_player::global_command::NewPage;
use spotify_player::item_action::{handle_action_in_context, ActionContext, ActionUi};
use spotify_player::library::UserData;
use spotify_player::model::{ContextId, ItemId};
use spotify_player::tracks::{Album, Artist, Track};

fn artist(id: &str) -> Artist {
    Artist { id: id.to_string(), name: format!("name-{id}") }
}

fn album(id: &str, artists: Vec<Artist>) -> Album {
    Album { id: id.to_string(), release_date: "2020".to_string(), name: format!("album-{id}"), artists, added_at: 0 }
}

fn track(id: &str, artists: Vec<Artist>, album: Option<Album>) -> Track {
    Track {
        id: id.to_string(),
        name: format!("song-{id}"),
        artists,
        album,
        duration_ms: 1000,
        explicit: false,
        added_at: 0,
    }
}

fn playlist(id: &str) -> Playlist {
    Playlist {
        id: id.to_string(),
        collaborative: false,
        name: format!("list-{id}"),
        owner: ("Owner".to_string(), "owner".to_string()),
        desc: String::new(),
        current_folder_id: 0,
        snapshot_id: "s".to_string(),
    }
}

fn library() -> UserData {
    let mut data = UserData {
        user_id: Some("me".to_string()),
        playlists: vec![],
        followed_artists: vec![artist("followed")],
        saved_shows: vec![Show { id: "show1".to_string(), name: "Talk".to_string() }],
        saved_albums: vec![album("saved", vec![])],
        saved_tracks: vec![],
    };
    data.save_track(track("liked", vec![], None));
    data.add_playlist(playlist("mine"));
    data
}

#[test]
fn offered_actions_follow_the_library() {
    let data = library();
    let liked = ActionContext::Track(track("liked", vec![], None)).get_available_actions(&data);
    assert_eq!(liked.last(), Some(&Action::DeleteFromLiked));
    let other = ActionContext::Track(track("x", vec![], None)).get_available_actions(&data);
    assert_eq!(other.last(), Some(&Action::AddToLiked));
    let a = ActionContext::Artist(artist("followed")).get_available_actions(&data);
    assert_eq!(a, vec![Action::GoToRadio, Action::CopyLink, Action::Unfollow]);
    let p = ActionContext::Playlist(playlist("other")).get_available_actions(&data);
    assert_eq!(p, vec![Action::GoToRadio, Action::CopyLink, Action::AddToLibrary]);
    let p = ActionContext::Playlist(playlist("mine")).get_available_actions(&data);
    assert_eq!(p.last(), Some(&Action::DeleteFromLibrary));
    let s = ActionContext::Show(Show { id: "show1".to_string(), name: "Talk".to_string() }).get_available_actions(&data);
    assert_eq!(s, vec![Action::CopyLink, Action::DeleteFromLibrary]);
    let e = Episode {
        id: "e".to_string(),
        name: "Ep".to_string(),
        description: String::new(),
        duration_ms: 1,
        show: None,
        release_date: String::new(),
    };
    assert_eq!(
        ActionContext::Episode(e).get_available_actions(&data),
        vec![Action::CopyLink, Action::AddToPlaylist, Action::AddToQueue]
    );
    let al = ActionContext::Album(album("saved", vec![])).get_available_actions(&data);
    assert_eq!(al.len(), 6);
    assert_eq!(al.last(), Some(&Action::DeleteFromLibrary));
}

#[test]
fn going_to_the_artist_depends_on_how_many_there_are() {
    let data = library();
    let one = ActionContext::Track(track("t", vec![artist("a1")], None));
    match handle_action_in_context(Action::GoToArtist, &one, &data, &None).ui {
        ActionUi::OpenPage(NewPage::Browsing(ContextId::Artist(id))) => assert_eq!(id, "a1"),
        other => panic!("unexpected {other:?}"),
    }
    let two = ActionContext::Track(track("t", vec![artist("a1"), artist("a2")], None));
    assert!(matches!(
        handle_action_in_context(Action::GoToArtist, &two, &data, &None).ui,
        ActionUi::ArtistList { browse: true }
    ));
    assert!(matches!(
        handle_action_in_context(Action::ShowActionsOnArtist, &two, &data, &None).ui,
        ActionUi::ArtistList { browse: false }
    ));
    let followed = ActionContext::Album(album("x", vec![artist("followed")]));
    match handle_action_in_context(Action::ShowActionsOnArtist, &followed, &data, &None).ui {
        ActionUi::ArtistActions { actions } => assert_eq!(actions.last(), Some(&Action::Unfollow)),
        other => panic!("unexpected {other:?}"),
    }
}

#[test]
fn track_actions_send_requests_and_close_the_popup() {
    let data = library();
    let t = ActionContext::Track(track("t1", vec![], Some(album("al", vec![]))));
    let r = handle_action_in_context(Action::AddToQueue, &t, &data, &None);
    assert!(r.close_popup);
    assert!(matches!(r.request, Some(ClientRequest::AddPlayableToQueue(ref u)) if u == "spotify:track:t1"));
    let r = handle_action_in_context(Action::ToggleLiked, &t, &data, &None);
    assert!(matches!(r.request, Some(ClientRequest::AddToLibrary(ItemId::Track(ref i))) if i == "t1"));
    let liked = ActionContext::Track(track("liked", vec![], None));
    let r = handle_action_in_context(Action::ToggleLiked, &liked, &data, &None);
    assert!(matches!(r.request, Some(ClientRequest::DeleteFromLibrary(ItemId::Track(ref i))) if i == "liked"));
    let r = handle_action_in_context(Action::CopyLink, &t, &data, &None);
    assert_eq!(r.copy.as_deref(), Some("https://open.spotify.com/track/t1"));
    assert!(r.close_popup);
    match handle_action_in_context(Action::GoToAlbum, &t, &data, &None).ui {
        ActionUi::OpenPage(NewPage::Browsing(ContextId::Album(id))) => assert_eq!(id, "al"),
        other => panic!("unexpected {other:?}"),
    }
    let r = handle_action_in_context(Action::AddToPlaylist, &t, &data, &None);
    assert!(matches!(r.ui, ActionUi::PlaylistPicker { ref track_id } if track_id == "t1"));
    assert!(matches!(r.request, Some(ClientRequest::GetUserPlaylists)));
}

#[test]
fn deleting_from_a_playlist_needs_a_playlist_page() {
    let data = library();
    let t = ActionContext::Track(track("t1", vec![], None));
    let r = handle_action_in_context(Action::DeleteFromPlaylist, &t, &data, &Some("pl".to_string()));
    assert!(matches!(r.request, Some(ClientRequest::DeleteTrackFromPlaylist(ref p, ref i)) if p == "pl" && i == "t1"));
    assert!(r.close_popup);
    let r = handle_action_in_context(Action::DeleteFromPlaylist, &t, &data, &None);
    assert!(r.request.is_none());
    assert!(r.close_popup);
}

#[test]
fn radio_opens_a_page_and_asks_for_tracks() {
    let data = library();
    let a = ActionContext::Artist(artist("a9"));
    let r = handle_action_in_context(Action::GoToRadio, &a, &data, &None);
    match r.ui {
        ActionUi::OpenPage(NewPage::Browsing(ContextId::Tracks(id))) => {
            assert_eq!(id.uri, "radio:spotify:artist:a9");
            assert_eq!(id.kind, "Recommendations");
        }
        other => panic!("unexpected {other:?}"),
    }
    match r.request {
        Some(ClientRequest::GetRadioTracks { seed_uri, seed_name }) => {
            assert_eq!(seed_uri, "spotify:artist:a9");
            assert_eq!(seed_name, "name-a9");
        }
        other => panic!("unexpected {other:?}"),
    }
}

#[test]
fn library_actions_on_albums_artists_and_playlists() {
    let data = library();
    let r = handle_action_in_context(Action::AddToQueue, &ActionContext::Album(album("al", vec![])), &data, &None);
    assert!(matches!(r.request, Some(ClientRequest::AddAlbumToQueue(ref i)) if i == "al"));
    let r = handle_action_in_context(Action::Follow, &ActionContext::Artist(artist("a")), &data, &None);
    assert!(matches!(r.request, Some(ClientRequest::AddToLibrary(ItemId::Artist(ref i))) if i == "a"));
    let r = handle_action_in_context(Action::DeleteFromLibrary, &ActionContext::Playlist(playlist("p")), &data, &None);
    assert!(matches!(r.request, Some(ClientRequest::DeleteFromLibrary(ItemId::Playlist(ref i))) if i == "p"));
    let r = handle_action_in_context(Action::Follow, &ActionContext::Playlist(playlist("p")), &data, &None);
    assert!(r.request.is_none());
    assert!(!r.close_popup);
    assert!(matches!(r.ui, ActionUi::Unchanged));
}
