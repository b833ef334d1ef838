use spotify_player::cli::{check_request_size, ContextType, ItemType, MAX_REQUEST_SIZE};

#[test]
fn oversized_user_input_returns_an_error() {
    let error = check_request_size(MAX_REQUEST_SIZE + 10).unwrap_err();

    assert!(error.contains("maximum"));
    assert!(error.contains("shorten"));
    assert_eq!(
        error,
        "CLI request is 4106 bytes, but the maximum is 4096 bytes; shorten the query or text fields"
    );
    assert!(check_request_size(MAX_REQUEST_SIZE).is_ok());
}

#[test]
fn context_types_are_item_types() {
    assert_eq!(ItemType::from(ContextType::Playlist), ItemType::Playlist);
    assert_eq!(ItemType::from(ContextType::Album), ItemType::Album);
    assert_eq!(ItemType::from(ContextType::Artist), ItemType::Artist);
}
