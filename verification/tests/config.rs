use spotify_player::config::{
    get_token_cache_file_path, Command, DeviceConfig, LayoutConfig, LibraryLayoutConfig, Position,
    StreamingType, StreamingTypeOrBool,
};

#[test]
fn command_holds_displayed_program_and_arguments() {
    let cmd = Command::new("echo", &["hello", "world"]);
    assert_eq!(cmd.command, "echo");
    assert_eq!(cmd.args, vec!["hello".to_string(), "world".to_string()]);
    let numbers = Command::new(String::from("seq"), &[1, 10]);
    assert_eq!(numbers.command, "seq");
    assert_eq!(numbers.args, vec!["1".to_string(), "10".to_string()]);
}

#[test]
fn device_defaults() {
    let d = DeviceConfig::default();
    assert_eq!(d.name, "spotify-player");
    assert_eq!(d.device_type, "speaker");
    assert_eq!(d.volume, 70);
    assert_eq!(d.bitrate, 320);
    assert!(!d.audio_cache && !d.normalization && !d.autoplay);
}

#[test]
fn layout_accepts_at_most_99_percent() {
    let layout = LayoutConfig::default();
    assert_eq!(layout.library.playlist_percent, 40);
    assert_eq!(layout.library.album_percent, 40);
    assert_eq!(layout.playback_window_position, Position::Top);
    assert_eq!(layout.playback_window_height, 6);
    assert!(layout.check_values().is_ok());

    let edge = LayoutConfig {
        library: LibraryLayoutConfig { playlist_percent: 50, album_percent: 49 },
        ..LayoutConfig::default()
    };
    assert!(edge.check_values().is_ok());

    let over = LayoutConfig {
        library: LibraryLayoutConfig { playlist_percent: 50, album_percent: 50 },
        ..LayoutConfig::default()
    };
    assert_eq!(
        over.check_values().unwrap_err(),
        "Invalid library layout: summation of album_percent and playlist_percent cannot be greater than 99!"
    );
}

#[test]
fn streaming_setting_accepts_booleans() {
    assert_eq!(StreamingType::from_setting(StreamingTypeOrBool::Bool(true)), StreamingType::Always);
    assert_eq!(StreamingType::from_setting(StreamingTypeOrBool::Bool(false)), StreamingType::Never);
    assert_eq!(
        StreamingType::from_setting(StreamingTypeOrBool::Type(StreamingType::DaemonOnly)),
        StreamingType::DaemonOnly
    );
    assert_eq!(
        StreamingType::from_setting(StreamingTypeOrBool::Type(StreamingType::Always)),
        StreamingType::Always
    );
}

#[test]
fn token_cache_lives_in_config_folder() {
    let folder = std::path::PathBuf::from("/home/user/.config/spotify-player");
    assert_eq!(
        get_token_cache_file_path(&folder),
        folder.join(".spotify_token_cache.json")
    );
    assert_eq!(
        get_token_cache_file_path(&folder).file_name().unwrap(),
        ".spotify_token_cache.json"
    );
}
