use spotify_player::command::{Action, ActionTarget, Command, CommandOrAction};
use spotify_player::key::{Key, KeyCode, KeySequence};
use spotify_player::keymap::{ActionMap, Keymap, KeymapConfig};

fn seq(s: &str) -> KeySequence {
    KeySequence::from_str(s).expect("valid key sequence")
}

fn default_table() -> Vec<(&'static str, Command)> {
    vec![
        ("n", Command::NextTrack),
        ("p", Command::PreviousTrack),
        (".", Command::PlayRandom),
        ("space", Command::ResumePause),
        ("C-r", Command::Repeat),
        ("M-r", Command::ToggleFakeTrackRepeatMode),
        ("C-s", Command::Shuffle),
        ("+", Command::VolumeChange { offset: 5 }),
        ("-", Command::VolumeChange { offset: -5 }),
        ("_", Command::Mute),
        (">", Command::SeekForward),
        ("<", Command::SeekBackward),
        ("enter", Command::ChooseSelected),
        ("r", Command::RefreshPlayback),
        ("/", Command::Search),
        ("z", Command::Queue),
        ("C-z", Command::AddSelectedItemToQueue),
        ("Z", Command::AddSelectedItemToQueue),
        ("C-space", Command::ShowActionsOnSelectedItem),
        ("g a", Command::ShowActionsOnSelectedItem),
        ("a", Command::ShowActionsOnCurrentTrack),
        ("R", Command::RestartIntegratedClient),
        ("tab", Command::FocusNextWindow),
        ("backtab", Command::FocusPreviousWindow),
        ("T", Command::SwitchTheme),
        ("D", Command::SwitchDevice),
        ("u p", Command::BrowseUserPlaylists),
        ("u a", Command::BrowseUserFollowedArtists),
        ("u A", Command::BrowseUserSavedAlbums),
        ("g space", Command::CurrentlyPlayingContextPage),
        ("g t", Command::TopTrackPage),
        ("g r", Command::RecentlyPlayedTrackPage),
        ("g y", Command::LikedTrackPage),
        ("g L", Command::LyricsPage),
        ("l", Command::LyricsPage),
        ("g l", Command::LibraryPage),
        ("g s", Command::SearchPage),
        ("g b", Command::BrowsePage),
        ("backspace", Command::PreviousPage),
        ("C-q", Command::PreviousPage),
        ("O", Command::OpenSpotifyLinkFromClipboard),
        ("?", Command::OpenCommandHelp),
        ("C-h", Command::OpenCommandHelp),
        ("q", Command::Quit),
        ("C-c", Command::Quit),
        ("esc", Command::ClosePopup),
        ("j", Command::SelectNextOrScrollDown),
        ("C-n", Command::SelectNextOrScrollDown),
        ("down", Command::SelectNextOrScrollDown),
        ("k", Command::SelectPreviousOrScrollUp),
        ("C-p", Command::SelectPreviousOrScrollUp),
        ("up", Command::SelectPreviousOrScrollUp),
        ("page_up", Command::PageSelectPreviousOrScrollUp),
        ("C-b", Command::PageSelectPreviousOrScrollUp),
        ("page_down", Command::PageSelectNextOrScrollDown),
        ("C-f", Command::PageSelectNextOrScrollDown),
        ("g g", Command::SelectFirstOrScrollToTop),
        ("home", Command::SelectFirstOrScrollToTop),
        ("G", Command::SelectLastOrScrollToBottom),
        ("end", Command::SelectLastOrScrollToBottom),
        ("s t", Command::SortTrackByTitle),
        ("s a", Command::SortTrackByArtists),
        ("s A", Command::SortTrackByAlbum),
        ("s d", Command::SortTrackByDuration),
        ("s D", Command::SortTrackByAddedDate),
        ("s r", Command::ReverseTrackOrder),
        ("C-k", Command::MovePlaylistItemUp),
        ("C-j", Command::MovePlaylistItemDown),
        ("N", Command::CreatePlaylist),
        ("g c", Command::JumpToCurrentTrackInContext),
    ]
}

#[test]
fn default_bindings_match_their_written_form() {
    let config = KeymapConfig::default();
    let table = default_table();
    assert_eq!(config.keymaps.len(), table.len());
    assert!(config.actions.is_empty());
    for (keymap, (text, command)) in config.keymaps.iter().zip(table.iter()) {
        assert!(keymap.key_sequence.same_keys(&seq(text)), "{text}");
        assert_eq!(keymap.command, *command, "{text}");
        assert_eq!(keymap.key_sequence.to_text(), *text);
    }
}

#[test]
fn default_bindings_bind_each_key_sequence_once() {
    let config = KeymapConfig::default();
    for (i, a) in config.keymaps.iter().enumerate() {
        for b in config.keymaps.iter().skip(i + 1) {
            assert!(!a.key_sequence.same_keys(&b.key_sequence));
        }
    }
}

#[test]
fn finds_command_of_default_key_sequence() {
    let config = KeymapConfig::default();
    assert_eq!(
        config.find_command_from_key_sequence(&seq("n")),
        Some(Command::NextTrack)
    );
    assert_eq!(
        config.find_command_from_key_sequence(&seq("g a")),
        Some(Command::ShowActionsOnSelectedItem)
    );
    assert_eq!(
        config.find_command_from_key_sequence(&seq("-")),
        Some(Command::VolumeChange { offset: -5 })
    );
    assert_eq!(config.find_command_from_key_sequence(&seq("g")), None);
    assert_eq!(config.find_command_from_key_sequence(&seq("x")), None);
}

#[test]
fn prefix_lookup_lists_bindings_starting_with_prefix() {
    let config = KeymapConfig::default();
    let matched = config.find_matched_prefix_keymaps(&seq("u"));
    let commands: Vec<Command> = matched.iter().map(|k| k.command).collect();
    assert_eq!(
        commands,
        vec![
            Command::BrowseUserPlaylists,
            Command::BrowseUserFollowedArtists,
            Command::BrowseUserSavedAlbums
        ]
    );
    assert!(config.has_matched_prefix(&seq("g")));
    assert!(config.has_matched_prefix(&seq("s t")));
    assert!(!config.has_matched_prefix(&seq("x")));
    assert!(config.find_matched_prefix_actions(&seq("g")).is_empty());
}

#[test]
fn disabled_binding_runs_no_command_and_is_hidden() {
    let mut config = KeymapConfig::default();
    config.keymaps.insert(
        0,
        Keymap {
            key_sequence: seq("n"),
            command: Command::NoOp,
        },
    );
    assert!(!config.keymaps[0].include_in_help_screen());
    assert!(config.keymaps[1].include_in_help_screen());
    // the disabling binding comes first, the next binding of `n` still answers
    assert_eq!(
        config.find_command_from_key_sequence(&seq("n")),
        Some(Command::NextTrack)
    );
}

#[test]
fn action_binding_is_found_after_commands() {
    let mut config = KeymapConfig::default();
    config.actions.push(ActionMap {
        key_sequence: seq("C-l"),
        target: ActionTarget::PlayingTrack,
        action: Action::ToggleLiked,
    });
    config.actions.push(ActionMap {
        key_sequence: seq("n"),
        target: ActionTarget::default(),
        action: Action::CopyLink,
    });
    assert_eq!(
        config.find_action_from_key_sequence(&seq("C-l")),
        Some((Action::ToggleLiked, ActionTarget::PlayingTrack))
    );
    assert_eq!(
        config.find_command_or_action_from_key_sequence(&seq("C-l")),
        Some(CommandOrAction::Action(Action::ToggleLiked, ActionTarget::PlayingTrack))
    );
    // a command binding wins over an action binding of the same keys
    assert_eq!(
        config.find_command_or_action_from_key_sequence(&seq("n")),
        Some(CommandOrAction::Command(Command::NextTrack))
    );
    assert_eq!(config.find_command_or_action_from_key_sequence(&seq("C-x")), None);
    assert_eq!(config.find_matched_prefix_actions(&seq("C-l")).len(), 1);
}

#[test]
fn user_bindings_replace_defaults_of_the_same_keys() {
    let mut config = KeymapConfig::default();
    let defaults = config.keymaps.len();
    let user = KeymapConfig {
        keymaps: vec![
            Keymap {
                key_sequence: seq("n"),
                command: Command::Quit,
            },
            Keymap {
                key_sequence: seq("C-x"),
                command: Command::Mute,
            },
        ],
        actions: vec![ActionMap {
            key_sequence: seq("C-l"),
            target: ActionTarget::SelectedItem,
            action: Action::AddToLiked,
        }],
    };
    config.merge_user_config(user);
    // the user's bindings come first, then every default whose keys they left free
    assert_eq!(config.keymaps.len(), defaults + 1);
    assert_eq!(config.keymaps[0].command, Command::Quit);
    assert_eq!(config.keymaps[1].command, Command::Mute);
    assert_eq!(config.keymaps[2].command, Command::PreviousTrack);
    assert_eq!(
        config.find_command_from_key_sequence(&seq("n")),
        Some(Command::Quit)
    );
    assert_eq!(
        config.find_command_from_key_sequence(&seq("p")),
        Some(Command::PreviousTrack)
    );
    assert_eq!(config.actions.len(), 1);
    assert_eq!(
        config.find_action_from_key_sequence(&seq("C-l")),
        Some((Action::AddToLiked, ActionTarget::SelectedItem))
    );
}

#[test]
fn key_sequence_of_keys_written_as_text() {
    let s = KeySequence {
        keys: vec![Key::Ctrl(KeyCode::Char('x')), Key::NoModifier(KeyCode::Enter)],
    };
    assert_eq!(s.to_text(), "C-x enter");
}

#[test]
fn typed_keys_reset_when_no_binding_starts_with_them() {
    let config = KeymapConfig::default();
    let g = Key::NoModifier(KeyCode::Char('g'));
    let a = Key::NoModifier(KeyCode::Char('a'));
    let x = Key::NoModifier(KeyCode::Char('x'));
    let empty = KeySequence { keys: vec![] };
    let typed = config.extend_key_sequence(&empty, g);
    assert_eq!(typed.keys, vec![g]);
    let typed = config.extend_key_sequence(&typed, a);
    assert_eq!(typed.keys, vec![g, a]);
    assert_eq!(
        config.find_command_from_key_sequence(&typed),
        Some(Command::ShowActionsOnSelectedItem)
    );
    let typed = config.extend_key_sequence(&seq("g"), x);
    assert_eq!(typed.keys, vec![x]);
    assert!(spotify_player::keymap::pending_after(true, typed.clone()).keys.is_empty());
    assert_eq!(spotify_player::keymap::pending_after(false, typed).keys, vec![x]);
}

#[test]
fn default_commands_have_distinct_descriptions() {
    let commands: Vec<Command> = default_table().into_iter().map(|(_, c)| c).collect();
    for (i, a) in commands.iter().enumerate() {
        assert!(!a.desc().is_empty());
        for b in &commands[i + 1..] {
            if a != b {
                assert_ne!(a.desc(), b.desc());
            }
        }
    }
    assert_eq!(Command::VolumeChange { offset: -5 }.desc(), "change playback volume by -5");
    assert_ne!(
        Command::VolumeChange { offset: 5 }.desc(),
        Command::VolumeChange { offset: 50 }.desc()
    );
}
