//! Verified core of a terminal Spotify player: request bookkeeping,
//! the app-managed playback queue, key bindings, commands and configuration.

pub mod albums;
pub mod api_routing;
pub mod auth;
pub mod cli;
pub mod cli_playback;
pub mod client_request;
pub mod clipboard;
pub mod clock;
pub mod command;
pub mod config;
pub mod contexts;
pub mod devices;
pub mod diagnostics;
pub mod focus;
pub mod global_command;
pub mod ipc;
pub mod item_action;
pub mod key;
pub mod keymap;
pub mod library;
pub mod list_window;
pub mod lyrics;
pub mod merge;
pub mod model;
pub mod navigation;
pub mod notify;
pub mod page_command;
pub mod player;
pub mod player_control;
pub mod player_events;
pub mod playlist_cli;
pub mod playlist_edit;
pub mod playlist_folders;
pub mod playlist_import;
pub mod popup;
pub mod queue;
pub mod rate_limit;
pub mod request;
pub mod spotify_link;
pub mod text;
pub mod search;
pub mod theme;
pub mod track_table;
pub mod tracks;
pub mod web;

use vstd::prelude::*;

verus! {

} // verus!
