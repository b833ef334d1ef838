//! Application configuration values: layout, device, external commands,
//! streaming mode, and where the token cache lives.

use vstd::prelude::*;
use vstd::string::to_string_from_display_ensures;

verus! {

/// Where the playback window sits.
#[derive(Debug, Clone, Copy, PartialEq, Eq, Structural)]
pub enum Position {
    Top,
    Bottom,
}

/// How window borders are drawn.
#[derive(Debug, Clone, Copy, PartialEq, Eq, Structural)]
pub enum BorderType {
    Hidden,
    Plain,
    Rounded,
    Double,
    Thick,
}

/// How the playback progress bar is drawn.
#[derive(Debug, Clone, Copy, PartialEq, Eq, Structural)]
pub enum ProgressBarType {
    Line,
    Rectangle,
}

/// An external command with its arguments.
#[derive(Debug, Clone)]
pub struct Command {
    pub command: String,
    pub args: Vec<String>,
}

impl Command {
    /// A command whose program and arguments are the displayed forms of
    /// `command` and `args`.
    pub fn new<C: std::fmt::Display, A: std::fmt::Display>(command: C, args: &[A]) -> (r: Self)
        ensures
            to_string_from_display_ensures::<C>(&command, r.command),
            r.args@.len() == args@.len(),
            forall|i: int|
                0 <= i < args@.len() ==> to_string_from_display_ensures::<A>(
                    &args@[i],
                    #[trigger] r.args@[i],
                ),
    {
        let mut out: Vec<String> = Vec::new();
        let mut i: usize = 0;
        while i < args.len()
            invariant
                i <= args@.len(),
                out@.len() == i,
                forall|j: int|
                    0 <= j < i ==> to_string_from_display_ensures::<A>(&args@[j], #[trigger] out@[j]),
            decreases args@.len() - i,
        {
            out.push(args[i].to_string());
            i = i + 1;
        }
        Command { command: command.to_string(), args: out }
    }
}

/// The integrated player device's settings.
#[derive(Debug, Clone)]
pub struct DeviceConfig {
    pub name: String,
    pub device_type: String,
    pub volume: u8,
    pub bitrate: u16,
    pub audio_cache: bool,
    pub normalization: bool,
    pub autoplay: bool,
}

impl Default for DeviceConfig {
    fn default() -> (r: Self)
        ensures
            r.name@ == "spotify-player"@,
            r.device_type@ == "speaker"@,
            r.volume == 70,
            r.bitrate == 320,
            !r.audio_cache,
            !r.normalization,
            !r.autoplay,
    {
        DeviceConfig {
            name: "spotify-player".to_owned(),
            device_type: "speaker".to_owned(),
            volume: 70,
            bitrate: 320,
            audio_cache: false,
            normalization: false,
            autoplay: false,
        }
    }
}

/// The format of desktop notifications.
#[derive(Debug, Clone)]
pub struct NotifyFormat {
    pub summary: String,
    pub body: String,
}

impl Default for NotifyFormat {
    fn default() -> (r: Self)
        ensures
            r.summary@ == "{track} • {artists}"@,
            r.body@ == "{album}"@,
    {
        NotifyFormat { summary: "{track} • {artists}".to_owned(), body: "{album}".to_owned() }
    }
}

/// How much of the library page the playlist and album columns take.
#[derive(Debug, Clone, Copy, PartialEq, Eq, Structural)]
pub struct LibraryLayoutConfig {
    pub playlist_percent: u16,
    pub album_percent: u16,
}

/// The application's layout.
#[derive(Debug, Clone, Copy, PartialEq, Eq, Structural)]
pub struct LayoutConfig {
    pub library: LibraryLayoutConfig,
    pub playback_window_position: Position,
    pub playback_window_height: usize,
}

impl Default for LayoutConfig {
    fn default() -> (r: Self)
        ensures
            r.library == (LibraryLayoutConfig { playlist_percent: 40, album_percent: 40 }),
            r.playback_window_position == Position::Top,
            r.playback_window_height == 6,
    {
        LayoutConfig {
            library: LibraryLayoutConfig { playlist_percent: 40, album_percent: 40 },
            playback_window_position: Position::Top,
            playback_window_height: 6,
        }
    }
}

/// The largest share, in percent, that the playlist and album columns of
/// the library page may take together.
pub const MAX_LIBRARY_PERCENT: u16 = 99;

impl LayoutConfig {
    /// Accepts the layout unless the playlist and album columns of the
    /// library page take more than 99 percent together.
    pub fn check_values(&self) -> (r: Result<(), String>)
        requires
            self.library.album_percent + self.library.playlist_percent <= u16::MAX,
        ensures
            r is Ok <==> self.library.album_percent + self.library.playlist_percent
                <= MAX_LIBRARY_PERCENT,
            r matches Err(message) ==> message@
                == "Invalid library layout: summation of album_percent and playlist_percent cannot be greater than 99!"@,
    {
        if self.library.album_percent + self.library.playlist_percent > MAX_LIBRARY_PERCENT {
            return Err(
                "Invalid library layout: summation of album_percent and playlist_percent cannot be greater than 99!".to_owned(),
            );
        }
        Ok(())
    }
}

/// When the integrated player streams.
#[derive(Debug, Clone, Copy, PartialEq, Eq, Structural)]
pub enum StreamingType {
    Always,
    DaemonOnly,
    Never,
}

/// The streaming setting as written: a mode, or a boolean from older
/// configurations.
#[derive(Debug, Clone, Copy, PartialEq, Eq, Structural)]
pub enum StreamingTypeOrBool {
    Bool(bool),
    Type(StreamingType),
}

impl StreamingType {
    /// The mode a written setting stands for: `true` streams always,
    /// `false` never.
    pub fn from_setting(v: StreamingTypeOrBool) -> (r: Self)
        ensures
            r == (match v {
                StreamingTypeOrBool::Bool(true) => StreamingType::Always,
                StreamingTypeOrBool::Bool(false) => StreamingType::Never,
                StreamingTypeOrBool::Type(t) => t,
            }),
    {
        match v {
            StreamingTypeOrBool::Bool(true) | StreamingTypeOrBool::Type(StreamingType::Always) => {
                StreamingType::Always
            },
            StreamingTypeOrBool::Bool(false) | StreamingTypeOrBool::Type(StreamingType::Never) => {
                StreamingType::Never
            },
            StreamingTypeOrBool::Type(StreamingType::DaemonOnly) => StreamingType::DaemonOnly,
        }
    }
}

/// The Spotify client's credentials.
#[derive(Debug, Clone)]
pub struct ClientConfig {
    pub client_id: String,
    pub client_secret: String,
}

#[verifier::external_type_specification]
#[verifier::external_body]
pub struct ExPathBuf(std::path::PathBuf);

/// What `std::path::PathBuf::join` gives for a base path and a relative
/// or absolute path written as text.
pub uninterp spec fn joined_path(base: std::path::PathBuf, name: Seq<char>) -> std::path::PathBuf;

/// Joins `name` to `base` with `std::path::Path::join`; the result is named,
/// not stated.
#[verifier::external_body]
fn join_path(base: &std::path::PathBuf, name: &str) -> (r: std::path::PathBuf)
    ensures
        r == joined_path(*base, name@),
{
    base.join(name)
}

/// The name of the authentication token cache file.
pub const TOKEN_CACHE_FILE: &'static str = ".spotify_token_cache.json";

/// The token cache file in the configuration folder.
pub fn get_token_cache_file_path(config_folder: &std::path::PathBuf) -> (r: std::path::PathBuf)
    ensures
        r == joined_path(*config_folder, TOKEN_CACHE_FILE@),
{
    join_path(config_folder, TOKEN_CACHE_FILE)
}

} // verus!
