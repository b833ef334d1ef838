//! The application's commands and the actions offered on items.

use vstd::prelude::*;

use crate::text::push_char;

verus! {

/// An application command.
#[derive(Copy, Clone, Debug, PartialEq, Eq, Structural, PartialOrd, Ord, Hash)]
pub enum Command {
    NoOp,
    NextTrack,
    PreviousTrack,
    ResumePause,
    PlayRandom,
    Repeat,
    ToggleFakeTrackRepeatMode,
    Shuffle,
    VolumeChange { offset: i32 },
    Mute,
    SeekForward,
    SeekBackward,
    Quit,
    OpenCommandHelp,
    ClosePopup,
    SelectNextOrScrollDown,
    SelectPreviousOrScrollUp,
    PageSelectNextOrScrollDown,
    PageSelectPreviousOrScrollUp,
    SelectFirstOrScrollToTop,
    SelectLastOrScrollToBottom,
    JumpToCurrentTrackInContext,
    ChooseSelected,
    RefreshPlayback,
    RestartIntegratedClient,
    FocusNextWindow,
    FocusPreviousWindow,
    SwitchTheme,
    SwitchDevice,
    Search,
    Queue,
    ShowActionsOnSelectedItem,
    ShowActionsOnCurrentTrack,
    AddSelectedItemToQueue,
    BrowseUserPlaylists,
    BrowseUserFollowedArtists,
    BrowseUserSavedAlbums,
    CurrentlyPlayingContextPage,
    TopTrackPage,
    RecentlyPlayedTrackPage,
    LikedTrackPage,
    LyricsPage,
    LibraryPage,
    SearchPage,
    BrowsePage,
    PreviousPage,
    OpenSpotifyLinkFromClipboard,
    SortTrackByTitle,
    SortTrackByArtists,
    SortTrackByAlbum,
    SortTrackByDuration,
    SortTrackByAddedDate,
    ReverseTrackOrder,
    MovePlaylistItemUp,
    MovePlaylistItemDown,
    CreatePlaylist,
}

/// An action on an item.
#[derive(Clone, Copy, Debug, PartialEq, Eq, Structural)]
pub enum Action {
    GoToArtist,
    GoToAlbum,
    GoToRadio,
    GoToShow,
    AddToLibrary,
    AddToPlaylist,
    AddToQueue,
    AddToLiked,
    DeleteFromLiked,
    DeleteFromLibrary,
    DeleteFromPlaylist,
    ShowActionsOnAlbum,
    ShowActionsOnArtist,
    ShowActionsOnShow,
    ToggleLiked,
    CopyLink,
    Follow,
    Unfollow,
}

/// The item an action applies to.
#[derive(Debug, PartialEq, Eq, Structural, Clone, Copy)]
pub enum ActionTarget {
    PlayingTrack,
    SelectedItem,
}

impl Default for ActionTarget {
    fn default() -> (r: Self)
        ensures
            r == ActionTarget::SelectedItem,
    {
        ActionTarget::SelectedItem
    }
}

/// A command, or an action with its target.
#[derive(Debug, PartialEq, Eq, Structural, Clone, Copy)]
pub enum CommandOrAction {
    Command(Command),
    Action(Action, ActionTarget),
}

/// The decimal digits of `n`.
pub open spec fn decimal_digits(n: nat) -> Seq<char>
    decreases n,
{
    if n < 10 {
        seq![digit_char(n)]
    } else {
        decimal_digits(n / 10).push(digit_char(n % 10))
    }
}

/// The character of the digit `d`.
pub open spec fn digit_char(d: nat) -> char {
    if d == 0 {
        '0'
    } else if d == 1 {
        '1'
    } else if d == 2 {
        '2'
    } else if d == 3 {
        '3'
    } else if d == 4 {
        '4'
    } else if d == 5 {
        '5'
    } else if d == 6 {
        '6'
    } else if d == 7 {
        '7'
    } else if d == 8 {
        '8'
    } else {
        '9'
    }
}

/// The decimal representation of `n`, with a minus sign when negative.
pub open spec fn decimal(n: int) -> Seq<char> {
    if n < 0 {
        seq!['-'] + decimal_digits((-n) as nat)
    } else {
        decimal_digits(n as nat)
    }
}

fn digit(d: u64) -> (c: char)
    requires
        d < 10,
    ensures
        c == digit_char(d as nat),
{
    match d {
        0 => '0',
        1 => '1',
        2 => '2',
        3 => '3',
        4 => '4',
        5 => '5',
        6 => '6',
        7 => '7',
        8 => '8',
        _ => '9',
    }
}

/// Appends the decimal digits of `n` to `s`.
pub fn push_decimal_digits(s: &mut String, n: u64)
    ensures
        final(s)@ == old(s)@ + decimal_digits(n as nat),
    decreases n,
{
    if n >= 10 {
        push_decimal_digits(s, n / 10);
    }
    push_char(s, digit(n % 10));
}

/// Appends the decimal representation of `n` to `s`.
pub fn push_decimal(s: &mut String, n: i64)
    requires
        n > i64::MIN,
    ensures
        final(s)@ == old(s)@ + decimal(n as int),
{
    if n < 0 {
        push_char(s, '-');
        push_decimal_digits(s, (-n) as u64);
        assert(final(s)@ =~= old(s)@ + decimal(n as int));
    } else {
        push_decimal_digits(s, n as u64);
    }
}

/// The description of a command, as shown on the help page.
pub open spec fn command_desc(c: Command) -> Seq<char> {
    match c {
        Command::VolumeChange { offset } => "change playback volume by "@ + decimal(offset as int),
        Command::NoOp => "do nothing"@,
        Command::NextTrack => "next track"@,
        Command::PreviousTrack => "previous track"@,
        Command::ResumePause => "resume/pause based on the current playback"@,
        Command::PlayRandom => "play a random track in the current context"@,
        Command::Repeat => "cycle the repeat mode"@,
        Command::ToggleFakeTrackRepeatMode => "toggle fake track repeat mode"@,
        Command::Shuffle => "toggle the shuffle mode"@,
        Command::Mute => "toggle playback volume between 0% and previous level"@,
        Command::SeekForward => "seek forward by 5s"@,
        Command::SeekBackward => "seek backward by 5s"@,
        Command::Quit => "quit the application"@,
        Command::ClosePopup => "close a popup"@,
        Command::RestartIntegratedClient => "restart the integrated client"@,
        Command::SelectNextOrScrollDown => "select the next item in a list/table or scroll down"@,
        Command::SelectPreviousOrScrollUp => "select the previous item in a list/table or scroll up"@,
        Command::PageSelectNextOrScrollDown => "select the next page item in a list/table or scroll a page down"@,
        Command::PageSelectPreviousOrScrollUp => "select the previous page item in a list/table or scroll a page up"@,
        Command::SelectFirstOrScrollToTop => "select the first item in a list/table or scroll to the top"@,
        Command::SelectLastOrScrollToBottom => "select the last item in a list/table or scroll to the bottom"@,
        Command::ChooseSelected => "choose the selected item and act on it"@,
        Command::JumpToCurrentTrackInContext => "jump to the current track in the context"@,
        Command::RefreshPlayback => "manually refresh the current playback"@,
        Command::ShowActionsOnSelectedItem => "open a popup showing actions on a selected item"@,
        Command::ShowActionsOnCurrentTrack => "open a popup showing actions on the current track"@,
        Command::AddSelectedItemToQueue => "add the selected item to queue"@,
        Command::FocusNextWindow => "focus the next focusable window (if any)"@,
        Command::FocusPreviousWindow => "focus the previous focusable window (if any)"@,
        Command::SwitchTheme => "open a popup for switching theme"@,
        Command::SwitchDevice => "open a popup for switching device"@,
        Command::Search => "open a popup for searching in the current page"@,
        Command::BrowseUserPlaylists => "open a popup for browsing user's playlists"@,
        Command::BrowseUserFollowedArtists => "open a popup for browsing user's followed artists"@,
        Command::BrowseUserSavedAlbums => "open a popup for browsing user's saved albums"@,
        Command::CurrentlyPlayingContextPage => "go to the currently playing context page"@,
        Command::TopTrackPage => "go to the user top track page"@,
        Command::RecentlyPlayedTrackPage => "go to the user recently played track page"@,
        Command::LikedTrackPage => "go to the user liked track page"@,
        Command::LyricsPage => "go to the lyrics page of the current track"@,
        Command::LibraryPage => "go to the user library page"@,
        Command::SearchPage => "go to the search page"@,
        Command::BrowsePage => "go to the browse page"@,
        Command::Queue => "go to the queue page"@,
        Command::OpenCommandHelp => "go to the command help page"@,
        Command::PreviousPage => "go to the previous page"@,
        Command::OpenSpotifyLinkFromClipboard => "open a Spotify link from clipboard"@,
        Command::SortTrackByTitle => "sort the track table (if any) by track's title"@,
        Command::SortTrackByArtists => "sort the track table (if any) by track's artists"@,
        Command::SortTrackByAlbum => "sort the track table (if any) by track's album"@,
        Command::SortTrackByDuration => "sort the track table (if any) by track's duration"@,
        Command::SortTrackByAddedDate => "sort the track table (if any) by track's added date"@,
        Command::ReverseTrackOrder => "reverse the order of the track table (if any)"@,
        Command::MovePlaylistItemUp => "move playlist item up one position"@,
        Command::MovePlaylistItemDown => "move playlist item down one position"@,
        Command::CreatePlaylist => "create a new playlist"@,
    }
}

/// A decimal representation has a first character, which is a digit.
proof fn lemma_digits_shape(n: nat)
    ensures
        decimal_digits(n).len() >= 1,
        n >= 10 ==> decimal_digits(n).len() >= 2,
        decimal_digits(n)[0] != '-',
    decreases n,
{
    if n >= 10 {
        lemma_digits_shape(n / 10);
    }
}

/// Different numbers are written differently.
proof fn lemma_digits_injective(a: nat, b: nat)
    requires
        decimal_digits(a) == decimal_digits(b),
    ensures
        a == b,
    decreases a,
{
    lemma_digits_shape(a);
    lemma_digits_shape(b);
    if a >= 10 && b >= 10 {
        let da = decimal_digits(a);
        let db = decimal_digits(b);
        assert(da.last() == db.last());
        assert(da.drop_last() =~= decimal_digits(a / 10));
        assert(db.drop_last() =~= decimal_digits(b / 10));
        lemma_digits_injective(a / 10, b / 10);
    }
}

/// Different integers are written differently.
proof fn lemma_decimal_injective(a: int, b: int)
    requires
        decimal(a) == decimal(b),
    ensures
        a == b,
{
    if a < 0 && b < 0 {
        lemma_digits_shape((-a) as nat);
        assert(decimal(a).drop_first() =~= decimal_digits((-a) as nat));
        assert(decimal(b).drop_first() =~= decimal_digits((-b) as nat));
        lemma_digits_injective((-a) as nat, (-b) as nat);
    } else if a < 0 {
        lemma_digits_shape(b as nat);
        assert(decimal(a)[0] == '-');
    } else if b < 0 {
        lemma_digits_shape(a as nat);
        assert(decimal(b)[0] == '-');
    } else {
        lemma_digits_injective(a as nat, b as nat);
    }
}

/// The command a description belongs to: `None` for a volume change,
/// the command itself for the others (see `command_desc`).
pub open spec fn command_of_desc(s: Seq<char>) -> Option<Command> {
    if s.len() >= 3 && s[0] == 'c' && s[1] == 'h' && s[2] == 'a' {
        None
    } else if s.len() == 10 {
        if s[0] == 'd' {
            Some(Command::NoOp)
        } else {
            Some(Command::NextTrack)
        }
    } else if s.len() == 13 {
        Some(Command::ClosePopup)
    } else if s.len() == 14 {
        Some(Command::PreviousTrack)
    } else if s.len() == 18 {
        Some(Command::SeekForward)
    } else if s.len() == 19 {
        Some(Command::SeekBackward)
    } else if s.len() == 20 {
        if s[0] == 'q' {
            Some(Command::Quit)
        } else {
            Some(Command::Queue)
        }
    } else if s.len() == 21 {
        if s[10] == 'r' {
            Some(Command::Repeat)
        } else if s[10] == 's' {
            Some(Command::SearchPage)
        } else if s[10] == 'b' {
            Some(Command::BrowsePage)
        } else {
            Some(Command::CreatePlaylist)
        }
    } else if s.len() == 23 {
        if s[0] == 't' {
            Some(Command::Shuffle)
        } else {
            Some(Command::PreviousPage)
        }
    } else if s.len() == 27 {
        if s[10] == 'u' {
            Some(Command::LibraryPage)
        } else {
            Some(Command::OpenCommandHelp)
        }
    } else if s.len() == 29 {
        if s[0] == 't' {
            Some(Command::ToggleFakeTrackRepeatMode)
        } else if s[0] == 'r' {
            Some(Command::RestartIntegratedClient)
        } else {
            Some(Command::TopTrackPage)
        }
    } else if s.len() == 30 {
        Some(Command::AddSelectedItemToQueue)
    } else if s.len() == 31 {
        Some(Command::LikedTrackPage)
    } else if s.len() == 32 {
        Some(Command::SwitchTheme)
    } else if s.len() == 33 {
        Some(Command::SwitchDevice)
    } else if s.len() == 34 {
        if s[0] == 'o' {
            Some(Command::OpenSpotifyLinkFromClipboard)
        } else {
            Some(Command::MovePlaylistItemUp)
        }
    } else if s.len() == 36 {
        Some(Command::MovePlaylistItemDown)
    } else if s.len() == 37 {
        Some(Command::RefreshPlayback)
    } else if s.len() == 38 {
        Some(Command::ChooseSelected)
    } else if s.len() == 40 {
        if s[0] == 'j' {
            Some(Command::JumpToCurrentTrackInContext)
        } else if s[0] == 'f' {
            Some(Command::FocusNextWindow)
        } else {
            Some(Command::CurrentlyPlayingContextPage)
        }
    } else if s.len() == 41 {
        Some(Command::RecentlyPlayedTrackPage)
    } else if s.len() == 42 {
        if s[0] == 'r' {
            Some(Command::ResumePause)
        } else if s[0] == 'p' {
            Some(Command::PlayRandom)
        } else if s[0] == 'o' {
            Some(Command::BrowseUserPlaylists)
        } else {
            Some(Command::LyricsPage)
        }
    } else if s.len() == 44 {
        Some(Command::FocusPreviousWindow)
    } else if s.len() == 45 {
        if s[0] == 'o' {
            Some(Command::BrowseUserSavedAlbums)
        } else {
            Some(Command::ReverseTrackOrder)
        }
    } else if s.len() == 46 {
        if s[41] == ' ' {
            Some(Command::Search)
        } else if s[41] == 't' {
            Some(Command::SortTrackByTitle)
        } else {
            Some(Command::SortTrackByAlbum)
        }
    } else if s.len() == 47 {
        Some(Command::ShowActionsOnSelectedItem)
    } else if s.len() == 48 {
        Some(Command::SortTrackByArtists)
    } else if s.len() == 49 {
        if s[13] == 's' {
            Some(Command::ShowActionsOnCurrentTrack)
        } else if s[13] == 'f' {
            Some(Command::BrowseUserFollowedArtists)
        } else {
            Some(Command::SortTrackByDuration)
        }
    } else if s.len() == 51 {
        if s[1] == 'e' {
            Some(Command::SelectNextOrScrollDown)
        } else {
            Some(Command::SortTrackByAddedDate)
        }
    } else if s.len() == 52 {
        Some(Command::Mute)
    } else if s.len() == 53 {
        Some(Command::SelectPreviousOrScrollUp)
    } else if s.len() == 58 {
        Some(Command::SelectFirstOrScrollToTop)
    } else if s.len() == 60 {
        Some(Command::SelectLastOrScrollToBottom)
    } else if s.len() == 63 {
        Some(Command::PageSelectNextOrScrollDown)
    } else if s.len() == 65 {
        Some(Command::PageSelectPreviousOrScrollUp)
    } else {
        Some(Command::NoOp)
    }
}

/// Each description leads back to its command; a volume change's
/// description is told apart by how it starts.
proof fn lemma_desc_leads_back(c: Command)
    ensures
        command_desc(c).len() > 0,
        c is VolumeChange ==> command_of_desc(command_desc(c)) is None,
        !(c is VolumeChange) ==> command_of_desc(command_desc(c)) == Some(c),
{
    match c {
        Command::VolumeChange { offset } => {
            reveal_strlit("change playback volume by ");
        },
        Command::NoOp => {
            reveal_strlit("do nothing");
        },
        Command::NextTrack => {
            reveal_strlit("next track");
        },
        Command::PreviousTrack => {
            reveal_strlit("previous track");
        },
        Command::ResumePause => {
            reveal_strlit("resume/pause based on the current playback");
        },
        Command::PlayRandom => {
            reveal_strlit("play a random track in the current context");
        },
        Command::Repeat => {
            reveal_strlit("cycle the repeat mode");
        },
        Command::ToggleFakeTrackRepeatMode => {
            reveal_strlit("toggle fake track repeat mode");
        },
        Command::Shuffle => {
            reveal_strlit("toggle the shuffle mode");
        },
        Command::Mute => {
            reveal_strlit("toggle playback volume between 0% and previous level");
        },
        Command::SeekForward => {
            reveal_strlit("seek forward by 5s");
        },
        Command::SeekBackward => {
            reveal_strlit("seek backward by 5s");
        },
        Command::Quit => {
            reveal_strlit("quit the application");
        },
        Command::ClosePopup => {
            reveal_strlit("close a popup");
        },
        Command::RestartIntegratedClient => {
            reveal_strlit("restart the integrated client");
        },
        Command::SelectNextOrScrollDown => {
            reveal_strlit("select the next item in a list/table or scroll down");
        },
        Command::SelectPreviousOrScrollUp => {
            reveal_strlit("select the previous item in a list/table or scroll up");
        },
        Command::PageSelectNextOrScrollDown => {
            reveal_strlit("select the next page item in a list/table or scroll a page down");
        },
        Command::PageSelectPreviousOrScrollUp => {
            reveal_strlit("select the previous page item in a list/table or scroll a page up");
        },
        Command::SelectFirstOrScrollToTop => {
            reveal_strlit("select the first item in a list/table or scroll to the top");
        },
        Command::SelectLastOrScrollToBottom => {
            reveal_strlit("select the last item in a list/table or scroll to the bottom");
        },
        Command::ChooseSelected => {
            reveal_strlit("choose the selected item and act on it");
        },
        Command::JumpToCurrentTrackInContext => {
            reveal_strlit("jump to the current track in the context");
        },
        Command::RefreshPlayback => {
            reveal_strlit("manually refresh the current playback");
        },
        Command::ShowActionsOnSelectedItem => {
            reveal_strlit("open a popup showing actions on a selected item");
        },
        Command::ShowActionsOnCurrentTrack => {
            reveal_strlit("open a popup showing actions on the current track");
        },
        Command::AddSelectedItemToQueue => {
            reveal_strlit("add the selected item to queue");
        },
        Command::FocusNextWindow => {
            reveal_strlit("focus the next focusable window (if any)");
        },
        Command::FocusPreviousWindow => {
            reveal_strlit("focus the previous focusable window (if any)");
        },
        Command::SwitchTheme => {
            reveal_strlit("open a popup for switching theme");
        },
        Command::SwitchDevice => {
            reveal_strlit("open a popup for switching device");
        },
        Command::Search => {
            reveal_strlit("open a popup for searching in the current page");
        },
        Command::BrowseUserPlaylists => {
            reveal_strlit("open a popup for browsing user's playlists");
        },
        Command::BrowseUserFollowedArtists => {
            reveal_strlit("open a popup for browsing user's followed artists");
        },
        Command::BrowseUserSavedAlbums => {
            reveal_strlit("open a popup for browsing user's saved albums");
        },
        Command::CurrentlyPlayingContextPage => {
            reveal_strlit("go to the currently playing context page");
        },
        Command::TopTrackPage => {
            reveal_strlit("go to the user top track page");
        },
        Command::RecentlyPlayedTrackPage => {
            reveal_strlit("go to the user recently played track page");
        },
        Command::LikedTrackPage => {
            reveal_strlit("go to the user liked track page");
        },
        Command::LyricsPage => {
            reveal_strlit("go to the lyrics page of the current track");
        },
        Command::LibraryPage => {
            reveal_strlit("go to the user library page");
        },
        Command::SearchPage => {
            reveal_strlit("go to the search page");
        },
        Command::BrowsePage => {
            reveal_strlit("go to the browse page");
        },
        Command::Queue => {
            reveal_strlit("go to the queue page");
        },
        Command::OpenCommandHelp => {
            reveal_strlit("go to the command help page");
        },
        Command::PreviousPage => {
            reveal_strlit("go to the previous page");
        },
        Command::OpenSpotifyLinkFromClipboard => {
            reveal_strlit("open a Spotify link from clipboard");
        },
        Command::SortTrackByTitle => {
            reveal_strlit("sort the track table (if any) by track's title");
        },
        Command::SortTrackByArtists => {
            reveal_strlit("sort the track table (if any) by track's artists");
        },
        Command::SortTrackByAlbum => {
            reveal_strlit("sort the track table (if any) by track's album");
        },
        Command::SortTrackByDuration => {
            reveal_strlit("sort the track table (if any) by track's duration");
        },
        Command::SortTrackByAddedDate => {
            reveal_strlit("sort the track table (if any) by track's added date");
        },
        Command::ReverseTrackOrder => {
            reveal_strlit("reverse the order of the track table (if any)");
        },
        Command::MovePlaylistItemUp => {
            reveal_strlit("move playlist item up one position");
        },
        Command::MovePlaylistItemDown => {
            reveal_strlit("move playlist item down one position");
        },
        Command::CreatePlaylist => {
            reveal_strlit("create a new playlist");
        },
    }
}

/// Every command has a description, and no two commands share one.
pub proof fn law_descriptions_are_distinct(c1: Command, c2: Command)
    ensures
        command_desc(c1).len() > 0,
        c1 != c2 ==> command_desc(c1) != command_desc(c2),
{
    lemma_desc_leads_back(c1);
    lemma_desc_leads_back(c2);
    if c1 != c2 && command_desc(c1) == command_desc(c2) {
        match (c1, c2) {
            (Command::VolumeChange { offset: a }, Command::VolumeChange { offset: b }) => {
                reveal_strlit("change playback volume by ");
                assert(command_desc(c1).skip(26) =~= decimal(a as int));
                assert(command_desc(c2).skip(26) =~= decimal(b as int));
                lemma_decimal_injective(a as int, b as int);
            },
            _ => {},
        }
    }
}

impl Command {
    /// The command's description, as shown on the help page.
    pub fn desc(self) -> (r: String)
        ensures
            r@ == command_desc(self),
    {
        if let Command::VolumeChange { offset } = self {
            let mut s = String::from_str("change playback volume by ");
            push_decimal(&mut s, offset as i64);
            return s;
        }
        let text = match self {
            Command::NoOp => "do nothing",
            Command::NextTrack => "next track",
            Command::PreviousTrack => "previous track",
            Command::ResumePause => "resume/pause based on the current playback",
            Command::PlayRandom => "play a random track in the current context",
            Command::Repeat => "cycle the repeat mode",
            Command::ToggleFakeTrackRepeatMode => "toggle fake track repeat mode",
            Command::Shuffle => "toggle the shuffle mode",
            Command::Mute => "toggle playback volume between 0% and previous level",
            Command::SeekForward => "seek forward by 5s",
            Command::SeekBackward => "seek backward by 5s",
            Command::Quit => "quit the application",
            Command::ClosePopup => "close a popup",
            Command::RestartIntegratedClient => "restart the integrated client",
            Command::SelectNextOrScrollDown => "select the next item in a list/table or scroll down",
            Command::SelectPreviousOrScrollUp => "select the previous item in a list/table or scroll up",
            Command::PageSelectNextOrScrollDown => "select the next page item in a list/table or scroll a page down",
            Command::PageSelectPreviousOrScrollUp => "select the previous page item in a list/table or scroll a page up",
            Command::SelectFirstOrScrollToTop => "select the first item in a list/table or scroll to the top",
            Command::SelectLastOrScrollToBottom => "select the last item in a list/table or scroll to the bottom",
            Command::ChooseSelected => "choose the selected item and act on it",
            Command::JumpToCurrentTrackInContext => "jump to the current track in the context",
            Command::RefreshPlayback => "manually refresh the current playback",
            Command::ShowActionsOnSelectedItem => "open a popup showing actions on a selected item",
            Command::ShowActionsOnCurrentTrack => "open a popup showing actions on the current track",
            Command::AddSelectedItemToQueue => "add the selected item to queue",
            Command::FocusNextWindow => "focus the next focusable window (if any)",
            Command::FocusPreviousWindow => "focus the previous focusable window (if any)",
            Command::SwitchTheme => "open a popup for switching theme",
            Command::SwitchDevice => "open a popup for switching device",
            Command::Search => "open a popup for searching in the current page",
            Command::BrowseUserPlaylists => "open a popup for browsing user's playlists",
            Command::BrowseUserFollowedArtists => "open a popup for browsing user's followed artists",
            Command::BrowseUserSavedAlbums => "open a popup for browsing user's saved albums",
            Command::CurrentlyPlayingContextPage => "go to the currently playing context page",
            Command::TopTrackPage => "go to the user top track page",
            Command::RecentlyPlayedTrackPage => "go to the user recently played track page",
            Command::LikedTrackPage => "go to the user liked track page",
            Command::LyricsPage => "go to the lyrics page of the current track",
            Command::LibraryPage => "go to the user library page",
            Command::SearchPage => "go to the search page",
            Command::BrowsePage => "go to the browse page",
            Command::Queue => "go to the queue page",
            Command::OpenCommandHelp => "go to the command help page",
            Command::PreviousPage => "go to the previous page",
            Command::OpenSpotifyLinkFromClipboard => "open a Spotify link from clipboard",
            Command::SortTrackByTitle => "sort the track table (if any) by track's title",
            Command::SortTrackByArtists => "sort the track table (if any) by track's artists",
            Command::SortTrackByAlbum => "sort the track table (if any) by track's album",
            Command::SortTrackByDuration => "sort the track table (if any) by track's duration",
            Command::SortTrackByAddedDate => "sort the track table (if any) by track's added date",
            Command::ReverseTrackOrder => "reverse the order of the track table (if any)",
            Command::MovePlaylistItemUp => "move playlist item up one position",
            Command::MovePlaylistItemDown => "move playlist item down one position",
            Command::CreatePlaylist => "create a new playlist",
            Command::VolumeChange { offset: _ } => "",
        };
        String::from_str(text)
    }
}

/// The actions offered on a track, given whether the user likes it.
pub open spec fn track_actions(is_liked: bool) -> Seq<Action> {
    seq![
        Action::GoToArtist,
        Action::GoToAlbum,
        Action::GoToRadio,
        Action::ShowActionsOnAlbum,
        Action::ShowActionsOnArtist,
        Action::CopyLink,
        Action::AddToPlaylist,
        Action::AddToQueue,
        if is_liked { Action::DeleteFromLiked } else { Action::AddToLiked },
    ]
}

/// The actions offered on a track, given whether the user likes it.
pub fn construct_track_actions(is_liked: bool) -> (r: Vec<Action>)
    ensures
        r@ == track_actions(is_liked),
{
    let mut actions = vec![
        Action::GoToArtist,
        Action::GoToAlbum,
        Action::GoToRadio,
        Action::ShowActionsOnAlbum,
        Action::ShowActionsOnArtist,
        Action::CopyLink,
        Action::AddToPlaylist,
        Action::AddToQueue,
    ];
    if is_liked {
        actions.push(Action::DeleteFromLiked);
    } else {
        actions.push(Action::AddToLiked);
    }
    assert(actions@ =~= track_actions(is_liked));
    actions
}

/// The actions offered on an album, given whether it is in the library.
pub fn construct_album_actions(is_saved: bool) -> (r: Vec<Action>)
    ensures
        r@ == seq![
            Action::GoToArtist,
            Action::GoToRadio,
            Action::ShowActionsOnArtist,
            Action::CopyLink,
            Action::AddToQueue,
            if is_saved { Action::DeleteFromLibrary } else { Action::AddToLibrary },
        ],
{
    let mut actions = vec![
        Action::GoToArtist,
        Action::GoToRadio,
        Action::ShowActionsOnArtist,
        Action::CopyLink,
        Action::AddToQueue,
    ];
    if is_saved {
        actions.push(Action::DeleteFromLibrary);
    } else {
        actions.push(Action::AddToLibrary);
    }
    assert(actions@ =~= seq![
        Action::GoToArtist,
        Action::GoToRadio,
        Action::ShowActionsOnArtist,
        Action::CopyLink,
        Action::AddToQueue,
        if is_saved { Action::DeleteFromLibrary } else { Action::AddToLibrary },
    ]);
    actions
}

/// The actions offered on an artist, given whether the user follows them.
pub fn construct_artist_actions(is_followed: bool) -> (r: Vec<Action>)
    ensures
        r@ == seq![
            Action::GoToRadio,
            Action::CopyLink,
            if is_followed { Action::Unfollow } else { Action::Follow },
        ],
{
    let mut actions = vec![Action::GoToRadio, Action::CopyLink];
    if is_followed {
        actions.push(Action::Unfollow);
    } else {
        actions.push(Action::Follow);
    }
    assert(actions@ =~= seq![
        Action::GoToRadio,
        Action::CopyLink,
        if is_followed { Action::Unfollow } else { Action::Follow },
    ]);
    actions
}

/// The actions offered on a playlist, given whether it is in the library.
pub fn construct_playlist_actions(is_saved: bool) -> (r: Vec<Action>)
    ensures
        r@ == seq![
            Action::GoToRadio,
            Action::CopyLink,
            if is_saved { Action::DeleteFromLibrary } else { Action::AddToLibrary },
        ],
{
    let mut actions = vec![Action::GoToRadio, Action::CopyLink];
    if is_saved {
        actions.push(Action::DeleteFromLibrary);
    } else {
        actions.push(Action::AddToLibrary);
    }
    assert(actions@ =~= seq![
        Action::GoToRadio,
        Action::CopyLink,
        if is_saved { Action::DeleteFromLibrary } else { Action::AddToLibrary },
    ]);
    actions
}

/// The actions offered on a show, given whether it is in the library.
pub fn construct_show_actions(is_saved: bool) -> (r: Vec<Action>)
    ensures
        r@ == seq![
            Action::CopyLink,
            if is_saved { Action::DeleteFromLibrary } else { Action::AddToLibrary },
        ],
{
    let mut actions = vec![Action::CopyLink];
    if is_saved {
        actions.push(Action::DeleteFromLibrary);
    } else {
        actions.push(Action::AddToLibrary);
    }
    assert(actions@ =~= seq![
        Action::CopyLink,
        if is_saved { Action::DeleteFromLibrary } else { Action::AddToLibrary },
    ]);
    actions
}

/// The actions offered on an episode, given whether it belongs to a show.
pub fn construct_episode_actions(has_show: bool) -> (r: Vec<Action>)
    ensures
        r@ == if has_show {
            seq![
                Action::CopyLink,
                Action::AddToPlaylist,
                Action::AddToQueue,
                Action::ShowActionsOnShow,
                Action::GoToShow,
            ]
        } else {
            seq![Action::CopyLink, Action::AddToPlaylist, Action::AddToQueue]
        },
{
    let mut actions = vec![Action::CopyLink, Action::AddToPlaylist, Action::AddToQueue];
    if has_show {
        actions.push(Action::ShowActionsOnShow);
        actions.push(Action::GoToShow);
        assert(actions@ =~= seq![
            Action::CopyLink,
            Action::AddToPlaylist,
            Action::AddToQueue,
            Action::ShowActionsOnShow,
            Action::GoToShow,
        ]);
    }
    actions
}

} // verus!
