//! Key bindings: which key sequence runs which command or action, the
//! lookups the event loop makes, and how a user's bindings are merged with
//! the defaults.

use vstd::prelude::*;

use crate::command::{Action, ActionTarget, Command, CommandOrAction};
use crate::key::{is_prefix_spec, Key, KeyCode, KeySequence};
use crate::merge::{binds, merge_bindings};

verus! {

/// A key sequence bound to a command.
#[derive(Clone, Debug)]
pub struct Keymap {
    pub key_sequence: KeySequence,
    pub command: Command,
}

/// A key sequence bound to an action on an item.
#[derive(Clone, Debug)]
pub struct ActionMap {
    pub key_sequence: KeySequence,
    pub target: ActionTarget,
    pub action: Action,
}

/// The application's key bindings.
#[derive(Debug)]
pub struct KeymapConfig {
    pub keymaps: Vec<Keymap>,
    pub actions: Vec<ActionMap>,
}

impl View for Keymap {
    type V = (Seq<Key>, Command);

    open spec fn view(&self) -> (Seq<Key>, Command) {
        (self.key_sequence@, self.command)
    }
}

impl View for ActionMap {
    type V = (Seq<Key>, (Action, ActionTarget));

    open spec fn view(&self) -> (Seq<Key>, (Action, ActionTarget)) {
        (self.key_sequence@, (self.action, self.target))
    }
}

/// The abstract bindings of a configuration.
pub struct KeymapConfigView {
    pub keymaps: Seq<(Seq<Key>, Command)>,
    pub actions: Seq<(Seq<Key>, (Action, ActionTarget))>,
}

impl View for KeymapConfig {
    type V = KeymapConfigView;

    open spec fn view(&self) -> KeymapConfigView {
        KeymapConfigView {
            keymaps: self.keymaps@.map_values(|k: Keymap| k@),
            actions: self.actions@.map_values(|a: ActionMap| a@),
        }
    }
}

/// Whether some command or action binding starts with `prefix`.
pub open spec fn starts_binding(c: KeymapConfigView, prefix: Seq<Key>) -> bool {
    ||| exists|i: int| 0 <= i < c.keymaps.len() && is_prefix_spec(prefix, #[trigger] c.keymaps[i].0)
    ||| exists|i: int| 0 <= i < c.actions.len() && is_prefix_spec(prefix, #[trigger] c.actions[i].0)
}

/// The keys typed so far after `key` is pressed with `pending` already
/// typed: all of them while some binding starts with them, else `key` alone.
pub open spec fn typed_keys(c: KeymapConfigView, pending: Seq<Key>, key: Key) -> Seq<Key> {
    if starts_binding(c, pending.push(key)) {
        pending.push(key)
    } else {
        seq![key]
    }
}

/// The bindings whose key sequence starts with `prefix`, in order.
pub open spec fn with_prefix<T>(bindings: Seq<(Seq<Key>, T)>, prefix: Seq<Key>) -> Seq<(Seq<Key>, T)> {
    bindings.filter(|b: (Seq<Key>, T)| is_prefix_spec(prefix, b.0))
}

/// The command that `keys` run: that of the first binding for exactly
/// `keys` that does not disable them.
pub open spec fn command_for(maps: Seq<(Seq<Key>, Command)>, keys: Seq<Key>) -> Option<Command>
    decreases maps.len(),
{
    if maps.len() == 0 {
        None
    } else if maps[0].0 == keys && maps[0].1 != Command::NoOp {
        Some(maps[0].1)
    } else {
        command_for(maps.drop_first(), keys)
    }
}

/// The action, with its target, of the first action binding for exactly `keys`.
pub open spec fn action_for(
    acts: Seq<(Seq<Key>, (Action, ActionTarget))>,
    keys: Seq<Key>,
) -> Option<(Action, ActionTarget)>
    decreases acts.len(),
{
    if acts.len() == 0 {
        None
    } else if acts[0].0 == keys {
        Some(acts[0].1)
    } else {
        action_for(acts.drop_first(), keys)
    }
}

/// What `keys` run: a command if one answers them, else an action.
pub open spec fn command_or_action_for(c: KeymapConfigView, keys: Seq<Key>) -> Option<
    CommandOrAction,
> {
    match command_for(c.keymaps, keys) {
        Some(command) => Some(CommandOrAction::Command(command)),
        None => match action_for(c.actions, keys) {
            Some((action, target)) => Some(CommandOrAction::Action(action, target)),
            None => None,
        },
    }
}

impl Keymap {
    /// Whether the binding is listed on the help screen: bindings that
    /// disable their keys are not.
    pub fn include_in_help_screen(&self) -> (r: bool)
        ensures
            r == (self.command != Command::NoOp),
    {
        self.command != Command::NoOp
    }
}

impl KeymapConfig {
    /// The command bindings whose key sequence starts with `prefix`.
    pub fn find_matched_prefix_keymaps(&self, prefix: &KeySequence) -> (r: Vec<&Keymap>)
        ensures
            r@.map_values(|k: &Keymap| k@) == with_prefix(self@.keymaps, prefix@),
    {
        let mut out: Vec<&Keymap> = Vec::new();
        let n = self.keymaps.len();
        let ghost all = self@.keymaps;
        let mut i: usize = 0;
        while i < n
            invariant
                n == self.keymaps@.len(),
                all == self@.keymaps,
                i <= n,
                out@.map_values(|k: &Keymap| k@) == with_prefix(all.take(i as int), prefix@),
            decreases n - i,
        {
            let ghost before = out@;
            proof {
                let t = all.take(i + 1);
                assert(t.drop_last() =~= all.take(i as int));
                assert(t.last() == self.keymaps@[i as int]@);
                lemma_with_prefix_step(t, prefix@);
            }
            let keymap = &self.keymaps[i];
            if prefix.is_prefix(&keymap.key_sequence) {
                out.push(keymap);
                assert(out@.map_values(|k: &Keymap| k@) =~= before.map_values(|k: &Keymap| k@).push(
                    keymap@,
                ));
            }
            i = i + 1;
        }
        assert(all.take(n as int) =~= all);
        out
    }

    /// The action bindings whose key sequence starts with `prefix`.
    pub fn find_matched_prefix_actions(&self, prefix: &KeySequence) -> (r: Vec<&ActionMap>)
        ensures
            r@.map_values(|a: &ActionMap| a@) == with_prefix(self@.actions, prefix@),
    {
        let mut out: Vec<&ActionMap> = Vec::new();
        let n = self.actions.len();
        let ghost all = self@.actions;
        let mut i: usize = 0;
        while i < n
            invariant
                n == self.actions@.len(),
                all == self@.actions,
                i <= n,
                out@.map_values(|a: &ActionMap| a@) == with_prefix(all.take(i as int), prefix@),
            decreases n - i,
        {
            let ghost before = out@;
            proof {
                let t = all.take(i + 1);
                assert(t.drop_last() =~= all.take(i as int));
                assert(t.last() == self.actions@[i as int]@);
                lemma_with_prefix_step(t, prefix@);
            }
            let action = &self.actions[i];
            if prefix.is_prefix(&action.key_sequence) {
                out.push(action);
                assert(out@.map_values(|a: &ActionMap| a@) =~= before.map_values(
                    |a: &ActionMap| a@,
                ).push(action@));
            }
            i = i + 1;
        }
        assert(all.take(n as int) =~= all);
        out
    }

    /// Whether some command or action binding starts with `prefix`.
    pub fn has_matched_prefix(&self, prefix: &KeySequence) -> (r: bool)
        ensures
            r == starts_binding(self@, prefix@),
    {
        let keymaps = self.find_matched_prefix_keymaps(prefix);
        let actions = self.find_matched_prefix_actions(prefix);
        proof {
            lemma_with_prefix_empty(self@.keymaps, prefix@);
            lemma_with_prefix_empty(self@.actions, prefix@);
        }
        keymaps.len() != 0 || actions.len() != 0
    }

    /// The command that `key_sequence` runs, if a binding answers it.
    pub fn find_command_from_key_sequence(&self, key_sequence: &KeySequence) -> (r: Option<Command>)
        ensures
            r == command_for(self@.keymaps, key_sequence@),
    {
        let n = self.keymaps.len();
        let ghost maps = self@.keymaps;
        let mut i: usize = 0;
        assert(maps.skip(0) =~= maps);
        while i < n
            invariant
                n == self.keymaps@.len(),
                maps == self@.keymaps,
                i <= n,
                command_for(maps.skip(i as int), key_sequence@) == command_for(maps, key_sequence@),
            decreases n - i,
        {
            let keymap = &self.keymaps[i];
            assert(maps.skip(i as int)[0] == keymap@);
            if keymap.key_sequence.same_keys(key_sequence) && keymap.command != Command::NoOp {
                return Some(keymap.command);
            }
            assert(maps.skip(i as int).drop_first() =~= maps.skip(i + 1));
            i = i + 1;
        }
        assert(maps.skip(n as int).len() == 0);
        None
    }

    /// The action, and its target, that `key_sequence` runs.
    pub fn find_action_from_key_sequence(&self, key_sequence: &KeySequence) -> (r: Option<
        (Action, ActionTarget),
    >)
        ensures
            r == action_for(self@.actions, key_sequence@),
    {
        let n = self.actions.len();
        let ghost acts = self@.actions;
        let mut i: usize = 0;
        assert(acts.skip(0) =~= acts);
        while i < n
            invariant
                n == self.actions@.len(),
                acts == self@.actions,
                i <= n,
                action_for(acts.skip(i as int), key_sequence@) == action_for(acts, key_sequence@),
            decreases n - i,
        {
            let action = &self.actions[i];
            assert(acts.skip(i as int)[0] == action@);
            if action.key_sequence.same_keys(key_sequence) {
                return Some((action.action, action.target));
            }
            assert(acts.skip(i as int).drop_first() =~= acts.skip(i + 1));
            i = i + 1;
        }
        assert(acts.skip(n as int).len() == 0);
        None
    }

    /// What `key_sequence` runs: a command first, else an action.
    pub fn find_command_or_action_from_key_sequence(&self, key_sequence: &KeySequence) -> (r: Option<
        CommandOrAction,
    >)
        ensures
            r == command_or_action_for(self@, key_sequence@),
    {
        if let Some(command) = self.find_command_from_key_sequence(key_sequence) {
            return Some(CommandOrAction::Command(command));
        }
        if let Some((action, target)) = self.find_action_from_key_sequence(key_sequence) {
            return Some(CommandOrAction::Action(action, target));
        }
        None
    }
}

/// One step of `with_prefix`: the last binding is kept when it has the prefix.
proof fn lemma_with_prefix_step<T>(bindings: Seq<(Seq<Key>, T)>, prefix: Seq<Key>)
    requires
        bindings.len() > 0,
    ensures
        with_prefix(bindings, prefix) == (if is_prefix_spec(prefix, bindings.last().0) {
            with_prefix(bindings.drop_last(), prefix).push(bindings.last())
        } else {
            with_prefix(bindings.drop_last(), prefix)
        }),
{
    reveal_with_fuel(Seq::filter, 2);
}

/// The filtered bindings are empty exactly when no binding has the prefix.
proof fn lemma_with_prefix_empty<T>(bindings: Seq<(Seq<Key>, T)>, prefix: Seq<Key>)
    ensures
        (with_prefix(bindings, prefix).len() == 0) == !(exists|i: int|
            0 <= i < bindings.len() && is_prefix_spec(prefix, #[trigger] bindings[i].0)),
    decreases bindings.len(),
{
    if bindings.len() > 0 {
        let init = bindings.drop_last();
        lemma_with_prefix_empty(init, prefix);
        lemma_with_prefix_step(bindings, prefix);
        if exists|i: int| 0 <= i < bindings.len() && is_prefix_spec(prefix, #[trigger] bindings[i].0) {
            let i = choose|i: int| 0 <= i < bindings.len() && is_prefix_spec(prefix, #[trigger] bindings[i].0);
            if i < bindings.len() - 1 {
                assert(init[i] == bindings[i]);
            }
        } else {
            assert forall|i: int| 0 <= i < init.len() implies !is_prefix_spec(prefix, #[trigger] init[i].0) by {
                assert(init[i] == bindings[i]);
            }
        }
    }
}

/// The `i`-th default command binding.
pub open spec fn default_binding(i: int) -> (Seq<Key>, Command) {
    if i == 0 {
        (seq![Key::NoModifier(KeyCode::Char('n'))], Command::NextTrack)
    } else if i == 1 {
        (seq![Key::NoModifier(KeyCode::Char('p'))], Command::PreviousTrack)
    } else if i == 2 {
        (seq![Key::NoModifier(KeyCode::Char('.'))], Command::PlayRandom)
    } else if i == 3 {
        (seq![Key::NoModifier(KeyCode::Char(' '))], Command::ResumePause)
    } else if i == 4 {
        (seq![Key::Ctrl(KeyCode::Char('r'))], Command::Repeat)
    } else if i == 5 {
        (seq![Key::Alt(KeyCode::Char('r'))], Command::ToggleFakeTrackRepeatMode)
    } else if i == 6 {
        (seq![Key::Ctrl(KeyCode::Char('s'))], Command::Shuffle)
    } else if i == 7 {
        (seq![Key::NoModifier(KeyCode::Char('+'))], Command::VolumeChange { offset: 5 })
    } else if i == 8 {
        (seq![Key::NoModifier(KeyCode::Char('-'))], Command::VolumeChange { offset: -5i32 })
    } else if i == 9 {
        (seq![Key::NoModifier(KeyCode::Char('_'))], Command::Mute)
    } else if i == 10 {
        (seq![Key::NoModifier(KeyCode::Char('>'))], Command::SeekForward)
    } else if i == 11 {
        (seq![Key::NoModifier(KeyCode::Char('<'))], Command::SeekBackward)
    } else if i == 12 {
        (seq![Key::NoModifier(KeyCode::Enter)], Command::ChooseSelected)
    } else if i == 13 {
        (seq![Key::NoModifier(KeyCode::Char('r'))], Command::RefreshPlayback)
    } else if i == 14 {
        (seq![Key::NoModifier(KeyCode::Char('/'))], Command::Search)
    } else if i == 15 {
        (seq![Key::NoModifier(KeyCode::Char('z'))], Command::Queue)
    } else if i == 16 {
        (seq![Key::Ctrl(KeyCode::Char('z'))], Command::AddSelectedItemToQueue)
    } else if i == 17 {
        (seq![Key::NoModifier(KeyCode::Char('Z'))], Command::AddSelectedItemToQueue)
    } else if i == 18 {
        (seq![Key::Ctrl(KeyCode::Char(' '))], Command::ShowActionsOnSelectedItem)
    } else if i == 19 {
        (seq![Key::NoModifier(KeyCode::Char('g')), Key::NoModifier(KeyCode::Char('a'))], Command::ShowActionsOnSelectedItem)
    } else if i == 20 {
        (seq![Key::NoModifier(KeyCode::Char('a'))], Command::ShowActionsOnCurrentTrack)
    } else if i == 21 {
        (seq![Key::NoModifier(KeyCode::Char('R'))], Command::RestartIntegratedClient)
    } else if i == 22 {
        (seq![Key::NoModifier(KeyCode::Tab)], Command::FocusNextWindow)
    } else if i == 23 {
        (seq![Key::NoModifier(KeyCode::BackTab)], Command::FocusPreviousWindow)
    } else if i == 24 {
        (seq![Key::NoModifier(KeyCode::Char('T'))], Command::SwitchTheme)
    } else if i == 25 {
        (seq![Key::NoModifier(KeyCode::Char('D'))], Command::SwitchDevice)
    } else if i == 26 {
        (seq![Key::NoModifier(KeyCode::Char('u')), Key::NoModifier(KeyCode::Char('p'))], Command::BrowseUserPlaylists)
    } else if i == 27 {
        (seq![Key::NoModifier(KeyCode::Char('u')), Key::NoModifier(KeyCode::Char('a'))], Command::BrowseUserFollowedArtists)
    } else if i == 28 {
        (seq![Key::NoModifier(KeyCode::Char('u')), Key::NoModifier(KeyCode::Char('A'))], Command::BrowseUserSavedAlbums)
    } else if i == 29 {
        (seq![Key::NoModifier(KeyCode::Char('g')), Key::NoModifier(KeyCode::Char(' '))], Command::CurrentlyPlayingContextPage)
    } else if i == 30 {
        (seq![Key::NoModifier(KeyCode::Char('g')), Key::NoModifier(KeyCode::Char('t'))], Command::TopTrackPage)
    } else if i == 31 {
        (seq![Key::NoModifier(KeyCode::Char('g')), Key::NoModifier(KeyCode::Char('r'))], Command::RecentlyPlayedTrackPage)
    } else if i == 32 {
        (seq![Key::NoModifier(KeyCode::Char('g')), Key::NoModifier(KeyCode::Char('y'))], Command::LikedTrackPage)
    } else if i == 33 {
        (seq![Key::NoModifier(KeyCode::Char('g')), Key::NoModifier(KeyCode::Char('L'))], Command::LyricsPage)
    } else if i == 34 {
        (seq![Key::NoModifier(KeyCode::Char('l'))], Command::LyricsPage)
    } else if i == 35 {
        (seq![Key::NoModifier(KeyCode::Char('g')), Key::NoModifier(KeyCode::Char('l'))], Command::LibraryPage)
    } else if i == 36 {
        (seq![Key::NoModifier(KeyCode::Char('g')), Key::NoModifier(KeyCode::Char('s'))], Command::SearchPage)
    } else if i == 37 {
        (seq![Key::NoModifier(KeyCode::Char('g')), Key::NoModifier(KeyCode::Char('b'))], Command::BrowsePage)
    } else if i == 38 {
        (seq![Key::NoModifier(KeyCode::Backspace)], Command::PreviousPage)
    } else if i == 39 {
        (seq![Key::Ctrl(KeyCode::Char('q'))], Command::PreviousPage)
    } else if i == 40 {
        (seq![Key::NoModifier(KeyCode::Char('O'))], Command::OpenSpotifyLinkFromClipboard)
    } else if i == 41 {
        (seq![Key::NoModifier(KeyCode::Char('?'))], Command::OpenCommandHelp)
    } else if i == 42 {
        (seq![Key::Ctrl(KeyCode::Char('h'))], Command::OpenCommandHelp)
    } else if i == 43 {
        (seq![Key::NoModifier(KeyCode::Char('q'))], Command::Quit)
    } else if i == 44 {
        (seq![Key::Ctrl(KeyCode::Char('c'))], Command::Quit)
    } else if i == 45 {
        (seq![Key::NoModifier(KeyCode::Esc)], Command::ClosePopup)
    } else if i == 46 {
        (seq![Key::NoModifier(KeyCode::Char('j'))], Command::SelectNextOrScrollDown)
    } else if i == 47 {
        (seq![Key::Ctrl(KeyCode::Char('n'))], Command::SelectNextOrScrollDown)
    } else if i == 48 {
        (seq![Key::NoModifier(KeyCode::Down)], Command::SelectNextOrScrollDown)
    } else if i == 49 {
        (seq![Key::NoModifier(KeyCode::Char('k'))], Command::SelectPreviousOrScrollUp)
    } else if i == 50 {
        (seq![Key::Ctrl(KeyCode::Char('p'))], Command::SelectPreviousOrScrollUp)
    } else if i == 51 {
        (seq![Key::NoModifier(KeyCode::Up)], Command::SelectPreviousOrScrollUp)
    } else if i == 52 {
        (seq![Key::NoModifier(KeyCode::PageUp)], Command::PageSelectPreviousOrScrollUp)
    } else if i == 53 {
        (seq![Key::Ctrl(KeyCode::Char('b'))], Command::PageSelectPreviousOrScrollUp)
    } else if i == 54 {
        (seq![Key::NoModifier(KeyCode::PageDown)], Command::PageSelectNextOrScrollDown)
    } else if i == 55 {
        (seq![Key::Ctrl(KeyCode::Char('f'))], Command::PageSelectNextOrScrollDown)
    } else if i == 56 {
        (seq![Key::NoModifier(KeyCode::Char('g')), Key::NoModifier(KeyCode::Char('g'))], Command::SelectFirstOrScrollToTop)
    } else if i == 57 {
        (seq![Key::NoModifier(KeyCode::Home)], Command::SelectFirstOrScrollToTop)
    } else if i == 58 {
        (seq![Key::NoModifier(KeyCode::Char('G'))], Command::SelectLastOrScrollToBottom)
    } else if i == 59 {
        (seq![Key::NoModifier(KeyCode::End)], Command::SelectLastOrScrollToBottom)
    } else if i == 60 {
        (seq![Key::NoModifier(KeyCode::Char('s')), Key::NoModifier(KeyCode::Char('t'))], Command::SortTrackByTitle)
    } else if i == 61 {
        (seq![Key::NoModifier(KeyCode::Char('s')), Key::NoModifier(KeyCode::Char('a'))], Command::SortTrackByArtists)
    } else if i == 62 {
        (seq![Key::NoModifier(KeyCode::Char('s')), Key::NoModifier(KeyCode::Char('A'))], Command::SortTrackByAlbum)
    } else if i == 63 {
        (seq![Key::NoModifier(KeyCode::Char('s')), Key::NoModifier(KeyCode::Char('d'))], Command::SortTrackByDuration)
    } else if i == 64 {
        (seq![Key::NoModifier(KeyCode::Char('s')), Key::NoModifier(KeyCode::Char('D'))], Command::SortTrackByAddedDate)
    } else if i == 65 {
        (seq![Key::NoModifier(KeyCode::Char('s')), Key::NoModifier(KeyCode::Char('r'))], Command::ReverseTrackOrder)
    } else if i == 66 {
        (seq![Key::Ctrl(KeyCode::Char('k'))], Command::MovePlaylistItemUp)
    } else if i == 67 {
        (seq![Key::Ctrl(KeyCode::Char('j'))], Command::MovePlaylistItemDown)
    } else if i == 68 {
        (seq![Key::NoModifier(KeyCode::Char('N'))], Command::CreatePlaylist)
    } else if i == 69 {
        (seq![Key::NoModifier(KeyCode::Char('g')), Key::NoModifier(KeyCode::Char('c'))], Command::JumpToCurrentTrackInContext)
    } else {
        (Seq::empty(), Command::NoOp)
    }
}

/// The command bindings a configuration starts from.
pub open spec fn default_keymaps() -> Seq<(Seq<Key>, Command)> {
    Seq::new(70, |i: int| default_binding(i))
}

/// A binding of `keys` to `command`.
fn binding(keys: Vec<Key>, command: Command) -> (r: Keymap)
    ensures
        r@ == (keys@, command),
{
    Keymap { key_sequence: KeySequence { keys }, command }
}

impl Default for KeymapConfig {
    /// The default bindings, and no action bindings.
    #[verifier::rlimit(50)]
    fn default() -> (r: Self)
        ensures
            r@.keymaps == default_keymaps(),
            r@.actions.len() == 0,
    {
        let mut keymaps: Vec<Keymap> = Vec::new();
        keymaps.push(binding(vec![Key::NoModifier(KeyCode::Char('n'))], Command::NextTrack));
        keymaps.push(binding(vec![Key::NoModifier(KeyCode::Char('p'))], Command::PreviousTrack));
        keymaps.push(binding(vec![Key::NoModifier(KeyCode::Char('.'))], Command::PlayRandom));
        keymaps.push(binding(vec![Key::NoModifier(KeyCode::Char(' '))], Command::ResumePause));
        keymaps.push(binding(vec![Key::Ctrl(KeyCode::Char('r'))], Command::Repeat));
        keymaps.push(binding(vec![Key::Alt(KeyCode::Char('r'))], Command::ToggleFakeTrackRepeatMode));
        keymaps.push(binding(vec![Key::Ctrl(KeyCode::Char('s'))], Command::Shuffle));
        keymaps.push(binding(vec![Key::NoModifier(KeyCode::Char('+'))], Command::VolumeChange { offset: 5 }));
        keymaps.push(binding(vec![Key::NoModifier(KeyCode::Char('-'))], Command::VolumeChange { offset: -5 }));
        keymaps.push(binding(vec![Key::NoModifier(KeyCode::Char('_'))], Command::Mute));
        assert(keymaps@[0]@ == default_binding(0));
        assert(keymaps@[1]@ == default_binding(1));
        assert(keymaps@[2]@ == default_binding(2));
        assert(keymaps@[3]@ == default_binding(3));
        assert(keymaps@[4]@ == default_binding(4));
        assert(keymaps@[5]@ == default_binding(5));
        assert(keymaps@[6]@ == default_binding(6));
        assert(keymaps@[7]@ == default_binding(7));
        assert(keymaps@[8]@ == default_binding(8));
        assert(keymaps@[9]@ == default_binding(9));
        keymaps.push(binding(vec![Key::NoModifier(KeyCode::Char('>'))], Command::SeekForward));
        keymaps.push(binding(vec![Key::NoModifier(KeyCode::Char('<'))], Command::SeekBackward));
        keymaps.push(binding(vec![Key::NoModifier(KeyCode::Enter)], Command::ChooseSelected));
        keymaps.push(binding(vec![Key::NoModifier(KeyCode::Char('r'))], Command::RefreshPlayback));
        keymaps.push(binding(vec![Key::NoModifier(KeyCode::Char('/'))], Command::Search));
        keymaps.push(binding(vec![Key::NoModifier(KeyCode::Char('z'))], Command::Queue));
        keymaps.push(binding(vec![Key::Ctrl(KeyCode::Char('z'))], Command::AddSelectedItemToQueue));
        keymaps.push(binding(vec![Key::NoModifier(KeyCode::Char('Z'))], Command::AddSelectedItemToQueue));
        keymaps.push(binding(vec![Key::Ctrl(KeyCode::Char(' '))], Command::ShowActionsOnSelectedItem));
        keymaps.push(binding(vec![Key::NoModifier(KeyCode::Char('g')), Key::NoModifier(KeyCode::Char('a'))], Command::ShowActionsOnSelectedItem));
        assert(keymaps@[10]@ == default_binding(10));
        assert(keymaps@[11]@ == default_binding(11));
        assert(keymaps@[12]@ == default_binding(12));
        assert(keymaps@[13]@ == default_binding(13));
        assert(keymaps@[14]@ == default_binding(14));
        assert(keymaps@[15]@ == default_binding(15));
        assert(keymaps@[16]@ == default_binding(16));
        assert(keymaps@[17]@ == default_binding(17));
        assert(keymaps@[18]@ == default_binding(18));
        assert(keymaps@[19]@ == default_binding(19));
        keymaps.push(binding(vec![Key::NoModifier(KeyCode::Char('a'))], Command::ShowActionsOnCurrentTrack));
        keymaps.push(binding(vec![Key::NoModifier(KeyCode::Char('R'))], Command::RestartIntegratedClient));
        keymaps.push(binding(vec![Key::NoModifier(KeyCode::Tab)], Command::FocusNextWindow));
        keymaps.push(binding(vec![Key::NoModifier(KeyCode::BackTab)], Command::FocusPreviousWindow));
        keymaps.push(binding(vec![Key::NoModifier(KeyCode::Char('T'))], Command::SwitchTheme));
        keymaps.push(binding(vec![Key::NoModifier(KeyCode::Char('D'))], Command::SwitchDevice));
        keymaps.push(binding(vec![Key::NoModifier(KeyCode::Char('u')), Key::NoModifier(KeyCode::Char('p'))], Command::BrowseUserPlaylists));
        keymaps.push(binding(vec![Key::NoModifier(KeyCode::Char('u')), Key::NoModifier(KeyCode::Char('a'))], Command::BrowseUserFollowedArtists));
        keymaps.push(binding(vec![Key::NoModifier(KeyCode::Char('u')), Key::NoModifier(KeyCode::Char('A'))], Command::BrowseUserSavedAlbums));
        keymaps.push(binding(vec![Key::NoModifier(KeyCode::Char('g')), Key::NoModifier(KeyCode::Char(' '))], Command::CurrentlyPlayingContextPage));
        assert(keymaps@[20]@ == default_binding(20));
        assert(keymaps@[21]@ == default_binding(21));
        assert(keymaps@[22]@ == default_binding(22));
        assert(keymaps@[23]@ == default_binding(23));
        assert(keymaps@[24]@ == default_binding(24));
        assert(keymaps@[25]@ == default_binding(25));
        assert(keymaps@[26]@ == default_binding(26));
        assert(keymaps@[27]@ == default_binding(27));
        assert(keymaps@[28]@ == default_binding(28));
        assert(keymaps@[29]@ == default_binding(29));
        keymaps.push(binding(vec![Key::NoModifier(KeyCode::Char('g')), Key::NoModifier(KeyCode::Char('t'))], Command::TopTrackPage));
        keymaps.push(binding(vec![Key::NoModifier(KeyCode::Char('g')), Key::NoModifier(KeyCode::Char('r'))], Command::RecentlyPlayedTrackPage));
        keymaps.push(binding(vec![Key::NoModifier(KeyCode::Char('g')), Key::NoModifier(KeyCode::Char('y'))], Command::LikedTrackPage));
        keymaps.push(binding(vec![Key::NoModifier(KeyCode::Char('g')), Key::NoModifier(KeyCode::Char('L'))], Command::LyricsPage));
        keymaps.push(binding(vec![Key::NoModifier(KeyCode::Char('l'))], Command::LyricsPage));
        keymaps.push(binding(vec![Key::NoModifier(KeyCode::Char('g')), Key::NoModifier(KeyCode::Char('l'))], Command::LibraryPage));
        keymaps.push(binding(vec![Key::NoModifier(KeyCode::Char('g')), Key::NoModifier(KeyCode::Char('s'))], Command::SearchPage));
        keymaps.push(binding(vec![Key::NoModifier(KeyCode::Char('g')), Key::NoModifier(KeyCode::Char('b'))], Command::BrowsePage));
        keymaps.push(binding(vec![Key::NoModifier(KeyCode::Backspace)], Command::PreviousPage));
        keymaps.push(binding(vec![Key::Ctrl(KeyCode::Char('q'))], Command::PreviousPage));
        assert(keymaps@[30]@ == default_binding(30));
        assert(keymaps@[31]@ == default_binding(31));
        assert(keymaps@[32]@ == default_binding(32));
        assert(keymaps@[33]@ == default_binding(33));
        assert(keymaps@[34]@ == default_binding(34));
        assert(keymaps@[35]@ == default_binding(35));
        assert(keymaps@[36]@ == default_binding(36));
        assert(keymaps@[37]@ == default_binding(37));
        assert(keymaps@[38]@ == default_binding(38));
        assert(keymaps@[39]@ == default_binding(39));
        keymaps.push(binding(vec![Key::NoModifier(KeyCode::Char('O'))], Command::OpenSpotifyLinkFromClipboard));
        keymaps.push(binding(vec![Key::NoModifier(KeyCode::Char('?'))], Command::OpenCommandHelp));
        keymaps.push(binding(vec![Key::Ctrl(KeyCode::Char('h'))], Command::OpenCommandHelp));
        keymaps.push(binding(vec![Key::NoModifier(KeyCode::Char('q'))], Command::Quit));
        keymaps.push(binding(vec![Key::Ctrl(KeyCode::Char('c'))], Command::Quit));
        keymaps.push(binding(vec![Key::NoModifier(KeyCode::Esc)], Command::ClosePopup));
        keymaps.push(binding(vec![Key::NoModifier(KeyCode::Char('j'))], Command::SelectNextOrScrollDown));
        keymaps.push(binding(vec![Key::Ctrl(KeyCode::Char('n'))], Command::SelectNextOrScrollDown));
        keymaps.push(binding(vec![Key::NoModifier(KeyCode::Down)], Command::SelectNextOrScrollDown));
        keymaps.push(binding(vec![Key::NoModifier(KeyCode::Char('k'))], Command::SelectPreviousOrScrollUp));
        assert(keymaps@[40]@ == default_binding(40));
        assert(keymaps@[41]@ == default_binding(41));
        assert(keymaps@[42]@ == default_binding(42));
        assert(keymaps@[43]@ == default_binding(43));
        assert(keymaps@[44]@ == default_binding(44));
        assert(keymaps@[45]@ == default_binding(45));
        assert(keymaps@[46]@ == default_binding(46));
        assert(keymaps@[47]@ == default_binding(47));
        assert(keymaps@[48]@ == default_binding(48));
        assert(keymaps@[49]@ == default_binding(49));
        keymaps.push(binding(vec![Key::Ctrl(KeyCode::Char('p'))], Command::SelectPreviousOrScrollUp));
        keymaps.push(binding(vec![Key::NoModifier(KeyCode::Up)], Command::SelectPreviousOrScrollUp));
        keymaps.push(binding(vec![Key::NoModifier(KeyCode::PageUp)], Command::PageSelectPreviousOrScrollUp));
        keymaps.push(binding(vec![Key::Ctrl(KeyCode::Char('b'))], Command::PageSelectPreviousOrScrollUp));
        keymaps.push(binding(vec![Key::NoModifier(KeyCode::PageDown)], Command::PageSelectNextOrScrollDown));
        keymaps.push(binding(vec![Key::Ctrl(KeyCode::Char('f'))], Command::PageSelectNextOrScrollDown));
        keymaps.push(binding(vec![Key::NoModifier(KeyCode::Char('g')), Key::NoModifier(KeyCode::Char('g'))], Command::SelectFirstOrScrollToTop));
        keymaps.push(binding(vec![Key::NoModifier(KeyCode::Home)], Command::SelectFirstOrScrollToTop));
        keymaps.push(binding(vec![Key::NoModifier(KeyCode::Char('G'))], Command::SelectLastOrScrollToBottom));
        keymaps.push(binding(vec![Key::NoModifier(KeyCode::End)], Command::SelectLastOrScrollToBottom));
        assert(keymaps@[50]@ == default_binding(50));
        assert(keymaps@[51]@ == default_binding(51));
        assert(keymaps@[52]@ == default_binding(52));
        assert(keymaps@[53]@ == default_binding(53));
        assert(keymaps@[54]@ == default_binding(54));
        assert(keymaps@[55]@ == default_binding(55));
        assert(keymaps@[56]@ == default_binding(56));
        assert(keymaps@[57]@ == default_binding(57));
        assert(keymaps@[58]@ == default_binding(58));
        assert(keymaps@[59]@ == default_binding(59));
        keymaps.push(binding(vec![Key::NoModifier(KeyCode::Char('s')), Key::NoModifier(KeyCode::Char('t'))], Command::SortTrackByTitle));
        keymaps.push(binding(vec![Key::NoModifier(KeyCode::Char('s')), Key::NoModifier(KeyCode::Char('a'))], Command::SortTrackByArtists));
        keymaps.push(binding(vec![Key::NoModifier(KeyCode::Char('s')), Key::NoModifier(KeyCode::Char('A'))], Command::SortTrackByAlbum));
        keymaps.push(binding(vec![Key::NoModifier(KeyCode::Char('s')), Key::NoModifier(KeyCode::Char('d'))], Command::SortTrackByDuration));
        keymaps.push(binding(vec![Key::NoModifier(KeyCode::Char('s')), Key::NoModifier(KeyCode::Char('D'))], Command::SortTrackByAddedDate));
        keymaps.push(binding(vec![Key::NoModifier(KeyCode::Char('s')), Key::NoModifier(KeyCode::Char('r'))], Command::ReverseTrackOrder));
        keymaps.push(binding(vec![Key::Ctrl(KeyCode::Char('k'))], Command::MovePlaylistItemUp));
        keymaps.push(binding(vec![Key::Ctrl(KeyCode::Char('j'))], Command::MovePlaylistItemDown));
        keymaps.push(binding(vec![Key::NoModifier(KeyCode::Char('N'))], Command::CreatePlaylist));
        keymaps.push(binding(vec![Key::NoModifier(KeyCode::Char('g')), Key::NoModifier(KeyCode::Char('c'))], Command::JumpToCurrentTrackInContext));
        assert(keymaps@[60]@ == default_binding(60));
        assert(keymaps@[61]@ == default_binding(61));
        assert(keymaps@[62]@ == default_binding(62));
        assert(keymaps@[63]@ == default_binding(63));
        assert(keymaps@[64]@ == default_binding(64));
        assert(keymaps@[65]@ == default_binding(65));
        assert(keymaps@[66]@ == default_binding(66));
        assert(keymaps@[67]@ == default_binding(67));
        assert(keymaps@[68]@ == default_binding(68));
        assert(keymaps@[69]@ == default_binding(69));
        assert(keymaps@.map_values(|k: Keymap| k@) =~= default_keymaps());
        KeymapConfig { keymaps, actions: Vec::new() }
    }
}

/// Whether `keymaps` has a binding for exactly `keys`.
fn keymaps_bind(keymaps: &Vec<Keymap>, keys: &KeySequence) -> (r: bool)
    ensures
        r == binds(keymaps@.map_values(|k: Keymap| k@), keys@),
{
    let ghost v = keymaps@.map_values(|k: Keymap| k@);
    let mut i: usize = 0;
    while i < keymaps.len()
        invariant
            v == keymaps@.map_values(|k: Keymap| k@),
            i <= keymaps.len(),
            forall|j: int| 0 <= j < i ==> #[trigger] v[j].0 != keys@,
        decreases keymaps.len() - i,
    {
        if keymaps[i].key_sequence.same_keys(keys) {
            assert(v[i as int].0 == keys@);
            return true;
        }
        i = i + 1;
    }
    false
}

/// Whether `actions` has a binding for exactly `keys`.
fn actions_bind(actions: &Vec<ActionMap>, keys: &KeySequence) -> (r: bool)
    ensures
        r == binds(actions@.map_values(|a: ActionMap| a@), keys@),
{
    let ghost v = actions@.map_values(|a: ActionMap| a@);
    let mut i: usize = 0;
    while i < actions.len()
        invariant
            v == actions@.map_values(|a: ActionMap| a@),
            i <= actions.len(),
            forall|j: int| 0 <= j < i ==> #[trigger] v[j].0 != keys@,
        decreases actions.len() - i,
    {
        if actions[i].key_sequence.same_keys(keys) {
            assert(v[i as int].0 == keys@);
            return true;
        }
        i = i + 1;
    }
    false
}

impl KeymapConfig {
    /// Replaces the bindings by the user's, then adds back each current
    /// binding whose key sequence the user left unbound.
    pub fn merge_user_config(&mut self, user: KeymapConfig)
        ensures
            final(self)@.keymaps == merge_bindings(user@.keymaps, old(self)@.keymaps),
            final(self)@.actions == merge_bindings(user@.actions, old(self)@.actions),
    {
        let mut user = user;
        std::mem::swap(&mut self.keymaps, &mut user.keymaps);
        std::mem::swap(&mut self.actions, &mut user.actions);
        let ghost target = merge_bindings(self@.keymaps, user@.keymaps);
        let ghost target_actions = merge_bindings(self@.actions, user@.actions);
        let ghost user_actions = self@.actions;
        let mut rest = user.keymaps;
        while rest.len() > 0
            invariant
                merge_bindings(self@.keymaps, rest@.map_values(|k: Keymap| k@)) == target,
                self@.actions == user_actions,
            decreases rest.len(),
        {
            let ghost before = rest@.map_values(|k: Keymap| k@);
            let keymap = rest.remove(0);
            assert(rest@.map_values(|k: Keymap| k@) =~= before.drop_first());
            if !keymaps_bind(&self.keymaps, &keymap.key_sequence) {
                let ghost cur = self@.keymaps;
                self.keymaps.push(keymap);
                assert(self@.keymaps =~= cur.push(before[0]));
            }
        }
        let mut rest = user.actions;
        assert(rest@.map_values(|a: ActionMap| a@) == user@.actions);
        while rest.len() > 0
            invariant
                merge_bindings(self@.actions, rest@.map_values(|a: ActionMap| a@)) == target_actions,
                self@.keymaps == target,
            decreases rest.len(),
        {
            let ghost before = rest@.map_values(|a: ActionMap| a@);
            let action = rest.remove(0);
            assert(rest@.map_values(|a: ActionMap| a@) =~= before.drop_first());
            if !actions_bind(&self.actions, &action.key_sequence) {
                let ghost cur = self@.actions;
                self.actions.push(action);
                assert(self@.actions =~= cur.push(before[0]));
            }
        }
    }
}

impl KeymapConfig {
    /// The key sequence typed once `key` is pressed after the keys `pending`:
    /// the pending keys and `key` while some binding starts with them, else
    /// `key` alone.
    pub fn extend_key_sequence(&self, pending: &KeySequence, key: Key) -> (r: KeySequence)
        ensures
            r@ == typed_keys(self@, pending@, key),
    {
        let mut keys: Vec<Key> = Vec::new();
        let mut i: usize = 0;
        while i < pending.keys.len()
            invariant
                i <= pending.keys@.len(),
                keys@ == pending.keys@.take(i as int),
            decreases pending.keys@.len() - i,
        {
            keys.push(pending.keys[i]);
            i = i + 1;
            assert(keys@ =~= pending.keys@.take(i as int));
        }
        assert(pending.keys@.take(i as int) =~= pending@);
        keys.push(key);
        let extended = KeySequence { keys };
        if self.has_matched_prefix(&extended) {
            extended
        } else {
            let alone = vec![key];
            assert(alone@ =~= seq![key]);
            KeySequence { keys: alone }
        }
    }
}

/// The keys still pending once `typed` was dealt with: none when a command
/// handled them, else all of them.
pub fn pending_after(handled: bool, typed: KeySequence) -> (r: KeySequence)
    ensures
        r@ == if handled {
            Seq::<Key>::empty()
        } else {
            typed@
        },
{
    if handled {
        KeySequence { keys: Vec::new() }
    } else {
        typed
    }
}

/// Typed keys are always either the start of some binding or the one key
/// just pressed, and they end with that key.
pub proof fn law_typed_keys_start_a_binding(c: KeymapConfigView, pending: Seq<Key>, key: Key)
    ensures
        starts_binding(c, typed_keys(c, pending, key)) || typed_keys(c, pending, key) == seq![key],
        typed_keys(c, pending, key).len() > 0,
        typed_keys(c, pending, key).last() == key,
{
}

} // verus!
