//! Keys and key sequences: how they are written in the configuration and
//! how terminal key events map to them.

use vstd::prelude::*;

use crate::text::{chars_of, space_separated, spells, split_at_spaces, split_state, string_of_char};

verus! {

/// A key on the keyboard.
#[derive(Copy, Clone, Debug, PartialEq, Eq, Structural, Hash)]
pub enum KeyCode {
    Backspace,
    Enter,
    Left,
    Right,
    Up,
    Down,
    Home,
    End,
    PageUp,
    PageDown,
    Tab,
    BackTab,
    Delete,
    Insert,
    F(u8),
    Char(char),
    Null,
    Esc,
    CapsLock,
    ScrollLock,
    NumLock,
    PrintScreen,
    Pause,
    Menu,
    KeypadBegin,
    /// A media key, by its index in the terminal library's list.
    Media(u8),
    /// A lone modifier key, by its index in the terminal library's list.
    Modifier(u8),
}

/// A key received from the user, with at most one modifier.
#[derive(Copy, Clone, Debug, PartialEq, Eq, Structural, Hash)]
pub enum Key {
    Unknown,
    /// A key pressed without Control or Alt.
    NoModifier(KeyCode),
    Ctrl(KeyCode),
    Alt(KeyCode),
}

/// A combination of keys pressed one after the other.
#[derive(Clone, Debug, PartialEq, Eq)]
pub struct KeySequence {
    pub keys: Vec<Key>,
}

impl View for KeySequence {
    type V = Seq<Key>;

    open spec fn view(&self) -> Seq<Key> {
        self.keys@
    }
}

/// The key code a name stands for in the configuration.
pub open spec fn parse_key_code_spec(s: Seq<char>) -> Option<KeyCode> {
    if s == "enter"@ {
        Some(KeyCode::Enter)
    } else if s == "space"@ {
        Some(KeyCode::Char(' '))
    } else if s == "tab"@ {
        Some(KeyCode::Tab)
    } else if s == "backtab"@ {
        Some(KeyCode::BackTab)
    } else if s == "backspace"@ {
        Some(KeyCode::Backspace)
    } else if s == "esc"@ {
        Some(KeyCode::Esc)
    } else if s == "left"@ {
        Some(KeyCode::Left)
    } else if s == "right"@ {
        Some(KeyCode::Right)
    } else if s == "up"@ {
        Some(KeyCode::Up)
    } else if s == "down"@ {
        Some(KeyCode::Down)
    } else if s == "insert"@ {
        Some(KeyCode::Insert)
    } else if s == "delete"@ {
        Some(KeyCode::Delete)
    } else if s == "home"@ {
        Some(KeyCode::Home)
    } else if s == "end"@ {
        Some(KeyCode::End)
    } else if s == "page_up"@ {
        Some(KeyCode::PageUp)
    } else if s == "page_down"@ {
        Some(KeyCode::PageDown)
    } else if s == "f1"@ {
        Some(KeyCode::F(1))
    } else if s == "f2"@ {
        Some(KeyCode::F(2))
    } else if s == "f3"@ {
        Some(KeyCode::F(3))
    } else if s == "f4"@ {
        Some(KeyCode::F(4))
    } else if s == "f5"@ {
        Some(KeyCode::F(5))
    } else if s == "f6"@ {
        Some(KeyCode::F(6))
    } else if s == "f7"@ {
        Some(KeyCode::F(7))
    } else if s == "f8"@ {
        Some(KeyCode::F(8))
    } else if s == "f9"@ {
        Some(KeyCode::F(9))
    } else if s == "f10"@ {
        Some(KeyCode::F(10))
    } else if s == "f11"@ {
        Some(KeyCode::F(11))
    } else if s == "f12"@ {
        Some(KeyCode::F(12))
    } else if s.len() == 1 && s[0] != ' ' {
        Some(KeyCode::Char(s[0]))
    } else {
        None
    }
}

/// The name of a key code in the configuration; `None` for the key codes
/// that have no name.
pub open spec fn key_code_name(k: KeyCode) -> Option<Seq<char>> {
    match k {
        KeyCode::Char(c) => if c == ' ' {
            Some("space"@)
        } else {
            Some(seq![c])
        },
        KeyCode::Enter => Some("enter"@),
        KeyCode::Tab => Some("tab"@),
        KeyCode::BackTab => Some("backtab"@),
        KeyCode::Backspace => Some("backspace"@),
        KeyCode::Esc => Some("esc"@),
        KeyCode::Left => Some("left"@),
        KeyCode::Right => Some("right"@),
        KeyCode::Up => Some("up"@),
        KeyCode::Down => Some("down"@),
        KeyCode::Insert => Some("insert"@),
        KeyCode::Delete => Some("delete"@),
        KeyCode::Home => Some("home"@),
        KeyCode::End => Some("end"@),
        KeyCode::PageUp => Some("page_up"@),
        KeyCode::PageDown => Some("page_down"@),
        KeyCode::F(n) => if n == 1 {
            Some("f1"@)
        } else if n == 2 {
            Some("f2"@)
        } else if n == 3 {
            Some("f3"@)
        } else if n == 4 {
            Some("f4"@)
        } else if n == 5 {
            Some("f5"@)
        } else if n == 6 {
            Some("f6"@)
        } else if n == 7 {
            Some("f7"@)
        } else if n == 8 {
            Some("f8"@)
        } else if n == 9 {
            Some("f9"@)
        } else if n == 10 {
            Some("f10"@)
        } else if n == 11 {
            Some("f11"@)
        } else if n == 12 {
            Some("f12"@)
        } else {
            None
        },
        _ => None,
    }
}

/// The key a string stands for: `C-<code>` for Control, `M-<code>` for
/// Alt, a bare key code otherwise.
pub open spec fn key_from_chars(s: Seq<char>) -> Option<Key> {
    if s.len() > 2 && s[1] == '-' && s[2] != ' ' {
        let code = parse_key_code_spec(s.skip(2));
        if s[0] == 'C' {
            match code {
                Some(c) => Some(Key::Ctrl(c)),
                None => None,
            }
        } else if s[0] == 'M' {
            match code {
                Some(c) => Some(Key::Alt(c)),
                None => None,
            }
        } else {
            None
        }
    } else {
        match parse_key_code_spec(s) {
            Some(c) => Some(Key::NoModifier(c)),
            None => None,
        }
    }
}

/// How a key is written; `None` for keys whose code has no name.
pub open spec fn key_text(k: Key) -> Option<Seq<char>> {
    match k {
        Key::Ctrl(c) => match key_code_name(c) {
            Some(n) => Some("C-"@ + n),
            None => None,
        },
        Key::Alt(c) => match key_code_name(c) {
            Some(n) => Some("M-"@ + n),
            None => None,
        },
        Key::NoModifier(c) => key_code_name(c),
        Key::Unknown => Some("unknown key"@),
    }
}

/// The keys that a list of words stands for, if every word is a key.
pub open spec fn parse_words(words: Seq<Seq<char>>) -> Option<Seq<Key>>
    decreases words.len(),
{
    if words.len() == 0 {
        Some(Seq::empty())
    } else {
        match (parse_words(words.drop_last()), key_from_chars(words.last())) {
            (Some(keys), Some(k)) => Some(keys.push(k)),
            _ => None,
        }
    }
}

/// The key sequence a string stands for.
pub open spec fn key_sequence_from_chars(s: Seq<char>) -> Option<Seq<Key>> {
    parse_words(space_separated(s))
}

/// `a` is a prefix of `b`.
pub open spec fn is_prefix_spec(a: Seq<Key>, b: Seq<Key>) -> bool {
    a.len() <= b.len() && b.take(a.len() as int) == a
}

/// Every key of `keys` can be written.
pub open spec fn all_printable(keys: Seq<Key>) -> bool {
    forall|i: int| 0 <= i < keys.len() ==> (#[trigger] key_text(keys[i])) is Some
}

/// How a key sequence is written: its keys separated by spaces.
pub open spec fn sequence_text(keys: Seq<Key>) -> Seq<char>
    decreases keys.len(),
{
    if keys.len() == 0 {
        Seq::empty()
    } else if keys.len() == 1 {
        key_text(keys[0]).unwrap()
    } else {
        sequence_text(keys.drop_last()) + " "@ + key_text(keys.last()).unwrap()
    }
}

/// The key a terminal event stands for, given its key code and its modifier
/// bits (Shift 1, Control 2, Alt 4, Super 8, Hyper 16, Meta 32). Shift is
/// ignored, since the key code already carries it.
pub open spec fn key_of_event(code: KeyCode, modifiers: u8) -> Key {
    if modifiers == 0 || modifiers == 1 {
        Key::NoModifier(code)
    } else if modifiers == 4 || modifiers == 5 {
        Key::Alt(code)
    } else if modifiers == 2 || modifiers == 3 {
        Key::Ctrl(code)
    } else {
        Key::Unknown
    }
}

impl Key {
    fn parse_key_code(s: &[char]) -> (r: Option<KeyCode>)
        ensures
            r == parse_key_code_spec(s@),
    {
        if spells(s, "enter") {
            Some(KeyCode::Enter)
        } else if spells(s, "space") {
            Some(KeyCode::Char(' '))
        } else if spells(s, "tab") {
            Some(KeyCode::Tab)
        } else if spells(s, "backtab") {
            Some(KeyCode::BackTab)
        } else if spells(s, "backspace") {
            Some(KeyCode::Backspace)
        } else if spells(s, "esc") {
            Some(KeyCode::Esc)
        } else if spells(s, "left") {
            Some(KeyCode::Left)
        } else if spells(s, "right") {
            Some(KeyCode::Right)
        } else if spells(s, "up") {
            Some(KeyCode::Up)
        } else if spells(s, "down") {
            Some(KeyCode::Down)
        } else if spells(s, "insert") {
            Some(KeyCode::Insert)
        } else if spells(s, "delete") {
            Some(KeyCode::Delete)
        } else if spells(s, "home") {
            Some(KeyCode::Home)
        } else if spells(s, "end") {
            Some(KeyCode::End)
        } else if spells(s, "page_up") {
            Some(KeyCode::PageUp)
        } else if spells(s, "page_down") {
            Some(KeyCode::PageDown)
        } else if spells(s, "f1") {
            Some(KeyCode::F(1))
        } else if spells(s, "f2") {
            Some(KeyCode::F(2))
        } else if spells(s, "f3") {
            Some(KeyCode::F(3))
        } else if spells(s, "f4") {
            Some(KeyCode::F(4))
        } else if spells(s, "f5") {
            Some(KeyCode::F(5))
        } else if spells(s, "f6") {
            Some(KeyCode::F(6))
        } else if spells(s, "f7") {
            Some(KeyCode::F(7))
        } else if spells(s, "f8") {
            Some(KeyCode::F(8))
        } else if spells(s, "f9") {
            Some(KeyCode::F(9))
        } else if spells(s, "f10") {
            Some(KeyCode::F(10))
        } else if spells(s, "f11") {
            Some(KeyCode::F(11))
        } else if spells(s, "f12") {
            Some(KeyCode::F(12))
        } else if s.len() == 1 && s[0] != ' ' {
            Some(KeyCode::Char(s[0]))
        } else {
            None
        }
    }

    fn from_chars(chars: &[char]) -> (r: Option<Key>)
        ensures
            r == key_from_chars(chars@),
    {
        if chars.len() > 2 && chars[1] == '-' && chars[2] != ' ' {
            let n = chars.len();
            let rest = &chars[2..n];
            assert(rest@ =~= chars@.skip(2));
            let code = Self::parse_key_code(rest);
            if chars[0] == 'C' {
                match code {
                    Some(c) => Some(Key::Ctrl(c)),
                    None => None,
                }
            } else if chars[0] == 'M' {
                match code {
                    Some(c) => Some(Key::Alt(c)),
                    None => None,
                }
            } else {
                None
            }
        } else {
            match Self::parse_key_code(chars) {
                Some(c) => Some(Key::NoModifier(c)),
                None => None,
            }
        }
    }

    /// The key written as `s`, if any.
    pub fn from_str(s: &str) -> (r: Option<Self>)
        ensures
            r == key_from_chars(s@),
    {
        let chars = chars_of(s);
        Self::from_chars(chars.as_slice())
    }

    /// The key a terminal event stands for.
    pub fn from_event(code: KeyCode, modifiers: u8) -> (r: Key)
        ensures
            r == key_of_event(code, modifiers),
    {
        let mut m = modifiers;
        if m & 1 == 1 {
            m = m ^ 1;
        }
        assert(m == 0 <==> (modifiers == 0 || modifiers == 1)) by (bit_vector)
            requires
                m == (if modifiers & 1 == 1 { modifiers ^ 1 } else { modifiers }),
        ;
        assert(m == 4 <==> (modifiers == 4 || modifiers == 5)) by (bit_vector)
            requires
                m == (if modifiers & 1 == 1 { modifiers ^ 1 } else { modifiers }),
        ;
        assert(m == 2 <==> (modifiers == 2 || modifiers == 3)) by (bit_vector)
            requires
                m == (if modifiers & 1 == 1 { modifiers ^ 1 } else { modifiers }),
        ;
        if m == 0 {
            Key::NoModifier(code)
        } else if m == 4 {
            Key::Alt(code)
        } else if m == 2 {
            Key::Ctrl(code)
        } else {
            Key::Unknown
        }
    }

    /// How the key is written (`C-x`, `M-x`, `x`, `unknown key`).
    pub fn to_text(&self) -> (r: String)
        requires
            key_text(*self) is Some,
        ensures
            r@ == key_text(*self).unwrap(),
    {
        match *self {
            Key::Ctrl(k) => {
                let mut s = String::from_str("C-");
                let name = key_code_to_string(k);
                s.append(name.as_str());
                s
            },
            Key::Alt(k) => {
                let mut s = String::from_str("M-");
                let name = key_code_to_string(k);
                s.append(name.as_str());
                s
            },
            Key::NoModifier(k) => key_code_to_string(k),
            Key::Unknown => String::from_str("unknown key"),
        }
    }
}

/// The name of a key code in the configuration.
pub fn key_code_to_string(k: KeyCode) -> (r: String)
    requires
        key_code_name(k) is Some,
    ensures
        r@ == key_code_name(k).unwrap(),
{
    match k {
        KeyCode::Char(c) => {
            if c == ' ' {
                String::from_str("space")
            } else {
                string_of_char(c)
            }
        },
        KeyCode::Enter => String::from_str("enter"),
        KeyCode::Tab => String::from_str("tab"),
        KeyCode::BackTab => String::from_str("backtab"),
        KeyCode::Backspace => String::from_str("backspace"),
        KeyCode::Esc => String::from_str("esc"),
        KeyCode::Left => String::from_str("left"),
        KeyCode::Right => String::from_str("right"),
        KeyCode::Up => String::from_str("up"),
        KeyCode::Down => String::from_str("down"),
        KeyCode::Insert => String::from_str("insert"),
        KeyCode::Delete => String::from_str("delete"),
        KeyCode::Home => String::from_str("home"),
        KeyCode::End => String::from_str("end"),
        KeyCode::PageUp => String::from_str("page_up"),
        KeyCode::PageDown => String::from_str("page_down"),
        KeyCode::F(1) => String::from_str("f1"),
        KeyCode::F(2) => String::from_str("f2"),
        KeyCode::F(3) => String::from_str("f3"),
        KeyCode::F(4) => String::from_str("f4"),
        KeyCode::F(5) => String::from_str("f5"),
        KeyCode::F(6) => String::from_str("f6"),
        KeyCode::F(7) => String::from_str("f7"),
        KeyCode::F(8) => String::from_str("f8"),
        KeyCode::F(9) => String::from_str("f9"),
        KeyCode::F(10) => String::from_str("f10"),
        KeyCode::F(11) => String::from_str("f11"),
        KeyCode::F(12) => String::from_str("f12"),
        _ => String::new(),
    }
}

proof fn lemma_parse_words_fails_after(words: Seq<Seq<char>>, j: int)
    requires
        0 <= j <= words.len(),
        parse_words(words.take(j)) is None,
    ensures
        parse_words(words) is None,
    decreases words.len() - j,
{
    if j < words.len() {
        let t = words.take(j + 1);
        assert(t.drop_last() =~= words.take(j));
        lemma_parse_words_fails_after(words, j + 1);
    } else {
        assert(words.take(j) =~= words);
    }
}

impl KeySequence {
    /// The key sequence written as `s`: keys separated by single spaces.
    pub fn from_str(s: &str) -> (r: Option<Self>)
        ensures
            match r {
                Some(seq) => key_sequence_from_chars(s@) == Some(seq@),
                None => key_sequence_from_chars(s@) is None,
            },
    {
        let chars = chars_of(s);
        let words = split_at_spaces(chars.as_slice());
        let ghost ws = words@.map_values(|w: Vec<char>| w@);
        let mut keys: Vec<Key> = Vec::new();
        let n = words.len();
        let mut j: usize = 0;
        assert(ws.take(0) =~= Seq::<Seq<char>>::empty());
        while j < n
            invariant
                n == words@.len(),
                ws == words@.map_values(|w: Vec<char>| w@),
                ws == space_separated(s@),
                j <= n,
                parse_words(ws.take(j as int)) == Some(keys@),
            decreases n - j,
        {
            proof {
                let t = ws.take(j + 1);
                assert(t.drop_last() =~= ws.take(j as int));
                assert(t.last() == words@[j as int]@);
            }
            match Key::from_chars(words[j].as_slice()) {
                Some(k) => {
                    keys.push(k);
                },
                None => {
                    proof {
                        lemma_parse_words_fails_after(ws, j + 1);
                    }
                    return None;
                },
            }
            j = j + 1;
        }
        assert(ws.take(n as int) =~= ws);
        Some(KeySequence { keys })
    }

    /// Whether this sequence is a prefix of `other`.
    pub fn is_prefix(&self, other: &Self) -> (r: bool)
        ensures
            r == is_prefix_spec(self@, other@),
    {
        if self.keys.len() > other.keys.len() {
            return false;
        }
        let n = self.keys.len();
        let mut acc = true;
        let mut i: usize = 0;
        while i < n
            invariant
                n == self.keys@.len(),
                n <= other.keys@.len(),
                i <= n,
                acc == forall|j: int| 0 <= j < i ==> self.keys@[j] == other.keys@[j],
            decreases n - i,
        {
            let same = self.keys[i] == other.keys[i];
            acc = acc && same;
            i = i + 1;
        }
        if acc {
            assert(other@.take(n as int) =~= self@);
        } else {
            assert(other@.take(n as int) != self@) by {
                let j = choose|j: int| 0 <= j < n && self.keys@[j] != other.keys@[j];
                assert(other@.take(n as int)[j] == other.keys@[j]);
            }
        }
        acc
    }

    /// Whether both sequences hold the same keys.
    pub fn same_keys(&self, other: &Self) -> (r: bool)
        ensures
            r == (self@ == other@),
    {
        if self.keys.len() != other.keys.len() {
            return false;
        }
        let r = self.is_prefix(other);
        proof {
            assert(other@.take(self@.len() as int) =~= other@);
        }
        r
    }

    /// How the sequence is written: its keys separated by spaces.
    pub fn to_text(&self) -> (r: String)
        requires
            all_printable(self@),
        ensures
            r@ == sequence_text(self@),
    {
        let mut out = String::new();
        let n = self.keys.len();
        let mut i: usize = 0;
        while i < n
            invariant
                n == self.keys@.len(),
                all_printable(self@),
                i <= n,
                out@ == sequence_text(self@.take(i as int)),
            decreases n - i,
        {
            let t = self.keys[i].to_text();
            proof {
                let s = self@.take(i + 1);
                assert(s.drop_last() =~= self@.take(i as int));
                assert(s.last() == self@[i as int]);
                if i == 0 {
                    assert(s =~= seq![self@[0]]);
                }
            }
            if i > 0 {
                out.append(" ");
            }
            out.append(t.as_str());
            proof {
                if i == 0 {
                    assert(out@ =~= sequence_text(self@.take(1)));
                }
            }
            i = i + 1;
        }
        assert(self@.take(n as int) =~= self@);
        out
    }
}


proof fn reveal_key_names()
    ensures
        "enter"@ =~= seq!['e', 'n', 't', 'e', 'r'],
        "space"@ =~= seq!['s', 'p', 'a', 'c', 'e'],
        "tab"@ =~= seq!['t', 'a', 'b'],
        "backtab"@ =~= seq!['b', 'a', 'c', 'k', 't', 'a', 'b'],
        "backspace"@ =~= seq!['b', 'a', 'c', 'k', 's', 'p', 'a', 'c', 'e'],
        "esc"@ =~= seq!['e', 's', 'c'],
        "left"@ =~= seq!['l', 'e', 'f', 't'],
        "right"@ =~= seq!['r', 'i', 'g', 'h', 't'],
        "up"@ =~= seq!['u', 'p'],
        "down"@ =~= seq!['d', 'o', 'w', 'n'],
        "insert"@ =~= seq!['i', 'n', 's', 'e', 'r', 't'],
        "delete"@ =~= seq!['d', 'e', 'l', 'e', 't', 'e'],
        "home"@ =~= seq!['h', 'o', 'm', 'e'],
        "end"@ =~= seq!['e', 'n', 'd'],
        "page_up"@ =~= seq!['p', 'a', 'g', 'e', '_', 'u', 'p'],
        "page_down"@ =~= seq!['p', 'a', 'g', 'e', '_', 'd', 'o', 'w', 'n'],
        "f1"@ =~= seq!['f', '1'],
        "f2"@ =~= seq!['f', '2'],
        "f3"@ =~= seq!['f', '3'],
        "f4"@ =~= seq!['f', '4'],
        "f5"@ =~= seq!['f', '5'],
        "f6"@ =~= seq!['f', '6'],
        "f7"@ =~= seq!['f', '7'],
        "f8"@ =~= seq!['f', '8'],
        "f9"@ =~= seq!['f', '9'],
        "f10"@ =~= seq!['f', '1', '0'],
        "f11"@ =~= seq!['f', '1', '1'],
        "f12"@ =~= seq!['f', '1', '2'],
{
    reveal_strlit("enter");
    reveal_strlit("space");
    reveal_strlit("tab");
    reveal_strlit("backtab");
    reveal_strlit("backspace");
    reveal_strlit("esc");
    reveal_strlit("left");
    reveal_strlit("right");
    reveal_strlit("up");
    reveal_strlit("down");
    reveal_strlit("insert");
    reveal_strlit("delete");
    reveal_strlit("home");
    reveal_strlit("end");
    reveal_strlit("page_up");
    reveal_strlit("page_down");
    reveal_strlit("f1");
    reveal_strlit("f2");
    reveal_strlit("f3");
    reveal_strlit("f4");
    reveal_strlit("f5");
    reveal_strlit("f6");
    reveal_strlit("f7");
    reveal_strlit("f8");
    reveal_strlit("f9");
    reveal_strlit("f10");
    reveal_strlit("f11");
    reveal_strlit("f12");
}

/// Every key name reads back as the key code it names.
#[verifier::rlimit(50)]
pub proof fn law_key_code_name_round_trip(k: KeyCode)
    requires
        key_code_name(k) is Some,
    ensures
        parse_key_code_spec(key_code_name(k).unwrap()) == Some(k),
{
    reveal_key_names();
    match k {
        KeyCode::Char(c) => {
            if c == ' ' {
                reveal_key_names();
                assert("space"@[0] == 's');
                assert("enter"@[0] == 'e');
                assert("space"@ != "enter"@);
                assert(parse_key_code_spec("space"@) == Some(KeyCode::Char(' ')));
            } else {
                reveal_key_names();
                let s = seq![c];
                assert(s.len() == 1);
                assert(s != "enter"@ && s != "space"@ && s != "tab"@ && s != "backtab"@ && s
                    != "backspace"@ && s != "esc"@ && s != "left"@ && s != "right"@ && s != "up"@
                    && s != "down"@ && s != "insert"@ && s != "delete"@ && s != "home"@ && s
                    != "end"@ && s != "page_up"@ && s != "page_down"@);
                assert(s != "f1"@ && s != "f2"@ && s != "f3"@ && s != "f4"@ && s != "f5"@ && s
                    != "f6"@ && s != "f7"@ && s != "f8"@ && s != "f9"@ && s != "f10"@ && s
                    != "f11"@ && s != "f12"@);
                assert(parse_key_code_spec(s) == Some(KeyCode::Char(c)));
            }
        },
        KeyCode::F(n) => {
            reveal_key_names();
            if n == 1 {
                assert(parse_key_code_spec("f1"@) == Some(KeyCode::F(1)));
            } else if n == 2 {
                assert(parse_key_code_spec("f2"@) == Some(KeyCode::F(2)));
            } else if n == 3 {
                assert(parse_key_code_spec("f3"@) == Some(KeyCode::F(3)));
            } else if n == 4 {
                assert(parse_key_code_spec("f4"@) == Some(KeyCode::F(4)));
            } else if n == 5 {
                assert(parse_key_code_spec("f5"@) == Some(KeyCode::F(5)));
            } else if n == 6 {
                assert(parse_key_code_spec("f6"@) == Some(KeyCode::F(6)));
            } else if n == 7 {
                assert(parse_key_code_spec("f7"@) == Some(KeyCode::F(7)));
            } else if n == 8 {
                assert(parse_key_code_spec("f8"@) == Some(KeyCode::F(8)));
            } else if n == 9 {
                assert(parse_key_code_spec("f9"@) == Some(KeyCode::F(9)));
            } else if n == 10 {
                assert("f10"@ != "enter"@);
                assert("f10"@ != "space"@);
                assert("f10"@ != "tab"@);
                assert("f10"@ != "backtab"@);
                assert("f10"@ != "backspace"@);
                assert("f10"@ != "esc"@);
                assert("f10"@ != "left"@);
                assert("f10"@ != "right"@);
                assert("f10"@ != "up"@);
                assert("f10"@ != "down"@);
                assert("f10"@ != "insert"@);
                assert("f10"@ != "delete"@);
                assert("f10"@ != "home"@);
                assert("f10"@ != "end"@);
                assert("f10"@ != "page_up"@);
                assert("f10"@ != "page_down"@);
                assert("f10"@.len() == 3 && "f1"@.len() == 2);
                assert("f10"@ != "f1"@);
                assert("f10"@ != "f2"@);
                assert("f10"@ != "f3"@);
                assert("f10"@ != "f4"@);
                assert("f10"@ != "f5"@);
                assert("f10"@ != "f6"@);
                assert("f10"@ != "f7"@);
                assert("f10"@ != "f8"@);
                assert("f10"@ != "f9"@);
                assert(parse_key_code_spec("f10"@) == Some(KeyCode::F(10)));
            } else if n == 11 {
                assert("f11"@ != "enter"@);
                assert("f11"@ != "space"@);
                assert("f11"@ != "tab"@);
                assert("f11"@ != "backtab"@);
                assert("f11"@ != "backspace"@);
                assert("f11"@ != "esc"@);
                assert("f11"@ != "left"@);
                assert("f11"@ != "right"@);
                assert("f11"@ != "up"@);
                assert("f11"@ != "down"@);
                assert("f11"@ != "insert"@);
                assert("f11"@ != "delete"@);
                assert("f11"@ != "home"@);
                assert("f11"@ != "end"@);
                assert("f11"@ != "page_up"@);
                assert("f11"@ != "page_down"@);
                assert("f11"@.len() == 3 && "f1"@.len() == 2);
                assert("f11"@ != "f1"@);
                assert("f11"@ != "f2"@);
                assert("f11"@ != "f3"@);
                assert("f11"@ != "f4"@);
                assert("f11"@ != "f5"@);
                assert("f11"@ != "f6"@);
                assert("f11"@ != "f7"@);
                assert("f11"@ != "f8"@);
                assert("f11"@ != "f9"@);
                assert("f11"@ != "f10"@);
                assert(parse_key_code_spec("f11"@) == Some(KeyCode::F(11)));
            } else if n == 12 {
                assert("f12"@ != "enter"@);
                assert("f12"@ != "space"@);
                assert("f12"@ != "tab"@);
                assert("f12"@ != "backtab"@);
                assert("f12"@ != "backspace"@);
                assert("f12"@ != "esc"@);
                assert("f12"@ != "left"@);
                assert("f12"@ != "right"@);
                assert("f12"@ != "up"@);
                assert("f12"@ != "down"@);
                assert("f12"@ != "insert"@);
                assert("f12"@ != "delete"@);
                assert("f12"@ != "home"@);
                assert("f12"@ != "end"@);
                assert("f12"@ != "page_up"@);
                assert("f12"@ != "page_down"@);
                assert("f12"@.len() == 3 && "f1"@.len() == 2);
                assert("f12"@ != "f1"@);
                assert("f12"@ != "f2"@);
                assert("f12"@ != "f3"@);
                assert("f12"@ != "f4"@);
                assert("f12"@ != "f5"@);
                assert("f12"@ != "f6"@);
                assert("f12"@ != "f7"@);
                assert("f12"@ != "f8"@);
                assert("f12"@ != "f9"@);
                assert("f12"@ != "f10"@);
                assert("f12"@ != "f11"@);
                assert(parse_key_code_spec("f12"@) == Some(KeyCode::F(12)));
            }
        },
        _ => {
            reveal_key_names();
            assert(parse_key_code_spec(key_code_name(k).unwrap()) == Some(k));
        },
    }
}

/// A key name is not empty, has no space, does not start with a space and
/// has no dash in second place.
proof fn lemma_key_name_shape(k: KeyCode)
    requires
        key_code_name(k) is Some,
    ensures
        ({
            let n = key_code_name(k).unwrap();
            &&& n.len() > 0
            &&& n[0] != ' '
            &&& !(n.len() > 2 && n[1] == '-')
            &&& forall|i: int| 0 <= i < n.len() ==> n[i] != ' '
        }),
{
    reveal_strlit("enter");
    reveal_strlit("space");
    reveal_strlit("tab");
    reveal_strlit("backtab");
    reveal_strlit("backspace");
    reveal_strlit("esc");
    reveal_strlit("left");
    reveal_strlit("right");
    reveal_strlit("up");
    reveal_strlit("down");
    reveal_strlit("insert");
    reveal_strlit("delete");
    reveal_strlit("home");
    reveal_strlit("end");
    reveal_strlit("page_up");
    reveal_strlit("page_down");
    reveal_strlit("f1");
    reveal_strlit("f2");
    reveal_strlit("f3");
    reveal_strlit("f4");
    reveal_strlit("f5");
    reveal_strlit("f6");
    reveal_strlit("f7");
    reveal_strlit("f8");
    reveal_strlit("f9");
    reveal_strlit("f10");
    reveal_strlit("f11");
    reveal_strlit("f12");
}

/// Every written key reads back as itself.
pub proof fn law_key_text_round_trip(k: Key)
    requires
        k != Key::Unknown,
        key_text(k) is Some,
    ensures
        key_from_chars(key_text(k).unwrap()) == Some(k),
{
    reveal_strlit("C-");
    reveal_strlit("M-");
    match k {
        Key::Ctrl(c) => {
            law_key_code_name_round_trip(c);
            lemma_key_name_shape(c);
            let n = key_code_name(c).unwrap();
            assert(("C-"@ + n).skip(2) =~= n);
        },
        Key::Alt(c) => {
            law_key_code_name_round_trip(c);
            lemma_key_name_shape(c);
            let n = key_code_name(c).unwrap();
            assert(("M-"@ + n).skip(2) =~= n);
        },
        Key::NoModifier(c) => {
            law_key_code_name_round_trip(c);
            lemma_key_name_shape(c);
        },
        Key::Unknown => {},
    }
}

/// Written keys hold no space.
proof fn lemma_key_text_has_no_space(k: Key)
    requires
        k != Key::Unknown,
        key_text(k) is Some,
    ensures
        forall|i: int| 0 <= i < key_text(k).unwrap().len() ==> key_text(k).unwrap()[i] != ' ',
        key_text(k).unwrap().len() > 0,
{
    reveal_strlit("C-");
    reveal_strlit("M-");
    match k {
        Key::Ctrl(c) => lemma_key_name_shape(c),
        Key::Alt(c) => lemma_key_name_shape(c),
        Key::NoModifier(c) => lemma_key_name_shape(c),
        Key::Unknown => {},
    }
}

/// Splitting a text that ends in a word without spaces: the word is the
/// current one.
proof fn lemma_split_append_word(s: Seq<char>, w: Seq<char>)
    requires
        forall|i: int| 0 <= i < w.len() ==> w[i] != ' ',
    ensures
        split_state(s + w) == (split_state(s).0, split_state(s).1 + w),
    decreases w.len(),
{
    if w.len() == 0 {
        assert(s + w =~= s);
        assert(split_state(s).1 + w =~= split_state(s).1);
    } else {
        let w0 = w.drop_last();
        lemma_split_append_word(s, w0);
        assert((s + w).drop_last() =~= s + w0);
        assert((split_state(s).1 + w0).push(w.last()) =~= split_state(s).1 + w);
    }
}

/// The words of a written key sequence are the written keys.
proof fn lemma_words_of_sequence_text(keys: Seq<Key>)
    requires
        keys.len() > 0,
        all_printable(keys),
        forall|i: int| 0 <= i < keys.len() ==> keys[i] != Key::Unknown,
    ensures
        split_state(sequence_text(keys)).0.len() == keys.len() - 1,
        space_separated(sequence_text(keys)).len() == keys.len(),
        forall|i: int|
            0 <= i < keys.len() ==> space_separated(sequence_text(keys))[i] == key_text(keys[i]).unwrap(),
    decreases keys.len(),
{
    reveal_strlit(" ");
    if keys.len() == 1 {
        assert(key_text(keys[0]) is Some);
        lemma_key_text_has_no_space(keys[0]);
        lemma_split_append_word(Seq::empty(), key_text(keys[0]).unwrap());
        assert(Seq::<char>::empty() + key_text(keys[0]).unwrap() =~= key_text(keys[0]).unwrap());
        assert(Seq::<char>::empty() + key_text(keys[0]).unwrap() =~= key_text(keys[0]).unwrap());
    } else {
        let init = keys.drop_last();
        assert forall|i: int| 0 <= i < init.len() implies (#[trigger] key_text(init[i])) is Some by {
            assert(init[i] == keys[i]);
        }
        lemma_words_of_sequence_text(init);
        let t = sequence_text(init);
        let last = key_text(keys.last()).unwrap();
        assert(key_text(keys[keys.len() - 1]) is Some);
        lemma_key_text_has_no_space(keys.last());
        let tp = t.push(' ');
        assert(tp.drop_last() =~= t);
        lemma_split_append_word(tp, last);
        assert(t + " "@ + last =~= tp + last);
        assert(split_state(tp).1 =~= Seq::<char>::empty());
        assert(Seq::<char>::empty() + last =~= last);
    }
}

proof fn lemma_parse_written_words(keys: Seq<Key>, words: Seq<Seq<char>>)
    requires
        words.len() == keys.len(),
        forall|i: int| 0 <= i < keys.len() ==> keys[i] != Key::Unknown,
        forall|i: int| 0 <= i < keys.len() ==> (#[trigger] key_text(keys[i])) is Some,
        forall|i: int| 0 <= i < keys.len() ==> words[i] == key_text(keys[i]).unwrap(),
    ensures
        parse_words(words) == Some(keys),
    decreases keys.len(),
{
    if keys.len() > 0 {
        let n = keys.len() - 1;
        assert forall|i: int| 0 <= i < n implies (#[trigger] key_text(keys.drop_last()[i])) is Some by {
            assert(keys.drop_last()[i] == keys[i]);
        }
        lemma_parse_written_words(keys.drop_last(), words.drop_last());
        assert(key_text(keys[n]) is Some);
        law_key_text_round_trip(keys[n]);
        assert(keys.drop_last().push(keys.last()) =~= keys);
    }
}

/// A written key sequence reads back as itself.
pub proof fn law_key_sequence_round_trip(keys: Seq<Key>)
    requires
        keys.len() > 0,
        all_printable(keys),
        forall|i: int| 0 <= i < keys.len() ==> keys[i] != Key::Unknown,
    ensures
        key_sequence_from_chars(sequence_text(keys)) == Some(keys),
{
    lemma_words_of_sequence_text(keys);
    lemma_parse_written_words(keys, space_separated(sequence_text(keys)));
}

/// Being a prefix is reflexive and transitive, and two sequences that are
/// prefixes of each other are equal.
pub proof fn law_prefix_order(a: Seq<Key>, b: Seq<Key>, c: Seq<Key>)
    ensures
        is_prefix_spec(a, a),
        is_prefix_spec(a, b) && is_prefix_spec(b, c) ==> is_prefix_spec(a, c),
        is_prefix_spec(a, b) && is_prefix_spec(b, a) ==> a == b,
{
    assert(a.take(a.len() as int) =~= a);
    if is_prefix_spec(a, b) && is_prefix_spec(b, c) {
        assert(c.take(a.len() as int) =~= b.take(a.len() as int));
    }
    if is_prefix_spec(a, b) && is_prefix_spec(b, a) {
        assert(b.take(a.len() as int) =~= b);
    }
}

} // verus!
