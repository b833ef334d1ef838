//! The text of a new-playback notification, made from a format string whose
//! placeholders `{track}`, `{artists}` and `{album}` stand for what is
//! playing. A placeholder is a `{` up to the first `}` after it on the same
//! line; placeholders with another name are left out.

use vstd::prelude::*;

use crate::config::NotifyFormat;
use crate::text::{
    chars_of, closing_delim, find_closing, join_texts, joined, lemma_closing_delim, push_char,
    spells_range, texts_of,
};

verus! {

/// What a notification shows of the item that plays.
#[derive(Debug, Clone)]
pub enum PlayingItem {
    /// A track: its name, the names of its artists and its album's name.
    Track { name: String, artists: Vec<String>, album: String },
    /// A podcast episode: its name and its show's name.
    Episode { name: String, show: String },
    /// An item of an unknown kind.
    Unknown,
}

/// What `{track}` stands for: the track's or episode's name.
pub open spec fn track_text(item: PlayingItem) -> Seq<char> {
    match item {
        PlayingItem::Track { name, .. } => name@,
        PlayingItem::Episode { name, .. } => name@,
        PlayingItem::Unknown => Seq::empty(),
    }
}

/// What `{artists}` stands for: a track's artists, joined with `, `.
pub open spec fn artists_text(item: PlayingItem) -> Seq<char> {
    match item {
        PlayingItem::Track { artists, .. } => joined(texts_of(artists@), ", "@),
        _ => Seq::empty(),
    }
}

/// What `{album}` stands for: a track's album or an episode's show.
pub open spec fn album_text(item: PlayingItem) -> Seq<char> {
    match item {
        PlayingItem::Track { album, .. } => album@,
        PlayingItem::Episode { show, .. } => show@,
        PlayingItem::Unknown => Seq::empty(),
    }
}

/// What the placeholder `p` (braces included) stands for.
pub open spec fn placeholder_value(p: Seq<char>, item: PlayingItem) -> Seq<char> {
    if p == "{track}"@ {
        track_text(item)
    } else if p == "{artists}"@ {
        artists_text(item)
    } else if p == "{album}"@ {
        album_text(item)
    } else {
        Seq::empty()
    }
}

/// The text made from `s` from position `i` on: placeholders replaced by
/// what they stand for, every other character kept.
pub open spec fn rendered_from(s: Seq<char>, i: int, item: PlayingItem) -> Seq<char>
    decreases s.len() - i,
{
    if i < 0 || i >= s.len() {
        Seq::empty()
    } else if s[i] == '{' && closing_delim(s, i + 1, '}') is Some {
        proof {
            lemma_closing_delim(s, i + 1, '}');
        }
        let j = closing_delim(s, i + 1, '}')->0;
        placeholder_value(s.subrange(i, j + 1), item) + rendered_from(s, j + 1, item)
    } else {
        seq![s[i]] + rendered_from(s, i + 1, item)
    }
}

/// The text of a notification made from `format` for `item`.
pub open spec fn notify_text(format: Seq<char>, item: PlayingItem) -> Seq<char> {
    rendered_from(format, 0, item)
}

/// Appends what the placeholder `s[start..end]` stands for.
fn push_placeholder(text: &mut String, s: &Vec<char>, start: usize, end: usize, item: &PlayingItem)
    requires
        start <= end <= s@.len(),
    ensures
        final(text)@ == old(text)@ + placeholder_value(s@.subrange(start as int, end as int), *item),
{
    let ghost p = s@.subrange(start as int, end as int);
    if spells_range(s.as_slice(), start, end, "{track}") {
        match item {
            PlayingItem::Track { name, .. } => text.append(name.as_str()),
            PlayingItem::Episode { name, .. } => text.append(name.as_str()),
            PlayingItem::Unknown => {
                assert(old(text)@ + Seq::<char>::empty() =~= old(text)@);
            },
        }
    } else if spells_range(s.as_slice(), start, end, "{artists}") {
        match item {
            PlayingItem::Track { artists, .. } => {
                let names = join_texts(artists.as_slice(), ", ");
                text.append(names.as_str());
            },
            _ => {
                assert(old(text)@ + Seq::<char>::empty() =~= old(text)@);
            },
        }
    } else if spells_range(s.as_slice(), start, end, "{album}") {
        match item {
            PlayingItem::Track { album, .. } => text.append(album.as_str()),
            PlayingItem::Episode { show, .. } => text.append(show.as_str()),
            PlayingItem::Unknown => {
                assert(old(text)@ + Seq::<char>::empty() =~= old(text)@);
            },
        }
    } else {
        assert(old(text)@ + Seq::<char>::empty() =~= old(text)@);
    }
}

/// The text of a notification made from `format_str` for `item`.
pub fn text_from_format_str(format_str: &str, item: &PlayingItem) -> (r: String)
    ensures
        r@ == notify_text(format_str@, *item),
{
    let s = chars_of(format_str);
    let mut text = String::new();
    let mut i: usize = 0;
    assert(text@ + rendered_from(s@, 0, *item) =~= rendered_from(s@, 0, *item));
    while i < s.len()
        invariant
            s@ == format_str@,
            i <= s@.len(),
            text@ + rendered_from(s@, i as int, *item) == rendered_from(s@, 0, *item),
        decreases s@.len() - i,
    {
        let ghost before = text@;
        let mut next = i + 1;
        let mut placeholder = false;
        if s[i] == '{' {
            match find_closing(&s, i + 1, '}') {
                Some(j) => {
                    proof {
                        lemma_closing_delim(s@, i + 1, '}');
                    }
                    push_placeholder(&mut text, &s, i, j + 1, item);
                    next = j + 1;
                    placeholder = true;
                },
                None => {},
            }
        }
        if !placeholder {
            push_char(&mut text, s[i]);
        }
        assert(text@ + rendered_from(s@, next as int, *item) =~= before + rendered_from(
            s@,
            i as int,
            *item,
        ));
        i = next;
    }
    text
}

/// The summary and the body of the notification for `item`.
pub fn notification_texts(format: &NotifyFormat, item: &PlayingItem) -> (r: (String, String))
    ensures
        r.0@ == notify_text(format.summary@, *item),
        r.1@ == notify_text(format.body@, *item),
{
    (
        text_from_format_str(format.summary.as_str(), item),
        text_from_format_str(format.body.as_str(), item),
    )
}

} // verus!
