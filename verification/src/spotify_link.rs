//! Opening a Spotify link pasted from the clipboard: finding the first link
//! of the form `https://open.spotify.com/<type>/<id>` in a text, and what it
//! leads to.

use vstd::prelude::*;

use crate::text::{chars_of, push_char, spells};

verus! {

/// Whether `s` holds `lit` at position `i`.
pub open spec fn holds_at(s: Seq<char>, i: int, lit: Seq<char>) -> bool {
    0 <= i && i + lit.len() <= s.len() && s.subrange(i, i + lit.len()) == lit
}

/// Whether a link starts at `i`: `https://open`, any character but a line
/// break, `spotify`, any character but a line break, then `com/`.
pub open spec fn link_prefix_at(s: Seq<char>, i: int) -> bool {
    &&& holds_at(s, i, "https://open"@)
    &&& i + 25 <= s.len()
    &&& s[i + 12] != '\n'
    &&& holds_at(s, i + 13, "spotify"@)
    &&& s[i + 20] != '\n'
    &&& holds_at(s, i + 21, "com/"@)
}

/// The first `/` at or after `j`, if one comes before the end of the line.
pub open spec fn slash_from(s: Seq<char>, j: int) -> Option<int>
    decreases s.len() - j,
{
    if j < 0 || j >= s.len() || s[j] == '\n' {
        None
    } else if s[j] == '/' {
        Some(j)
    } else {
        slash_from(s, j + 1)
    }
}

/// Whether a whole link starts at `i`: its prefix, then a type ended by `/`
/// on the same line.
pub open spec fn link_at(s: Seq<char>, i: int) -> bool {
    link_prefix_at(s, i) && slash_from(s, i + 25) is Some
}

/// The first position at or after `i` where a link starts.
pub open spec fn link_from(s: Seq<char>, i: int) -> Option<int>
    decreases s.len() - i,
{
    if i < 0 || i >= s.len() {
        None
    } else if link_at(s, i) {
        Some(i)
    } else {
        link_from(s, i + 1)
    }
}

/// Whether `c` is an ASCII letter or digit.
pub open spec fn is_ascii_alnum(c: char) -> bool {
    ('0' <= c && c <= '9') || ('a' <= c && c <= 'z') || ('A' <= c && c <= 'Z')
}

/// Where the run of ASCII letters and digits starting at `j` ends.
pub open spec fn alnum_end(s: Seq<char>, j: int) -> int
    decreases s.len() - j,
{
    if 0 <= j < s.len() && is_ascii_alnum(s[j]) {
        alnum_end(s, j + 1)
    } else {
        j
    }
}

/// The type and id of the first Spotify link in `s`: the text between
/// `com/` and the next `/`, and the letters and digits after that `/`.
pub open spec fn spotify_link(s: Seq<char>) -> Option<(Seq<char>, Seq<char>)> {
    match link_from(s, 0) {
        Some(i) => {
            let k = slash_from(s, i + 25).unwrap();
            Some((s.subrange(i + 25, k), s.subrange(k + 1, alnum_end(s, k + 1))))
        },
        None => None,
    }
}

/// Whether `s` holds `lit` at position `i`.
fn chars_at(s: &Vec<char>, i: usize, lit: &str) -> (r: bool)
    ensures
        r == holds_at(s@, i as int, lit@),
{
    let l = chars_of(lit);
    if i > s.len() || l.len() > s.len() - i {
        return false;
    }
    let mut j: usize = 0;
    let len = s.len();
    while j < l.len()
        invariant
            len == s@.len(),
            l@ == lit@,
            i + l@.len() <= s@.len(),
            j <= l@.len(),
            forall|k: int| 0 <= k < j ==> s@[i + k] == l@[k],
        decreases l@.len() - j,
    {
        if s[i + j] != l[j] {
            assert(s@.subrange(i as int, i + l@.len())[j as int] != l@[j as int]);
            return false;
        }
        j = j + 1;
    }
    assert(s@.subrange(i as int, i + l@.len()) =~= l@);
    true
}

/// The first `/` at or after `j` on the same line.
fn find_slash(s: &Vec<char>, j: usize) -> (r: Option<usize>)
    ensures
        slash_from(s@, j as int) == match r {
            Some(k) => Some(k as int),
            None => None,
        },
        r matches Some(k) ==> j <= k < s@.len(),
{
    let mut k = j;
    while k < s.len()
        invariant
            j <= k,
            slash_from(s@, j as int) == slash_from(s@, k as int),
        decreases s@.len() - k,
    {
        if s[k] == '\n' {
            return None;
        }
        if s[k] == '/' {
            return Some(k);
        }
        k = k + 1;
    }
    None
}

/// Whether a link starts at `i`.
fn is_link_at(s: &Vec<char>, i: usize) -> (r: Option<usize>)
    ensures
        r is Some == link_at(s@, i as int),
        r matches Some(k) ==> slash_from(s@, i + 25) == Some(k as int) && i + 25 <= k < s@.len(),
{
    proof {
        reveal_strlit("https://open");
        reveal_strlit("spotify");
        reveal_strlit("com/");
    }
    if s.len() < 25 || i > s.len() - 25 || !chars_at(s, i, "https://open") {
        return None;
    }
    if s[i + 12] == '\n' || !chars_at(s, i + 13, "spotify") || s[i + 20] == '\n' || !chars_at(
        s,
        i + 21,
        "com/",
    ) {
        return None;
    }
    find_slash(s, i + 25)
}

/// The type and id of the first Spotify link in `content`.
pub fn parse_spotify_link(content: &str) -> (r: Option<(String, String)>)
    ensures
        match spotify_link(content@) {
            Some((kind, id)) => r matches Some((k, d)) && k@ == kind && d@ == id,
            None => r is None,
        },
{
    let s = chars_of(content);
    let mut i: usize = 0;
    while i < s.len()
        invariant
            s@ == content@,
            link_from(s@, 0) == link_from(s@, i as int),
        decreases s@.len() - i,
    {
        match is_link_at(&s, i) {
            Some(k) => {
                let mut kind = String::new();
                let mut j = i + 25;
                while j < k
                    invariant
                        i + 25 <= j <= k,
                        k < s@.len(),
                        kind@ == s@.subrange(i + 25, j as int),
                    decreases k - j,
                {
                    push_char(&mut kind, s[j]);
                    j = j + 1;
                    assert(kind@ =~= s@.subrange(i + 25, j as int));
                }
                let mut id = String::new();
                let mut m = k + 1;
                assert(alnum_end(s@, (k + 1) as int) == alnum_end(s@, m as int));
                while m < s.len() && (('0' <= s[m] && s[m] <= '9') || ('a' <= s[m] && s[m] <= 'z') || ('A' <= s[m] && s[m] <= 'Z'))
                    invariant
                        k + 1 <= m <= s@.len(),
                        id@ == s@.subrange(k + 1, m as int),
                        alnum_end(s@, (k + 1) as int) == alnum_end(s@, m as int),
                    decreases s@.len() - m,
                {
                    push_char(&mut id, s[m]);
                    m = m + 1;
                    assert(id@ =~= s@.subrange(k + 1, m as int));
                }
                return Some((kind, id));
            },
            None => {},
        }
        i = i + 1;
    }
    None
}

/// What a Spotify link leads to.
#[derive(Debug, Clone)]
pub enum LinkTarget {
    /// Play the track.
    Track(String),
    /// Open the playlist's page.
    Playlist(String),
    /// Open the artist's page.
    Artist(String),
    /// Open the album's page.
    Album(String),
}

/// A link target with its id as characters.
pub enum LinkTargetView {
    Track(Seq<char>),
    Playlist(Seq<char>),
    Artist(Seq<char>),
    Album(Seq<char>),
}

/// The abstract value of the outcome of a link.
pub open spec fn outcome_view(r: Result<LinkTarget, String>) -> Result<LinkTargetView, Seq<char>> {
    match r {
        Ok(LinkTarget::Track(t)) => Ok(LinkTargetView::Track(t@)),
        Ok(LinkTarget::Playlist(t)) => Ok(LinkTargetView::Playlist(t@)),
        Ok(LinkTarget::Artist(t)) => Ok(LinkTargetView::Artist(t@)),
        Ok(LinkTarget::Album(t)) => Ok(LinkTargetView::Album(t@)),
        Err(m) => Err(m@),
    }
}

/// What a link of type `kind` and id `id` leads to: a track is played, a
/// playlist, artist or album page opened; other types are refused.
pub open spec fn link_target_of(kind: Seq<char>, id: Seq<char>) -> Result<LinkTargetView, Seq<char>> {
    if kind == "track"@ {
        Ok(LinkTargetView::Track(id))
    } else if kind == "playlist"@ {
        Ok(LinkTargetView::Playlist(id))
    } else if kind == "artist"@ {
        Ok(LinkTargetView::Artist(id))
    } else if kind == "album"@ {
        Ok(LinkTargetView::Album(id))
    } else {
        Err("unsupported Spotify type "@ + kind + "!"@)
    }
}

/// What a link of type `kind` and id `id` leads to.
pub fn link_target(kind: &str, id: String) -> (r: Result<LinkTarget, String>)
    ensures
        outcome_view(r) == link_target_of(kind@, id@),
{
    let k = chars_of(kind);
    if spells(k.as_slice(), "track") {
        Ok(LinkTarget::Track(id))
    } else if spells(k.as_slice(), "playlist") {
        Ok(LinkTarget::Playlist(id))
    } else if spells(k.as_slice(), "artist") {
        Ok(LinkTarget::Artist(id))
    } else if spells(k.as_slice(), "album") {
        Ok(LinkTarget::Album(id))
    } else {
        let mut m = String::from_str("unsupported Spotify type ");
        m.append(kind);
        m.append("!");
        Err(m)
    }
}

/// The id a link target carries.
pub open spec fn target_id(t: LinkTargetView) -> Seq<char> {
    match t {
        LinkTargetView::Track(i) => i,
        LinkTargetView::Playlist(i) => i,
        LinkTargetView::Artist(i) => i,
        LinkTargetView::Album(i) => i,
    }
}

/// A link is followed exactly when its type is a track, playlist, artist
/// or album; the target is of that type and carries the link's id
/// unchanged. A refused link's message names its type.
pub proof fn law_link_target_keeps_kind_and_id(kind: Seq<char>, id: Seq<char>)
    ensures
        link_target_of(kind, id) is Ok <==> (kind == "track"@ || kind == "playlist"@ || kind == "artist"@
            || kind == "album"@),
        link_target_of(kind, id) matches Ok(t) ==> target_id(t) == id,
        link_target_of(kind, id) matches Ok(t) ==> (t is Track <==> kind == "track"@) && (t is Playlist
            <==> kind == "playlist"@) && (t is Artist <==> kind == "artist"@) && (t is Album <==> kind
            == "album"@),
        link_target_of(kind, id) matches Err(m) ==> m.subrange(25, 25 + kind.len() as int) == kind,
{
    reveal_strlit("track");
    reveal_strlit("playlist");
    reveal_strlit("artist");
    reveal_strlit("album");
    reveal_strlit("unsupported Spotify type ");
    reveal_strlit("!");
    assert("track"@ != "album"@) by {
        assert("track"@[0] != "album"@[0]);
    }
    assert("track"@.len() != "playlist"@.len() && "track"@.len() != "artist"@.len());
    assert("playlist"@.len() != "artist"@.len() && "playlist"@.len() != "album"@.len());
    assert("artist"@.len() != "album"@.len());
    if let Err(m) = link_target_of(kind, id) {
        assert(m.subrange(25, 25 + kind.len() as int) =~= kind);
    }
}

} // verus!
