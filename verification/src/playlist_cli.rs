//! The answers of the command line's playlist commands: what creating,
//! deleting, listing, forking and syncing playlists report, and which
//! imports a sync carries out.

use vstd::prelude::*;

use crate::text::{chars_of, push_char};
use crate::web::{is_white, white};

verus! {

/// The report of a created playlist.
pub open spec fn created_text(name: Seq<char>, id: Seq<char>) -> Seq<char> {
    "Playlist '"@ + name + "' with id '"@ + id + "' was created."@
}

/// The report of a created playlist named `name` with id `id`.
pub fn playlist_created_message(name: &str, id: &str) -> (r: String)
    ensures
        r@ == created_text(name@, id@),
{
    let mut out = String::from_str("Playlist '");
    out.append(name);
    out.append("' with id '");
    out.append(id);
    out.append("' was created.");
    out
}

/// The report of deleting the playlist shown as `id`: it is unfollowed
/// when the user follows it, else nothing is done.
pub open spec fn delete_text(id: Seq<char>, following: bool) -> Seq<char> {
    if following {
        "Playlist '"@ + id + "' was deleted/unfollowed"@
    } else {
        "Playlist '"@ + id + "' was not followed by the user, nothing to be done."@
    }
}

/// The report of deleting the playlist shown as `id` (see `delete_text`);
/// `following` tells whether it is unfollowed.
pub fn playlist_delete_message(id: &str, following: bool) -> (r: String)
    ensures
        r@ == delete_text(id@, following),
{
    let mut out = String::from_str("Playlist '");
    out.append(id);
    if following {
        out.append("' was deleted/unfollowed");
    } else {
        out.append("' was not followed by the user, nothing to be done.");
    }
    out
}

/// One line per playlist, `id: name`, each ended by a line break.
pub open spec fn list_lines(entries: Seq<(String, String)>) -> Seq<char>
    decreases entries.len(),
{
    if entries.len() == 0 {
        Seq::empty()
    } else {
        list_lines(entries.drop_last()) + entries.last().0@ + ": "@ + entries.last().1@ + "\n"@
    }
}

/// The position of the first character of `s` that is not white space, at
/// or after `i`, or the end.
pub open spec fn first_non_white(s: Seq<char>, i: int) -> int
    decreases s.len() - i,
{
    if i < 0 || i >= s.len() {
        s.len() as int
    } else if !is_white(s[i]) {
        i
    } else {
        first_non_white(s, i + 1)
    }
}

/// The end of the last character of `s` before `i` that is not white
/// space, or 0.
pub open spec fn last_non_white_end(s: Seq<char>, i: int) -> int
    decreases i,
{
    if i <= 0 || i > s.len() {
        0
    } else if !is_white(s[i - 1]) {
        i
    } else {
        last_non_white_end(s, i - 1)
    }
}

/// `s` without white space at either end, as `str::trim` has it.
pub open spec fn trimmed(s: Seq<char>) -> Seq<char> {
    let a = first_non_white(s, 0);
    let b = last_non_white_end(s, s.len() as int);
    if a < b {
        s.subrange(a, b)
    } else {
        Seq::empty()
    }
}

/// `s` without white space at either end (see `trimmed`).
fn trim_text(s: &String) -> (r: String)
    ensures
        r@ == trimmed(s@),
{
    let c = chars_of(s.as_str());
    let n = c.len();
    let mut a: usize = 0;
    while a < n && white(c[a])
        invariant
            c@ == s@,
            n == c@.len(),
            a <= n,
            first_non_white(c@, 0) == first_non_white(c@, a as int),
        decreases n - a,
    {
        a = a + 1;
    }
    let mut b: usize = n;
    while b > 0 && white(c[b - 1])
        invariant
            c@ == s@,
            n == c@.len(),
            b <= n,
            last_non_white_end(c@, n as int) == last_non_white_end(c@, b as int),
        decreases b,
    {
        b = b - 1;
    }
    let mut out = String::new();
    if a < b {
        let mut k = a;
        while k < b
            invariant
                c@ == s@,
                a <= k <= b <= n,
                n == c@.len(),
                out@ == c@.subrange(a as int, k as int),
            decreases b - k,
        {
            push_char(&mut out, c[k]);
            k = k + 1;
            assert(out@ =~= c@.subrange(a as int, k as int));
        }
    }
    out
}

/// The answer to listing playlists: a line `id: name` for each of
/// `entries` (id and name), without white space at either end.
pub fn playlist_list_text(entries: &Vec<(String, String)>) -> (r: String)
    ensures
        r@ == trimmed(list_lines(entries@)),
{
    let mut out = String::new();
    let mut i: usize = 0;
    while i < entries.len()
        invariant
            i <= entries@.len(),
            out@ == list_lines(entries@.take(i as int)),
        decreases entries@.len() - i,
    {
        proof {
            assert(entries@.take(i + 1).drop_last() =~= entries@.take(i as int));
            assert(entries@.take(i + 1).last() == entries@[i as int]);
        }
        out.append(entries[i].0.as_str());
        out.append(": ");
        out.append(entries[i].1.as_str());
        out.append("\n");
        i = i + 1;
    }
    assert(entries@.take(i as int) =~= entries@);
    trim_text(&out)
}

/// The head of a fork's report: the playlist forked and the new one.
pub open spec fn fork_text(from_id: Seq<char>, to_id: Seq<char>, to_name: Seq<char>) -> Seq<char> {
    "Forked "@ + from_id + ".\nNew playlist: "@ + to_id + ":"@ + to_name + "\n"@
}

/// The head of the report of forking `from_id` into the new playlist
/// `to_id` named `to_name`.
pub fn playlist_fork_header(from_id: &str, to_id: &str, to_name: &str) -> (r: String)
    ensures
        r@ == fork_text(from_id@, to_id@, to_name@),
{
    let mut out = String::from_str("Forked ");
    out.append(from_id);
    out.append(".\nNew playlist: ");
    out.append(to_id);
    out.append(":");
    out.append(to_name);
    out.append("\n");
    out
}

/// What a sync does with the imports into one playlist.
#[derive(Debug)]
pub enum SyncStep {
    /// The playlist is not the one asked for: left alone.
    Skip,
    /// Every import recorded into the playlist is carried out again.
    ImportAll,
    /// The user no longer follows the playlist: its import data is deleted,
    /// with this report.
    Forget(String),
}

/// The report of forgetting the import data of a playlist no longer
/// followed.
pub open spec fn forget_text(to_id: Seq<char>) -> Seq<char> {
    "Not following playlist '"@ + to_id + "'. Deleted its import data in the cache folder...\n"@
}

/// What a sync, for the playlist `only` when given, does with the imports
/// recorded into `to_id`, which the user follows or not: skip it when
/// another playlist was asked for, else carry its imports out again when
/// followed, and forget them (with the report `forget_text`) when not.
pub fn sync_step(only: &Option<String>, to_id: &String, following: bool) -> (r: SyncStep)
    ensures
        (only matches Some(o) && o@ != to_id@) ==> r is Skip,
        !(only matches Some(o) && o@ != to_id@) && following ==> r is ImportAll,
        !(only matches Some(o) && o@ != to_id@) && !following ==> (r matches SyncStep::Forget(m) && m@
            == forget_text(to_id@)),
{
    match only {
        Some(o) => {
            if *o != *to_id {
                return SyncStep::Skip;
            }
        },
        None => {},
    }
    if following {
        SyncStep::ImportAll
    } else {
        let mut m = String::from_str("Not following playlist '");
        m.append(to_id.as_str());
        m.append("'. Deleted its import data in the cache folder...\n");
        SyncStep::Forget(m)
    }
}

} // verus!
