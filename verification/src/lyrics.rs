//! Lyrics found on the web: cleaning the search query, choosing the song
//! among search hits, and making the spacing between the sections of a
//! lyric consistent.

use vstd::prelude::*;

use crate::search::{lowercase_of, to_lowercase};
use crate::text::{chars_of, push_char, spells};
use crate::web::{is_white, white};

verus! {

/// A song found by a lyrics search.
#[derive(Debug, Clone)]
pub struct SongHit {
    pub url: String,
    pub title: String,
    pub artist_names: String,
}

/// The lyric of a song, or nothing when no song was found.
#[derive(Debug, Clone)]
pub enum LyricResult {
    Found { track: String, artists: String, lyric: String },
    NotFound,
}

/// `s` with every occurrence of `from`, found left to right without
/// overlapping, replaced by `to`.
pub open spec fn replaced(s: Seq<char>, from: Seq<char>, to: Seq<char>) -> Seq<char>
    decreases s.len(),
{
    if s.len() == 0 {
        seq![]
    } else if from.len() > 0 && from.len() <= s.len() && s.take(from.len() as int) == from {
        to + replaced(s.skip(from.len() as int), from, to)
    } else {
        seq![s[0]] + replaced(s.drop_first(), from, to)
    }
}

/// Whether `from` occurs in `s` at `i`.
fn occurs_at(s: &Vec<char>, i: usize, from: &Vec<char>) -> (r: bool)
    requires
        i <= s@.len(),
    ensures
        r == (from@.len() <= s@.len() - i && s@.skip(i as int).take(from@.len() as int) == from@),
{
    if from.len() > s.len() - i {
        return false;
    }
    let mut j: usize = 0;
    let len = s.len();
    while j < from.len()
        invariant
            len == s@.len(),
            i + from@.len() <= s@.len(),
            j <= from@.len(),
            forall|k: int| 0 <= k < j ==> s@[i + k] == from@[k],
        decreases from@.len() - j,
    {
        if s[i + j] != from[j] {
            assert(s@.skip(i as int).take(from@.len() as int)[j as int] != from@[j as int]);
            return false;
        }
        j = j + 1;
    }
    assert(s@.skip(i as int).take(from@.len() as int) =~= from@);
    true
}

/// `s` with every occurrence of `from` replaced by `to`, as `str::replace`
/// does.
pub fn replace_text(s: &str, from: &str, to: &str) -> (r: String)
    ensures
        r@ == replaced(s@, from@, to@),
{
    let chars = chars_of(s);
    let pat = chars_of(from);
    let rep = chars_of(to);
    let n = chars.len();
    let mut out = String::new();
    let mut i: usize = 0;
    assert(s@.skip(0) =~= s@);
    assert(out@ + replaced(s@, from@, to@) =~= replaced(s@, from@, to@));
    while i < n
        invariant
            n == chars@.len(),
            chars@ == s@,
            pat@ == from@,
            rep@ == to@,
            i <= n,
            replaced(s@, from@, to@) == out@ + replaced(s@.skip(i as int), from@, to@),
        decreases n - i,
    {
        let ghost rest = s@.skip(i as int);
        if pat.len() > 0 && occurs_at(&chars, i, &pat) {
            assert(rest.skip(pat@.len() as int) =~= s@.skip(i + pat@.len()));
            let mut j: usize = 0;
            let ghost before = out@;
            while j < rep.len()
                invariant
                    j <= rep@.len(),
                    out@ == before + rep@.take(j as int),
                decreases rep@.len() - j,
            {
                push_char(&mut out, rep[j]);
                j = j + 1;
                assert(out@ =~= before + rep@.take(j as int));
            }
            assert(rep@.take(j as int) =~= to@);
            assert(before + (to@ + replaced(s@.skip(i + pat@.len()), from@, to@)) =~= out@ + replaced(
                s@.skip(i + pat@.len()),
                from@,
                to@,
            ));
            i = i + pat.len();
        } else {
            assert(rest.drop_first() =~= s@.skip(i + 1));
            let ghost before = out@;
            push_char(&mut out, chars[i]);
            assert(before + (seq![s@[i as int]] + replaced(s@.skip(i + 1), from@, to@)) =~= out@ + replaced(
                s@.skip(i + 1),
                from@,
                to@,
            ));
            i = i + 1;
        }
    }
    assert(out@ + replaced(s@.skip(n as int), from@, to@) =~= out@);
    out
}

/// A lyric with one blank line before each section, sections starting with
/// `[`.
pub open spec fn spaced_sections(lyric: Seq<char>) -> Seq<char> {
    replaced(replaced(lyric, "\n\n["@, "\n["@), "\n["@, "\n\n["@)
}

/// The lyric `lyric` with one blank line before each section.
pub fn process_lyric(lyric: &str) -> (r: String)
    ensures
        r@ == spaced_sections(lyric@),
{
    let once = replace_text(lyric, "\n\n[", "\n[");
    replace_text(once.as_str(), "\n[", "\n\n[")
}

/// `s` without its line breaks.
pub open spec fn without_breaks(s: Seq<char>) -> Seq<char> {
    s.filter(|c: char| c != '\n')
}

/// Replacing a text by one that differs only in line breaks changes only
/// line breaks.
proof fn lemma_replaced_keeps_text(s: Seq<char>, from: Seq<char>, to: Seq<char>)
    requires
        without_breaks(from) == without_breaks(to),
    ensures
        without_breaks(replaced(s, from, to)) == without_breaks(s),
    decreases s.len(),
{
    broadcast use Seq::filter_distributes_over_add;

    if s.len() == 0 {
        assert(replaced(s, from, to) =~= s);
    } else if from.len() > 0 && from.len() <= s.len() && s.take(from.len() as int) == from {
        lemma_replaced_keeps_text(s.skip(from.len() as int), from, to);
        assert(s =~= s.take(from.len() as int) + s.skip(from.len() as int));
    } else {
        lemma_replaced_keeps_text(s.drop_first(), from, to);
        assert(s =~= seq![s[0]] + s.drop_first());
    }
}

/// Replacing a text that holds `[` leaves a text without `[` as it is.
proof fn lemma_replaced_without_bracket(s: Seq<char>, from: Seq<char>, to: Seq<char>)
    requires
        !s.contains('['),
        from.contains('['),
    ensures
        replaced(s, from, to) == s,
    decreases s.len(),
{
    if s.len() == 0 {
        assert(replaced(s, from, to) =~= s);
    } else {
        if from.len() > 0 && from.len() <= s.len() && s.take(from.len() as int) == from {
            let k = choose|k: int| 0 <= k < from.len() && from[k] == '[';
            assert(s[k] == s.take(from.len() as int)[k]);
            assert(false);
        }
        assert(!s.drop_first().contains('[')) by {
            if s.drop_first().contains('[') {
                let k = choose|k: int| 0 <= k < s.drop_first().len() && s.drop_first()[k] == '[';
                assert(s[k + 1] == '[');
            }
        }
        lemma_replaced_without_bracket(s.drop_first(), from, to);
        assert(s =~= seq![s[0]] + s.drop_first());
    }
}

/// Spacing the sections only moves line breaks: the lyric's other
/// characters stay as they were, in order; and a lyric without sections
/// (no `[`) comes back unchanged, blank lines and all.
pub proof fn law_spacing_only_moves_line_breaks(lyric: Seq<char>)
    ensures
        without_breaks(spaced_sections(lyric)) == without_breaks(lyric),
        !lyric.contains('[') ==> spaced_sections(lyric) == lyric,
{
    reveal_strlit("\n\n[");
    reveal_strlit("\n[");
    let a = "\n\n["@;
    let b = "\n["@;
    assert(without_breaks(a) =~= seq!['[']) by {
        reveal_with_fuel(Seq::filter, 4);
    }
    assert(without_breaks(b) =~= seq!['[']) by {
        reveal_with_fuel(Seq::filter, 3);
    }
    lemma_replaced_keeps_text(lyric, a, b);
    lemma_replaced_keeps_text(replaced(lyric, a, b), b, a);
    if !lyric.contains('[') {
        assert(a[2] == '[');
        assert(b[1] == '[');
        lemma_replaced_without_bracket(lyric, a, b);
        lemma_replaced_without_bracket(lyric, b, a);
    }
}

/// The songs among search hits of type `type`, in order.
pub open spec fn songs_of(hits: Seq<(Seq<char>, SongHit)>) -> Seq<SongHit> {
    hits.filter(|h: (Seq<char>, SongHit)| h.0 == "song"@).map_values(|h: (Seq<char>, SongHit)| h.1)
}

/// The result of a lyrics search answered with `status`: the songs among
/// its hits when the status is 200, else the answer's message, or one
/// naming the status.
pub fn search_results(status: u16, message: Option<String>, hits: Option<Vec<(String, SongHit)>>) -> (r: Result<
    Vec<SongHit>,
    String,
>)
    ensures
        status != 200 <==> r is Err,
        r matches Ok(songs) ==> match hits {
            Some(h) => songs@ == songs_of(h@.map_values(|e: (String, SongHit)| (e.0@, e.1))),
            None => songs@.len() == 0,
        },
        r matches Err(m) ==> match message {
            Some(msg) => m@ == msg@,
            None => m@ == "request failed with status code: "@ + crate::command::decimal_digits(
                status as nat,
            ),
        },
{
    if status != 200 {
        return match message {
            Some(m) => Err(m),
            None => {
                let mut m = String::from_str("request failed with status code: ");
                crate::command::push_decimal_digits(&mut m, status as u64);
                Err(m)
            },
        };
    }
    let hits = match hits {
        Some(h) => h,
        None => return Ok(Vec::new()),
    };
    let ghost all = hits@.map_values(|e: (String, SongHit)| (e.0@, e.1));
    let mut rest = hits;
    let ghost mut done: Seq<(Seq<char>, SongHit)> = seq![];
    let mut songs: Vec<SongHit> = Vec::new();
    while rest.len() > 0
        invariant
            all == done + rest@.map_values(|e: (String, SongHit)| (e.0@, e.1)),
            songs@ == songs_of(done),
        decreases rest.len(),
    {
        let ghost r0 = rest@.map_values(|e: (String, SongHit)| (e.0@, e.1));
        let (ty, hit) = rest.remove(0);
        assert(rest@.map_values(|e: (String, SongHit)| (e.0@, e.1)) =~= r0.drop_first());
        let ghost e = (ty@, hit);
        proof {
            assert(r0[0] == e);
            let next = done.push(e);
            assert(next.drop_last() =~= done);
            reveal_with_fuel(Seq::filter, 2);
            assert(next + r0.drop_first() =~= done + r0);
            done = next;
        }
        let t = chars_of(ty.as_str());
        if spells(t.as_slice(), "song") {
            let ghost before = songs@;
            songs.push(hit);
            assert(songs@ =~= songs_of(done));
        } else {
            assert(songs@ =~= songs_of(done));
        }
    }
    assert(done =~= all);
    Ok(songs)
}

/// What `char::is_numeric` says of `c`.
pub uninterp spec fn numeric_char(c: char) -> bool;

/// What `char::is_alphanumeric` says of `c`.
pub uninterp spec fn alphanumeric_char(c: char) -> bool;

/// Calls `char::is_numeric`; the Unicode property (general categories Nd,
/// Nl and No) is named, not stated, but for ASCII characters, of which only
/// the digits are numeric.
#[verifier::external_body]
fn is_numeric(c: char) -> (r: bool)
    ensures
        r == numeric_char(c),
        c <= '\u{7f}' ==> (r <==> ('0' <= c <= '9')),
{
    c.is_numeric()
}

/// Calls `char::is_alphanumeric` (alphabetic or numeric); the Unicode
/// property is named, not stated, but for ASCII characters, of which the
/// letters and digits are alphanumeric.
#[verifier::external_body]
fn is_alphanumeric(c: char) -> (r: bool)
    ensures
        r == alphanumeric_char(c),
        c <= '\u{7f}' ==> (r <==> (('0' <= c <= '9') || ('a' <= c <= 'z') || ('A' <= c <= 'Z'))),
{
    c.is_alphanumeric()
}

/// The shortest song name, before the remix details, whose remix details
/// are cut.
pub const SONG_MIN_LENGTH_WO_REMIX_METADATA: usize = 3;

/// The first position at or after `i` where `pat` occurs in `q`.
pub open spec fn first_occurrence(q: Seq<char>, pat: Seq<char>, i: int) -> Option<int>
    decreases q.len() + 1 - i,
{
    if i < 0 || i + pat.len() > q.len() {
        None
    } else if crate::text::occurs_at(q, pat, i) {
        Some(i)
    } else {
        first_occurrence(q, pat, i + 1)
    }
}

/// Where the word going on at `idx` ends: the first character at or after
/// `idx` that is not a letter or digit, or `idx` itself when there is none.
pub open spec fn word_end(q: Seq<char>, idx: int) -> int {
    match first_non_alnum(q, idx) {
        Some(j) => j,
        None => idx,
    }
}

/// The first position at or after `i` holding a character that is not a
/// letter or digit.
pub open spec fn first_non_alnum(q: Seq<char>, i: int) -> Option<int>
    decreases q.len() - i,
{
    if i < 0 || i >= q.len() {
        None
    } else if !alphanumeric_char(q[i]) {
        Some(i)
    } else {
        first_non_alnum(q, i + 1)
    }
}

/// Whether `c` is filler: a dash or white space.
pub open spec fn filler(c: char) -> bool {
    c == '-' || is_white(c)
}

/// The end of the last character before `i` that is not filler.
pub open spec fn last_non_filler_end(q: Seq<char>, i: int) -> Option<int>
    decreases i,
{
    if i <= 0 || i > q.len() {
        None
    } else if !filler(q[i - 1]) {
        Some(i)
    } else {
        last_non_filler_end(q, i - 1)
    }
}

/// `idx` moved back over the filler before it.
pub open spec fn trimmed_back(q: Seq<char>, idx: int) -> int {
    match last_non_filler_end(q, idx) {
        Some(e) => e,
        None => idx,
    }
}

/// The last position before `i` holding `c`.
pub open spec fn last_before(q: Seq<char>, c: char, i: int) -> Option<int>
    decreases i,
{
    if i <= 0 || i > q.len() {
        None
    } else if q[i - 1] == c {
        Some(i - 1)
    } else {
        last_before(q, c, i - 1)
    }
}

/// `q` without the characters from `start` to `end`.
pub open spec fn cut(q: Seq<char>, start: int, end: int) -> Seq<char> {
    q.take(start) + q.skip(end)
}

/// `n - k`, or 0 when `k` is larger.
pub open spec fn saturating_minus(n: int, k: int) -> int {
    if n >= k {
        n - k
    } else {
        0
    }
}

/// The number of bytes of `c` in UTF-8.
pub open spec fn utf8_len(c: char) -> nat {
    if c <= '\u{7f}' {
        1
    } else if c <= '\u{7ff}' {
        2
    } else if c <= '\u{ffff}' {
        3
    } else {
        4
    }
}

/// The byte offset in UTF-8 of the character at position `k` of `q`.
pub open spec fn byte_offset(q: Seq<char>, k: int) -> nat
    decreases k,
{
    if k <= 0 || k > q.len() {
        0
    } else {
        byte_offset(q, k - 1) + utf8_len(q[k - 1])
    }
}

/// The position, counting from `k`, of the character that starts at byte
/// `b` of `q` (or the end, when `b` is the length in bytes); `None` when `b`
/// falls inside a character or past the end.
pub open spec fn char_at_byte_from(q: Seq<char>, b: int, k: int) -> Option<int>
    decreases q.len() + 1 - k,
{
    if k < 0 || k > q.len() {
        None
    } else if byte_offset(q, k) == b {
        Some(k)
    } else {
        char_at_byte_from(q, b, k + 1)
    }
}

/// The position of the character that starts at byte `b` of `q` (see
/// `char_at_byte_from`).
pub open spec fn char_at_byte(q: Seq<char>, b: int) -> Option<int> {
    char_at_byte_from(q, b, 0)
}

/// Whether the characters of `q` from `a` to `b` are white space or
/// numeric: a year, as the remaster details have it.
pub open spec fn all_year(q: Seq<char>, a: int, b: int) -> bool {
    forall|i: int| a <= i < b ==> #[trigger] is_white(q[i]) || numeric_char(q[i])
}

/// `q` without its "remaster" details, as the cut is made on the UTF-8 bytes
/// of `q`, with `rs` the byte where the first "remaster" starts: from one byte
/// before it, or from the space ahead of the word before it when that word
/// is a year (white space and numeric characters) and reaching the bytes
/// where it lies is possible, then back over dashes and white space, to the
/// end of the word that holds "remaster". `None` where the cut would start
/// inside a character or end before it starts, where it cannot be made.
pub open spec fn without_remaster(q: Seq<char>) -> Option<Seq<char>> {
    match first_occurrence(q, "remaster"@, 0) {
        None => Some(q),
        Some(i) => {
            let rs = byte_offset(q, i) as int;
            let end = word_end(q, i + 8);
            let start0 = saturating_minus(rs, 1);
            let prev_chars = match char_at_byte(q, saturating_minus(rs, 2)) {
                Some(k) => k,
                None => 0,
            };
            let e = match last_before(q, ' ', prev_chars) {
                Some(p) => byte_offset(q, p) as int,
                None => 0,
            };
            let is_year = e + 1 <= start0 && match (char_at_byte(q, e + 1), char_at_byte(q, start0)) {
                (Some(a), Some(b)) => all_year(q, a, b),
                _ => false,
            };
            match char_at_byte(q, if is_year { e } else { start0 }) {
                Some(c) => if trimmed_back(q, c) <= end {
                    Some(cut(q, trimmed_back(q, c), end))
                } else {
                    None
                },
                None => None,
            }
        },
    }
}

/// `q` without its remix details, from the filler before the last dash to
/// the end of the word that holds the first "remix", when the dash starts at
/// byte `SONG_MIN_LENGTH_WO_REMIX_METADATA` or later; `None` when that range
/// runs backwards (the dash comes after the remix word), where the cut
/// cannot be made.
pub open spec fn without_remix(q: Seq<char>) -> Option<Seq<char>> {
    match first_occurrence(q, "remix"@, 0) {
        Some(xs) => match last_before(q, '-', q.len() as int) {
            Some(ms) => if byte_offset(q, ms) >= SONG_MIN_LENGTH_WO_REMIX_METADATA {
                let start = trimmed_back(q, ms);
                let end = word_end(q, xs + 5);
                if start <= end {
                    Some(cut(q, start, end))
                } else {
                    None
                }
            } else {
                Some(q)
            },
            None => Some(q),
        },
        None => Some(q),
    }
}

/// The query used to search for lyrics: `query` in lower case, without the
/// "remaster" and remix details that lead searches astray; `None` where a
/// cut cannot be made (see `without_remaster` and `without_remix`).
pub open spec fn improved_query(query: Seq<char>) -> Option<Seq<char>> {
    match without_remaster(lowercase_of(query)) {
        Some(q) => without_remix(q),
        None => None,
    }
}

/// The first position at or after `from` where `pat` occurs in `q`.
fn find_from(q: &Vec<char>, pat: &Vec<char>, from: usize) -> (r: Option<usize>)
    requires
        from <= q@.len(),
    ensures
        match first_occurrence(q@, pat@, from as int) {
            Some(i) => r matches Some(j) && j == i,
            None => r is None,
        },
{
    let n = q.len();
    let m = pat.len();
    let mut i = from;
    while i <= n && m <= n - i
        invariant
            from <= i,
            i <= n + 1,
            n == q@.len(),
            m == pat@.len(),
            first_occurrence(q@, pat@, from as int) == first_occurrence(q@, pat@, i as int),
        decreases n + 1 - i,
    {
        let mut k: usize = 0;
        let mut same = true;
        while k < m
            invariant
                k <= m,
                i + m <= n,
                n == q@.len(),
                m == pat@.len(),
                same == forall|j: int| 0 <= j < k ==> q@[i + j] == pat@[j],
            decreases m - k,
        {
            if q[i + k] != pat[k] {
                same = false;
            }
            k = k + 1;
        }
        if same {
            assert(q@.subrange(i as int, i + m) =~= pat@);
            return Some(i);
        }
        assert(!crate::text::occurs_at(q@, pat@, i as int)) by {
            let w = choose|j: int| 0 <= j < m && q@[i + j] != pat@[j];
            assert(q@.subrange(i as int, i + m)[w] != pat@[w]);
        }
        if i == n {
            return None;
        }
        i = i + 1;
    }
    None
}

/// Where the word going on at `idx` ends (see `word_end`).
fn end_of_word(q: &Vec<char>, idx: usize) -> (r: usize)
    requires
        idx <= q@.len(),
    ensures
        r == word_end(q@, idx as int),
        idx <= r <= q@.len(),
{
    let mut i = idx;
    while i < q.len()
        invariant
            idx <= i <= q@.len(),
            first_non_alnum(q@, idx as int) == first_non_alnum(q@, i as int),
        decreases q@.len() - i,
    {
        if !is_alphanumeric(q[i]) {
            return i;
        }
        i = i + 1;
    }
    idx
}

/// `idx` moved back over the filler before it (see `trimmed_back`).
fn rfind_non_filler(q: &Vec<char>, idx: usize) -> (r: usize)
    requires
        idx <= q@.len(),
    ensures
        r == trimmed_back(q@, idx as int),
        r <= idx,
{
    let mut i = idx;
    while i > 0
        invariant
            i <= idx <= q@.len(),
            last_non_filler_end(q@, idx as int) == last_non_filler_end(q@, i as int),
        decreases i,
    {
        let c = q[i - 1];
        if !(c == '-' || white(c)) {
            return i;
        }
        i = i - 1;
    }
    idx
}

/// The last position before `i` holding `c` (see `last_before`).
fn rfind_char(q: &Vec<char>, c: char, i: usize) -> (r: Option<usize>)
    requires
        i <= q@.len(),
    ensures
        match last_before(q@, c, i as int) {
            Some(p) => r matches Some(j) && j == p,
            None => r is None,
        },
        r matches Some(j) ==> j < i,
{
    let mut k = i;
    while k > 0
        invariant
            k <= i <= q@.len(),
            last_before(q@, c, i as int) == last_before(q@, c, k as int),
        decreases k,
    {
        if q[k - 1] == c {
            return Some(k - 1);
        }
        k = k - 1;
    }
    None
}

/// `q` without the characters from `start` to `end`.
fn cut_out(q: &Vec<char>, start: usize, end: usize) -> (r: Vec<char>)
    requires
        start <= end <= q@.len(),
    ensures
        r@ == cut(q@, start as int, end as int),
{
    let mut out: Vec<char> = Vec::new();
    let mut i: usize = 0;
    while i < start
        invariant
            i <= start <= end <= q@.len(),
            out@ == q@.take(i as int),
        decreases start - i,
    {
        out.push(q[i]);
        i = i + 1;
        assert(out@ =~= q@.take(i as int));
    }
    let mut j = end;
    while j < q.len()
        invariant
            start <= end <= j <= q@.len(),
            out@ == q@.take(start as int) + q@.subrange(end as int, j as int),
        decreases q@.len() - j,
    {
        out.push(q[j]);
        j = j + 1;
        assert(out@ =~= q@.take(start as int) + q@.subrange(end as int, j as int));
    }
    assert(q@.subrange(end as int, j as int) =~= q@.skip(end as int));
    out
}

/// The last position before `i` holding `c` in `q.take(n)` is the same as
/// in `q`, for `i <= n`.
proof fn lemma_last_before_take(q: Seq<char>, c: char, n: int, i: int)
    requires
        0 <= i <= n <= q.len(),
    ensures
        last_before(q.take(n), c, i) == last_before(q, c, i),
    decreases i,
{
    if i > 0 {
        lemma_last_before_take(q, c, n, i - 1);
    }
}

/// The number of bytes of `c` in UTF-8 (see `utf8_len`).
fn char_utf8_len(c: char) -> (r: u128)
    ensures
        r == utf8_len(c),
{
    if c <= '\u{7f}' {
        1
    } else if c <= '\u{7ff}' {
        2
    } else if c <= '\u{ffff}' {
        3
    } else {
        4
    }
}

/// The byte offsets of the characters of `q`, and of its end.
fn byte_offsets(q: &Vec<char>) -> (r: Vec<u128>)
    ensures
        r@.len() == q@.len() + 1,
        forall|k: int| 0 <= k <= q@.len() ==> #[trigger] r@[k] == byte_offset(q@, k),
        forall|k: int| 0 <= k <= q@.len() ==> #[trigger] r@[k] <= 4 * k,
{
    let mut offs: Vec<u128> = Vec::new();
    offs.push(0);
    let mut total: u128 = 0;
    let mut k: usize = 0;
    while k < q.len()
        invariant
            k <= q@.len(),
            offs@.len() == k + 1,
            total == byte_offset(q@, k as int),
            total <= 4 * k,
            forall|j: int| 0 <= j <= k ==> #[trigger] offs@[j] == byte_offset(q@, j),
            forall|j: int| 0 <= j <= k ==> #[trigger] offs@[j] <= 4 * j,
        decreases q@.len() - k,
    {
        let l = char_utf8_len(q[k]);
        total = total + l;
        k = k + 1;
        offs.push(total);
    }
    offs
}

/// The position of the character that starts at byte `b` (see
/// `char_at_byte`).
fn char_at(offs: &Vec<u128>, q: &Vec<char>, b: u128) -> (r: Option<usize>)
    requires
        offs@.len() == q@.len() + 1,
        forall|k: int| 0 <= k <= q@.len() ==> #[trigger] offs@[k] == byte_offset(q@, k),
    ensures
        match char_at_byte(q@, b as int) {
            Some(k) => r matches Some(j) && j == k,
            None => r is None,
        },
        r matches Some(j) ==> j <= q@.len(),
{
    let mut k: usize = 0;
    while k < offs.len()
        invariant
            offs@.len() == q@.len() + 1,
            forall|j: int| 0 <= j <= q@.len() ==> #[trigger] offs@[j] == byte_offset(q@, j),
            k <= offs@.len(),
            char_at_byte(q@, b as int) == char_at_byte_from(q@, b as int, k as int),
        decreases offs@.len() - k,
    {
        if offs[k] == b {
            return Some(k);
        }
        k = k + 1;
    }
    None
}

/// `q` without its "remaster" details (see `without_remaster`).
fn strip_remaster(q: Vec<char>) -> (r: Option<Vec<char>>)
    ensures
        match without_remaster(q@) {
            Some(s) => r matches Some(v) && v@ == s,
            None => r is None,
        },
{
    let pat = chars_of("remaster");
    proof {
        reveal_strlit("remaster");
    }
    let i = match find_from(&q, &pat, 0) {
        Some(i) => i,
        None => return Some(q),
    };
    proof {
        lemma_first_occurrence_occurs(q@, pat@, 0);
        assert(first_occurrence(q@, pat@, 0) == Some(i as int));
        assert(crate::text::occurs_at(q@, pat@, i as int));
        assert(pat@.len() == 8);
    }
    let n = q.len();
    assert(i + 8 <= n);
    let end = end_of_word(&q, i + 8);
    let offs = byte_offsets(&q);
    let rs: u128 = offs[i];
    assert(forall|k: int| 0 <= k <= q@.len() ==> #[trigger] offs@[k] <= 4 * k);
    let start0: u128 = if rs >= 1 { rs - 1 } else { 0 };
    let prev_end: u128 = if rs >= 2 { rs - 2 } else { 0 };
    let prev_chars: usize = match char_at(&offs, &q, prev_end) {
        Some(k) => k,
        None => 0,
    };
    let e: u128 = match rfind_char(&q, ' ', prev_chars) {
        Some(p) => offs[p],
        None => 0,
    };
    let mut is_year = false;
    if e + 1 <= start0 {
        match (char_at(&offs, &q, e + 1), char_at(&offs, &q, start0)) {
            (Some(a), Some(b)) => {
                is_year = true;
                let mut k = a;
                while k < b
                    invariant
                        a <= k,
                        a <= b ==> k <= b,
                        a > b ==> k == a,
                        b <= q@.len(),
                        is_year == forall|j: int| a <= j < k ==> #[trigger] is_white(q@[j]) || numeric_char(q@[j]),
                    decreases b - k,
                {
                    let c = q[k];
                    let ok = white(c) || is_numeric(c);
                    is_year = is_year && ok;
                    k = k + 1;
                }
            },
            _ => {},
        }
    }
    proof {
        let ghost_rs = byte_offset(q@, i as int) as int;
        assert(rs == ghost_rs);
        assert(start0 == saturating_minus(ghost_rs, 1));
        assert(prev_end == saturating_minus(ghost_rs, 2));
        let pc = match char_at_byte(q@, saturating_minus(ghost_rs, 2)) {
            Some(k) => k,
            None => 0,
        };
        assert(prev_chars == pc);
        let ge = match last_before(q@, ' ', pc) {
            Some(p) => byte_offset(q@, p) as int,
            None => 0,
        };
        assert(e == ge);
        let gy = ge + 1 <= start0 && match (char_at_byte(q@, ge + 1), char_at_byte(q@, start0 as int)) {
            (Some(a), Some(b)) => all_year(q@, a, b),
            _ => false,
        };
        assert(is_year == gy);
    }
    let s1: u128 = if is_year { e } else { start0 };
    let c = match char_at(&offs, &q, s1) {
        Some(c) => c,
        None => return None,
    };
    let start = rfind_non_filler(&q, c);
    if start > end {
        return None;
    }
    Some(cut_out(&q, start, end))
}

/// The first occurrence found from `i` is an occurrence.
proof fn lemma_first_occurrence_occurs(q: Seq<char>, pat: Seq<char>, i: int)
    ensures
        first_occurrence(q, pat, i) matches Some(p) ==> crate::text::occurs_at(q, pat, p) && i <= p,
    decreases q.len() + 1 - i,
{
    if i >= 0 && i + pat.len() <= q.len() && !crate::text::occurs_at(q, pat, i) {
        lemma_first_occurrence_occurs(q, pat, i + 1);
    }
}

/// `q` without its remix details (see `without_remix`).
fn strip_remix(q: Vec<char>) -> (r: Option<Vec<char>>)
    ensures
        match without_remix(q@) {
            Some(s) => r matches Some(v) && v@ == s,
            None => r is None,
        },
{
    let pat = chars_of("remix");
    proof {
        reveal_strlit("remix");
    }
    let xs = match find_from(&q, &pat, 0) {
        Some(xs) => xs,
        None => return Some(q),
    };
    proof {
        lemma_first_occurrence_occurs(q@, pat@, 0);
        assert(first_occurrence(q@, pat@, 0) == Some(xs as int));
        assert(pat@.len() == 5);
        assert(crate::text::occurs_at(q@, pat@, xs as int));
        assert(xs + 5 <= q@.len());
    }
    let n = q.len();
    assert(xs + 5 <= n);
    let end = end_of_word(&q, xs + 5);
    let ms = match rfind_char(&q, '-', q.len()) {
        Some(ms) => ms,
        None => return Some(q),
    };
    let offs = byte_offsets(&q);
    if offs[ms] < SONG_MIN_LENGTH_WO_REMIX_METADATA as u128 {
        return Some(q);
    }
    let start = rfind_non_filler(&q, ms);
    if start > end {
        return None;
    }
    Some(cut_out(&q, start, end))
}

/// The query used to search for lyrics (see `improved_query`); `None`
/// where the remix cut cannot be made.
pub fn improve_query(query: &str) -> (r: Option<String>)
    ensures
        match improved_query(query@) {
            Some(s) => r matches Some(t) && t@ == s,
            None => r is None,
        },
{
    let lower = to_lowercase(query);
    let chars = chars_of(lower.as_str());
    let chars = match strip_remaster(chars) {
        Some(v) => v,
        None => return None,
    };
    match strip_remix(chars) {
        Some(v) => {
            let mut out = String::new();
            let mut i: usize = 0;
            while i < v.len()
                invariant
                    i <= v@.len(),
                    out@ == v@.take(i as int),
                decreases v@.len() - i,
            {
                push_char(&mut out, v[i]);
                i = i + 1;
                assert(out@ =~= v@.take(i as int));
            }
            assert(v@.take(i as int) =~= v@);
            Some(out)
        },
        None => None,
    }
}

} // verus!
