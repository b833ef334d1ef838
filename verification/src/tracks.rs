//! Tracks, albums and artists as they are listed, and the orders in which a
//! context's tracks can be listed.

use vstd::prelude::*;

use std::cmp::Ordering;

use crate::command::Command;
use crate::model::{release_year, year_of, TrackOrder};
use crate::text::{
    join_texts, joined, lemma_text_lt_irreflexive, lemma_text_lt_total, lemma_text_lt_transitive,
    text_less, text_lt, texts_of,
};

verus! {

/// A Spotify artist.
#[derive(Debug, Clone)]
pub struct Artist {
    pub id: String,
    pub name: String,
}

/// A Spotify album: its release date is written `year-month-day`.
#[derive(Debug, Clone)]
pub struct Album {
    pub id: String,
    pub release_date: String,
    pub name: String,
    pub artists: Vec<Artist>,
    pub added_at: u64,
}

/// A Spotify track; `added_at` is when it was added to its context, in
/// seconds since the epoch.
#[derive(Debug, Clone)]
pub struct Track {
    pub id: String,
    pub name: String,
    pub artists: Vec<Artist>,
    pub album: Option<Album>,
    pub duration_ms: u64,
    pub explicit: bool,
    pub added_at: u64,
}

/// The names of `artists`, joined with `, `.
pub open spec fn artists_text(artists: Seq<Artist>) -> Seq<char> {
    joined(artists.map_values(|a: Artist| a.name@), ", "@)
}

/// The names of `artists`, joined with `, `.
fn join_artist_names(artists: &Vec<Artist>) -> (r: String)
    ensures
        r@ == artists_text(artists@),
{
    let mut names: Vec<String> = Vec::new();
    let mut i: usize = 0;
    while i < artists.len()
        invariant
            i <= artists@.len(),
            texts_of(names@) == artists@.take(i as int).map_values(|a: Artist| a.name@),
        decreases artists@.len() - i,
    {
        let ghost before = texts_of(names@);
        names.push(artists[i].name.clone());
        assert(texts_of(names@) =~= before.push(artists@[i as int].name@));
        assert(artists@.take(i + 1).map_values(|a: Artist| a.name@) =~= before.push(
            artists@[i as int].name@,
        ));
        i = i + 1;
    }
    assert(artists@.take(i as int) =~= artists@);
    join_texts(names.as_slice(), ", ")
}

/// What a track's album column shows: its album's name, if it has one.
pub open spec fn album_text(t: Track) -> Seq<char> {
    match t.album {
        Some(a) => a.name@,
        None => Seq::empty(),
    }
}

/// A track's name, marked `(E)` when explicit.
pub open spec fn display_name_text(t: Track) -> Seq<char> {
    if t.explicit {
        t.name@ + " (E)"@
    } else {
        t.name@
    }
}

impl Track {
    /// The track's artists, joined with `, `.
    pub fn artists_info(&self) -> (r: String)
        ensures
            r@ == artists_text(self.artists@),
    {
        join_artist_names(&self.artists)
    }

    /// The name of the track's album, or nothing.
    pub fn album_info(&self) -> (r: String)
        ensures
            r@ == album_text(*self),
    {
        match &self.album {
            Some(a) => a.name.clone(),
            None => String::new(),
        }
    }

    /// The track's name, marked `(E)` when explicit.
    pub fn display_name(&self) -> (r: String)
        ensures
            r@ == display_name_text(*self),
    {
        let mut out = self.name.clone();
        if self.explicit {
            out.append(" (E)");
        }
        out
    }

    /// How the track is listed: name, artists and album.
    pub fn to_text(&self) -> (r: String)
        ensures
            r@ == display_name_text(*self) + " • "@ + artists_text(self.artists@) + " ▎ "@
                + album_text(*self),
    {
        let mut out = self.display_name();
        out.append(" • ");
        let artists = self.artists_info();
        out.append(artists.as_str());
        out.append(" ▎ ");
        let album = self.album_info();
        out.append(album.as_str());
        out
    }
}

impl Album {
    /// The album's release year.
    pub fn year(&self) -> (r: String)
        ensures
            r@ == year_of(self.release_date@),
    {
        release_year(self.release_date.as_str())
    }

    /// How the album is listed: name, artists and release year.
    pub fn to_text(&self) -> (r: String)
        ensures
            r@ == self.name@ + " • "@ + artists_text(self.artists@) + " ("@ + year_of(
                self.release_date@,
            ) + ")"@,
    {
        let mut out = self.name.clone();
        out.append(" • ");
        let artists = join_artist_names(&self.artists);
        out.append(artists.as_str());
        out.append(" (");
        let year = self.year();
        out.append(year.as_str());
        out.append(")");
        out
    }
}

impl Artist {
    /// How the artist is listed: its name.
    pub fn to_text(&self) -> (r: String)
        ensures
            r@ == self.name@,
    {
        self.name.clone()
    }
}

/// Whether track `x` comes before track `y` in `order`.
pub open spec fn track_lt(x: Track, y: Track, order: TrackOrder) -> bool {
    match order {
        TrackOrder::AddedAt => x.added_at < y.added_at,
        TrackOrder::TrackName => text_lt(x.name@, y.name@),
        TrackOrder::Album => text_lt(album_text(x), album_text(y)),
        TrackOrder::Duration => x.duration_ms < y.duration_ms,
        TrackOrder::Artists => text_lt(artists_text(x.artists@), artists_text(y.artists@)),
    }
}

/// The order of tracks is a strict weak order: never before itself, never
/// both ways, and a track before a second one is before every track not
/// before the second.
pub proof fn lemma_track_order(a: Track, b: Track, c: Track, order: TrackOrder)
    ensures
        !track_lt(a, a, order),
        track_lt(a, b, order) ==> !track_lt(b, a, order),
        track_lt(a, b, order) && !track_lt(c, b, order) ==> track_lt(a, c, order),
        !track_lt(a, b, order) && !track_lt(b, c, order) ==> !track_lt(a, c, order),
{
    let ka = match order {
        TrackOrder::TrackName => a.name@,
        TrackOrder::Album => album_text(a),
        _ => artists_text(a.artists@),
    };
    let kb = match order {
        TrackOrder::TrackName => b.name@,
        TrackOrder::Album => album_text(b),
        _ => artists_text(b.artists@),
    };
    let kc = match order {
        TrackOrder::TrackName => c.name@,
        TrackOrder::Album => album_text(c),
        _ => artists_text(c.artists@),
    };
    lemma_text_lt_irreflexive(ka);
    lemma_text_lt_total(ka, kb);
    lemma_text_lt_total(kb, kc);
    lemma_text_lt_total(ka, kc);
    if text_lt(ka, kb) && text_lt(kb, kc) {
        lemma_text_lt_transitive(ka, kb, kc);
    }
    if text_lt(kc, kb) && text_lt(kb, ka) {
        lemma_text_lt_transitive(kc, kb, ka);
    }
    if text_lt(kb, kc) && text_lt(kc, ka) {
        lemma_text_lt_transitive(kb, kc, ka);
    }
    if text_lt(ka, kc) && text_lt(kc, kb) {
        lemma_text_lt_transitive(ka, kc, kb);
    }
}

impl TrackOrder {
    /// How `x` compares to `y` in this order.
    pub fn compare(&self, x: &Track, y: &Track) -> (r: Ordering)
        ensures
            (r is Less) == track_lt(*x, *y, *self),
            (r is Greater) == track_lt(*y, *x, *self),
    {
        proof {
            lemma_track_order(*x, *y, *x, *self);
        }
        let (less, greater) = match self {
            TrackOrder::AddedAt => (x.added_at < y.added_at, y.added_at < x.added_at),
            TrackOrder::TrackName => (text_less(&x.name, &y.name), text_less(&y.name, &x.name)),
            TrackOrder::Album => {
                let a = x.album_info();
                let b = y.album_info();
                (text_less(&a, &b), text_less(&b, &a))
            },
            TrackOrder::Duration => (x.duration_ms < y.duration_ms, y.duration_ms < x.duration_ms),
            TrackOrder::Artists => {
                let a = x.artists_info();
                let b = y.artists_info();
                (text_less(&a, &b), text_less(&b, &a))
            },
        };
        if less {
            Ordering::Less
        } else if greater {
            Ordering::Greater
        } else {
            Ordering::Equal
        }
    }
}

/// Whether `x` comes before `y` in `order`.
fn comes_before(x: &Track, y: &Track, order: TrackOrder) -> (r: bool)
    ensures
        r == track_lt(*x, *y, order),
{
    match order.compare(x, y) {
        Ordering::Less => true,
        _ => false,
    }
}

/// Whether the track at position `p` of `input` is listed before the one at
/// position `q`: it comes first in `order`, or they tie and it came first.
pub open spec fn placed_before(input: Seq<Track>, p: int, q: int, order: TrackOrder) -> bool {
    track_lt(input[p], input[q], order) || (!track_lt(input[q], input[p], order) && p < q)
}

/// `output` is `input` reordered by the positions `perm` so that each track is
/// listed before those after it.
pub open spec fn is_stable_sort(
    input: Seq<Track>,
    output: Seq<Track>,
    perm: Seq<int>,
    order: TrackOrder,
) -> bool {
    &&& perm.len() == input.len()
    &&& output.len() == input.len()
    &&& forall|i: int| 0 <= i < perm.len() ==> 0 <= #[trigger] perm[i] < input.len()
    &&& forall|i: int, j: int| 0 <= i < j < perm.len() ==> #[trigger] perm[i] != #[trigger] perm[j]
    &&& forall|i: int| 0 <= i < output.len() ==> #[trigger] output[i] == input[perm[i]]
    &&& forall|i: int, j: int|
        0 <= i < j < perm.len() ==> placed_before(input, #[trigger] perm[i], #[trigger] perm[j], order)
}

/// Sorts `tracks` in `order`; tracks that tie keep their order.
pub fn sort_tracks(tracks: &mut Vec<Track>, order: TrackOrder)
    ensures
        exists|perm: Seq<int>| is_stable_sort(old(tracks)@, final(tracks)@, perm, order),
{
    let ghost input = tracks@;
    let mut rest: Vec<Track> = Vec::new();
    std::mem::swap(&mut rest, tracks);
    let n = rest.len();
    let mut out: Vec<Track> = Vec::new();
    let ghost mut perm: Seq<int> = seq![];
    let mut t: usize = 0;
    while rest.len() > 0
        invariant
            n == input.len(),
            t + rest@.len() == n,
            rest@ == input.skip(t as int),
            perm.len() == t,
            out@.len() == t,
            forall|i: int| 0 <= i < perm.len() ==> 0 <= #[trigger] perm[i] < t,
            forall|i: int, j: int| 0 <= i < j < perm.len() ==> #[trigger] perm[i] != #[trigger] perm[j],
            forall|i: int| 0 <= i < t ==> #[trigger] out@[i] == input[perm[i]],
            forall|i: int, j: int|
                0 <= i < j < perm.len() ==> placed_before(input, #[trigger] perm[i], #[trigger] perm[j], order),
        decreases rest.len(),
    {
        let ghost rest0 = rest@;
        assert(input.skip(t as int)[0] == input[t as int]);
        let e = rest.remove(0);
        assert(rest@ =~= rest0.drop_first());
        assert(input.skip(t as int).drop_first() =~= input.skip(t + 1));
        let mut k: usize = 0;
        while k < out.len() && !comes_before(&e, &out[k], order)
            invariant
                k <= out@.len(),
                forall|j: int| 0 <= j < k ==> !track_lt(e, #[trigger] out@[j], order),
            decreases out@.len() - k,
        {
            k = k + 1;
        }
        let ghost old_out = out@;
        let ghost old_perm = perm;
        out.insert(k, e);
        proof {
            perm = old_perm.insert(k as int, t as int);
            let new_out = out@;
            assert(new_out =~= old_out.insert(k as int, e));
            assert forall|i: int| 0 <= i < perm.len() implies 0 <= #[trigger] perm[i] < t + 1 by {
                if i > k {
                    assert(perm[i] == old_perm[i - 1]);
                }
            }
            assert forall|i: int, j: int| 0 <= i < j < perm.len() implies #[trigger] perm[i] != #[trigger] perm[j] by {
                if i < k && j > k {
                    assert(perm[j] == old_perm[j - 1]);
                } else if i > k {
                    assert(perm[i] == old_perm[i - 1]);
                    assert(perm[j] == old_perm[j - 1]);
                }
            }
            assert forall|i: int| 0 <= i < t + 1 implies #[trigger] out@[i] == input[perm[i]] by {
                if i < k {
                    assert(new_out[i] == old_out[i]);
                } else if i > k {
                    assert(new_out[i] == old_out[i - 1]);
                    assert(perm[i] == old_perm[i - 1]);
                }
            }
            assert forall|i: int, j: int|
                0 <= i < j < perm.len() implies placed_before(input, #[trigger] perm[i], #[trigger] perm[j], order) by {
                if j < k {
                } else if j == k {
                    assert(input[perm[i]] == old_out[i]);
                    assert(!track_lt(e, old_out[i], order));
                    assert(perm[i] < t);
                } else if i < k {
                    assert(perm[j] == old_perm[j - 1]);
                } else if i == k {
                    let m = j - 1;
                    assert(perm[j] == old_perm[m]);
                    assert(input[old_perm[m]] == old_out[m]);
                    assert(track_lt(e, old_out[k as int], order));
                    if m > k {
                        assert(placed_before(input, old_perm[k as int], old_perm[m], order));
                        assert(input[old_perm[k as int]] == old_out[k as int]);
                        lemma_track_order(old_out[k as int], old_out[m], old_out[m], order);
                        assert(!track_lt(old_out[m], old_out[k as int], order));
                    }
                    lemma_track_order(e, old_out[k as int], old_out[m], order);
                } else {
                    assert(perm[i] == old_perm[i - 1]);
                    assert(perm[j] == old_perm[j - 1]);
                }
            }
        }
        t = t + 1;
    }
    assert(is_stable_sort(input, out@, perm, order));
    *tracks = out;
}

/// Reverses the order of `tracks`.
pub fn reverse_tracks<T>(tracks: &mut Vec<T>)
    ensures
        final(tracks)@ == old(tracks)@.reverse(),
{
    let ghost input = tracks@;
    let mut out: Vec<T> = Vec::new();
    while tracks.len() > 0
        invariant
            tracks@ == input.take(tracks@.len() as int),
            tracks@.len() <= input.len(),
            out@.len() == input.len() - tracks@.len(),
            forall|i: int| 0 <= i < out@.len() ==> #[trigger] out@[i] == input[input.len() - 1 - i],
        decreases tracks@.len(),
    {
        let ghost before = tracks@;
        let x = tracks.pop().unwrap();
        assert(tracks@ =~= input.take(tracks@.len() as int));
        assert(x == input[tracks@.len() as int]);
        out.push(x);
    }
    assert(out@ =~= input.reverse());
    *tracks = out;
}

/// The order a sorting command asks for.
pub open spec fn sort_order(command: Command) -> Option<TrackOrder> {
    match command {
        Command::SortTrackByTitle => Some(TrackOrder::TrackName),
        Command::SortTrackByAlbum => Some(TrackOrder::Album),
        Command::SortTrackByArtists => Some(TrackOrder::Artists),
        Command::SortTrackByAddedDate => Some(TrackOrder::AddedAt),
        Command::SortTrackByDuration => Some(TrackOrder::Duration),
        _ => None,
    }
}

/// The order a sorting command asks for.
pub fn track_order_of(command: Command) -> (r: Option<TrackOrder>)
    ensures
        r == sort_order(command),
{
    match command {
        Command::SortTrackByTitle => Some(TrackOrder::TrackName),
        Command::SortTrackByAlbum => Some(TrackOrder::Album),
        Command::SortTrackByArtists => Some(TrackOrder::Artists),
        Command::SortTrackByAddedDate => Some(TrackOrder::AddedAt),
        Command::SortTrackByDuration => Some(TrackOrder::Duration),
        _ => None,
    }
}

/// Applies a sorting or reversing `command` to a context's `tracks`, and
/// says whether the command was one of those.
pub fn apply_track_order_command(tracks: &mut Vec<Track>, command: Command) -> (handled: bool)
    ensures
        handled == (sort_order(command) is Some || command == Command::ReverseTrackOrder),
        match sort_order(command) {
            Some(order) => exists|perm: Seq<int>|
                is_stable_sort(old(tracks)@, final(tracks)@, perm, order),
            None => if command == Command::ReverseTrackOrder {
                final(tracks)@ == old(tracks)@.reverse()
            } else {
                final(tracks)@ == old(tracks)@
            },
        },
{
    match track_order_of(command) {
        Some(order) => {
            sort_tracks(tracks, order);
            true
        },
        None => {
            if command == Command::ReverseTrackOrder {
                reverse_tracks(tracks);
                true
            } else {
                false
            }
        },
    }
}

/// After sorting, no track comes before a track listed ahead of it.
pub proof fn law_sorted_tracks_are_in_order(
    input: Seq<Track>,
    output: Seq<Track>,
    perm: Seq<int>,
    order: TrackOrder,
)
    requires
        is_stable_sort(input, output, perm, order),
    ensures
        forall|i: int, j: int|
            0 <= i < j < output.len() ==> !track_lt(#[trigger] output[j], #[trigger] output[i], order),
{
    assert forall|i: int, j: int| 0 <= i < j < output.len() implies !track_lt(
        #[trigger] output[j],
        #[trigger] output[i],
        order,
    ) by {
        assert(placed_before(input, perm[i], perm[j], order));
        lemma_track_order(input[perm[i]], input[perm[j]], input[perm[j]], order);
    }
}

/// Each sorting command sorts by the field its name names: after sorting
/// with it, the tracks' titles, artists, albums, added dates or durations
/// come in order (by text for the first three), and only these five
/// commands sort.
pub proof fn law_sort_commands_sort_by_named_field(
    command: Command,
    input: Seq<Track>,
    output: Seq<Track>,
    perm: Seq<int>,
)
    requires
        sort_order(command) matches Some(o) && is_stable_sort(input, output, perm, o),
    ensures
        command == Command::SortTrackByTitle || command == Command::SortTrackByArtists || command
            == Command::SortTrackByAlbum || command == Command::SortTrackByAddedDate || command
            == Command::SortTrackByDuration,
        forall|i: int, j: int|
            0 <= i < j < output.len() ==> {
                &&& command == Command::SortTrackByTitle ==> !text_lt(
                    (#[trigger] output[j]).name@,
                    (#[trigger] output[i]).name@,
                )
                &&& command == Command::SortTrackByArtists ==> !text_lt(
                    artists_text(output[j].artists@),
                    artists_text(output[i].artists@),
                )
                &&& command == Command::SortTrackByAlbum ==> !text_lt(album_text(output[j]), album_text(output[i]))
                &&& command == Command::SortTrackByAddedDate ==> output[i].added_at <= output[j].added_at
                &&& command == Command::SortTrackByDuration ==> output[i].duration_ms <= output[j].duration_ms
            },
{
    let o = sort_order(command).unwrap();
    law_sorted_tracks_are_in_order(input, output, perm, o);
    assert forall|i: int, j: int| 0 <= i < j < output.len() implies {
        &&& command == Command::SortTrackByTitle ==> !text_lt(
            (#[trigger] output[j]).name@,
            (#[trigger] output[i]).name@,
        )
        &&& command == Command::SortTrackByArtists ==> !text_lt(
            artists_text(output[j].artists@),
            artists_text(output[i].artists@),
        )
        &&& command == Command::SortTrackByAlbum ==> !text_lt(album_text(output[j]), album_text(output[i]))
        &&& command == Command::SortTrackByAddedDate ==> output[i].added_at <= output[j].added_at
        &&& command == Command::SortTrackByDuration ==> output[i].duration_ms <= output[j].duration_ms
    } by {
        assert(!track_lt(output[j], output[i], o));
    }
}

/// Reversing the tracks twice restores their order.
pub proof fn law_reverse_twice_restores<T>(s: Seq<T>)
    ensures
        s.reverse().reverse() == s,
{
    assert(s.reverse().reverse() =~= s);
}

} // verus!
