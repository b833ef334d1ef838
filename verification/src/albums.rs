//! Ordering an artist's albums: the latest release first, optionally grouped
//! by album type first (albums, singles, appearances, compilations, then
//! others), albums that tie keeping the order they came in.

use vstd::prelude::*;

use crate::text::{
    chars_of, lemma_text_lt_irreflexive, lemma_text_lt_total, lemma_text_lt_transitive, spells,
    text_less, text_lt,
};

verus! {

/// An album with what it is ordered by: its release date, written
/// `year-month-day`, and its type, written as Spotify does (`album`,
/// `single`, `appears_on`, `compilation`).
#[derive(Debug, Clone)]
pub struct AlbumEntry<P> {
    pub release_date: String,
    pub album_type: String,
    pub album: P,
}

/// An album entry with its texts as characters.
pub struct AlbumEntryView<P> {
    pub date: Seq<char>,
    pub kind: Seq<char>,
    pub album: P,
}

impl<P> View for AlbumEntry<P> {
    type V = AlbumEntryView<P>;

    open spec fn view(&self) -> AlbumEntryView<P> {
        AlbumEntryView { date: self.release_date@, kind: self.album_type@, album: self.album }
    }
}

/// The abstract value of a list of album entries.
pub open spec fn entries_view<P>(s: Seq<AlbumEntry<P>>) -> Seq<AlbumEntryView<P>> {
    s.map_values(|e: AlbumEntry<P>| e@)
}

/// Where albums of a type come when grouped by type.
pub open spec fn type_priority(kind: Seq<char>) -> nat {
    if kind == "album"@ {
        0
    } else if kind == "single"@ {
        1
    } else if kind == "appears_on"@ {
        2
    } else if kind == "compilation"@ {
        3
    } else {
        4
    }
}

/// Whether album `x` is listed before album `y`: the lower type priority
/// first when grouping by type and the priorities differ, else the later
/// release date first.
pub open spec fn album_before<P>(x: AlbumEntryView<P>, y: AlbumEntryView<P>, by_type: bool) -> bool {
    if by_type && type_priority(x.kind) != type_priority(y.kind) {
        type_priority(x.kind) < type_priority(y.kind)
    } else {
        text_lt(y.date, x.date)
    }
}

/// Whether the album at position `p` of `input` is listed before the one
/// at position `q`: it comes first in the order of albums, or they tie and
/// it came first.
pub open spec fn placed_before<P>(input: Seq<AlbumEntryView<P>>, p: int, q: int, by_type: bool) -> bool {
    album_before(input[p], input[q], by_type) || (!album_before(input[q], input[p], by_type) && p < q)
}

/// `output` is `input` reordered by the positions `order` so that each
/// album is listed before those after it.
pub open spec fn is_stable_sort<P>(
    input: Seq<AlbumEntryView<P>>,
    output: Seq<AlbumEntryView<P>>,
    order: Seq<int>,
    by_type: bool,
) -> bool {
    &&& order.len() == input.len()
    &&& output.len() == input.len()
    &&& forall|i: int| 0 <= i < order.len() ==> 0 <= #[trigger] order[i] < input.len()
    &&& forall|i: int, j: int| 0 <= i < j < order.len() ==> #[trigger] order[i] != #[trigger] order[j]
    &&& forall|i: int| 0 <= i < output.len() ==> #[trigger] output[i] == input[order[i]]
    &&& forall|i: int, j: int|
        0 <= i < j < order.len() ==> placed_before(input, #[trigger] order[i], #[trigger] order[j], by_type)
}

/// Listing order is a strict order on album keys: never before itself,
/// never both ways, and a key before a second one is before every key not
/// before the second.
proof fn lemma_album_order<P>(a: AlbumEntryView<P>, b: AlbumEntryView<P>, c: AlbumEntryView<P>, by_type: bool)
    ensures
        !album_before(a, a, by_type),
        album_before(a, b, by_type) ==> !album_before(b, a, by_type),
        album_before(a, b, by_type) && !album_before(c, b, by_type) ==> album_before(a, c, by_type),
        !album_before(a, b, by_type) && !album_before(b, c, by_type) ==> !album_before(a, c, by_type),
{
    lemma_text_lt_irreflexive(a.date);
    lemma_text_lt_total(a.date, b.date);
    lemma_text_lt_total(b.date, c.date);
    lemma_text_lt_total(a.date, c.date);
    if text_lt(b.date, a.date) && text_lt(c.date, b.date) {
        lemma_text_lt_transitive(c.date, b.date, a.date);
    }
    if text_lt(b.date, a.date) && b.date == c.date {
    }
    if text_lt(c.date, b.date) && b.date == a.date {
    }
    if text_lt(a.date, b.date) && text_lt(b.date, c.date) {
        lemma_text_lt_transitive(a.date, b.date, c.date);
    }
}

/// The type priority of `kind`.
fn priority_of(kind: &String) -> (r: u8)
    ensures
        r == type_priority(kind@),
{
    let chars = chars_of(kind.as_str());
    let c = chars.as_slice();
    if spells(c, "album") {
        0
    } else if spells(c, "single") {
        1
    } else if spells(c, "appears_on") {
        2
    } else if spells(c, "compilation") {
        3
    } else {
        4
    }
}

/// Whether album `x` is listed before album `y`.
fn listed_before<P>(x: &AlbumEntry<P>, y: &AlbumEntry<P>, by_type: bool) -> (r: bool)
    ensures
        r == album_before(x@, y@, by_type),
{
    if by_type {
        let px = priority_of(&x.album_type);
        let py = priority_of(&y.album_type);
        if px != py {
            return px < py;
        }
    }
    text_less(&y.release_date, &x.release_date)
}

/// The albums listed latest release first, grouped by type first when
/// `sort_by_type`; albums that tie keep the order they came in.
pub fn process_artist_albums<P>(albums: Vec<AlbumEntry<P>>, sort_by_type: bool) -> (r: Vec<AlbumEntry<P>>)
    ensures
        exists|order: Seq<int>| is_stable_sort(entries_view(albums@), entries_view(r@), order, sort_by_type),
{
    let ghost input = entries_view(albums@);
    let n = albums.len();
    let mut rest = albums;
    let mut out: Vec<AlbumEntry<P>> = Vec::new();
    let ghost mut order: Seq<int> = seq![];
    let mut t: usize = 0;
    while rest.len() > 0
        invariant
            n == input.len(),
            t + rest@.len() == n,
            entries_view(rest@) == input.skip(t as int),
            order.len() == t,
            out@.len() == t,
            forall|i: int| 0 <= i < order.len() ==> 0 <= #[trigger] order[i] < t,
            forall|i: int, j: int| 0 <= i < j < order.len() ==> #[trigger] order[i] != #[trigger] order[j],
            forall|i: int| 0 <= i < t ==> #[trigger] entries_view(out@)[i] == input[order[i]],
            forall|i: int, j: int|
                0 <= i < j < order.len() ==> placed_before(input, #[trigger] order[i], #[trigger] order[j], sort_by_type),
        decreases rest.len(),
    {
        let ghost rest0 = entries_view(rest@);
        assert(rest0[0] == rest@[0]@);
        assert(input.skip(t as int)[0] == input[t as int]);
        let e = rest.remove(0);
        assert(entries_view(rest@) =~= rest0.drop_first());
        assert(input.skip(t as int).drop_first() =~= input.skip(t + 1));
        assert(e@ == input[t as int]);
        let mut k: usize = 0;
        while k < out.len() && !listed_before(&e, &out[k], sort_by_type)
            invariant
                k <= out@.len(),
                forall|j: int| 0 <= j < k ==> !album_before(e@, #[trigger] out@[j]@, sort_by_type),
            decreases out@.len() - k,
        {
            k = k + 1;
        }
        let ghost old_out = entries_view(out@);
        let ghost old_order = order;
        proof {
            assert forall|j: int| 0 <= j < k implies !album_before(e@, #[trigger] old_out[j], sort_by_type) by {
                assert(old_out[j] == out@[j]@);
            }
            assert(k < old_out.len() ==> album_before(e@, old_out[k as int], sort_by_type));
        }
        out.insert(k, e);
        proof {
            order = old_order.insert(k as int, t as int);
            let new_out = entries_view(out@);
            assert(new_out =~= old_out.insert(k as int, e@));
            assert forall|i: int| 0 <= i < order.len() implies 0 <= #[trigger] order[i] < t + 1 by {
                if i > k {
                    assert(order[i] == old_order[i - 1]);
                }
            }
            assert forall|i: int, j: int| 0 <= i < j < order.len() implies #[trigger] order[i] != #[trigger] order[j] by {
                if i < k && j > k {
                    assert(order[j] == old_order[j - 1]);
                } else if i > k {
                    assert(order[i] == old_order[i - 1]);
                    assert(order[j] == old_order[j - 1]);
                }
            }
            assert forall|i: int| 0 <= i < t + 1 implies #[trigger] entries_view(out@)[i] == input[order[i]] by {
                if i < k {
                    assert(new_out[i] == old_out[i]);
                } else if i > k {
                    assert(new_out[i] == old_out[i - 1]);
                    assert(order[i] == old_order[i - 1]);
                }
            }
            assert forall|i: int, j: int|
                0 <= i < j < order.len() implies placed_before(input, #[trigger] order[i], #[trigger] order[j], sort_by_type) by {
                if j < k {
                } else if j == k {
                    assert(input[order[i]] == old_out[i]);
                    assert(!album_before(e@, old_out[i], sort_by_type));
                    assert(order[i] < t);
                } else if i < k {
                    assert(order[j] == old_order[j - 1]);
                } else if i == k {
                    let m = j - 1;
                    assert(order[j] == old_order[m]);
                    assert(input[old_order[m]] == old_out[m]);
                    assert(album_before(e@, old_out[k as int], sort_by_type));
                    if m > k {
                        assert(placed_before(input, old_order[k as int], old_order[m], sort_by_type));
                        assert(input[old_order[k as int]] == old_out[k as int]);
                        lemma_album_order(old_out[k as int], old_out[m], old_out[m], sort_by_type);
                        assert(!album_before(old_out[m], old_out[k as int], sort_by_type));
                    }
                    lemma_album_order(e@, old_out[k as int], old_out[m], sort_by_type);
                } else {
                    assert(order[i] == old_order[i - 1]);
                    assert(order[j] == old_order[j - 1]);
                }
            }
        }
        t = t + 1;
    }
    assert(is_stable_sort(input, entries_view(out@), order, sort_by_type));
    out
}

} // verus!
