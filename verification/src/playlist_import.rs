//! Importing one playlist into another: the tracks of the source that the
//! target lacks are added, except those a previous import already added;
//! tracks added before that left the source may be removed. Requests go in
//! batches, and a report lists what changed.

use vstd::prelude::*;

verus! {

/// How many tracks one request adds or removes at most.
pub const TRACK_BUFFER_CAP: usize = 100;

/// A track as an import sees it: its Spotify id and its name.
#[derive(Debug, Clone)]
pub struct TrackData {
    pub id: String,
    pub name: String,
}

/// What tells tracks apart: id and name.
pub open spec fn track_key(t: TrackData) -> (Seq<char>, Seq<char>) {
    (t.id@, t.name@)
}

/// The keys of `s`, in order.
pub open spec fn track_keys(s: Seq<TrackData>) -> Seq<(Seq<char>, Seq<char>)> {
    s.map_values(|t: TrackData| track_key(t))
}

/// The set of tracks of `s`.
pub open spec fn track_set(s: Seq<TrackData>) -> Set<(Seq<char>, Seq<char>)> {
    track_keys(s).to_set()
}

/// The ids of `s`, in order.
pub open spec fn track_ids(s: Seq<TrackData>) -> Seq<Seq<char>> {
    s.map_values(|t: TrackData| t.id@)
}

/// Whether `list` holds `t`.
fn has_track(list: &Vec<TrackData>, t: &TrackData) -> (r: bool)
    ensures
        r == track_keys(list@).contains(track_key(*t)),
{
    let mut i: usize = 0;
    while i < list.len()
        invariant
            i <= list@.len(),
            forall|j: int| 0 <= j < i ==> track_keys(list@)[j] != track_key(*t),
        decreases list@.len() - i,
    {
        if list[i].id == t.id && list[i].name == t.name {
            assert(track_keys(list@)[i as int] == track_key(*t));
            return true;
        }
        i = i + 1;
    }
    false
}

/// The tracks of `source` that are neither in `first` nor in `second`, each
/// once, in the order they first come in `source`.
fn difference(source: &Vec<TrackData>, first: &Vec<TrackData>, second: &Vec<TrackData>) -> (r: Vec<
    TrackData,
>)
    ensures
        track_keys(r@).no_duplicates(),
        track_set(r@) == track_set(source@).difference(track_set(first@)).difference(
            track_set(second@),
        ),
{
    let mut out: Vec<TrackData> = Vec::new();
    let mut i: usize = 0;
    while i < source.len()
        invariant
            i <= source@.len(),
            track_keys(out@).no_duplicates(),
            forall|x: (Seq<char>, Seq<char>)|
                #![trigger track_keys(out@).contains(x)]
                track_keys(out@).contains(x) <==> (track_keys(source@.take(i as int)).contains(x)
                    && !track_keys(first@).contains(x) && !track_keys(second@).contains(x)),
        decreases source@.len() - i,
    {
        let ghost before = track_keys(out@);
        let ghost key = track_key(source@[i as int]);
        let ghost t_keys = track_keys(source@.take(i + 1));
        let ghost p_keys = track_keys(source@.take(i as int));
        proof {
            assert(t_keys =~= p_keys.push(key));
            assert forall|x: (Seq<char>, Seq<char>)| #[trigger] t_keys.contains(x) <==> (p_keys.contains(x) || x == key) by {
                if t_keys.contains(x) {
                    let j = choose|j: int| 0 <= j < t_keys.len() && t_keys[j] == x;
                    if j < p_keys.len() {
                        assert(p_keys[j] == x);
                    }
                }
                if p_keys.contains(x) {
                    let j = choose|j: int| 0 <= j < p_keys.len() && p_keys[j] == x;
                    assert(t_keys[j] == x);
                }
                if x == key {
                    assert(t_keys[t_keys.len() - 1] == x);
                }
            }
        }
        let t = &source[i];
        let fresh = !has_track(first, t) && !has_track(second, t) && !has_track(&out, t);
        if fresh {
            out.push(TrackData { id: t.id.clone(), name: t.name.clone() });
            assert(track_keys(out@) =~= before.push(key));
            assert forall|x: (Seq<char>, Seq<char>)| #[trigger] track_keys(out@).contains(x) <==> (before.contains(x)
                || x == key) by {
                if track_keys(out@).contains(x) {
                    let j = choose|j: int| 0 <= j < track_keys(out@).len() && track_keys(out@)[j] == x;
                    if j < before.len() {
                        assert(before[j] == x);
                    }
                }
                if before.contains(x) {
                    let j = choose|j: int| 0 <= j < before.len() && before[j] == x;
                    assert(track_keys(out@)[j] == x);
                }
                if x == key {
                    assert(track_keys(out@)[before.len() as int] == x);
                }
            }
        }
        assert forall|x: (Seq<char>, Seq<char>)| #[trigger] track_keys(out@).contains(x) <==> (t_keys.contains(x)
            && !track_keys(first@).contains(x) && !track_keys(second@).contains(x)) by {
            assert(t_keys.contains(x) <==> (p_keys.contains(x) || x == key));
            assert(before.contains(x) <==> (p_keys.contains(x) && !track_keys(first@).contains(x)
                && !track_keys(second@).contains(x)));
        }
        i = i + 1;
    }
    assert(source@.take(i as int) =~= source@);
    assert(track_set(out@) =~= track_set(source@).difference(track_set(first@)).difference(
        track_set(second@),
    ));
    out
}

/// What an import does.
#[derive(Debug, Clone)]
pub struct ImportPlan {
    /// The tracks to add to the target.
    pub new_tracks: Vec<TrackData>,
    /// The tracks of the previous import that left the source.
    pub deleted_tracks: Vec<TrackData>,
    /// The tracks of the source, to remember for the next import.
    pub cached_tracks: Vec<TrackData>,
}

/// The tracks remembered from a previous import, if there was one.
pub open spec fn previous_set(previous: Option<Seq<TrackData>>) -> Set<(Seq<char>, Seq<char>)> {
    match previous {
        Some(p) => track_set(p),
        None => Set::empty(),
    }
}

/// What importing `from` into `to` does, given the tracks remembered from
/// the previous import of the same two playlists: the tracks of `from`
/// that neither `to` nor the previous import has are added; the tracks of the
/// previous import that `from` no longer has are listed as deleted; the
/// tracks of `from` are remembered. No track is listed twice.
pub fn plan_import(
    from: &Vec<TrackData>,
    to: &Vec<TrackData>,
    previous: Option<&Vec<TrackData>>,
) -> (r: ImportPlan)
    ensures
        track_keys(r.new_tracks@).no_duplicates(),
        track_keys(r.deleted_tracks@).no_duplicates(),
        track_keys(r.cached_tracks@).no_duplicates(),
        track_set(r.new_tracks@) == track_set(from@).difference(track_set(to@)).difference(
            previous_set(
                match previous {
                    Some(p) => Some(p@),
                    None => None,
                },
            ),
        ),
        track_set(r.deleted_tracks@) == previous_set(
            match previous {
                Some(p) => Some(p@),
                None => None,
            },
        ).difference(track_set(from@)),
        track_set(r.cached_tracks@) == track_set(from@),
{
    let none: Vec<TrackData> = Vec::new();
    assert(track_set(none@) =~= Set::empty());
    let cached_tracks = difference(from, &none, &none);
    assert(track_set(cached_tracks@) =~= track_set(from@));
    match previous {
        Some(p) => {
            let new_tracks = difference(from, to, p);
            let deleted_tracks = difference(p, from, &none);
            assert(track_set(deleted_tracks@) =~= track_set(p@).difference(track_set(from@)));
            ImportPlan { new_tracks, deleted_tracks, cached_tracks }
        },
        None => {
            let new_tracks = difference(from, to, &none);
            assert(track_keys(none@).no_duplicates());
            assert(track_set(none@) =~= Set::<(Seq<char>, Seq<char>)>::empty().difference(
                track_set(from@),
            ));
            ImportPlan { new_tracks, deleted_tracks: none, cached_tracks }
        },
    }
}

/// The ids of `tracks` in batches of at most `TRACK_BUFFER_CAP`, every
/// batch but the last one full, in order.
pub fn track_batches(tracks: &Vec<TrackData>) -> (r: Vec<Vec<String>>)
    ensures
        r@.map_values(|b: Vec<String>| b@.map_values(|s: String| s@)).flatten_alt() == track_ids(
            tracks@,
        ),
        forall|k: int| 0 <= k < r@.len() ==> 0 < (#[trigger] r@[k]).len() <= TRACK_BUFFER_CAP,
        forall|k: int| 0 <= k < r@.len() - 1 ==> (#[trigger] r@[k]).len() == TRACK_BUFFER_CAP,
{
    let mut batches: Vec<Vec<String>> = Vec::new();
    let mut buff: Vec<String> = Vec::new();
    let mut i: usize = 0;
    while i < tracks.len()
        invariant
            i <= tracks@.len(),
            buff@.len() < TRACK_BUFFER_CAP,
            forall|k: int| 0 <= k < batches@.len() ==> (#[trigger] batches@[k]).len() == TRACK_BUFFER_CAP,
            batches@.map_values(|b: Vec<String>| b@.map_values(|s: String| s@)).flatten_alt()
                + buff@.map_values(|s: String| s@) == track_ids(tracks@.take(i as int)),
        decreases tracks@.len() - i,
    {
        let ghost done = batches@.map_values(|b: Vec<String>| b@.map_values(|s: String| s@));
        let ghost open = buff@.map_values(|s: String| s@);
        proof {
            assert(track_ids(tracks@.take(i + 1)) =~= track_ids(tracks@.take(i as int)).push(
                tracks@[i as int].id@,
            ));
        }
        buff.push(tracks[i].id.clone());
        assert(buff@.map_values(|s: String| s@) =~= open.push(tracks@[i as int].id@));
        if buff.len() == TRACK_BUFFER_CAP {
            let full = buff;
            buff = Vec::new();
            batches.push(full);
            let ghost now = batches@.map_values(|b: Vec<String>| b@.map_values(|s: String| s@));
            assert(now =~= done.push(full@.map_values(|s: String| s@)));
            assert(now.drop_last() =~= done);
            assert(buff@.map_values(|s: String| s@) =~= Seq::<Seq<char>>::empty());
            assert(now.flatten_alt() + buff@.map_values(|s: String| s@) =~= done.flatten_alt() + open.push(
                tracks@[i as int].id@,
            ));
        } else {
            assert(done.flatten_alt() + buff@.map_values(|s: String| s@) =~= done.flatten_alt()
                + open + seq![tracks@[i as int].id@]);
        }
        i = i + 1;
    }
    assert(tracks@.take(i as int) =~= tracks@);
    if buff.len() > 0 {
        let ghost done = batches@.map_values(|b: Vec<String>| b@.map_values(|s: String| s@));
        let ghost open = buff@.map_values(|s: String| s@);
        batches.push(buff);
        let ghost now = batches@.map_values(|b: Vec<String>| b@.map_values(|s: String| s@));
        assert(now =~= done.push(open));
        assert(now.drop_last() =~= done);
    } else {
        assert(buff@.map_values(|s: String| s@) =~= Seq::<Seq<char>>::empty());
        assert(batches@.map_values(|b: Vec<String>| b@.map_values(|s: String| s@)).flatten_alt()
            + Seq::<Seq<char>>::empty() =~= batches@.map_values(
            |b: Vec<String>| b@.map_values(|s: String| s@),
        ).flatten_alt());
    }
    batches
}

/// One report line per track of `s`: indented id, colon, name.
pub open spec fn track_lines(s: Seq<TrackData>) -> Seq<char>
    decreases s.len(),
{
    if s.len() == 0 {
        Seq::empty()
    } else {
        track_lines(s.drop_last()) + "    "@ + s.last().id@ + ": "@ + s.last().name@ + "\n"@
    }
}

/// The report of an import from the playlist `from_id` named `from_name` to
/// `to_id` named `to_name`: a header; where there was a previous import, the
/// tracks that left the source (deleted from the target or only listed);
/// then the tracks added.
pub open spec fn import_report(
    from_id: Seq<char>,
    from_name: Seq<char>,
    to_id: Seq<char>,
    to_name: Seq<char>,
    plan: ImportPlan,
    had_previous: bool,
    delete: bool,
) -> Seq<char> {
    "Importing from "@ + from_id + ":"@ + from_name + " to "@ + to_id + ":"@ + to_name + "...\n"@ + (
    if had_previous {
        (if delete {
            "Tracks deleted from "@ + from_name + ": \n"@
        } else {
            "Tracks that are no longer in "@ + from_name + " since last import: \n"@
        }) + track_lines(plan.deleted_tracks@)
    } else {
        Seq::empty()
    }) + "New tracks imported to "@ + to_name + ": \n"@ + track_lines(plan.new_tracks@)
}

/// Appends the report lines of `tracks`.
fn push_track_lines(out: &mut String, tracks: &Vec<TrackData>)
    ensures
        final(out)@ == old(out)@ + track_lines(tracks@),
{
    let mut i: usize = 0;
    while i < tracks.len()
        invariant
            i <= tracks@.len(),
            out@ == old(out)@ + track_lines(tracks@.take(i as int)),
        decreases tracks@.len() - i,
    {
        let ghost before = out@;
        proof {
            let t = tracks@.take(i + 1);
            assert(t.drop_last() =~= tracks@.take(i as int));
            assert(t.last() == tracks@[i as int]);
        }
        out.append("    ");
        out.append(tracks[i].id.as_str());
        out.append(": ");
        out.append(tracks[i].name.as_str());
        out.append("\n");
        assert(out@ =~= old(out)@ + track_lines(tracks@.take(i + 1)));
        i = i + 1;
    }
    assert(tracks@.take(i as int) =~= tracks@);
}

/// The report of an import (see `import_report`).
pub fn import_report_text(
    from_id: &str,
    from_name: &str,
    to_id: &str,
    to_name: &str,
    plan: &ImportPlan,
    had_previous: bool,
    delete: bool,
) -> (r: String)
    ensures
        r@ == import_report(from_id@, from_name@, to_id@, to_name@, *plan, had_previous, delete),
{
    let mut out = String::new();
    out.append("Importing from ");
    out.append(from_id);
    out.append(":");
    out.append(from_name);
    out.append(" to ");
    out.append(to_id);
    out.append(":");
    out.append(to_name);
    out.append("...\n");
    let ghost header = out@;
    if had_previous {
        if delete {
            out.append("Tracks deleted from ");
            out.append(from_name);
            out.append(": \n");
        } else {
            out.append("Tracks that are no longer in ");
            out.append(from_name);
            out.append(" since last import: \n");
        }
        push_track_lines(&mut out, &plan.deleted_tracks);
    }
    let ghost middle = out@;
    out.append("New tracks imported to ");
    out.append(to_name);
    out.append(": \n");
    push_track_lines(&mut out, &plan.new_tracks);
    assert(out@ =~= import_report(from_id@, from_name@, to_id@, to_name@, *plan, had_previous, delete));
    out
}

/// Importing again from a source that has not changed since the previous
/// import, whose tracks it remembered, adds and deletes nothing.
pub proof fn law_reimport_of_unchanged_source_changes_nothing(
    from: Seq<TrackData>,
    to: Seq<TrackData>,
    cached: Seq<TrackData>,
)
    requires
        track_set(cached) == track_set(from),
    ensures
        track_set(from).difference(track_set(to)).difference(previous_set(Some(cached)))
            == Set::<(Seq<char>, Seq<char>)>::empty(),
        previous_set(Some(cached)).difference(track_set(from)) == Set::<
            (Seq<char>, Seq<char>),
        >::empty(),
{
    assert(track_set(from).difference(track_set(to)).difference(previous_set(Some(cached)))
        =~= Set::<(Seq<char>, Seq<char>)>::empty());
    assert(previous_set(Some(cached)).difference(track_set(from)) =~= Set::<
        (Seq<char>, Seq<char>),
    >::empty());
}

} // verus!
