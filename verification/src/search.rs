//! Filtering a list by the query typed in the search box: an item is kept
//! when its text holds every word of the query, case aside.

use vstd::prelude::*;

use crate::text::{chars_of, contains_chars, occurs_in, space_separated, split_at_spaces};

verus! {

/// What `str::to_lowercase` makes of `s`.
pub uninterp spec fn lowercase_of(s: Seq<char>) -> Seq<char>;

/// Calls `str::to_lowercase`; the result is named, not stated.
#[verifier::external_body]
pub(crate) fn to_lowercase(s: &str) -> (r: String)
    ensures
        r@ == lowercase_of(s@),
{
    s.to_lowercase()
}

/// The words of a query: its non-empty pieces between spaces.
pub open spec fn query_words(query: Seq<char>) -> Seq<Seq<char>> {
    space_separated(query).filter(|w: Seq<char>| w.len() > 0)
}

/// Whether an item written `text` is kept for the search `query`: the query
/// is empty, or the item's text, in lower case, holds every word of the
/// query in lower case.
pub open spec fn matches_query(text: Seq<char>, query: Seq<char>) -> bool {
    let q = lowercase_of(query);
    q.len() == 0 || forall|i: int|
        0 <= i < query_words(q).len() ==> occurs_in(lowercase_of(text), #[trigger] query_words(q)[i])
}

/// The positions of the items of `texts` kept for the search `query`, in
/// order; all of them when there is no search.
pub open spec fn kept_items(texts: Seq<Seq<char>>, query: Option<Seq<char>>) -> Seq<usize>
    decreases texts.len(),
{
    if texts.len() == 0 {
        seq![]
    } else {
        let before = kept_items(texts.drop_last(), query);
        let keep = match query {
            Some(q) => matches_query(texts.last(), q),
            None => true,
        };
        if keep {
            before.push((texts.len() - 1) as usize)
        } else {
            before
        }
    }
}

/// The words of `query`, in order.
fn words_of(query: &Vec<char>) -> (r: Vec<Vec<char>>)
    ensures
        r@.map_values(|w: Vec<char>| w@) == query_words(query@),
{
    let all = split_at_spaces(query.as_slice());
    let ghost pieces = all@.map_values(|w: Vec<char>| w@);
    let mut words: Vec<Vec<char>> = Vec::new();
    let mut rest = all;
    let ghost mut done: Seq<Seq<char>> = seq![];
    while rest.len() > 0
        invariant
            pieces == done + rest@.map_values(|w: Vec<char>| w@),
            pieces == space_separated(query@),
            words@.map_values(|w: Vec<char>| w@) == done.filter(|w: Seq<char>| w.len() > 0),
        decreases rest.len(),
    {
        let ghost r0 = rest@.map_values(|w: Vec<char>| w@);
        let w = rest.remove(0);
        assert(rest@.map_values(|w: Vec<char>| w@) =~= r0.drop_first());
        let ghost before = words@.map_values(|w: Vec<char>| w@);
        proof {
            assert(r0[0] == w@);
            let next = done.push(w@);
            assert(next.drop_last() =~= done);
            reveal_with_fuel(Seq::filter, 2);
            assert(next + r0.drop_first() =~= done + r0);
            done = next;
        }
        if w.len() > 0 {
            words.push(w);
            assert(words@.map_values(|w: Vec<char>| w@) =~= before.push(done.last()));
        } else {
            assert(words@.map_values(|w: Vec<char>| w@) =~= before);
        }
    }
    assert(done =~= pieces);
    words
}

/// Whether `text` holds every one of `words`.
fn holds_all(text: &Vec<char>, words: &Vec<Vec<char>>) -> (r: bool)
    ensures
        r == forall|i: int| 0 <= i < words@.len() ==> occurs_in(text@, #[trigger] words@[i]@),
{
    let mut i: usize = 0;
    while i < words.len()
        invariant
            i <= words@.len(),
            forall|j: int| 0 <= j < i ==> occurs_in(text@, #[trigger] words@[j]@),
        decreases words@.len() - i,
    {
        if !contains_chars(text.as_slice(), words[i].as_slice()) {
            return false;
        }
        i = i + 1;
    }
    true
}

/// The positions of the items written `texts` that the search `query`
/// keeps, in order; all of them when no search is open.
pub fn search_filtered_items(query: Option<&str>, texts: &[String]) -> (r: Vec<usize>)
    ensures
        r@ == kept_items(
            texts@.map_values(|t: String| t@),
            match query {
                Some(q) => Some(q@),
                None => None,
            },
        ),
{
    let ghost views = texts@.map_values(|t: String| t@);
    let ghost q = match query {
        Some(q) => Some(q@),
        None => None::<Seq<char>>,
    };
    let (lowered, words) = match query {
        Some(q) => {
            let lowered = to_lowercase(q);
            let chars = chars_of(lowered.as_str());
            let words = words_of(&chars);
            (chars, words)
        },
        None => (Vec::new(), Vec::new()),
    };
    let mut kept: Vec<usize> = Vec::new();
    let mut i: usize = 0;
    while i < texts.len()
        invariant
            views == texts@.map_values(|t: String| t@),
            i <= texts@.len(),
            kept@ == kept_items(views.take(i as int), q),
            q matches Some(qv) ==> lowered@ == lowercase_of(qv) && words@.map_values(
                |w: Vec<char>| w@,
            ) == query_words(lowercase_of(qv)),
            q == match query {
                Some(s) => Some(s@),
                None => None::<Seq<char>>,
            },
        decreases texts@.len() - i,
    {
        proof {
            let t = views.take(i + 1);
            assert(t.drop_last() =~= views.take(i as int));
            assert(t.last() == texts@[i as int]@);
        }
        let keep = match query {
            None => true,
            Some(qs) => {
                if lowered.len() == 0 {
                    assert(matches_query(views[i as int], qs@));
                    true
                } else {
                    let text = to_lowercase(texts[i].as_str());
                    let chars = chars_of(text.as_str());
                    let r = holds_all(&chars, &words);
                    proof {
                        let ws = words@.map_values(|w: Vec<char>| w@);
                        let qw = query_words(lowercase_of(qs@));
                        assert(ws == qw);
                        assert(chars@ == lowercase_of(views[i as int]));
                        if r {
                            assert forall|j: int| 0 <= j < qw.len() implies occurs_in(
                                lowercase_of(views[i as int]),
                                #[trigger] qw[j],
                            ) by {
                                assert(ws[j] == words@[j]@);
                            }
                        } else {
                            let j = choose|j: int| 0 <= j < words@.len() && !occurs_in(chars@, #[trigger] words@[j]@);
                            assert(ws[j] == words@[j]@);
                            assert(!occurs_in(lowercase_of(views[i as int]), qw[j]));
                        }
                        assert(r == matches_query(views[i as int], qs@));
                    }
                    r
                }
            },
        };
        if keep {
            kept.push(i);
        }
        i = i + 1;
    }
    assert(views.take(i as int) =~= views);
    kept
}

/// The score the skim fuzzy matcher gives `choice` for `pattern`, where it
/// matches.
pub uninterp spec fn fuzzy_score_of(choice: Seq<char>, pattern: Seq<char>) -> Option<i64>;

/// Calls `fuzzy_matcher::skim::SkimMatcherV2::fuzzy` of a default matcher on
/// `choice` and `pattern`, without match positions, and keeps the score. The
/// score is named `fuzzy_score_of`; an empty pattern matches with score 0,
/// which the matcher returns before anything else.
#[verifier::external_body]
fn skim_score(choice: &str, pattern: &str) -> (r: Option<i64>)
    ensures
        r == fuzzy_score_of(choice@, pattern@),
        pattern@.len() == 0 ==> r == Some(0i64),
{
    fuzzy_matcher::skim::SkimMatcherV2::default().fuzzy(choice, pattern, false).map(|(score, _)| score)
}

/// The score of item `i`.
pub open spec fn score_at(scores: Seq<Option<i64>>, i: int) -> i64 {
    scores[i]->0
}

/// `out` ranks the items that have a score: each once, the higher score
/// first, items with equal scores in their order.
pub open spec fn ranks(scores: Seq<Option<i64>>, out: Seq<usize>) -> bool {
    &&& out.no_duplicates()
    &&& forall|k: int| 0 <= k < out.len() ==> (#[trigger] out[k]) < scores.len() && scores[out[k] as int] is Some
    &&& forall|i: int| 0 <= i < scores.len() && (#[trigger] scores[i]) is Some ==> out.contains(i as usize)
    &&& forall|a: int, b: int|
        0 <= a < b < out.len() ==> score_at(scores, #[trigger] out[a] as int) > score_at(
            scores,
            #[trigger] out[b] as int,
        ) || (score_at(scores, out[a] as int) == score_at(scores, out[b] as int) && out[a] < out[b])
}

/// Putting item `i`, of score `s`, at `k` in a ranking of the items before
/// it, after those scored at least `s` and before one scored less, gives a
/// ranking of the items up to it.
proof fn lemma_insert_keeps_ranking(scores: Seq<Option<i64>>, before: Seq<usize>, k: int, i: usize, s: i64)
    requires
        i < scores.len(),
        scores[i as int] == Some(s),
        0 <= k <= before.len(),
        before.no_duplicates(),
        forall|m: int| 0 <= m < before.len() ==> (#[trigger] before[m]) < i && scores[before[m] as int] is Some,
        forall|j: int| 0 <= j < i && (#[trigger] scores[j]) is Some ==> before.contains(j as usize),
        forall|a: int, b: int|
            0 <= a < b < before.len() ==> score_at(scores, #[trigger] before[a] as int) > score_at(
                scores,
                #[trigger] before[b] as int,
            ) || (score_at(scores, before[a] as int) == score_at(scores, before[b] as int)
                && before[a] < before[b]),
        forall|m: int| 0 <= m < k ==> score_at(scores, #[trigger] before[m] as int) >= s,
        k < before.len() ==> score_at(scores, before[k] as int) < s,
    ensures
        ({
            let out = before.insert(k, i);
            &&& out.no_duplicates()
            &&& forall|m: int| 0 <= m < out.len() ==> (#[trigger] out[m]) < i + 1 && scores[out[m] as int] is Some
            &&& forall|j: int| 0 <= j < i + 1 && (#[trigger] scores[j]) is Some ==> out.contains(j as usize)
            &&& forall|a: int, b: int|
                0 <= a < b < out.len() ==> score_at(scores, #[trigger] out[a] as int) > score_at(
                    scores,
                    #[trigger] out[b] as int,
                ) || (score_at(scores, out[a] as int) == score_at(scores, out[b] as int) && out[a] < out[b])
        }),
{
    let out = before.insert(k, i);
    assert forall|a: int, b: int| 0 <= a < out.len() && 0 <= b < out.len() && a != b implies out[a] != out[b] by {
        if a != k && b != k {
            let a0 = if a < k { a } else { a - 1 };
            let b0 = if b < k { b } else { b - 1 };
            assert(out[a] == before[a0] && out[b] == before[b0]);
        } else if a == k {
            let b0 = if b < k { b } else { b - 1 };
            assert(out[b] == before[b0]);
        } else {
            let a0 = if a < k { a } else { a - 1 };
            assert(out[a] == before[a0]);
        }
    }
    assert forall|m: int| 0 <= m < out.len() implies (#[trigger] out[m]) < i + 1 && scores[out[m] as int] is Some by {
        if m > k {
            assert(out[m] == before[m - 1]);
        }
    }
    assert forall|j: int| 0 <= j < i + 1 && (#[trigger] scores[j]) is Some implies out.contains(j as usize) by {
        if j < i {
            let m = choose|m: int| 0 <= m < before.len() && before[m] == j as usize;
            if m < k {
                assert(out[m] == j as usize);
            } else {
                assert(out[m + 1] == j as usize);
            }
        } else {
            assert(out[k] == i);
        }
    }
    assert forall|a: int, b: int| 0 <= a < b < out.len() implies score_at(scores, #[trigger] out[a] as int) > score_at(
        scores,
        #[trigger] out[b] as int,
    ) || (score_at(scores, out[a] as int) == score_at(scores, out[b] as int) && out[a] < out[b]) by {
        if b < k {
            assert(out[a] == before[a] && out[b] == before[b]);
        } else if b == k {
            assert(out[a] == before[a]);
        } else if a < k {
            assert(out[a] == before[a] && out[b] == before[b - 1]);
        } else if a == k {
            assert(out[b] == before[b - 1]);
            if b - 1 > k {
                assert(score_at(scores, before[k] as int) > score_at(scores, before[b - 1] as int) || score_at(scores, before[k] as int) == score_at(scores, before[b - 1] as int));
            }
        } else {
            assert(out[a] == before[a - 1] && out[b] == before[b - 1]);
        }
    }
}

/// The positions of the items that have a score, the higher score first,
/// items with equal scores in their order.
pub fn rank_by_score(scores: &Vec<Option<i64>>) -> (r: Vec<usize>)
    ensures
        ranks(scores@, r@),
{
    let mut out: Vec<usize> = Vec::new();
    let mut i: usize = 0;
    while i < scores.len()
        invariant
            i <= scores@.len(),
            out@.no_duplicates(),
            forall|k: int| 0 <= k < out@.len() ==> (#[trigger] out@[k]) < i && scores@[out@[k] as int] is Some,
            forall|j: int| 0 <= j < i && (#[trigger] scores@[j]) is Some ==> out@.contains(j as usize),
            forall|a: int, b: int|
                0 <= a < b < out@.len() ==> score_at(scores@, #[trigger] out@[a] as int) > score_at(
                    scores@,
                    #[trigger] out@[b] as int,
                ) || (score_at(scores@, out@[a] as int) == score_at(scores@, out@[b] as int)
                    && out@[a] < out@[b]),
        decreases scores@.len() - i,
    {
        match scores[i] {
            Some(s) => {
                let mut k: usize = 0;
                while k < out.len() && scores[out[k]].unwrap() >= s
                    invariant
                        i < scores@.len(),
                        k <= out@.len(),
                        forall|m: int| 0 <= m < out@.len() ==> (#[trigger] out@[m]) < i && scores@[out@[m] as int] is Some,
                        forall|m: int| 0 <= m < k ==> score_at(scores@, #[trigger] out@[m] as int) >= s,
                    decreases out@.len() - k,
                {
                    k = k + 1;
                }
                let ghost before = out@;
                out.insert(k, i);
                proof {
                    assert(out@ =~= before.insert(k as int, i));
                    lemma_insert_keeps_ranking(scores@, before, k as int, i, s);
                }
            },
            None => {},
        }
        i = i + 1;
    }
    out
}

/// The fuzzy scores of `texts` for `query`.
pub open spec fn fuzzy_scores(texts: Seq<String>, query: Seq<char>) -> Seq<Option<i64>> {
    texts.map_values(|t: String| fuzzy_score_of(t@, query))
}

/// The positions of the items of `texts` that match `query` fuzzily, the
/// best match first, equally good matches in their order.
pub fn fuzzy_search_items(texts: &[String], query: &str) -> (r: Vec<usize>)
    ensures
        ranks(fuzzy_scores(texts@, query@), r@),
{
    let mut scores: Vec<Option<i64>> = Vec::new();
    let mut i: usize = 0;
    while i < texts.len()
        invariant
            i <= texts@.len(),
            scores@ == fuzzy_scores(texts@.take(i as int), query@),
        decreases texts@.len() - i,
    {
        let s = skim_score(texts[i].as_str(), query);
        scores.push(s);
        assert(scores@ =~= fuzzy_scores(texts@.take(i + 1), query@));
        i = i + 1;
    }
    assert(texts@.take(i as int) =~= texts@);
    rank_by_score(&scores)
}

/// The positions of the items kept for a fuzzy search: all of them, in order,
/// without a search; with one, those that match the query in lower case, the
/// best match first.
pub fn fuzzy_filtered_items(query: Option<&str>, texts: &[String]) -> (r: Vec<usize>)
    ensures
        match query {
            Some(q) => ranks(fuzzy_scores(texts@, lowercase_of(q@)), r@),
            None => r@ == Seq::new(texts@.len(), |i: int| i as usize),
        },
{
    match query {
        Some(q) => {
            let lowered = to_lowercase(q);
            fuzzy_search_items(texts, lowered.as_str())
        },
        None => {
            let mut all: Vec<usize> = Vec::new();
            let mut i: usize = 0;
            while i < texts.len()
                invariant
                    i <= texts@.len(),
                    all@ == Seq::new(i as nat, |j: int| j as usize),
                decreases texts@.len() - i,
            {
                all.push(i);
                assert(all@ =~= Seq::new((i + 1) as nat, |j: int| j as usize));
                i = i + 1;
            }
            all
        },
    }
}

/// Without a search every item is kept, in order; a search keeps a subset
/// of the items, in order.
pub proof fn law_search_keeps_items_in_order(texts: Seq<Seq<char>>, query: Option<Seq<char>>)
    requires
        texts.len() <= usize::MAX,
    ensures
        query is None ==> kept_items(texts, query) == Seq::new(texts.len(), |i: int| i as usize),
        forall|i: int, j: int|
            0 <= i < j < kept_items(texts, query).len() ==> #[trigger] kept_items(texts, query)[i]
                < #[trigger] kept_items(texts, query)[j],
        forall|i: int|
            0 <= i < kept_items(texts, query).len() ==> #[trigger] kept_items(texts, query)[i] < texts.len(),
    decreases texts.len(),
{
    if texts.len() > 0 {
        law_search_keeps_items_in_order(texts.drop_last(), query);
        let before = kept_items(texts.drop_last(), query);
        let k = kept_items(texts, query);
        let last = (texts.len() - 1) as usize;
        assert(last == texts.len() - 1);
        if k.len() > before.len() {
            assert(k == before.push(last));
            assert forall|i: int, j: int| 0 <= i < j < k.len() implies #[trigger] k[i] < #[trigger] k[j] by {
                if j < before.len() {
                    assert(k[i] == before[i] && k[j] == before[j]);
                } else {
                    assert(k[i] == before[i]);
                }
            }
            assert forall|i: int| 0 <= i < k.len() implies #[trigger] k[i] < texts.len() by {
                if i < before.len() {
                    assert(k[i] == before[i]);
                }
            }
        }
        if query is None {
            assert(k =~= Seq::new(texts.len(), |i: int| i as usize));
        }
    } else {
        assert(kept_items(texts, query) =~= Seq::new(texts.len(), |i: int| i as usize));
    }
}

} // verus!
