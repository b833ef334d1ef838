//! Arranging a flat list of playlists into folders, following a tree of
//! folder nodes: each folder gets an entry in its parent and an entry back
//! up in itself, and each playlist goes into the folder whose node names it.

use vstd::prelude::*;
use vstd::multiset::Multiset;

use crate::command::{decimal_digits, push_decimal_digits};
use crate::text::{chars_of, push_char, spells};

verus! {

/// A folder entry: shown in folder `current_id`, it leads to folder
/// `target_id`.
#[derive(Debug, Clone)]
pub struct PlaylistFolder {
    pub name: String,
    pub current_id: usize,
    pub target_id: usize,
}

/// A node of the folder tree: a folder, with the nodes inside it, or a
/// playlist, named by the last part of its URI.
#[derive(Debug)]
pub struct PlaylistFolderNode {
    pub name: Option<String>,
    pub node_type: String,
    pub uri: String,
    pub children: Vec<PlaylistFolderNode>,
}

/// An entry of the arranged list: a playlist with the folder it is shown
/// in, or a folder entry.
#[derive(Debug, Clone)]
pub enum PlaylistFolderItem<P> {
    Playlist(P, usize),
    Folder(PlaylistFolder),
}

/// An entry with its text as characters.
pub enum FolderItemView<P> {
    Playlist(P, nat),
    Folder(Seq<char>, nat, nat),
}

impl<P> View for PlaylistFolderItem<P> {
    type V = FolderItemView<P>;

    open spec fn view(&self) -> FolderItemView<P> {
        match self {
            PlaylistFolderItem::Playlist(p, id) => FolderItemView::Playlist(*p, *id as nat),
            PlaylistFolderItem::Folder(f) => FolderItemView::Folder(
                f.name@,
                f.current_id as nat,
                f.target_id as nat,
            ),
        }
    }
}

/// The text after the last `:` of `s`, if it has one.
pub open spec fn after_last_colon(s: Seq<char>) -> Option<Seq<char>>
    decreases s.len(),
{
    if s.len() == 0 {
        None
    } else if s.last() == ':' {
        Some(seq![])
    } else {
        match after_last_colon(s.drop_last()) {
            Some(t) => Some(t.push(s.last())),
            None => None,
        }
    }
}

/// The index of the first playlist of `pool` whose id is `id`.
pub open spec fn pool_index<P>(pool: Seq<(Seq<char>, P)>, id: Seq<char>) -> Option<int>
    decreases pool.len(),
{
    if pool.len() == 0 {
        None
    } else if pool[0].0 == id {
        Some(0)
    } else {
        match pool_index(pool.drop_first(), id) {
            Some(i) => Some(i + 1),
            None => None,
        }
    }
}

/// The playlists by id, the later of two with the same id replacing the
/// earlier in its place.
pub open spec fn keyed_pool<P>(playlists: Seq<(Seq<char>, P)>) -> Seq<(Seq<char>, P)>
    decreases playlists.len(),
{
    if playlists.len() == 0 {
        seq![]
    } else {
        let pool = keyed_pool(playlists.drop_last());
        let entry = playlists.last();
        match pool_index(pool, entry.0) {
            Some(i) => pool.update(i, entry),
            None => pool.push(entry),
        }
    }
}

/// The arranged entries so far, the playlists not placed yet, and the
/// last folder id handed out.
pub struct WalkState<P> {
    pub items: Seq<FolderItemView<P>>,
    pub pool: Seq<(Seq<char>, P)>,
    pub counter: nat,
}

/// The name of a folder node shown in folder `cur`: its own, or
/// `folder_<cur>`.
pub open spec fn folder_name(name: Option<Seq<char>>, cur: nat) -> Seq<char> {
    match name {
        Some(n) => n,
        None => "folder_"@ + decimal_digits(cur),
    }
}

/// The name of the entry leading back up from a folder named `name`.
pub open spec fn up_name(name: Seq<char>) -> Seq<char> {
    seq!['\u{2190}', ' '] + name
}

/// The characters of an optional string.
pub open spec fn name_view(name: Option<String>) -> Option<Seq<char>> {
    match name {
        Some(n) => Some(n@),
        None => None,
    }
}

/// Walks `nodes`, shown in folder `cur`, in order from state `st`. A node
/// whose URI has no `:` is skipped. A folder node gets the next folder id,
/// an entry in `cur` and an entry back up, and its children are walked in
/// it. A playlist node moves the playlist with its id, if still there, to
/// folder `cur`.
pub open spec fn walk_nodes<P>(nodes: Seq<PlaylistFolderNode>, cur: nat, st: WalkState<P>) -> WalkState<P>
    decreases nodes,
{
    if nodes.len() == 0 {
        st
    } else {
        let f = nodes[0];
        let next = match after_last_colon(f.uri@) {
            None => st,
            Some(id) => if f.node_type@ == "folder"@ {
                let nid = st.counter + 1;
                let name = folder_name(name_view(f.name), cur);
                let opened = WalkState {
                    items: st.items.push(FolderItemView::Folder(name, cur, nid)).push(
                        FolderItemView::Folder(up_name(name), nid, cur),
                    ),
                    pool: st.pool,
                    counter: nid,
                };
                walk_nodes(f.children@, nid, opened)
            } else {
                match pool_index(st.pool, id) {
                    Some(i) => WalkState {
                        items: st.items.push(FolderItemView::Playlist(st.pool[i].1, cur)),
                        pool: st.pool.remove(i),
                        counter: st.counter,
                    },
                    None => st,
                }
            },
        };
        walk_nodes(nodes.drop_first(), cur, next)
    }
}

/// The number of nodes in the tree `nodes`.
pub open spec fn node_count(nodes: Seq<PlaylistFolderNode>) -> nat
    decreases nodes,
{
    if nodes.len() == 0 {
        0
    } else {
        1 + node_count(nodes[0].children@) + node_count(nodes.drop_first())
    }
}

/// The entries for `playlists` arranged by the folder tree `nodes`: the
/// walk from the root folder 0, then the playlists no node named, in the
/// root folder.
pub open spec fn arranged<P>(playlists: Seq<(Seq<char>, P)>, nodes: Seq<PlaylistFolderNode>) -> Seq<FolderItemView<P>> {
    let st = walk_nodes(nodes, 0, WalkState { items: seq![], pool: keyed_pool(playlists), counter: 0 });
    st.items + st.pool.map_values(|e: (Seq<char>, P)| FolderItemView::Playlist(e.1, 0))
}

/// The text after the last `:` of `s`.
fn id_of_uri(s: &String) -> (r: Option<String>)
    ensures
        match r {
            Some(id) => after_last_colon(s@) == Some(id@),
            None => after_last_colon(s@) is None,
        },
{
    let chars = chars_of(s.as_str());
    let n = chars.len();
    let mut k: usize = n;
    while k > 0 && chars[k - 1] != ':'
        invariant
            k <= n,
            n == chars@.len(),
            chars@ == s@,
            forall|j: int| k <= j < n ==> chars@[j] != ':',
        decreases k,
    {
        k = k - 1;
    }
    proof {
        lemma_after_last_colon(s@, k as nat);
    }
    if k == 0 {
        return None;
    }
    let mut id = String::new();
    let mut i: usize = k;
    while i < n
        invariant
            k <= i <= n,
            n == chars@.len(),
            id@ == chars@.subrange(k as int, i as int),
        decreases n - i,
    {
        push_char(&mut id, chars[i]);
        i = i + 1;
        assert(id@ =~= chars@.subrange(k as int, i as int));
    }
    Some(id)
}

/// With no `:` from `k` on, the text after the last `:` is what follows
/// position `k - 1`, when that is a `:`.
proof fn lemma_after_last_colon(s: Seq<char>, k: nat)
    requires
        k <= s.len(),
        forall|j: int| k <= j < s.len() ==> s[j] != ':',
        k > 0 ==> s[k - 1] == ':',
    ensures
        after_last_colon(s) == if k == 0 {
            None::<Seq<char>>
        } else {
            Some(s.subrange(k as int, s.len() as int))
        },
    decreases s.len(),
{
    if s.len() > 0 && s.len() > k {
        lemma_after_last_colon(s.drop_last(), k);
        assert(s.drop_last().subrange(k as int, s.len() - 1).push(s.last()) =~= s.subrange(
            k as int,
            s.len() as int,
        ));
    } else if s.len() > 0 {
        assert(s.subrange(k as int, s.len() as int) =~= seq![]);
    }
}

/// The index of the first playlist of `pool` with id `id`.
fn find_in_pool<P>(pool: &Vec<(String, P)>, id: &String) -> (r: Option<usize>)
    ensures
        pool_index(pool_view(pool@), id@) == match r {
            Some(k) => Some(k as int),
            None => None,
        },
        r matches Some(k) ==> k < pool@.len(),
{
    let ghost v = pool_view(pool@);
    let mut i: usize = 0;
    assert(v.skip(0) =~= v);
    while i < pool.len()
        invariant
            v == pool_view(pool@),
            i <= pool@.len(),
            pool_index(v, id@) == match pool_index(v.skip(i as int), id@) {
                Some(j) => Some(j + i),
                None => None,
            },
        decreases pool@.len() - i,
    {
        assert(v.skip(i as int)[0] == (pool@[i as int].0@, pool@[i as int].1));
        if pool[i].0 == *id {
            return Some(i);
        }
        assert(v.skip(i as int).drop_first() =~= v.skip(i + 1));
        i = i + 1;
    }
    assert(v.skip(i as int).len() == 0);
    None
}

/// The abstract value of a pool.
pub open spec fn pool_view<P>(pool: Seq<(String, P)>) -> Seq<(Seq<char>, P)> {
    pool.map_values(|e: (String, P)| (e.0@, e.1))
}

/// The abstract value of arranged entries.
pub open spec fn items_view<P>(items: Seq<PlaylistFolderItem<P>>) -> Seq<FolderItemView<P>> {
    items.map_values(|i: PlaylistFolderItem<P>| i@)
}

/// Walks `nodes`, shown in folder `current`, from the pool `pool`, the
/// last handed-out folder id `folder_id` and the entries `acc`.
fn add_playlist_folders<P>(
    nodes: &Vec<PlaylistFolderNode>,
    pool: &mut Vec<(String, P)>,
    folder_id: &mut usize,
    acc: &mut Vec<PlaylistFolderItem<P>>,
)
    requires
        *old(folder_id) + node_count(nodes@) <= usize::MAX,
    ensures
        ({
            let st = walk_nodes(
                nodes@,
                *old(folder_id) as nat,
                WalkState { items: items_view(old(acc)@), pool: pool_view(old(pool)@), counter: *old(folder_id) as nat },
            );
            &&& items_view(final(acc)@) == st.items
            &&& pool_view(final(pool)@) == st.pool
            &&& *final(folder_id) == st.counter
            &&& *final(folder_id) <= *old(folder_id) + node_count(nodes@)
        }),
    decreases nodes@,
{
    let current = *folder_id;
    let ghost target = walk_nodes(
        nodes@,
        current as nat,
        WalkState { items: items_view(acc@), pool: pool_view(pool@), counter: current as nat },
    );
    let ghost start = current;
    let n = nodes.len();
    let mut i: usize = 0;
    assert(nodes@.skip(0) =~= nodes@);
    while i < n
        invariant
            n == nodes@.len(),
            i <= n,
            start == current,
            walk_nodes(
                nodes@.skip(i as int),
                current as nat,
                WalkState { items: items_view(acc@), pool: pool_view(pool@), counter: *folder_id as nat },
            ) == target,
            *folder_id + node_count(nodes@.skip(i as int)) <= start + node_count(nodes@),
            start + node_count(nodes@) <= usize::MAX,
        decreases n - i,
    {
        let f = &nodes[i];
        let ghost rest = nodes@.skip(i as int);
        assert(rest[0] == *f);
        assert(rest.drop_first() =~= nodes@.skip(i + 1));
        assert(node_count(rest) == 1 + node_count(f.children@) + node_count(nodes@.skip(i + 1)));
        let ghost before = WalkState { items: items_view(acc@), pool: pool_view(pool@), counter: *folder_id as nat };
        match id_of_uri(&f.uri) {
            None => {
                assert(walk_nodes(rest, current as nat, before) == walk_nodes(
                    nodes@.skip(i + 1),
                    current as nat,
                    before,
                ));
            },
            Some(id) => {
                let kind = chars_of(f.node_type.as_str());
                if spells(kind.as_slice(), "folder") {
                    *folder_id = *folder_id + 1;
                    let nid = *folder_id;
                    let name = match &f.name {
                        Some(n) => n.clone(),
                        None => {
                            let mut n = String::from_str("folder_");
                            push_decimal_digits(&mut n, current as u64);
                            n
                        },
                    };
                    assert(name@ == folder_name(name_view(f.name), current as nat));
                    let mut up = String::from_str("\u{2190} ");
                    up.append(name.as_str());
                    proof {
                        reveal_strlit("\u{2190} ");
                    }
                    assert(up@ =~= up_name(name@));
                    let ghost items0 = items_view(acc@);
                    acc.push(PlaylistFolderItem::Folder(PlaylistFolder { name, current_id: current, target_id: nid }));
                    acc.push(PlaylistFolderItem::Folder(PlaylistFolder { name: up, current_id: nid, target_id: current }));
                    assert(items_view(acc@) =~= items0.push(
                        FolderItemView::Folder(folder_name(name_view(f.name), current as nat), current as nat, nid as nat),
                    ).push(
                        FolderItemView::Folder(up_name(folder_name(name_view(f.name), current as nat)), nid as nat, current as nat),
                    ));
                    add_playlist_folders(&f.children, pool, folder_id, acc);
                    assert(walk_nodes(rest, current as nat, before) == walk_nodes(
                        nodes@.skip(i + 1),
                        current as nat,
                        WalkState { items: items_view(acc@), pool: pool_view(pool@), counter: *folder_id as nat },
                    ));
                } else {
                    match find_in_pool(pool, &id) {
                        Some(k) => {
                            let ghost items0 = items_view(acc@);
                            let ghost pool0 = pool_view(pool@);
                            let (_, p) = pool.remove(k);
                            acc.push(PlaylistFolderItem::Playlist(p, current));
                            assert(items_view(acc@) =~= items0.push(FolderItemView::Playlist(pool0[k as int].1, current as nat)));
                            assert(pool_view(pool@) =~= pool0.remove(k as int));
                            assert(walk_nodes(rest, current as nat, before) == walk_nodes(
                                nodes@.skip(i + 1),
                                current as nat,
                                WalkState { items: items_view(acc@), pool: pool_view(pool@), counter: *folder_id as nat },
                            ));
                        },
                        None => {
                            assert(walk_nodes(rest, current as nat, before) == walk_nodes(
                                nodes@.skip(i + 1),
                                current as nat,
                                before,
                            ));
                        },
                    }
                }
            },
        }
        i = i + 1;
    }
    assert(nodes@.skip(n as int).len() == 0);
}

/// The entries for `playlists`, each with its id, arranged by the folder
/// tree `nodes`.
pub fn structurize<P>(playlists: Vec<(String, P)>, nodes: &Vec<PlaylistFolderNode>) -> (r: Vec<PlaylistFolderItem<P>>)
    requires
        node_count(nodes@) <= usize::MAX,
    ensures
        items_view(r@) == arranged(pool_view(playlists@), nodes@),
{
    let ghost input = pool_view(playlists@);
    let mut pool: Vec<(String, P)> = Vec::new();
    let mut rest = playlists;
    let ghost taken: Seq<(Seq<char>, P)> = seq![];
    while rest.len() > 0
        invariant
            input == taken + pool_view(rest@),
            pool_view(pool@) == keyed_pool(taken),
        decreases rest.len(),
    {
        let ghost rest0 = pool_view(rest@);
        let entry = rest.remove(0);
        assert(pool_view(rest@) =~= rest0.drop_first());
        let ghost e = (entry.0@, entry.1);
        proof {
            assert((taken.push(e)).drop_last() =~= taken);
            assert(taken.push(e) + pool_view(rest@) =~= taken + rest0);
            taken = taken.push(e);
        }
        let ghost pool0 = pool_view(pool@);
        assert(keyed_pool(taken) == match pool_index(pool0, e.0) {
            Some(i) => pool0.update(i, e),
            None => pool0.push(e),
        });
        match find_in_pool(&pool, &entry.0) {
            Some(k) => {
                pool.set(k, entry);
                assert(pool_view(pool@) =~= pool0.update(k as int, e));
            },
            None => {
                pool.push(entry);
                assert(pool_view(pool@) =~= pool0.push(e));
            },
        }
    }
    assert(taken =~= input);
    let mut acc: Vec<PlaylistFolderItem<P>> = Vec::new();
    let mut folder_id: usize = 0;
    assert(items_view(acc@) =~= seq![]);
    add_playlist_folders(nodes, &mut pool, &mut folder_id, &mut acc);
    let ghost walked = items_view(acc@);
    let ghost left = pool_view(pool@);
    assert(left.len() == pool.len());
    let mut j: usize = 0;
    while pool.len() > 0
        invariant
            j <= left.len(),
            left.len() <= usize::MAX,
            pool_view(pool@) == left.skip(j as int),
            items_view(acc@) == walked + left.take(j as int).map_values(
                |e: (Seq<char>, P)| FolderItemView::Playlist(e.1, 0),
            ),
        decreases pool.len(),
    {
        let ghost pool0 = pool_view(pool@);
        let ghost items0 = items_view(acc@);
        assert(pool_view(pool@).len() == pool@.len());
        assert(j < left.len());
        let (_, p) = pool.remove(0);
        assert(pool_view(pool@) =~= pool0.drop_first());
        assert(pool0.drop_first() =~= left.skip(j + 1));
        assert(p == pool0[0].1);
        assert(pool0[0] == left[j as int]);
        acc.push(PlaylistFolderItem::Playlist(p, 0));
        assert(items_view(acc@) =~= items0.push(FolderItemView::Playlist(p, 0)));
        assert(left.take(j + 1) =~= left.take(j as int).push(left[j as int]));
        assert(items_view(acc@) =~= walked + left.take(j + 1).map_values(
            |e: (Seq<char>, P)| FolderItemView::Playlist(e.1, 0),
        ));
        j = j + 1;
    }
    assert(left.take(j as int) =~= left);
    acc
}

/// The playlists among `items`, in order.
pub open spec fn playlists_in<P>(items: Seq<FolderItemView<P>>) -> Seq<P>
    decreases items.len(),
{
    if items.len() == 0 {
        seq![]
    } else {
        let rest = playlists_in(items.drop_last());
        match items.last() {
            FolderItemView::Playlist(p, _) => rest.push(p),
            FolderItemView::Folder(..) => rest,
        }
    }
}

/// The playlists of a pool, in order.
pub open spec fn pool_values<P>(pool: Seq<(Seq<char>, P)>) -> Seq<P> {
    pool.map_values(|e: (Seq<char>, P)| e.1)
}

/// The playlists of a walk state: those placed and those left, together.
pub open spec fn walk_contents<P>(st: WalkState<P>) -> Multiset<P> {
    playlists_in(st.items).to_multiset().add(pool_values(st.pool).to_multiset())
}

proof fn lemma_playlists_in_concat<P>(a: Seq<FolderItemView<P>>, b: Seq<FolderItemView<P>>)
    ensures
        playlists_in(a + b) == playlists_in(a) + playlists_in(b),
    decreases b.len(),
{
    if b.len() == 0 {
        assert(a + b =~= a);
        assert(playlists_in(a) + seq![] =~= playlists_in(a));
    } else {
        lemma_playlists_in_concat(a, b.drop_last());
        assert((a + b).drop_last() =~= a + b.drop_last());
        match b.last() {
            FolderItemView::Playlist(p, _) => {
                assert(playlists_in(a) + playlists_in(b.drop_last()).push(p) =~= (playlists_in(a)
                    + playlists_in(b.drop_last())).push(p));
            },
            FolderItemView::Folder(..) => {},
        }
    }
}

proof fn lemma_pool_entries<P>(pool: Seq<(Seq<char>, P)>)
    ensures
        playlists_in(pool.map_values(|e: (Seq<char>, P)| FolderItemView::Playlist(e.1, 0)))
            == pool_values(pool),
    decreases pool.len(),
{
    if pool.len() > 0 {
        lemma_pool_entries(pool.drop_last());
        assert(pool.map_values(|e: (Seq<char>, P)| FolderItemView::Playlist(e.1, 0)).drop_last()
            =~= pool.drop_last().map_values(|e: (Seq<char>, P)| FolderItemView::Playlist(e.1, 0)));
        assert(pool_values(pool) =~= pool_values(pool.drop_last()).push(pool.last().1));
    } else {
        assert(pool_values(pool) =~= seq![]);
    }
}

/// A walk moves playlists from the pool to the entries, and loses or adds
/// none.
proof fn lemma_walk_keeps_playlists<P>(nodes: Seq<PlaylistFolderNode>, cur: nat, st: WalkState<P>)
    ensures
        walk_contents(walk_nodes(nodes, cur, st)) == walk_contents(st),
    decreases nodes,
{
    broadcast use vstd::seq_lib::group_to_multiset_ensures, vstd::multiset::group_multiset_axioms;

    if nodes.len() > 0 {
        let f = nodes[0];
        match after_last_colon(f.uri@) {
            None => {
                lemma_walk_keeps_playlists(nodes.drop_first(), cur, st);
            },
            Some(id) => {
                if f.node_type@ == "folder"@ {
                    let nid = st.counter + 1;
                    let name = folder_name(name_view(f.name), cur);
                    let opened = WalkState {
                        items: st.items.push(FolderItemView::Folder(name, cur, nid)).push(
                            FolderItemView::Folder(up_name(name), nid, cur),
                        ),
                        pool: st.pool,
                        counter: nid,
                    };
                    let first = st.items.push(FolderItemView::Folder(name, cur, nid));
                    assert(opened.items.drop_last() =~= first);
                    assert(first.drop_last() =~= st.items);
                    assert(playlists_in(first) == playlists_in(st.items));
                    assert(playlists_in(opened.items) == playlists_in(first));
                    lemma_walk_keeps_playlists(f.children@, nid, opened);
                    lemma_walk_keeps_playlists(nodes.drop_first(), cur, walk_nodes(f.children@, nid, opened));
                } else {
                    match pool_index(st.pool, id) {
                        Some(i) => {
                            lemma_pool_index_in_range(st.pool, id);
                            let next = WalkState {
                                items: st.items.push(FolderItemView::Playlist(st.pool[i].1, cur)),
                                pool: st.pool.remove(i),
                                counter: st.counter,
                            };
                            let values = pool_values(st.pool);
                            assert(pool_values(next.pool) =~= values.remove(i));
                            assert(values[i] == st.pool[i].1);
                            assert(next.items.drop_last() =~= st.items);
                            assert(playlists_in(next.items) == playlists_in(st.items).push(st.pool[i].1));
                            assert(walk_contents(next) =~= walk_contents(st));
                            lemma_walk_keeps_playlists(nodes.drop_first(), cur, next);
                        },
                        None => {
                            lemma_walk_keeps_playlists(nodes.drop_first(), cur, st);
                        },
                    }
                }
            },
        }
    }
}

proof fn lemma_pool_index_in_range<P>(pool: Seq<(Seq<char>, P)>, id: Seq<char>)
    ensures
        pool_index(pool, id) matches Some(i) ==> 0 <= i < pool.len() && pool[i].0 == id,
    decreases pool.len(),
{
    if pool.len() > 0 && pool[0].0 != id {
        lemma_pool_index_in_range(pool.drop_first(), id);
    }
}

/// Arranging playlists into folders places each of them exactly once: the
/// playlists among the entries are those of the input, the later of two
/// with the same id kept, counted with multiplicity.
pub proof fn law_arranging_places_each_playlist_once<P>(
    playlists: Seq<(Seq<char>, P)>,
    nodes: Seq<PlaylistFolderNode>,
)
    ensures
        playlists_in(arranged(playlists, nodes)).to_multiset() == pool_values(
            keyed_pool(playlists),
        ).to_multiset(),
{
    broadcast use vstd::seq_lib::group_to_multiset_ensures, vstd::multiset::group_multiset_axioms;

    let start = WalkState::<P> { items: seq![], pool: keyed_pool(playlists), counter: 0 };
    let st = walk_nodes(nodes, 0, start);
    lemma_walk_keeps_playlists(nodes, 0, start);
    let tail = st.pool.map_values(|e: (Seq<char>, P)| FolderItemView::Playlist(e.1, 0));
    lemma_playlists_in_concat(st.items, tail);
    lemma_pool_entries(st.pool);
    vstd::seq_lib::lemma_multiset_commutative(playlists_in(st.items), pool_values(st.pool));
    assert(playlists_in(start.items) =~= seq![]);
    assert(playlists_in(start.items).to_multiset() =~= Multiset::empty());
}

} // verus!
