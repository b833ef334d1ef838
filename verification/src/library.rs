//! The user's library as the application keeps it: playlists (in folders),
//! followed artists, saved shows, albums and tracks, the questions asked of
//! it, and how saving and removing items changes it.

use vstd::prelude::*;

use crate::contexts::{Playlist, Show};
use crate::playlist_folders::{arranged, items_view, node_count, pool_view, structurize, PlaylistFolderItem, PlaylistFolderNode};
use crate::tracks::{Album, Artist, Track};

verus! {

/// The user's library.
#[derive(Debug)]
pub struct UserData {
    /// The id of the signed-in user, once known.
    pub user_id: Option<String>,
    pub playlists: Vec<PlaylistFolderItem<Playlist>>,
    pub followed_artists: Vec<Artist>,
    pub saved_shows: Vec<Show>,
    pub saved_albums: Vec<Album>,
    /// The liked tracks, each once.
    pub saved_tracks: Vec<Track>,
}

/// The ids of `tracks`.
pub open spec fn track_ids(tracks: Seq<Track>) -> Seq<Seq<char>> {
    tracks.map_values(|t: Track| t.id@)
}

/// The folder an entry is shown in.
pub open spec fn folder_of(item: PlaylistFolderItem<Playlist>) -> nat {
    match item {
        PlaylistFolderItem::Playlist(_, folder) => folder as nat,
        PlaylistFolderItem::Folder(f) => f.current_id as nat,
    }
}

/// Whether the user may change an entry: a folder, or a playlist the user
/// owns or that is collaborative.
pub open spec fn may_modify(item: PlaylistFolderItem<Playlist>, user_id: Seq<char>) -> bool {
    match item {
        PlaylistFolderItem::Playlist(p, _) => p.owner.1@ == user_id || p.collaborative,
        PlaylistFolderItem::Folder(_) => true,
    }
}

/// The positions of the entries of `items` in `folder` (all of them when
/// none is given) that the user `user_id` may change, in order.
pub open spec fn modifiable_positions(
    items: Seq<PlaylistFolderItem<Playlist>>,
    folder: Option<usize>,
    user_id: Seq<char>,
) -> Seq<usize>
    decreases items.len(),
{
    if items.len() == 0 {
        Seq::empty()
    } else {
        let before = modifiable_positions(items.drop_last(), folder, user_id);
        let last = items.last();
        let in_folder = match folder {
            Some(f) => folder_of(last) == f,
            None => true,
        };
        if in_folder && may_modify(last, user_id) {
            before.push((items.len() - 1) as usize)
        } else {
            before
        }
    }
}

/// The positions of the entries of `items` in `folder`, in order.
pub open spec fn folder_positions(items: Seq<PlaylistFolderItem<Playlist>>, folder: usize) -> Seq<usize>
    decreases items.len(),
{
    if items.len() == 0 {
        Seq::empty()
    } else {
        let before = folder_positions(items.drop_last(), folder);
        if folder_of(items.last()) == folder {
            before.push((items.len() - 1) as usize)
        } else {
            before
        }
    }
}

/// The entry is the playlist with id `id`.
pub open spec fn is_playlist(item: PlaylistFolderItem<Playlist>, id: Seq<char>) -> bool {
    item matches PlaylistFolderItem::Playlist(p, _) && p.id@ == id
}

/// Every item of `s` but those `gone` says to leave out, in order.
pub open spec fn kept_items<T>(s: Seq<T>, gone: spec_fn(T) -> bool) -> Seq<T> {
    s.filter(|x: T| !gone(x))
}

impl UserData {
    /// No liked track is held twice.
    pub open spec fn wf(&self) -> bool {
        track_ids(self.saved_tracks@).no_duplicates()
    }

    /// Whether the user likes `track`.
    pub fn is_liked_track(&self, track: &Track) -> (r: bool)
        ensures
            r == track_ids(self.saved_tracks@).contains(track.id@),
    {
        let mut i: usize = 0;
        while i < self.saved_tracks.len()
            invariant
                i <= self.saved_tracks@.len(),
                forall|j: int| 0 <= j < i ==> track_ids(self.saved_tracks@)[j] != track.id@,
            decreases self.saved_tracks@.len() - i,
        {
            if self.saved_tracks[i].id == track.id {
                assert(track_ids(self.saved_tracks@)[i as int] == track.id@);
                return true;
            }
            i = i + 1;
        }
        false
    }

    /// Whether the user follows `playlist`.
    pub fn is_followed_playlist(&self, playlist: &Playlist) -> (r: bool)
        ensures
            r == exists|i: int|
                0 <= i < self.playlists@.len() && is_playlist(#[trigger] self.playlists@[i], playlist.id@),
    {
        let mut i: usize = 0;
        while i < self.playlists.len()
            invariant
                i <= self.playlists@.len(),
                forall|j: int| 0 <= j < i ==> !is_playlist(#[trigger] self.playlists@[j], playlist.id@),
            decreases self.playlists@.len() - i,
        {
            match &self.playlists[i] {
                PlaylistFolderItem::Playlist(p, _) => {
                    if p.id == playlist.id {
                        return true;
                    }
                },
                PlaylistFolderItem::Folder(_) => {},
            }
            i = i + 1;
        }
        false
    }

    /// Whether the user follows the artist with id `id`.
    pub fn is_followed_artist(&self, id: &String) -> (r: bool)
        ensures
            r == exists|i: int| 0 <= i < self.followed_artists@.len() && #[trigger] self.followed_artists@[i].id@ == id@,
    {
        let mut i: usize = 0;
        while i < self.followed_artists.len()
            invariant
                i <= self.followed_artists@.len(),
                forall|j: int| 0 <= j < i ==> #[trigger] self.followed_artists@[j].id@ != id@,
            decreases self.followed_artists@.len() - i,
        {
            if self.followed_artists[i].id == *id {
                return true;
            }
            i = i + 1;
        }
        false
    }

    /// Whether the user saved the album with id `id`.
    pub fn is_saved_album(&self, id: &String) -> (r: bool)
        ensures
            r == exists|i: int| 0 <= i < self.saved_albums@.len() && #[trigger] self.saved_albums@[i].id@ == id@,
    {
        let mut i: usize = 0;
        while i < self.saved_albums.len()
            invariant
                i <= self.saved_albums@.len(),
                forall|j: int| 0 <= j < i ==> #[trigger] self.saved_albums@[j].id@ != id@,
            decreases self.saved_albums@.len() - i,
        {
            if self.saved_albums[i].id == *id {
                return true;
            }
            i = i + 1;
        }
        false
    }

    /// Whether the user saved the show with id `id`.
    pub fn is_saved_show(&self, id: &String) -> (r: bool)
        ensures
            r == exists|i: int| 0 <= i < self.saved_shows@.len() && #[trigger] self.saved_shows@[i].id@ == id@,
    {
        let mut i: usize = 0;
        while i < self.saved_shows.len()
            invariant
                i <= self.saved_shows@.len(),
                forall|j: int| 0 <= j < i ==> #[trigger] self.saved_shows@[j].id@ != id@,
            decreases self.saved_shows@.len() - i,
        {
            if self.saved_shows[i].id == *id {
                return true;
            }
            i = i + 1;
        }
        false
    }

    /// The positions of the entries the user may change, in `folder_id`
    /// when given: none before the user is known.
    pub fn modifiable_playlist_items(&self, folder_id: Option<usize>) -> (r: Vec<usize>)
        ensures
            r@ == match self.user_id {
                Some(u) => modifiable_positions(self.playlists@, folder_id, u@),
                None => Seq::<usize>::empty(),
            },
    {
        let user = match &self.user_id {
            Some(u) => u,
            None => return Vec::new(),
        };
        let mut out: Vec<usize> = Vec::new();
        let mut i: usize = 0;
        while i < self.playlists.len()
            invariant
                i <= self.playlists@.len(),
                out@ == modifiable_positions(self.playlists@.take(i as int), folder_id, user@),
            decreases self.playlists@.len() - i,
        {
            proof {
                let t = self.playlists@.take(i + 1);
                assert(t.drop_last() =~= self.playlists@.take(i as int));
                assert(t.last() == self.playlists@[i as int]);
            }
            let item = &self.playlists[i];
            let in_folder = match folder_id {
                Some(f) => match item {
                    PlaylistFolderItem::Playlist(_, folder) => *folder == f,
                    PlaylistFolderItem::Folder(fd) => fd.current_id == f,
                },
                None => true,
            };
            let allowed = match item {
                PlaylistFolderItem::Playlist(p, _) => p.owner.1 == *user || p.collaborative,
                PlaylistFolderItem::Folder(_) => true,
            };
            if in_folder && allowed {
                out.push(i);
            }
            i = i + 1;
        }
        assert(self.playlists@.take(i as int) =~= self.playlists@);
        out
    }

    /// The positions of the entries in `folder_id`.
    pub fn folder_playlists_items(&self, folder_id: usize) -> (r: Vec<usize>)
        ensures
            r@ == folder_positions(self.playlists@, folder_id),
    {
        let mut out: Vec<usize> = Vec::new();
        let mut i: usize = 0;
        while i < self.playlists.len()
            invariant
                i <= self.playlists@.len(),
                out@ == folder_positions(self.playlists@.take(i as int), folder_id),
            decreases self.playlists@.len() - i,
        {
            proof {
                let t = self.playlists@.take(i + 1);
                assert(t.drop_last() =~= self.playlists@.take(i as int));
                assert(t.last() == self.playlists@[i as int]);
            }
            let here = match &self.playlists[i] {
                PlaylistFolderItem::Playlist(_, folder) => *folder == folder_id,
                PlaylistFolderItem::Folder(fd) => fd.current_id == folder_id,
            };
            if here {
                out.push(i);
            }
            i = i + 1;
        }
        assert(self.playlists@.take(i as int) =~= self.playlists@);
        out
    }

    /// Where the liked track with id `id` stands.
    fn position_of_track(&self, id: &String) -> (r: Option<usize>)
        ensures
            match r {
                Some(i) => i < self.saved_tracks@.len() && track_ids(self.saved_tracks@)[i as int] == id@,
                None => !track_ids(self.saved_tracks@).contains(id@),
            },
    {
        let mut i: usize = 0;
        while i < self.saved_tracks.len()
            invariant
                i <= self.saved_tracks@.len(),
                forall|j: int| 0 <= j < i ==> track_ids(self.saved_tracks@)[j] != id@,
            decreases self.saved_tracks@.len() - i,
        {
            if self.saved_tracks[i].id == *id {
                return Some(i);
            }
            i = i + 1;
        }
        None
    }

    /// Records a newly liked `track`; one with its id is replaced.
    pub fn save_track(&mut self, track: Track)
        requires
            old(self).wf(),
        ensures
            final(self).wf(),
            forall|i: int|
                0 <= i < old(self).saved_tracks@.len() && #[trigger] track_ids(old(self).saved_tracks@)[i]
                    == track.id@ ==> final(self).saved_tracks@ == old(self).saved_tracks@.update(i, track),
            !track_ids(old(self).saved_tracks@).contains(track.id@) ==> final(self).saved_tracks@
                == old(self).saved_tracks@.push(track),
            final(self).saved_albums@ == old(self).saved_albums@,
            final(self).followed_artists@ == old(self).followed_artists@,
            final(self).saved_shows@ == old(self).saved_shows@,
            final(self).playlists@ == old(self).playlists@,
            final(self).user_id == old(self).user_id,
    {
        let ghost ids = track_ids(self.saved_tracks@);
        let ghost tid = track.id@;
        match self.position_of_track(&track.id) {
            Some(i) => {
                self.saved_tracks.set(i, track);
                assert(track_ids(self.saved_tracks@) =~= ids);
                assert forall|k: int| 0 <= k < ids.len() && ids[k] == tid implies k == i by {
                    if k != i {
                        assert(ids[k] != ids[i as int]);
                    }
                }
            },
            None => {
                self.saved_tracks.push(track);
                assert(track_ids(self.saved_tracks@) =~= ids.push(tid));
                assert forall|a: int, b: int|
                    0 <= a < ids.push(tid).len() && 0 <= b < ids.push(tid).len() && a != b implies ids.push(tid)[a]
                    != ids.push(tid)[b] by {
                    if a == ids.len() {
                        assert(ids.push(tid)[b] == ids[b]);
                    } else if b == ids.len() {
                        assert(ids.push(tid)[a] == ids[a]);
                    }
                }
            },
        }
    }

    /// Forgets the liked track with id `id`.
    pub fn remove_track(&mut self, id: &String)
        requires
            old(self).wf(),
        ensures
            final(self).wf(),
            final(self).saved_tracks@ == old(self).saved_tracks@.filter(|t: Track| t.id@ != id@),
            final(self).saved_albums@ == old(self).saved_albums@,
            final(self).followed_artists@ == old(self).followed_artists@,
            final(self).saved_shows@ == old(self).saved_shows@,
            final(self).playlists@ == old(self).playlists@,
            final(self).user_id == old(self).user_id,
    {
        let ghost before = self.saved_tracks@;
        let mut keep: Vec<bool> = Vec::new();
        let mut i: usize = 0;
        while i < self.saved_tracks.len()
            invariant
                i <= self.saved_tracks@.len(),
                keep@.len() == i,
                forall|j: int| 0 <= j < i ==> keep@[j] == (self.saved_tracks@[j].id@ != id@),
            decreases self.saved_tracks@.len() - i,
        {
            let t = &self.saved_tracks[i];
            keep.push(!(t.id == *id));
            i = i + 1;
        }
        retain_flagged(&mut self.saved_tracks, &keep, Ghost(|t: Track| t.id@ != id@));
        proof {
            lemma_filter_keeps_distinct_ids(before, |t: Track| t.id@ != id@);
        }
    }

    /// Forgets the saved album with id `id`.
    pub fn remove_album(&mut self, id: &String)
        ensures
            final(self).saved_albums@ == old(self).saved_albums@.filter(|a: Album| a.id@ != id@),
            final(self).saved_tracks@ == old(self).saved_tracks@,
            final(self).followed_artists@ == old(self).followed_artists@,
            final(self).saved_shows@ == old(self).saved_shows@,
            final(self).playlists@ == old(self).playlists@,
            final(self).user_id == old(self).user_id,
    {
        let mut keep: Vec<bool> = Vec::new();
        let mut i: usize = 0;
        while i < self.saved_albums.len()
            invariant
                i <= self.saved_albums@.len(),
                keep@.len() == i,
                forall|j: int| 0 <= j < i ==> keep@[j] == (self.saved_albums@[j].id@ != id@),
            decreases self.saved_albums@.len() - i,
        {
            let a = &self.saved_albums[i];
            keep.push(!(a.id == *id));
            i = i + 1;
        }
        retain_flagged(&mut self.saved_albums, &keep, Ghost(|a: Album| a.id@ != id@));
    }

    /// Forgets the followed artist with id `id`.
    pub fn remove_artist(&mut self, id: &String)
        ensures
            final(self).followed_artists@ == old(self).followed_artists@.filter(
                |a: Artist| a.id@ != id@,
            ),
            final(self).saved_tracks@ == old(self).saved_tracks@,
            final(self).saved_albums@ == old(self).saved_albums@,
            final(self).saved_shows@ == old(self).saved_shows@,
            final(self).playlists@ == old(self).playlists@,
            final(self).user_id == old(self).user_id,
    {
        let mut keep: Vec<bool> = Vec::new();
        let mut i: usize = 0;
        while i < self.followed_artists.len()
            invariant
                i <= self.followed_artists@.len(),
                keep@.len() == i,
                forall|j: int| 0 <= j < i ==> keep@[j] == (self.followed_artists@[j].id@ != id@),
            decreases self.followed_artists@.len() - i,
        {
            let a = &self.followed_artists[i];
            keep.push(!(a.id == *id));
            i = i + 1;
        }
        retain_flagged(&mut self.followed_artists, &keep, Ghost(|a: Artist| a.id@ != id@));
    }

    /// Forgets the saved show with id `id`.
    pub fn remove_show(&mut self, id: &String)
        ensures
            final(self).saved_shows@ == old(self).saved_shows@.filter(|s: Show| s.id@ != id@),
            final(self).saved_tracks@ == old(self).saved_tracks@,
            final(self).saved_albums@ == old(self).saved_albums@,
            final(self).followed_artists@ == old(self).followed_artists@,
            final(self).playlists@ == old(self).playlists@,
            final(self).user_id == old(self).user_id,
    {
        let mut keep: Vec<bool> = Vec::new();
        let mut i: usize = 0;
        while i < self.saved_shows.len()
            invariant
                i <= self.saved_shows@.len(),
                keep@.len() == i,
                forall|j: int| 0 <= j < i ==> keep@[j] == (self.saved_shows@[j].id@ != id@),
            decreases self.saved_shows@.len() - i,
        {
            let x = &self.saved_shows[i];
            keep.push(!(x.id == *id));
            i = i + 1;
        }
        retain_flagged(&mut self.saved_shows, &keep, Ghost(|x: Show| x.id@ != id@));
    }

    /// Forgets the followed playlist with id `id`; folders stay.
    pub fn remove_playlist(&mut self, id: &String)
        ensures
            final(self).playlists@ == old(self).playlists@.filter(
                |item: PlaylistFolderItem<Playlist>| !is_playlist(item, id@),
            ),
            final(self).saved_tracks@ == old(self).saved_tracks@,
            final(self).saved_albums@ == old(self).saved_albums@,
            final(self).followed_artists@ == old(self).followed_artists@,
            final(self).saved_shows@ == old(self).saved_shows@,
            final(self).user_id == old(self).user_id,
    {
        let mut keep: Vec<bool> = Vec::new();
        let mut i: usize = 0;
        while i < self.playlists.len()
            invariant
                i <= self.playlists@.len(),
                keep@.len() == i,
                forall|j: int| 0 <= j < i ==> keep@[j] == (!is_playlist(self.playlists@[j], id@)),
            decreases self.playlists@.len() - i,
        {
            let item = &self.playlists[i];
            keep.push(match item {
                PlaylistFolderItem::Playlist(p, _) => !(p.id == *id),
                PlaylistFolderItem::Folder(_) => true,
            });
            i = i + 1;
        }
        retain_flagged(
            &mut self.playlists,
            &keep,
            Ghost(|item: PlaylistFolderItem<Playlist>| !is_playlist(item, id@)),
        );
    }

    /// Adds a newly saved album at the front.
    pub fn add_album(&mut self, album: Album)
        ensures
            final(self).saved_albums@ == seq![album] + old(self).saved_albums@,
            final(self).saved_tracks@ == old(self).saved_tracks@,
            final(self).followed_artists@ == old(self).followed_artists@,
            final(self).saved_shows@ == old(self).saved_shows@,
            final(self).playlists@ == old(self).playlists@,
            final(self).user_id == old(self).user_id,
    {
        let ghost before = self.saved_albums@;
        self.saved_albums.insert(0, album);
        assert(self.saved_albums@ =~= seq![album] + before);
    }

    /// Adds a newly followed artist at the front.
    pub fn add_artist(&mut self, artist: Artist)
        ensures
            final(self).followed_artists@ == seq![artist] + old(self).followed_artists@,
            final(self).saved_tracks@ == old(self).saved_tracks@,
            final(self).saved_albums@ == old(self).saved_albums@,
            final(self).saved_shows@ == old(self).saved_shows@,
            final(self).playlists@ == old(self).playlists@,
            final(self).user_id == old(self).user_id,
    {
        let ghost before = self.followed_artists@;
        self.followed_artists.insert(0, artist);
        assert(self.followed_artists@ =~= seq![artist] + before);
    }

    /// Adds a newly saved show at the front.
    pub fn add_show(&mut self, show: Show)
        ensures
            final(self).saved_shows@ == seq![show] + old(self).saved_shows@,
            final(self).saved_tracks@ == old(self).saved_tracks@,
            final(self).saved_albums@ == old(self).saved_albums@,
            final(self).followed_artists@ == old(self).followed_artists@,
            final(self).playlists@ == old(self).playlists@,
            final(self).user_id == old(self).user_id,
    {
        let ghost before = self.saved_shows@;
        self.saved_shows.insert(0, show);
        assert(self.saved_shows@ =~= seq![show] + before);
    }

    /// Adds a newly followed playlist at the front, in the folder it names.
    pub fn add_playlist(&mut self, playlist: Playlist)
        ensures
            final(self).playlists@ == seq![PlaylistFolderItem::Playlist(playlist, playlist.current_folder_id)]
                + old(self).playlists@,
            final(self).saved_tracks@ == old(self).saved_tracks@,
            final(self).saved_albums@ == old(self).saved_albums@,
            final(self).followed_artists@ == old(self).followed_artists@,
            final(self).saved_shows@ == old(self).saved_shows@,
            final(self).user_id == old(self).user_id,
    {
        let ghost before = self.playlists@;
        let folder = playlist.current_folder_id;
        self.playlists.insert(0, PlaylistFolderItem::Playlist(playlist, folder));
        assert(self.playlists@ =~= seq![PlaylistFolderItem::Playlist(playlist, folder)] + before);
    }
}

/// Whether the folder tree `node` holds any folder or playlist.
pub open spec fn has_folders(node: Option<PlaylistFolderNode>) -> bool {
    match node {
        Some(n) => n.children@.len() > 0,
        None => false,
    }
}

/// The playlists, each with its id.
pub open spec fn keyed_playlists(playlists: Seq<Playlist>) -> Seq<(Seq<char>, Playlist)> {
    playlists.map_values(|p: Playlist| (p.id@, p))
}

/// Each playlist listed in the folder it names.
pub open spec fn flat_items(playlists: Seq<Playlist>) -> Seq<PlaylistFolderItem<Playlist>> {
    playlists.map_values(|p: Playlist| PlaylistFolderItem::Playlist(p, p.current_folder_id))
}

/// The user's playlists as the library lists them: arranged by the folder
/// tree `node` when it holds anything, else each in the folder it names.
pub fn arrange_user_playlists(playlists: Vec<Playlist>, node: &Option<PlaylistFolderNode>) -> (r: Vec<
    PlaylistFolderItem<Playlist>,
>)
    requires
        node matches Some(n) ==> node_count(n.children@) <= usize::MAX,
    ensures
        has_folders(*node) ==> (node matches Some(n) && items_view(r@) == arranged(
            keyed_playlists(playlists@),
            n.children@,
        )),
        !has_folders(*node) ==> r@ == flat_items(playlists@),
{
    let ghost all = playlists@;
    let tree = match node {
        Some(n) => n.children.len() > 0,
        None => false,
    };
    let mut rest = playlists;
    if tree {
        let mut keyed: Vec<(String, Playlist)> = Vec::new();
        let ghost t: int = 0;
        while rest.len() > 0
            invariant
                0 <= t <= all.len(),
                rest@ == all.skip(t),
                pool_view(keyed@) == keyed_playlists(all.take(t)),
            decreases rest.len(),
        {
            let ghost r0 = rest@;
            let p = rest.remove(0);
            proof {
                assert(rest@ =~= r0.drop_first());
                assert(all.skip(t).drop_first() =~= all.skip(t + 1));
                assert(p == all[t]);
                assert(all.take(t + 1) =~= all.take(t).push(p));
            }
            let id = p.id.clone();
            assert(id@ == p.id@);
            let ghost before = keyed@;
            let ghost entry = (id@, p);
            keyed.push((id, p));
            proof {
                assert(pool_view(keyed@) =~= pool_view(before).push(entry));
                assert(keyed_playlists(all.take(t + 1)) =~= keyed_playlists(all.take(t)).push(entry));
                t = t + 1;
            }
        }
        assert(all.take(t) =~= all);
        match node {
            Some(n) => structurize(keyed, &n.children),
            None => Vec::new(),
        }
    } else {
        let mut flat: Vec<PlaylistFolderItem<Playlist>> = Vec::new();
        let ghost t: int = 0;
        while rest.len() > 0
            invariant
                0 <= t <= all.len(),
                rest@ == all.skip(t),
                flat@ == flat_items(all.take(t)),
            decreases rest.len(),
        {
            let ghost r0 = rest@;
            let p = rest.remove(0);
            proof {
                assert(rest@ =~= r0.drop_first());
                assert(all.skip(t).drop_first() =~= all.skip(t + 1));
                assert(p == all[t]);
                assert(all.take(t + 1) =~= all.take(t).push(p));
            }
            let folder = p.current_folder_id;
            flat.push(PlaylistFolderItem::Playlist(p, folder));
            proof {
                t = t + 1;
                assert(flat@ =~= flat_items(all.take(t)));
            }
        }
        assert(all.take(t) =~= all);
        flat
    }
}

/// A filter that every item passes keeps the sequence as it is.
proof fn lemma_filter_keeps_all<T>(s: Seq<T>, p: spec_fn(T) -> bool)
    requires
        forall|i: int| 0 <= i < s.len() ==> p(#[trigger] s[i]),
    ensures
        s.filter(p) == s,
    decreases s.len(),
{
    reveal_with_fuel(Seq::filter, 1);
    if s.len() > 0 {
        lemma_filter_keeps_all(s.drop_last(), p);
        assert(p(s[s.len() - 1]));
        assert(s.drop_last().push(s.last()) =~= s);
    }
}

/// Removing an album that was just saved, when it was not saved before,
/// gives back the saved albums as they were.
pub proof fn law_remove_undoes_add_album(albums: Seq<Album>, album: Album)
    requires
        forall|i: int| 0 <= i < albums.len() ==> (#[trigger] albums[i]).id@ != album.id@,
    ensures
        (seq![album] + albums).filter(|a: Album| a.id@ != album.id@) == albums,
{
    let p = |a: Album| a.id@ != album.id@;
    albums.lemma_filter_prepend(album, p);
    lemma_filter_keeps_all(albums, p);
    assert((Seq::<Album>::empty() + albums.filter(p)) =~= albums);
}

/// Forgetting a track that was just liked, when it was not liked before,
/// gives back the liked tracks as they were.
pub proof fn law_remove_undoes_save_track(tracks: Seq<Track>, track: Track)
    requires
        !track_ids(tracks).contains(track.id@),
    ensures
        tracks.push(track).filter(|t: Track| t.id@ != track.id@) == tracks,
{
    let p = |t: Track| t.id@ != track.id@;
    assert forall|i: int| 0 <= i < tracks.len() implies p(#[trigger] tracks[i]) by {
        assert(track_ids(tracks)[i] == tracks[i].id@);
    }
    lemma_filter_keeps_all(tracks, p);
    reveal_with_fuel(Seq::filter, 1);
    assert(tracks.push(track).drop_last() =~= tracks);
}

/// Keeps the items of `v` whose flag in `keep` is set, in order: those that
/// `p` accepts.
fn retain_flagged<T>(v: &mut Vec<T>, keep: &Vec<bool>, Ghost(p): Ghost<spec_fn(T) -> bool>)
    requires
        keep@.len() == old(v)@.len(),
        forall|i: int| 0 <= i < keep@.len() ==> keep@[i] == p(old(v)@[i]),
    ensures
        final(v)@ == old(v)@.filter(p),
{
    let ghost before = v@;
    let n: usize = v.len();
    let mut rest: Vec<T> = Vec::new();
    std::mem::swap(&mut rest, v);
    let mut kept: Vec<T> = Vec::new();
    let mut t: usize = 0;
    while rest.len() > 0
        invariant
            before.len() == n,
            keep@.len() == n,
            forall|i: int| 0 <= i < keep@.len() ==> keep@[i] == p(before[i]),
            t + rest@.len() == n,
            rest@ == before.skip(t as int),
            kept@ == before.take(t as int).filter(p),
        decreases rest.len(),
    {
        let ghost r0 = rest@;
        let x = rest.remove(0);
        proof {
            assert(rest@ =~= r0.drop_first());
            assert(before.skip(t as int).drop_first() =~= before.skip(t + 1));
            assert(x == before[t as int]);
            let next = before.take(t + 1);
            assert(next.drop_last() =~= before.take(t as int));
            assert(next.last() == x);
            reveal_with_fuel(Seq::filter, 1);
        }
        if keep[t] {
            kept.push(x);
        }
        t = t + 1;
    }
    assert(before.take(t as int) =~= before);
    *v = kept;
}

/// Leaving out items keeps the ids of the others distinct, and every item
/// kept comes from `s`.
proof fn lemma_filter_keeps_distinct_ids(s: Seq<Track>, p: spec_fn(Track) -> bool)
    requires
        track_ids(s).no_duplicates(),
    ensures
        track_ids(s.filter(p)).no_duplicates(),
        forall|i: int| 0 <= i < s.filter(p).len() ==> s.contains(#[trigger] s.filter(p)[i]),
    decreases s.len(),
{
    if s.len() > 0 {
        let d = s.drop_last();
        assert forall|i: int, j: int|
            0 <= i < track_ids(d).len() && 0 <= j < track_ids(d).len() && i != j implies track_ids(d)[i]
            != track_ids(d)[j] by {
            assert(track_ids(d)[i] == track_ids(s)[i] && track_ids(d)[j] == track_ids(s)[j]);
        }
        lemma_filter_keeps_distinct_ids(d, p);
        let fd = d.filter(p);
        let f = s.filter(p);
        reveal_with_fuel(Seq::filter, 1);
        assert forall|i: int| 0 <= i < fd.len() implies s.contains(#[trigger] fd[i]) by {
            let j = choose|j: int| 0 <= j < d.len() && d[j] == fd[i];
            assert(s[j] == fd[i]);
        }
        if p(s.last()) {
            assert(f == fd.push(s.last()));
            assert forall|i: int| 0 <= i < f.len() implies s.contains(#[trigger] f[i]) by {
                if i < fd.len() {
                    assert(f[i] == fd[i]);
                } else {
                    assert(s[s.len() - 1] == f[i]);
                }
            }
            assert forall|i: int, j: int|
                0 <= i < track_ids(f).len() && 0 <= j < track_ids(f).len() && i != j implies track_ids(f)[i]
                != track_ids(f)[j] by {
                if i < fd.len() && j < fd.len() {
                    assert(track_ids(f)[i] == track_ids(fd)[i] && track_ids(f)[j] == track_ids(fd)[j]);
                } else if i < fd.len() {
                    let k = choose|k: int| 0 <= k < d.len() && d[k] == fd[i];
                    assert(track_ids(s)[k] == track_ids(f)[i]);
                    assert(track_ids(s)[s.len() - 1] == track_ids(f)[j]);
                } else {
                    let k = choose|k: int| 0 <= k < d.len() && d[k] == fd[j];
                    assert(track_ids(s)[k] == track_ids(f)[j]);
                    assert(track_ids(s)[s.len() - 1] == track_ids(f)[i]);
                }
            }
        } else {
            assert(f == fd);
        }
    }
}

} // verus!
