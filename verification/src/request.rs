//! Bookkeeping of in-flight requests: which request last touched a keyed
//! resource, and the feedback message shown for user-visible operations.
//!
//! Every request gets a fresh id from [`RequestTracker::begin`]. A completion
//! only counts when it comes from the latest request begun for its key, so a
//! slow, older request can never overwrite the outcome of a newer one.

use vstd::prelude::*;

use crate::clock;

verus! {

/// How long a success message stays visible: 4 seconds, in nanoseconds.
pub const SUCCESS_FEEDBACK_NANOS: u128 = 4_000_000_000;

/// The resource a request loads.
#[derive(Clone, Debug, PartialEq, Eq, Hash)]
pub enum RequestKey {
    BrowseCategories,
    BrowseCategory(String),
    Context(String),
    CreatePlaylist,
    CurrentUser,
    Devices,
    Lyrics(String),
    Queue,
    Search(String),
    UserFollowedArtists,
    UserPlaylists,
    UserSavedAlbums,
    UserSavedShows,
}

/// A request key with its text argument taken as characters.
pub enum RequestKeyView {
    BrowseCategories,
    BrowseCategory(Seq<char>),
    Context(Seq<char>),
    CreatePlaylist,
    CurrentUser,
    Devices,
    Lyrics(Seq<char>),
    Queue,
    Search(Seq<char>),
    UserFollowedArtists,
    UserPlaylists,
    UserSavedAlbums,
    UserSavedShows,
}

impl View for RequestKey {
    type V = RequestKeyView;

    open spec fn view(&self) -> RequestKeyView {
        match self {
            RequestKey::BrowseCategories => RequestKeyView::BrowseCategories,
            RequestKey::BrowseCategory(s) => RequestKeyView::BrowseCategory(s@),
            RequestKey::Context(s) => RequestKeyView::Context(s@),
            RequestKey::CreatePlaylist => RequestKeyView::CreatePlaylist,
            RequestKey::CurrentUser => RequestKeyView::CurrentUser,
            RequestKey::Devices => RequestKeyView::Devices,
            RequestKey::Lyrics(s) => RequestKeyView::Lyrics(s@),
            RequestKey::Queue => RequestKeyView::Queue,
            RequestKey::Search(s) => RequestKeyView::Search(s@),
            RequestKey::UserFollowedArtists => RequestKeyView::UserFollowedArtists,
            RequestKey::UserPlaylists => RequestKeyView::UserPlaylists,
            RequestKey::UserSavedAlbums => RequestKeyView::UserSavedAlbums,
            RequestKey::UserSavedShows => RequestKeyView::UserSavedShows,
        }
    }
}

impl RequestKey {
    /// A copy of this key.
    pub fn duplicate(&self) -> (r: Self)
        ensures
            r@ == self@,
    {
        match self {
            RequestKey::BrowseCategories => RequestKey::BrowseCategories,
            RequestKey::BrowseCategory(s) => RequestKey::BrowseCategory(s.clone()),
            RequestKey::Context(s) => RequestKey::Context(s.clone()),
            RequestKey::CreatePlaylist => RequestKey::CreatePlaylist,
            RequestKey::CurrentUser => RequestKey::CurrentUser,
            RequestKey::Devices => RequestKey::Devices,
            RequestKey::Lyrics(s) => RequestKey::Lyrics(s.clone()),
            RequestKey::Queue => RequestKey::Queue,
            RequestKey::Search(s) => RequestKey::Search(s.clone()),
            RequestKey::UserFollowedArtists => RequestKey::UserFollowedArtists,
            RequestKey::UserPlaylists => RequestKey::UserPlaylists,
            RequestKey::UserSavedAlbums => RequestKey::UserSavedAlbums,
            RequestKey::UserSavedShows => RequestKey::UserSavedShows,
        }
    }

    /// Whether two keys name the same resource.
    pub fn same_as(&self, other: &Self) -> (r: bool)
        ensures
            r == (self@ == other@),
    {
        match (self, other) {
            (RequestKey::BrowseCategories, RequestKey::BrowseCategories) => true,
            (RequestKey::BrowseCategory(a), RequestKey::BrowseCategory(b)) => a.eq(b),
            (RequestKey::Context(a), RequestKey::Context(b)) => a.eq(b),
            (RequestKey::CreatePlaylist, RequestKey::CreatePlaylist) => true,
            (RequestKey::CurrentUser, RequestKey::CurrentUser) => true,
            (RequestKey::Devices, RequestKey::Devices) => true,
            (RequestKey::Lyrics(a), RequestKey::Lyrics(b)) => a.eq(b),
            (RequestKey::Queue, RequestKey::Queue) => true,
            (RequestKey::Search(a), RequestKey::Search(b)) => a.eq(b),
            (RequestKey::UserFollowedArtists, RequestKey::UserFollowedArtists) => true,
            (RequestKey::UserPlaylists, RequestKey::UserPlaylists) => true,
            (RequestKey::UserSavedAlbums, RequestKey::UserSavedAlbums) => true,
            (RequestKey::UserSavedShows, RequestKey::UserSavedShows) => true,
            _ => false,
        }
    }
}

/// The outcome recorded for a keyed request.
#[derive(Clone, Debug, PartialEq, Eq)]
pub enum RequestStatus {
    Loading,
    Succeeded,
    Failed(String),
}

/// A request status with the failure message taken as characters.
pub enum RequestStatusView {
    Loading,
    Succeeded,
    Failed(Seq<char>),
}

impl View for RequestStatus {
    type V = RequestStatusView;

    open spec fn view(&self) -> RequestStatusView {
        match self {
            RequestStatus::Loading => RequestStatusView::Loading,
            RequestStatus::Succeeded => RequestStatusView::Succeeded,
            RequestStatus::Failed(s) => RequestStatusView::Failed(s@),
        }
    }
}

/// The kind of a feedback message.
#[derive(Clone, Copy, Debug, PartialEq, Eq, Structural)]
pub enum RequestFeedbackKind {
    Pending,
    Success,
    Error,
}

/// A feedback message for a user-visible operation.
#[derive(Debug)]
pub struct RequestFeedback {
    pub kind: RequestFeedbackKind,
    pub message: String,
}

/// A feedback message: its kind and text.
pub struct RequestFeedbackView {
    pub kind: RequestFeedbackKind,
    pub message: Seq<char>,
}

impl View for RequestFeedback {
    type V = RequestFeedbackView;

    open spec fn view(&self) -> RequestFeedbackView {
        RequestFeedbackView { kind: self.kind, message: self.message@ }
    }
}

impl RequestFeedback {
    /// A copy of this feedback.
    pub fn duplicate(&self) -> (r: Self)
        ensures
            r@ == self@,
    {
        RequestFeedback { kind: self.kind, message: self.message.clone() }
    }
}

/// The three messages of a user-visible operation.
#[derive(Debug)]
pub struct RequestOperation {
    pending: String,
    success: String,
    failure: String,
}

/// The messages of an operation, as characters.
pub struct RequestOperationView {
    pub pending: Seq<char>,
    pub success: Seq<char>,
    pub failure: Seq<char>,
}

impl View for RequestOperation {
    type V = RequestOperationView;

    closed spec fn view(&self) -> RequestOperationView {
        RequestOperationView {
            pending: self.pending@,
            success: self.success@,
            failure: self.failure@,
        }
    }
}

impl RequestOperation {
    /// An operation with its pending, success and failure messages.
    pub fn new(pending: &str, success: &str, failure: &str) -> (r: Self)
        ensures
            r@ == (RequestOperationView { pending: pending@, success: success@, failure: failure@ }),
    {
        RequestOperation {
            pending: String::from_str(pending),
            success: String::from_str(success),
            failure: String::from_str(failure),
        }
    }

    /// A copy of this operation.
    pub fn duplicate(&self) -> (r: Self)
        ensures
            r@ == self@,
    {
        RequestOperation {
            pending: self.pending.clone(),
            success: self.success.clone(),
            failure: self.failure.clone(),
        }
    }
}

/// What a request is about: the resource it loads, the operation it reports
/// on, both, or neither.
#[derive(Debug)]
pub struct RequestMetadata {
    pub key: Option<RequestKey>,
    pub operation: Option<RequestOperation>,
}

/// The view of an optional key.
pub open spec fn key_view(k: Option<RequestKey>) -> Option<RequestKeyView> {
    match k {
        Some(k) => Some(k@),
        None => None,
    }
}

/// The view of an optional operation.
pub open spec fn operation_view(o: Option<RequestOperation>) -> Option<RequestOperationView> {
    match o {
        Some(o) => Some(o@),
        None => None,
    }
}

impl Default for RequestMetadata {
    fn default() -> (r: Self)
        ensures
            r.key is None,
            r.operation is None,
    {
        RequestMetadata { key: None, operation: None }
    }
}

impl RequestMetadata {
    /// A request that loads `key`.
    pub fn tracked_key(key: RequestKey) -> (r: Self)
        ensures
            key_view(r.key) == Some(key@),
            r.operation is None,
    {
        RequestMetadata { key: Some(key), operation: None }
    }

    /// A request that reports on `operation`.
    pub fn operation(operation: RequestOperation) -> (r: Self)
        ensures
            r.key is None,
            operation_view(r.operation) == Some(operation@),
    {
        RequestMetadata { key: None, operation: Some(operation) }
    }

    /// A request that loads `key` and reports on `operation`.
    pub fn tracked_operation(key: RequestKey, operation: RequestOperation) -> (r: Self)
        ensures
            key_view(r.key) == Some(key@),
            operation_view(r.operation) == Some(operation@),
    {
        RequestMetadata { key: Some(key), operation: Some(operation) }
    }
}

/// The handle of a begun request, given back when it completes.
#[derive(Debug)]
pub struct RequestToken {
    id: u64,
    key: Option<RequestKey>,
    operation: Option<RequestOperation>,
}

/// A token: its id, key and operation.
pub struct RequestTokenView {
    pub id: u64,
    pub key: Option<RequestKeyView>,
    pub operation: Option<RequestOperationView>,
}

impl View for RequestToken {
    type V = RequestTokenView;

    closed spec fn view(&self) -> RequestTokenView {
        RequestTokenView {
            id: self.id,
            key: key_view(self.key),
            operation: operation_view(self.operation),
        }
    }
}

#[derive(Debug)]
struct TrackedStatus {
    key: RequestKey,
    request_id: u64,
    status: RequestStatus,
}

/// The status recorded for a key and the request that recorded it.
pub struct TrackedStatusView {
    pub request_id: u64,
    pub status: RequestStatusView,
}

#[derive(Debug)]
struct TrackedFeedback {
    request_id: u64,
    feedback: RequestFeedback,
    updated_at: std::time::Instant,
}

/// The feedback on display and the request that owns it.
pub struct TrackedFeedbackView {
    pub request_id: u64,
    pub feedback: RequestFeedbackView,
}

/// Requests in flight and their outcomes.
#[derive(Debug)]
pub struct RequestTracker {
    next_id: u64,
    statuses: Vec<TrackedStatus>,
    feedback: Option<TrackedFeedback>,
}

/// The state of a tracker: the id of the last request begun, the status of
/// each key, and the feedback on display.
pub struct RequestTrackerView {
    pub next_id: u64,
    pub statuses: Map<RequestKeyView, TrackedStatusView>,
    pub feedback: Option<TrackedFeedbackView>,
}

/// The id after `id`, wrapping around at the top of `u64`.
pub open spec fn successor_id(id: u64) -> u64 {
    if id == u64::MAX {
        0
    } else {
        (id + 1) as u64
    }
}

/// The message shown when an operation fails with `error`.
pub open spec fn failure_message(failure: Seq<char>, error: Seq<char>) -> Seq<char> {
    failure + ": "@ + error + ". See Logs for details."@
}

impl RequestTrackerView {
    /// The state after a request with `key` and `operation` has begun.
    pub open spec fn after_begin(
        self,
        key: Option<RequestKeyView>,
        operation: Option<RequestOperationView>,
    ) -> RequestTrackerView {
        let id = successor_id(self.next_id);
        RequestTrackerView {
            next_id: id,
            statuses: match key {
                Some(k) => self.statuses.insert(
                    k,
                    TrackedStatusView { request_id: id, status: RequestStatusView::Loading },
                ),
                None => self.statuses,
            },
            feedback: match operation {
                Some(o) => Some(
                    TrackedFeedbackView {
                        request_id: id,
                        feedback: RequestFeedbackView {
                            kind: RequestFeedbackKind::Pending,
                            message: o.pending,
                        },
                    },
                ),
                None => self.feedback,
            },
        }
    }

    /// The state after `token` completes with `status`: the key's status
    /// changes only when `token` is the request that last began on it.
    pub open spec fn with_status(
        self,
        token: RequestTokenView,
        status: RequestStatusView,
    ) -> RequestTrackerView {
        match token.key {
            Some(k) => if self.statuses.contains_key(k) && self.statuses[k].request_id
                == token.id {
                RequestTrackerView {
                    statuses: self.statuses.insert(
                        k,
                        TrackedStatusView { request_id: token.id, status },
                    ),
                    ..self
                }
            } else {
                self
            },
            None => self,
        }
    }

    /// The state after `token` reports `kind` with `message`: the feedback
    /// changes only when `token` owns it.
    pub open spec fn with_feedback(
        self,
        token: RequestTokenView,
        kind: RequestFeedbackKind,
        message: Seq<char>,
    ) -> RequestTrackerView {
        match self.feedback {
            Some(f) => if f.request_id == token.id {
                RequestTrackerView {
                    feedback: Some(
                        TrackedFeedbackView {
                            request_id: token.id,
                            feedback: RequestFeedbackView { kind, message },
                        },
                    ),
                    ..self
                }
            } else {
                self
            },
            None => self,
        }
    }

    /// The state after `token` succeeds.
    pub open spec fn after_success(self, token: RequestTokenView) -> RequestTrackerView {
        let s = self.with_status(token, RequestStatusView::Succeeded);
        match token.operation {
            Some(o) => s.with_feedback(token, RequestFeedbackKind::Success, o.success),
            None => s,
        }
    }

    /// The state after `token` fails with `error`.
    pub open spec fn after_failure(self, token: RequestTokenView, error: Seq<char>) -> RequestTrackerView {
        let s = self.with_status(token, RequestStatusView::Failed(error));
        match token.operation {
            Some(o) => s.with_feedback(
                token,
                RequestFeedbackKind::Error,
                failure_message(o.failure, error),
            ),
            None => s,
        }
    }

    /// The status recorded for `key`, if any.
    pub open spec fn status_of(self, key: RequestKeyView) -> Option<RequestStatusView> {
        if self.statuses.contains_key(key) {
            Some(self.statuses[key].status)
        } else {
            None
        }
    }

    /// The feedback that is shown, given whether a success message has
    /// outlived its display time.
    pub open spec fn shown_feedback(self, success_expired: bool) -> Option<RequestFeedbackView> {
        match self.feedback {
            Some(f) => if f.feedback.kind == RequestFeedbackKind::Success && success_expired {
                None
            } else {
                Some(f.feedback)
            },
            None => None,
        }
    }
}

/// The map from keys to statuses that a list of entries stands for.
spec fn entries_map(s: Seq<TrackedStatus>) -> Map<RequestKeyView, TrackedStatusView> {
    Map::new(
        |k: RequestKeyView| exists|i: int| 0 <= i < s.len() && (#[trigger] s[i]).key@ == k,
        |k: RequestKeyView|
            {
                let i = choose|i: int| 0 <= i < s.len() && (#[trigger] s[i]).key@ == k;
                TrackedStatusView { request_id: s[i].request_id, status: s[i].status@ }
            },
    )
}

/// No key occurs twice in the list.
spec fn distinct_keys(s: Seq<TrackedStatus>) -> bool {
    forall|i: int, j: int|
        0 <= i < s.len() && 0 <= j < s.len() && i != j ==> (#[trigger] s[i]).key@ != (#[trigger] s[j]).key@
}

proof fn lemma_entry_lookup(s: Seq<TrackedStatus>, i: int)
    requires
        distinct_keys(s),
        0 <= i < s.len(),
    ensures
        entries_map(s).contains_key(s[i].key@),
        entries_map(s)[s[i].key@] == (TrackedStatusView {
            request_id: s[i].request_id,
            status: s[i].status@,
        }),
{
    let k = s[i].key@;
    assert(exists|j: int| 0 <= j < s.len() && (#[trigger] s[j]).key@ == k);
    let j = choose|j: int| 0 <= j < s.len() && (#[trigger] s[j]).key@ == k;
    assert(j == i);
}

proof fn lemma_entry_absent(s: Seq<TrackedStatus>, k: RequestKeyView)
    requires
        forall|i: int| 0 <= i < s.len() ==> (#[trigger] s[i]).key@ != k,
    ensures
        !entries_map(s).contains_key(k),
{
}

proof fn lemma_entry_update(s: Seq<TrackedStatus>, i: int, e: TrackedStatus)
    requires
        distinct_keys(s),
        0 <= i < s.len(),
        e.key@ == s[i].key@,
    ensures
        distinct_keys(s.update(i, e)),
        entries_map(s.update(i, e)) == entries_map(s).insert(
            e.key@,
            TrackedStatusView { request_id: e.request_id, status: e.status@ },
        ),
{
    let t = s.update(i, e);
    assert(distinct_keys(t)) by {
        assert forall|a: int, b: int| 0 <= a < t.len() && 0 <= b < t.len() && a != b implies (
        #[trigger] t[a]).key@ != (#[trigger] t[b]).key@ by {
            assert(s[a].key@ != s[b].key@);
        }
    }
    let m = entries_map(s).insert(
        e.key@,
        TrackedStatusView { request_id: e.request_id, status: e.status@ },
    );
    assert forall|k: RequestKeyView| #[trigger] entries_map(t).contains_key(k) <==> m.contains_key(k) by {
        if m.contains_key(k) && k != e.key@ {
            let j = choose|j: int| 0 <= j < s.len() && (#[trigger] s[j]).key@ == k;
            assert(t[j].key@ == k);
        }
        if entries_map(t).contains_key(k) {
            let j = choose|j: int| 0 <= j < t.len() && (#[trigger] t[j]).key@ == k;
            if j != i {
                assert(s[j].key@ == k);
            }
        }
        if k == e.key@ {
            assert(t[i].key@ == k);
        }
    }
    assert forall|k: RequestKeyView| #[trigger] entries_map(t).contains_key(k) implies entries_map(t)[k]
        == m[k] by {
        let j = choose|j: int| 0 <= j < t.len() && (#[trigger] t[j]).key@ == k;
        lemma_entry_lookup(t, j);
        if j != i {
            lemma_entry_lookup(s, j);
        }
    }
    assert(entries_map(t) =~= m);
}

proof fn lemma_entry_push(s: Seq<TrackedStatus>, e: TrackedStatus)
    requires
        distinct_keys(s),
        forall|i: int| 0 <= i < s.len() ==> (#[trigger] s[i]).key@ != e.key@,
    ensures
        distinct_keys(s.push(e)),
        entries_map(s.push(e)) == entries_map(s).insert(
            e.key@,
            TrackedStatusView { request_id: e.request_id, status: e.status@ },
        ),
{
    let t = s.push(e);
    let n = s.len() as int;
    assert(distinct_keys(t)) by {
        assert forall|a: int, b: int| 0 <= a < t.len() && 0 <= b < t.len() && a != b implies (
        #[trigger] t[a]).key@ != (#[trigger] t[b]).key@ by {
            if a < n && b < n {
                assert(s[a].key@ != s[b].key@);
            } else if a < n {
                assert(s[a].key@ != e.key@);
            } else if b < n {
                assert(s[b].key@ != e.key@);
            }
        }
    }
    let m = entries_map(s).insert(
        e.key@,
        TrackedStatusView { request_id: e.request_id, status: e.status@ },
    );
    assert forall|k: RequestKeyView| #[trigger] entries_map(t).contains_key(k) <==> m.contains_key(k) by {
        if m.contains_key(k) && k != e.key@ {
            let j = choose|j: int| 0 <= j < s.len() && (#[trigger] s[j]).key@ == k;
            assert(t[j].key@ == k);
        }
        if entries_map(t).contains_key(k) {
            let j = choose|j: int| 0 <= j < t.len() && (#[trigger] t[j]).key@ == k;
            if j != n {
                assert(s[j].key@ == k);
            }
        }
        if k == e.key@ {
            assert(t[n].key@ == k);
        }
    }
    assert forall|k: RequestKeyView| #[trigger] entries_map(t).contains_key(k) implies entries_map(t)[k]
        == m[k] by {
        let j = choose|j: int| 0 <= j < t.len() && (#[trigger] t[j]).key@ == k;
        lemma_entry_lookup(t, j);
        if j != n {
            lemma_entry_lookup(s, j);
        }
    }
    assert(entries_map(t) =~= m);
}

proof fn lemma_entry_remove(s: Seq<TrackedStatus>, i: int)
    requires
        distinct_keys(s),
        0 <= i < s.len(),
    ensures
        distinct_keys(s.remove(i)),
        entries_map(s.remove(i)) == entries_map(s).remove(s[i].key@),
{
    let t = s.remove(i);
    let key = s[i].key@;
    assert(distinct_keys(t)) by {
        assert forall|a: int, b: int| 0 <= a < t.len() && 0 <= b < t.len() && a != b implies (
        #[trigger] t[a]).key@ != (#[trigger] t[b]).key@ by {
            let a2 = if a < i { a } else { a + 1 };
            let b2 = if b < i { b } else { b + 1 };
            assert(t[a] == s[a2]);
            assert(t[b] == s[b2]);
            assert(s[a2].key@ != s[b2].key@);
        }
    }
    let m = entries_map(s).remove(key);
    assert forall|k: RequestKeyView| #[trigger] entries_map(t).contains_key(k) <==> m.contains_key(k) by {
        if m.contains_key(k) {
            let j = choose|j: int| 0 <= j < s.len() && (#[trigger] s[j]).key@ == k;
            assert(j != i);
            let j2 = if j < i { j } else { j - 1 };
            assert(t[j2] == s[j]);
        }
        if entries_map(t).contains_key(k) {
            let j = choose|j: int| 0 <= j < t.len() && (#[trigger] t[j]).key@ == k;
            let j2 = if j < i { j } else { j + 1 };
            assert(t[j] == s[j2]);
            assert(s[j2].key@ == k);
            assert(j2 != i);
            assert(s[i].key@ != s[j2].key@);
        }
    }
    assert forall|k: RequestKeyView| #[trigger] entries_map(t).contains_key(k) implies entries_map(t)[k]
        == m[k] by {
        let j = choose|j: int| 0 <= j < t.len() && (#[trigger] t[j]).key@ == k;
        let j2 = if j < i { j } else { j + 1 };
        assert(t[j] == s[j2]);
        lemma_entry_lookup(t, j);
        lemma_entry_lookup(s, j2);
    }
    assert(entries_map(t) =~= m);
}

impl View for RequestTracker {
    type V = RequestTrackerView;

    closed spec fn view(&self) -> RequestTrackerView {
        RequestTrackerView {
            next_id: self.next_id,
            statuses: entries_map(self.statuses@),
            feedback: match self.feedback {
                Some(f) => Some(
                    TrackedFeedbackView { request_id: f.request_id, feedback: f.feedback@ },
                ),
                None => None,
            },
        }
    }
}

impl Default for RequestTracker {
    fn default() -> (r: Self)
        ensures
            r.wf(),
            r@.next_id == 0,
            r@.statuses == Map::<RequestKeyView, TrackedStatusView>::empty(),
            r@.feedback is None,
    {
        let r = RequestTracker { next_id: 0, statuses: Vec::new(), feedback: None };
        assert(r@.statuses =~= Map::<RequestKeyView, TrackedStatusView>::empty());
        r
    }
}

impl RequestTracker {
    /// The tracker's internal consistency: each key is recorded once.
    pub closed spec fn wf(&self) -> bool {
        distinct_keys(self.statuses@)
    }

    /// The index of the entry for `key`, if there is one.
    fn find_entry(&self, key: &RequestKey) -> (r: Option<usize>)
        requires
            self.wf(),
        ensures
            match r {
                Some(i) => i < self.statuses.len() && self.statuses@[i as int].key@ == key@,
                None => forall|i: int|
                    0 <= i < self.statuses.len() ==> (#[trigger] self.statuses@[i]).key@ != key@,
            },
    {
        let mut i: usize = 0;
        while i < self.statuses.len()
            invariant
                i <= self.statuses.len(),
                forall|j: int| 0 <= j < i ==> (#[trigger] self.statuses@[j]).key@ != key@,
            decreases self.statuses.len() - i,
        {
            if self.statuses[i].key.same_as(key) {
                return Some(i);
            }
            i = i + 1;
        }
        None
    }

    /// Sets the entry for `key` to `request_id` and `status`, adding it if
    /// the key has none.
    fn record(&mut self, key: RequestKey, request_id: u64, status: RequestStatus)
        requires
            old(self).wf(),
        ensures
            final(self).wf(),
            final(self)@ == (RequestTrackerView {
                statuses: old(self)@.statuses.insert(
                    key@,
                    TrackedStatusView { request_id, status: status@ },
                ),
                ..old(self)@
            }),
    {
        let found = self.find_entry(&key);
        let entry = TrackedStatus { key, request_id, status };
        proof {
            match found {
                Some(i) => lemma_entry_update(self.statuses@, i as int, entry),
                None => lemma_entry_push(self.statuses@, entry),
            }
        }
        match found {
            Some(i) => {
                self.statuses.set(i, entry);
            },
            None => {
                self.statuses.push(entry);
            },
        }
    }

    /// Begins a request: gives it a fresh id, marks its key as loading and
    /// shows its operation's pending message.
    pub fn begin(&mut self, metadata: RequestMetadata) -> (token: RequestToken)
        requires
            old(self).wf(),
        ensures
            final(self).wf(),
            token@ == (RequestTokenView {
                id: successor_id(old(self)@.next_id),
                key: key_view(metadata.key),
                operation: operation_view(metadata.operation),
            }),
            final(self)@ == old(self)@.after_begin(
                key_view(metadata.key),
                operation_view(metadata.operation),
            ),
    {
        self.next_id = self.next_id.wrapping_add(1);
        let id = self.next_id;
        let key = match &metadata.key {
            Some(k) => Some(k.duplicate()),
            None => None,
        };
        match key {
            Some(k) => {
                self.record(k, id, RequestStatus::Loading);
            },
            None => {},
        }
        match &metadata.operation {
            Some(operation) => {
                self.feedback = Some(
                    TrackedFeedback {
                        request_id: id,
                        feedback: RequestFeedback {
                            kind: RequestFeedbackKind::Pending,
                            message: operation.pending.clone(),
                        },
                        updated_at: clock::now(),
                    },
                );
            },
            None => {},
        }
        let token = RequestToken { id, key: metadata.key, operation: metadata.operation };
        proof {
            let v = self@;
            let w = old(self)@.after_begin(
                key_view(token.key),
                operation_view(token.operation),
            );
            assert(v.statuses =~= w.statuses);
        }
        token
    }

    /// Records `status` for the token's key, if the token is the latest
    /// request begun on it.
    fn update_status(&mut self, token: &RequestToken, status: RequestStatus)
        requires
            old(self).wf(),
        ensures
            final(self).wf(),
            final(self)@ == old(self)@.with_status(token@, status@),
    {
        match &token.key {
            Some(key) => {
                match self.find_entry(key) {
                    Some(i) => {
                        proof {
                            lemma_entry_lookup(self.statuses@, i as int);
                        }
                        if self.statuses[i].request_id == token.id {
                            self.record(key.duplicate(), token.id, status);
                        }
                    },
                    None => {
                        proof {
                            lemma_entry_absent(self.statuses@, key@);
                        }
                    },
                }
            },
            None => {},
        }
    }

    /// Replaces the feedback with `kind` and `message`, if the token owns it.
    fn update_feedback(&mut self, token: &RequestToken, kind: RequestFeedbackKind, message: String)
        requires
            old(self).wf(),
        ensures
            final(self).wf(),
            final(self)@ == old(self)@.with_feedback(token@, kind, message@),
    {
        let owned = match &self.feedback {
            Some(entry) => entry.request_id == token.id,
            None => false,
        };
        if owned {
            self.feedback = Some(
                TrackedFeedback {
                    request_id: token.id,
                    feedback: RequestFeedback { kind, message },
                    updated_at: clock::now(),
                },
            );
        }
    }

    /// Completes `token` successfully.
    pub fn succeed(&mut self, token: &RequestToken)
        requires
            old(self).wf(),
        ensures
            final(self).wf(),
            final(self)@ == old(self)@.after_success(token@),
    {
        self.update_status(token, RequestStatus::Succeeded);
        match &token.operation {
            Some(operation) => {
                self.update_feedback(token, RequestFeedbackKind::Success, operation.success.clone());
            },
            None => {},
        }
    }

    /// Completes `token` with a failure described by `error`.
    pub fn fail(&mut self, token: &RequestToken, error: &str)
        requires
            old(self).wf(),
        ensures
            final(self).wf(),
            final(self)@ == old(self)@.after_failure(token@, error@),
    {
        self.update_status(token, RequestStatus::Failed(String::from_str(error)));
        match &token.operation {
            Some(operation) => {
                let mut message = operation.failure.clone();
                message.append(": ");
                message.append(error);
                message.append(". See Logs for details.");
                self.update_feedback(token, RequestFeedbackKind::Error, message);
            },
            None => {},
        }
    }

    /// The status recorded for `key`, if any.
    pub fn status(&self, key: &RequestKey) -> (r: Option<&RequestStatus>)
        requires
            self.wf(),
        ensures
            match r {
                Some(s) => self@.status_of(key@) == Some(s@),
                None => self@.status_of(key@) is None,
            },
    {
        match self.find_entry(key) {
            Some(i) => {
                proof {
                    lemma_entry_lookup(self.statuses@, i as int);
                }
                Some(&self.statuses[i].status)
            },
            None => {
                proof {
                    lemma_entry_absent(self.statuses@, key@);
                }
                None
            },
        }
    }

    /// Whether the latest request on `key` is still loading.
    pub fn is_loading(&self, key: &RequestKey) -> (r: bool)
        requires
            self.wf(),
        ensures
            r == (self@.status_of(key@) == Some(RequestStatusView::Loading)),
    {
        match self.status(key) {
            Some(RequestStatus::Loading) => true,
            _ => false,
        }
    }

    /// Forgets the status of `key`.
    pub fn clear_status(&mut self, key: &RequestKey)
        requires
            old(self).wf(),
        ensures
            final(self).wf(),
            final(self)@ == (RequestTrackerView {
                statuses: old(self)@.statuses.remove(key@),
                ..old(self)@
            }),
    {
        match self.find_entry(key) {
            Some(i) => {
                proof {
                    lemma_entry_remove(self.statuses@, i as int);
                }
                self.statuses.remove(i);
            },
            None => {
                proof {
                    lemma_entry_absent(self.statuses@, key@);
                    assert(self@.statuses.remove(key@) =~= self@.statuses);
                }
            },
        }
    }

    /// The feedback to show, given whether a success message has outlived its
    /// display time.
    pub fn visible_feedback_given(&self, success_expired: bool) -> (r: Option<RequestFeedback>)
        ensures
            match r {
                Some(f) => self@.shown_feedback(success_expired) == Some(f@),
                None => self@.shown_feedback(success_expired) is None,
            },
    {
        match &self.feedback {
            Some(entry) => {
                if success_expired && entry.feedback.kind == RequestFeedbackKind::Success {
                    None
                } else {
                    Some(entry.feedback.duplicate())
                }
            },
            None => None,
        }
    }

    /// The feedback to show now: success messages disappear once they are
    /// older than [`SUCCESS_FEEDBACK_NANOS`].
    pub fn visible_feedback(&self) -> (r: Option<RequestFeedback>)
        ensures
            self@.feedback is None ==> r is None,
            match self@.feedback {
                Some(f) => f.feedback.kind != RequestFeedbackKind::Success ==> (r matches Some(g)
                    && g@ == f.feedback),
                None => true,
            },
            r matches Some(g) ==> (self@.feedback matches Some(f) && g@ == f.feedback),
    {
        match &self.feedback {
            Some(entry) => self.visible_feedback_after(clock::elapsed_nanos(&entry.updated_at)),
            None => None,
        }
    }

    /// The feedback to show `elapsed_nanos` nanoseconds after it was last
    /// set: a success message only while that is at most
    /// [`SUCCESS_FEEDBACK_NANOS`], other feedback always.
    pub fn visible_feedback_after(&self, elapsed_nanos: u128) -> (r: Option<RequestFeedback>)
        ensures
            match r {
                Some(f) => self@.shown_feedback(success_expired_after(self@, elapsed_nanos)) == Some(f@),
                None => self@.shown_feedback(success_expired_after(self@, elapsed_nanos)) is None,
            },
    {
        let expired = match &self.feedback {
            Some(entry) => entry.feedback.kind == RequestFeedbackKind::Success && elapsed_nanos
                > SUCCESS_FEEDBACK_NANOS,
            None => false,
        };
        self.visible_feedback_given(expired)
    }
}


/// Whether the feedback of `v` is a success message that has outlived its
/// display time, `elapsed_nanos` after it was set.
pub open spec fn success_expired_after(v: RequestTrackerView, elapsed_nanos: u128) -> bool {
    v.feedback matches Some(f) && f.feedback.kind == RequestFeedbackKind::Success && elapsed_nanos
        > SUCCESS_FEEDBACK_NANOS
}

/// The token that [`RequestTracker::begin`] hands out in state `v`.
pub open spec fn next_token(
    v: RequestTrackerView,
    key: Option<RequestKeyView>,
    operation: Option<RequestOperationView>,
) -> RequestTokenView {
    RequestTokenView { id: successor_id(v.next_id), key, operation }
}

/// Beginning a request on a key marks that key as loading and leaves every
/// other key's status as it was.
pub proof fn law_begin_marks_loading(
    v: RequestTrackerView,
    key: RequestKeyView,
    operation: Option<RequestOperationView>,
    other: RequestKeyView,
)
    ensures
        v.after_begin(Some(key), operation).status_of(key) == Some(RequestStatusView::Loading),
        other != key ==> v.after_begin(Some(key), operation).status_of(other) == v.status_of(other),
{
}

/// When two requests on the same key are in flight, the older one's
/// completion, successful or not, cannot replace the status of the newer one;
/// the newer one's completion can.
pub proof fn law_older_completion_cannot_replace_newer(
    v: RequestTrackerView,
    key: RequestKeyView,
    first_op: Option<RequestOperationView>,
    second_op: Option<RequestOperationView>,
    error: Seq<char>,
)
    ensures
        ({
            let older = next_token(v, Some(key), first_op);
            let v1 = v.after_begin(Some(key), first_op);
            let newer = next_token(v1, Some(key), second_op);
            let v2 = v1.after_begin(Some(key), second_op);
            &&& v2.after_failure(older, error).status_of(key) == Some(RequestStatusView::Loading)
            &&& v2.after_success(older).status_of(key) == Some(RequestStatusView::Loading)
            &&& v2.after_failure(older, error).after_success(newer).status_of(key) == Some(
                RequestStatusView::Succeeded,
            )
        }),
{
}

/// The completion of the latest request on a key records its outcome.
pub proof fn law_latest_completion_applies(
    v: RequestTrackerView,
    key: RequestKeyView,
    operation: Option<RequestOperationView>,
    error: Seq<char>,
)
    ensures
        ({
            let t = next_token(v, Some(key), operation);
            let v1 = v.after_begin(Some(key), operation);
            &&& v1.after_success(t).status_of(key) == Some(RequestStatusView::Succeeded)
            &&& v1.after_failure(t, error).status_of(key) == Some(RequestStatusView::Failed(error))
        }),
{
}

/// An operation's feedback goes from its pending message to its success
/// message, or to an error message that quotes the error; only a success
/// message ever disappears with time.
pub proof fn law_operation_feedback(
    v: RequestTrackerView,
    key: Option<RequestKeyView>,
    op: RequestOperationView,
    error: Seq<char>,
    success_expired: bool,
)
    ensures
        ({
            let t = next_token(v, key, Some(op));
            let v1 = v.after_begin(key, Some(op));
            &&& v1.shown_feedback(success_expired) == Some(
                RequestFeedbackView { kind: RequestFeedbackKind::Pending, message: op.pending },
            )
            &&& v1.after_failure(t, error).shown_feedback(success_expired) == Some(
                RequestFeedbackView {
                    kind: RequestFeedbackKind::Error,
                    message: failure_message(op.failure, error),
                },
            )
            &&& v1.after_success(t).shown_feedback(false) == Some(
                RequestFeedbackView { kind: RequestFeedbackKind::Success, message: op.success },
            )
            &&& v1.after_success(t).shown_feedback(true) is None
        }),
{
}

/// A failure message contains the error it reports.
pub proof fn law_failure_message_quotes_error(failure: Seq<char>, error: Seq<char>)
    ensures
        ({
            let m = failure_message(failure, error);
            let start: int = failure.len() as int + ": "@.len() as int;
            m.subrange(start, start + error.len()) == error
        }),
{
    let m = failure_message(failure, error);
    let start: int = failure.len() as int + ": "@.len() as int;
    assert(m.subrange(start, start + error.len()) =~= error);
}

/// Clearing a key's status forgets it and nothing else.
pub proof fn law_clear_forgets_only_that_key(
    v: RequestTrackerView,
    key: RequestKeyView,
    other: RequestKeyView,
)
    ensures
        (RequestTrackerView { statuses: v.statuses.remove(key), ..v }).status_of(key) is None,
        other != key ==> (RequestTrackerView { statuses: v.statuses.remove(key), ..v }).status_of(
            other,
        ) == v.status_of(other),
{
}

/// A call on a tracker, as its effect on the tracker's state is stated:
/// `begin` with a key and operation, `succeed` or `fail` with a token,
/// `clear_status` with a key.
pub enum TrackerCall {
    Begin(Option<RequestKeyView>, Option<RequestOperationView>),
    Succeed(RequestTokenView),
    Fail(RequestTokenView, Seq<char>),
    Clear(RequestKeyView),
}

/// The state after `call` (see the `ensures` of the tracker's methods).
pub open spec fn after_call(v: RequestTrackerView, call: TrackerCall) -> RequestTrackerView {
    match call {
        TrackerCall::Begin(key, operation) => v.after_begin(key, operation),
        TrackerCall::Succeed(t) => v.after_success(t),
        TrackerCall::Fail(t, error) => v.after_failure(t, error),
        TrackerCall::Clear(key) => RequestTrackerView { statuses: v.statuses.remove(key), ..v },
    }
}

/// The state after the calls `calls`, in order, from `v`.
pub open spec fn after_calls(v: RequestTrackerView, calls: Seq<TrackerCall>) -> RequestTrackerView
    decreases calls.len(),
{
    if calls.len() == 0 {
        v
    } else {
        after_call(after_calls(v, calls.drop_last()), calls.last())
    }
}

/// The token the call at position `j` of `calls` hands out, when it is a
/// `begin`.
pub open spec fn token_of_call(v: RequestTrackerView, calls: Seq<TrackerCall>, j: int) -> RequestTokenView {
    match calls[j] {
        TrackerCall::Begin(key, operation) => next_token(after_calls(v, calls.take(j)), key, operation),
        _ => RequestTokenView { id: 0, key: None, operation: None },
    }
}

/// Ids are handed out from `v` by `calls` without wrapping around.
pub open spec fn ids_do_not_wrap(v: RequestTrackerView, calls: Seq<TrackerCall>) -> bool {
    v.next_id + calls.len() < u64::MAX
}

/// The id counter only grows, by at most one per call, without wrapping.
proof fn lemma_next_id_grows(v: RequestTrackerView, calls: Seq<TrackerCall>, a: int, b: int)
    requires
        ids_do_not_wrap(v, calls),
        0 <= a <= b <= calls.len(),
    ensures
        after_calls(v, calls.take(a)).next_id <= after_calls(v, calls.take(b)).next_id,
        after_calls(v, calls.take(b)).next_id <= v.next_id + b,
        v.next_id <= after_calls(v, calls.take(b)).next_id,
    decreases b,
{
    if b == 0 {
        assert(calls.take(0) =~= Seq::<TrackerCall>::empty());
        assert(calls.take(a) =~= Seq::<TrackerCall>::empty());
    } else {
        assert(calls.take(b).drop_last() =~= calls.take(b - 1));
        lemma_next_id_grows(v, calls, if a == b { b - 1 } else { a }, b - 1);
    }
}

/// Once a request on `k` begins at position `m`, the id recorded for `k`,
/// if any, is at least that request's id; once a request with an operation
/// begins at `m`, the feedback's owner is at least that request.
proof fn lemma_newer_ids_stay(v: RequestTrackerView, calls: Seq<TrackerCall>, m: int, n: int)
    requires
        ids_do_not_wrap(v, calls),
        0 <= m < n <= calls.len(),
        calls[m] is Begin,
    ensures
        ({
            let id = token_of_call(v, calls, m).id;
            let w = after_calls(v, calls.take(n));
            &&& (calls[m] matches TrackerCall::Begin(Some(k), _) ==> (w.statuses.contains_key(k)
                ==> w.statuses[k].request_id >= id))
            &&& (calls[m] matches TrackerCall::Begin(_, Some(_)) ==> (w.feedback matches Some(f)
                && f.request_id >= id))
        }),
    decreases n,
{
    let id = token_of_call(v, calls, m).id;
    assert(calls.take(n).drop_last() =~= calls.take(n - 1));
    assert(calls.take(n).last() == calls[n - 1]);
    lemma_next_id_grows(v, calls, m, n - 1);
    if n == m + 1 {
    } else {
        lemma_newer_ids_stay(v, calls, m, n - 1);
        lemma_next_id_grows(v, calls, m + 1, n - 1);
        assert(calls.take(m + 1).drop_last() =~= calls.take(m));
    }
}

/// A request begun earlier has a smaller id than one begun later.
proof fn lemma_stale_id_is_older(v: RequestTrackerView, calls: Seq<TrackerCall>, j: int, m: int)
    requires
        ids_do_not_wrap(v, calls),
        0 <= j < m < calls.len(),
        calls[j] is Begin,
        calls[m] is Begin,
    ensures
        token_of_call(v, calls, j).id < token_of_call(v, calls, m).id,
{
    assert(calls.take(j + 1).drop_last() =~= calls.take(j));
    assert(calls.take(j + 1).last() == calls[j]);
    lemma_next_id_grows(v, calls, j, j);
    lemma_next_id_grows(v, calls, j + 1, m);
    assert(after_calls(v, calls.take(j + 1)).next_id == token_of_call(v, calls, j).id);
}

/// Over any sequence of calls, the completion of a request on a key is
/// ignored in that key's status once a newer request on the same key has
/// begun: a stale request never writes a status (while ids do not wrap).
pub proof fn law_stale_completion_keeps_statuses(
    v: RequestTrackerView,
    calls: Seq<TrackerCall>,
    j: int,
    m: int,
    error: Seq<char>,
)
    requires
        ids_do_not_wrap(v, calls),
        0 <= j < m < calls.len(),
        calls[j] matches TrackerCall::Begin(Some(k), _) && calls[m] matches TrackerCall::Begin(Some(k2), _)
            && k == k2,
    ensures
        ({
            let w = after_calls(v, calls);
            let t = token_of_call(v, calls, j);
            &&& w.after_success(t).statuses == w.statuses
            &&& w.after_failure(t, error).statuses == w.statuses
        }),
{
    lemma_stale_id_is_older(v, calls, j, m);
    assert(calls.take(calls.len() as int) =~= calls);
    lemma_newer_ids_stay(v, calls, m, calls.len() as int);
}

/// Over any sequence of calls, feedback set by a newer operation cannot be
/// replaced by the completion of an older one (while ids do not wrap).
pub proof fn law_stale_completion_keeps_feedback(
    v: RequestTrackerView,
    calls: Seq<TrackerCall>,
    j: int,
    m: int,
    error: Seq<char>,
)
    requires
        ids_do_not_wrap(v, calls),
        0 <= j < m < calls.len(),
        calls[j] matches TrackerCall::Begin(_, Some(_)),
        calls[m] matches TrackerCall::Begin(_, Some(_)),
    ensures
        ({
            let w = after_calls(v, calls);
            let t = token_of_call(v, calls, j);
            &&& w.after_success(t).feedback == w.feedback
            &&& w.after_failure(t, error).feedback == w.feedback
        }),
{
    lemma_stale_id_is_older(v, calls, j, m);
    assert(calls.take(calls.len() as int) =~= calls);
    lemma_newer_ids_stay(v, calls, m, calls.len() as int);
}

/// The calls after position `j` neither begin a request on `k`, nor clear
/// `k`, nor complete a request with id `id`.
pub open spec fn leaves_request_alone(calls: Seq<TrackerCall>, j: int, k: RequestKeyView, id: u64) -> bool {
    forall|i: int|
        j < i < calls.len() ==> match #[trigger] calls[i] {
            TrackerCall::Begin(key, _) => key != Some(k),
            TrackerCall::Clear(key) => key != k,
            TrackerCall::Succeed(t) => t.id != id,
            TrackerCall::Fail(t, _) => t.id != id,
        }
}

/// A key stays loading from the `begin` of a request on it until that
/// request completes, the key is cleared, or a newer request on it begins.
pub proof fn law_loading_until_completed(v: RequestTrackerView, calls: Seq<TrackerCall>, j: int, n: int)
    requires
        0 <= j < n <= calls.len(),
        calls[j] matches TrackerCall::Begin(Some(k), _) && leaves_request_alone(
            calls,
            j,
            k,
            token_of_call(v, calls, j).id,
        ),
    ensures
        calls[j] matches TrackerCall::Begin(Some(k), _) && after_calls(v, calls.take(n)).statuses.contains_key(k)
            && after_calls(v, calls.take(n)).statuses[k] == (TrackedStatusView {
            request_id: token_of_call(v, calls, j).id,
            status: RequestStatusView::Loading,
        }) && after_calls(v, calls.take(n)).status_of(k) == Some(RequestStatusView::Loading),
    decreases n,
{
    assert(calls.take(n).drop_last() =~= calls.take(n - 1));
    assert(calls.take(n).last() == calls[n - 1]);
    if n > j + 1 {
        law_loading_until_completed(v, calls, j, n - 1);
    }
}

/// Over any sequence of calls, the completion of the latest request on a
/// key, when the key was neither cleared nor begun again since, records
/// its outcome: the key is then no longer loading.
pub proof fn law_latest_completion_applies_in_history(
    v: RequestTrackerView,
    calls: Seq<TrackerCall>,
    j: int,
    m: int,
)
    requires
        0 <= j < m < calls.len(),
        calls[j] matches TrackerCall::Begin(Some(k), _) && leaves_request_alone(
            calls.take(m),
            j,
            k,
            token_of_call(v, calls, j).id,
        ),
        calls[m] == TrackerCall::Succeed(token_of_call(v, calls, j)) || exists|e: Seq<char>|
            calls[m] == TrackerCall::Fail(token_of_call(v, calls, j), e),
    ensures
        calls[j] matches TrackerCall::Begin(Some(k), _) && match calls[m] {
            TrackerCall::Succeed(_) => after_calls(v, calls.take(m + 1)).status_of(k) == Some(
                RequestStatusView::Succeeded,
            ),
            TrackerCall::Fail(_, e) => after_calls(v, calls.take(m + 1)).status_of(k) == Some(
                RequestStatusView::Failed(e),
            ),
            _ => false,
        },
{
    let prefix = calls.take(m);
    assert forall|i: int| 0 <= i <= j implies #[trigger] prefix[i] == calls[i] by {}
    assert(prefix.take(j) =~= calls.take(j));
    assert(token_of_call(v, prefix, j) == token_of_call(v, calls, j));
    law_loading_until_completed(v, prefix, j, m);
    assert(prefix.take(m) =~= prefix);
    assert(calls.take(m + 1).drop_last() =~= prefix);
    assert(calls.take(m + 1).last() == calls[m]);
}

} // verus!
