//! Bookkeeping for Web API requests: identical GET requests made within a
//! short window share one response, and a rate-limited answer holds every
//! later GET back until its Retry-After deadline has passed.
//!
//! Times are milliseconds on a monotonic clock.

use vstd::prelude::*;

use crate::clock::{elapsed_nanos, now};

verus! {

/// How long a finished GET keeps answering identical requests, in ms.
pub const GET_DEDUPLICATION_WINDOW_MS: u64 = 1000;

/// What is added to every Retry-After delay, in ms.
pub const RETRY_AFTER_MARGIN_MS: u64 = 1000;

/// The status of a rate-limited response.
pub const TOO_MANY_REQUESTS: u16 = 429;

/// A GET request that identical requests may share.
pub struct RecentGet {
    /// The request's key (its URL).
    pub key: String,
    /// When its result was published, if it was.
    pub completed_at: Option<u64>,
    /// Whether the request that leads it still runs.
    pub leader_alive: bool,
}

/// A recent GET, in specifications.
pub struct GetEntry {
    pub key: Seq<char>,
    pub completed_at: Option<u64>,
    pub leader_alive: bool,
}

impl View for RecentGet {
    type V = GetEntry;

    open spec fn view(&self) -> GetEntry {
        GetEntry {
            key: self.key@,
            completed_at: self.completed_at,
            leader_alive: self.leader_alive,
        }
    }
}

impl RecentGet {
    fn duplicate(&self) -> (r: RecentGet)
        ensures
            r@ == self@,
    {
        RecentGet {
            key: self.key.clone(),
            completed_at: self.completed_at,
            leader_alive: self.leader_alive,
        }
    }
}

/// The time from `t` to `now`, or zero where `now` is earlier.
pub open spec fn elapsed_since(now: u64, t: u64) -> int {
    if t <= now {
        now - t
    } else {
        0
    }
}

/// Whether `e` still answers identical requests at `now`: a finished one for
/// the deduplication window after it finished, an unfinished one while its
/// leader runs.
pub open spec fn still_recent(e: GetEntry, now: u64) -> bool {
    match e.completed_at {
        Some(t) => elapsed_since(now, t) < GET_DEDUPLICATION_WINDOW_MS,
        None => e.leader_alive,
    }
}

/// The entries of `s` that are still recent at `now`, in order.
pub open spec fn recent_entries(s: Seq<GetEntry>, now: u64) -> Seq<GetEntry>
    decreases s.len(),
{
    if s.len() == 0 {
        s
    } else {
        let rest = recent_entries(s.drop_last(), now);
        if still_recent(s.last(), now) {
            rest.push(s.last())
        } else {
            rest
        }
    }
}

/// Some entry of `s` has `key`.
pub open spec fn has_key(s: Seq<GetEntry>, key: Seq<char>) -> bool {
    exists|i: int| 0 <= i < s.len() && (#[trigger] s[i]).key == key
}

/// No key occurs twice in `s`.
pub open spec fn keys_distinct(s: Seq<GetEntry>) -> bool {
    forall|i: int, j: int|
        0 <= i < s.len() && 0 <= j < s.len() && i != j ==> (#[trigger] s[i]).key != (#[trigger] s[j]).key
}

/// The entry of a request that has just started to lead.
pub open spec fn leading(key: Seq<char>) -> GetEntry {
    GetEntry { key, completed_at: None, leader_alive: true }
}

/// `s` with the request for `key` published at `at`.
pub open spec fn finish_entry(s: Seq<GetEntry>, key: Seq<char>, at: u64) -> Seq<GetEntry> {
    s.map_values(
        |e: GetEntry|
            if e.key == key {
                GetEntry { key: e.key, completed_at: Some(at), leader_alive: e.leader_alive }
            } else {
                e
            },
    )
}

/// `s` with the unfinished request for `key` given up by its leader.
pub open spec fn abandon_entry(s: Seq<GetEntry>, key: Seq<char>) -> Seq<GetEntry> {
    s.map_values(
        |e: GetEntry|
            if e.key == key && e.completed_at is None {
                GetEntry { key: e.key, completed_at: None, leader_alive: false }
            } else {
                e
            },
    )
}

/// How a GET takes part in deduplication.
#[derive(Debug, Clone, Copy, PartialEq, Eq, Structural)]
pub enum GetRegistration {
    /// It makes the request and publishes the result.
    Leader,
    /// It waits for the result of an identical recent request.
    Shared,
}

/// What registering `key` at `now` does: the entries that are no longer
/// recent are dropped; the request shares a recent one with its key, or else
/// leads and is added at the end.
pub open spec fn registration(
    before: Seq<GetEntry>,
    key: Seq<char>,
    now: u64,
    r: GetRegistration,
    after: Seq<GetEntry>,
) -> bool {
    let kept = recent_entries(before, now);
    &&& (r == GetRegistration::Shared) == has_key(kept, key)
    &&& r == GetRegistration::Shared ==> after == kept
    &&& r == GetRegistration::Leader ==> after == kept.push(leading(key))
}

/// Every entry of `recent_entries(s, now)` is an entry of `s` that is recent
/// at `now`, and an entry of `s` recent at `now` is kept.
pub proof fn lemma_recent_entries(s: Seq<GetEntry>, now: u64)
    ensures
        forall|i: int|
            0 <= i < recent_entries(s, now).len() ==> still_recent(
                #[trigger] recent_entries(s, now)[i],
                now,
            ) && s.contains(recent_entries(s, now)[i]),
        forall|i: int|
            0 <= i < s.len() && still_recent(#[trigger] s[i], now) ==> recent_entries(
                s,
                now,
            ).contains(s[i]),
        keys_distinct(s) ==> keys_distinct(recent_entries(s, now)),
    decreases s.len(),
{
    if s.len() > 0 {
        let d = s.drop_last();
        lemma_recent_entries(d, now);
        let rest = recent_entries(d, now);
        let k = recent_entries(s, now);
        assert forall|i: int| 0 <= i < k.len() implies still_recent(#[trigger] k[i], now) && s.contains(
            k[i],
        ) by {
            if i < rest.len() {
                assert(k[i] == rest[i]);
                let j = choose|j: int| 0 <= j < d.len() && d[j] == rest[i];
                assert(s[j] == d[j]);
            } else {
                assert(k[i] == s.last());
                assert(s[s.len() - 1] == s.last());
            }
        }
        assert forall|i: int| 0 <= i < s.len() && still_recent(#[trigger] s[i], now) implies k.contains(
            s[i],
        ) by {
            if i < s.len() - 1 {
                assert(d[i] == s[i]);
                let j = choose|j: int| 0 <= j < rest.len() && rest[j] == d[i];
                assert(k[j] == rest[j]);
            } else {
                assert(k[k.len() - 1] == s.last());
            }
        }
        if keys_distinct(s) {
            assert(keys_distinct(d)) by {
                assert forall|i: int, j: int|
                    0 <= i < d.len() && 0 <= j < d.len() && i != j implies (#[trigger] d[i]).key != (
                    #[trigger] d[j]).key by {
                    assert(d[i] == s[i] && d[j] == s[j]);
                }
            }
            if still_recent(s.last(), now) {
                assert forall|i: int, j: int|
                    0 <= i < k.len() && 0 <= j < k.len() && i != j implies (#[trigger] k[i]).key != (
                    #[trigger] k[j]).key by {
                    if i < rest.len() && j < rest.len() {
                        assert(k[i] == rest[i] && k[j] == rest[j]);
                    } else if i < rest.len() {
                        assert(k[i] == rest[i]);
                        let m = choose|m: int| 0 <= m < d.len() && d[m] == rest[i];
                        assert(s[m] == d[m]);
                        assert(k[j] == s[s.len() - 1]);
                    } else {
                        assert(k[j] == rest[j]);
                        let m = choose|m: int| 0 <= m < d.len() && d[m] == rest[j];
                        assert(s[m] == d[m]);
                        assert(k[i] == s[s.len() - 1]);
                    }
                }
            }
        }
    }
}

/// The keys of `recent_entries(s, now)` are those of the entries of `s`
/// recent at `now`.
pub proof fn lemma_recent_has_key(s: Seq<GetEntry>, now: u64, key: Seq<char>)
    ensures
        has_key(recent_entries(s, now), key) <==> exists|i: int|
            0 <= i < s.len() && (#[trigger] s[i]).key == key && still_recent(s[i], now),
{
    lemma_recent_entries(s, now);
    let k = recent_entries(s, now);
    if has_key(k, key) {
        let i = choose|i: int| 0 <= i < k.len() && (#[trigger] k[i]).key == key;
        assert(still_recent(k[i], now));
        let j = choose|j: int| 0 <= j < s.len() && s[j] == k[i];
        assert(s[j].key == key && still_recent(s[j], now));
    }
    if exists|i: int| 0 <= i < s.len() && (#[trigger] s[i]).key == key && still_recent(s[i], now) {
        let i = choose|i: int| 0 <= i < s.len() && (#[trigger] s[i]).key == key && still_recent(s[i], now);
        assert(k.contains(s[i]));
        let j = choose|j: int| 0 <= j < k.len() && k[j] == s[i];
        assert(k[j].key == key);
    }
}

/// The deadline that a Retry-After of `retry_after_secs` seconds, seen at
/// `now`, sets: the delay and the margin after `now`.
pub open spec fn retry_deadline(now: u64, retry_after_secs: u64) -> int {
    now + retry_after_secs * 1000 + RETRY_AFTER_MARGIN_MS
}

/// The deadline kept after `deadline` is stored over `current`: the later of
/// the two.
pub open spec fn later_deadline(current: Option<u64>, deadline: u64) -> Option<u64> {
    match current {
        Some(c) => if deadline <= c {
            Some(c)
        } else {
            Some(deadline)
        },
        None => Some(deadline),
    }
}

/// The deadline after a response with `status` and `retry_after_secs` seen
/// at `now` was recorded over `current`: a rate-limited response with a valid
/// Retry-After whose deadline fits the clock stores it; anything else leaves
/// `current`.
pub open spec fn observed_deadline(
    current: Option<u64>,
    status: u16,
    retry_after_secs: Option<u64>,
    now: u64,
) -> Option<u64> {
    match retry_after_secs {
        Some(s) => if status == TOO_MANY_REQUESTS && retry_deadline(now, s) <= u64::MAX {
            later_deadline(current, retry_deadline(now, s) as u64)
        } else {
            current
        },
        None => current,
    }
}

/// How long GETs are still held back at `now` by `until`, in ms.
pub open spec fn remaining_at(until: Option<u64>, now: u64) -> Option<u64> {
    match until {
        Some(d) => Some(elapsed_since(d, now) as u64),
        None => None,
    }
}

/// One step of waiting at `now` for the deadline `until`: `wait` is how long
/// to sleep and `after` the deadline left; a passed deadline is cleared.
pub open spec fn wait_step(until: Option<u64>, now: u64, wait: Option<u64>, after: Option<u64>) -> bool {
    match until {
        Some(d) => if d > now {
            wait == Some((d - now) as u64) && after == Some(d)
        } else {
            wait is None && after is None
        },
        None => wait is None && after is None,
    }
}

/// Storing the Retry-After of `retry_after_secs` seconds seen at `now` over
/// `current` gives `after`, and `stored` says whether it was stored: only a
/// deadline that fits the clock is.
pub open spec fn stored_retry_after(
    current: Option<u64>,
    now: u64,
    retry_after_secs: u64,
    stored: bool,
    after: Option<u64>,
) -> bool {
    if retry_deadline(now, retry_after_secs) <= u64::MAX {
        stored && after == later_deadline(current, retry_deadline(now, retry_after_secs) as u64)
    } else {
        !stored && after == current
    }
}

/// Whether a GET answered with `status` and `retry_after_secs` on attempt
/// `attempt` (counted from zero) is handed back rather than tried again: it
/// is, unless it was rate limited with a valid Retry-After and attempts are
/// left.
pub open spec fn delivers(
    status: u16,
    retry_after_secs: Option<u64>,
    attempt: int,
    max_retries: int,
) -> bool {
    status != TOO_MANY_REQUESTS || retry_after_secs is None || attempt == max_retries
}

/// What happens after a GET attempt.
#[derive(Debug, Clone, Copy, PartialEq, Eq, Structural)]
pub enum GetAttempt {
    /// The response is handed back.
    Deliver,
    /// The request is made again once the Retry-After deadline has passed.
    Retry,
}

/// How the request layer treats a request.
#[derive(Debug, Clone, Copy, PartialEq, Eq, Structural)]
pub enum RequestPlan {
    /// Not a Web API request: sent as it is.
    PassThrough,
    /// A Web API GET: shared with identical recent GETs and retried when
    /// rate limited.
    SharedGet,
    /// Any other Web API request: sent once, and a rate limit in its answer
    /// is recorded.
    Observed,
}

/// How a request is treated, by whether it goes to the Web API and whether
/// it is a GET.
pub fn plan_request(is_api_request: bool, is_get: bool) -> (r: RequestPlan)
    ensures
        r == (if !is_api_request {
            RequestPlan::PassThrough
        } else if is_get {
            RequestPlan::SharedGet
        } else {
            RequestPlan::Observed
        }),
{
    if !is_api_request {
        RequestPlan::PassThrough
    } else if is_get {
        RequestPlan::SharedGet
    } else {
        RequestPlan::Observed
    }
}

/// The shared state of the request layer.
pub struct RequestState {
    /// Until when GET requests are held back.
    pub retry_after_until: Option<u64>,
    /// The GET requests that identical ones may share.
    pub recent_gets: Vec<RecentGet>,
}

impl RequestState {
    /// The recent GETs, in specifications.
    pub open spec fn entries(&self) -> Seq<GetEntry> {
        self.recent_gets@.map_values(|g: RecentGet| g@)
    }

    /// No two recent GETs have one key.
    pub open spec fn wf(&self) -> bool {
        keys_distinct(self.entries())
    }

    /// No deadline and no recent GET.
    pub fn new() -> (r: Self)
        ensures
            r.wf(),
            r.retry_after_until is None,
            r.entries() == Seq::<GetEntry>::empty(),
    {
        let r = RequestState { retry_after_until: None, recent_gets: Vec::new() };
        assert(r.entries() =~= Seq::<GetEntry>::empty());
        r
    }

    /// Where the recent GET for `key` stands.
    fn position_of(&self, key: &String) -> (r: Option<usize>)
        ensures
            match r {
                Some(i) => i < self.entries().len() && self.entries()[i as int].key == key@,
                None => !has_key(self.entries(), key@),
            },
    {
        let mut i: usize = 0;
        while i < self.recent_gets.len()
            invariant
                i <= self.recent_gets@.len(),
                forall|j: int| 0 <= j < i ==> (#[trigger] self.entries()[j]).key != key@,
            decreases self.recent_gets@.len() - i,
        {
            if self.recent_gets[i].key == *key {
                return Some(i);
            }
            assert(self.entries()[i as int] == self.recent_gets@[i as int]@);
            i = i + 1;
        }
        None
    }

    /// Registers a GET for `key` at `now`: the GETs that are no longer recent
    /// are dropped, and the request shares a recent one with its key or leads.
    pub fn register_get(&mut self, key: String, now: u64) -> (r: GetRegistration)
        requires
            old(self).wf(),
        ensures
            final(self).wf(),
            final(self).retry_after_until == old(self).retry_after_until,
            registration(old(self).entries(), key@, now, r, final(self).entries()),
    {
        let ghost before = self.entries();
        let mut kept: Vec<RecentGet> = Vec::new();
        let mut i: usize = 0;
        while i < self.recent_gets.len()
            invariant
                before == self.entries(),
                i <= self.recent_gets@.len(),
                kept@.map_values(|g: RecentGet| g@) == recent_entries(before.take(i as int), now),
            decreases self.recent_gets@.len() - i,
        {
            proof {
                let t = before.take(i + 1);
                assert(t.drop_last() =~= before.take(i as int));
                assert(t.last() == self.recent_gets@[i as int]@);
            }
            let g = &self.recent_gets[i];
            let keep = match g.completed_at {
                Some(t) => {
                    let gone: u64 = if t <= now {
                        now - t
                    } else {
                        0
                    };
                    gone < GET_DEDUPLICATION_WINDOW_MS
                },
                None => g.leader_alive,
            };
            if keep {
                let ghost k0 = kept@.map_values(|g: RecentGet| g@);
                kept.push(g.duplicate());
                assert(kept@.map_values(|g: RecentGet| g@) =~= k0.push(g@));
            }
            i = i + 1;
        }
        assert(before.take(i as int) =~= before);
        proof {
            lemma_recent_entries(before, now);
        }
        self.recent_gets = kept;
        match self.position_of(&key) {
            Some(_) => {
                assert(has_key(self.entries(), key@));
                GetRegistration::Shared
            },
            None => {
                let ghost k0 = self.entries();
                self.recent_gets.push(RecentGet { key, completed_at: None, leader_alive: true });
                assert(self.entries() =~= k0.push(leading(key@)));
                assert forall|i: int, j: int|
                    0 <= i < self.entries().len() && 0 <= j < self.entries().len() && i != j implies (
                    #[trigger] self.entries()[i]).key != (#[trigger] self.entries()[j]).key by {
                    if i < k0.len() && j < k0.len() {
                    } else if i < k0.len() {
                        assert(k0[i].key != key@);
                    } else {
                        assert(k0[j].key != key@);
                    }
                }
                GetRegistration::Leader
            },
        }
    }

    /// Publishes the result of the GET for `key` at `now`.
    pub fn finish_get(&mut self, key: &String, now: u64)
        requires
            old(self).wf(),
        ensures
            final(self).wf(),
            final(self).retry_after_until == old(self).retry_after_until,
            final(self).entries() == finish_entry(old(self).entries(), key@, now),
    {
        let ghost before = self.entries();
        match self.position_of(key) {
            Some(i) => {
                let alive = self.recent_gets[i].leader_alive;
                self.recent_gets.set(
                    i,
                    RecentGet { key: key.clone(), completed_at: Some(now), leader_alive: alive },
                );
                assert(self.entries() =~= finish_entry(before, key@, now)) by {
                    assert forall|j: int| 0 <= j < before.len() && j != i implies before[j].key
                        != key@ by {
                        assert(before[j].key != before[i as int].key);
                    }
                }
            },
            None => {
                assert(finish_entry(before, key@, now) =~= before);
            },
        }
    }

    /// Records that the leader of the unfinished GET for `key` stopped
    /// without publishing a result.
    pub fn abandon_get(&mut self, key: &String)
        requires
            old(self).wf(),
        ensures
            final(self).wf(),
            final(self).retry_after_until == old(self).retry_after_until,
            final(self).entries() == abandon_entry(old(self).entries(), key@),
    {
        let ghost before = self.entries();
        match self.position_of(key) {
            Some(i) => {
                if self.recent_gets[i].completed_at.is_none() {
                    self.recent_gets.set(
                        i,
                        RecentGet { key: key.clone(), completed_at: None, leader_alive: false },
                    );
                    assert(self.entries() =~= abandon_entry(before, key@)) by {
                        assert forall|j: int| 0 <= j < before.len() && j != i implies before[j].key
                            != key@ by {
                            assert(before[j].key != before[i as int].key);
                        }
                    }
                } else {
                    assert(abandon_entry(before, key@) =~= before) by {
                        assert forall|j: int| 0 <= j < before.len() && j != i implies before[j].key
                            != key@ by {
                            assert(before[j].key != before[i as int].key);
                        }
                    }
                }
            },
            None => {
                assert(abandon_entry(before, key@) =~= before);
            },
        }
    }

    /// Stores the deadline set by a Retry-After of `retry_after_secs` seconds
    /// seen at `now`, unless a later one is stored already.
    pub fn store_retry_after(&mut self, now: u64, retry_after_secs: u64)
        requires
            retry_deadline(now, retry_after_secs) <= u64::MAX,
        ensures
            final(self).retry_after_until == later_deadline(
                old(self).retry_after_until,
                retry_deadline(now, retry_after_secs) as u64,
            ),
            final(self).recent_gets@ == old(self).recent_gets@,
    {
        let until: u64 = now + retry_after_secs * 1000 + RETRY_AFTER_MARGIN_MS;
        let replace = match self.retry_after_until {
            Some(current) => current < until,
            None => true,
        };
        if replace {
            self.retry_after_until = Some(until);
        }
    }

    /// One step of waiting for the Retry-After deadline at `now`: the deadline
    /// to sleep until while it lies ahead; once it has passed it is cleared,
    /// and nothing holds GETs back.
    pub fn retry_wait(&mut self, now: u64) -> (r: Option<u64>)
        ensures
            final(self).recent_gets@ == old(self).recent_gets@,
            match old(self).retry_after_until {
                Some(d) => if d > now {
                    r == Some(d) && final(self).retry_after_until == Some(d)
                } else {
                    r is None && final(self).retry_after_until is None
                },
                None => r is None && final(self).retry_after_until is None,
            },
    {
        match self.retry_after_until {
            Some(deadline) => {
                if deadline > now {
                    Some(deadline)
                } else {
                    self.retry_after_until = None;
                    None
                }
            },
            None => None,
        }
    }

    /// How long GETs are still held back at `now`, in ms.
    pub fn retry_after_remaining(&self, now: u64) -> (r: Option<u64>)
        ensures
            r == remaining_at(self.retry_after_until, now),
    {
        match self.retry_after_until {
            Some(deadline) => Some(
                if now <= deadline {
                    deadline - now
                } else {
                    0
                },
            ),
            None => None,
        }
    }

    /// Records the rate limit of a response with `status` and
    /// `retry_after_secs` seen at `now`: only a rate-limited response with a
    /// valid Retry-After sets a deadline.
    pub fn observe_rate_limit(&mut self, status: u16, retry_after_secs: Option<u64>, now: u64)
        requires
            status == TOO_MANY_REQUESTS ==> match retry_after_secs {
                Some(s) => retry_deadline(now, s) <= u64::MAX,
                None => true,
            },
        ensures
            final(self).recent_gets@ == old(self).recent_gets@,
            final(self).retry_after_until == observed_deadline(
                old(self).retry_after_until,
                status,
                retry_after_secs,
                now,
            ),
    {
        if status == TOO_MANY_REQUESTS {
            if let Some(secs) = retry_after_secs {
                self.store_retry_after(now, secs);
            }
        }
    }

    /// After attempt `attempt` of a GET was answered with `status` and
    /// `retry_after_secs` at `now`: the rate limit is recorded, and the
    /// response is handed back unless the request is to be made again.
    pub fn after_get_response(
        &mut self,
        status: u16,
        retry_after_secs: Option<u64>,
        attempt: usize,
        max_retries: usize,
        now: u64,
    ) -> (r: GetAttempt)
        requires
            attempt <= max_retries,
            status == TOO_MANY_REQUESTS ==> match retry_after_secs {
                Some(s) => retry_deadline(now, s) <= u64::MAX,
                None => true,
            },
        ensures
            final(self).recent_gets@ == old(self).recent_gets@,
            final(self).retry_after_until == observed_deadline(
                old(self).retry_after_until,
                status,
                retry_after_secs,
                now,
            ),
            (r == GetAttempt::Deliver) == delivers(
                status,
                retry_after_secs,
                attempt as int,
                max_retries as int,
            ),
    {
        self.observe_rate_limit(status, retry_after_secs, now);
        if status != TOO_MANY_REQUESTS || retry_after_secs.is_none() || attempt == max_retries {
            GetAttempt::Deliver
        } else {
            GetAttempt::Retry
        }
    }
}

/// Whether the deadline of a Retry-After of `retry_after_secs` seconds seen at
/// `now` fits the clock.
fn deadline_fits(now: u64, retry_after_secs: u64) -> (r: bool)
    ensures
        r == (retry_deadline(now, retry_after_secs) <= u64::MAX),
{
    if now > u64::MAX - RETRY_AFTER_MARGIN_MS {
        return false;
    }
    let room: u64 = u64::MAX - RETRY_AFTER_MARGIN_MS - now;
    let r = retry_after_secs <= room / 1000;
    assert(r == (retry_after_secs * 1000 <= room)) by (nonlinear_arith)
        requires
            r == (retry_after_secs <= room / 1000),
    ;
    r
}

/// Whole milliseconds in `nanos` nanoseconds, or the largest `u64` when
/// they do not fit.
pub open spec fn millis_in(nanos: u128) -> u64 {
    if nanos / 1_000_000 > u64::MAX {
        u64::MAX
    } else {
        (nanos / 1_000_000) as u64
    }
}

/// Whole milliseconds in `nanos` nanoseconds (see `millis_in`).
pub fn millis_of(nanos: u128) -> (r: u64)
    ensures
        r == millis_in(nanos),
{
    let ms: u128 = nanos / 1_000_000;
    if ms > 0xffff_ffff_ffff_ffffu128 {
        0xffff_ffff_ffff_ffffu64
    } else {
        ms as u64
    }
}

/// The request layer's state together with the clock that times it.
pub struct SpotifyApiRequestManager {
    /// Deadline and recent GETs.
    pub state: RequestState,
    /// How often a rate-limited GET is made again.
    pub max_retries: usize,
    /// When the clock started.
    pub started: std::time::Instant,
}

impl SpotifyApiRequestManager {
    /// No deadline and no recent GET; the clock starts now.
    pub fn new(max_retries: usize) -> (r: Self)
        ensures
            r.state.wf(),
            r.state.retry_after_until is None,
            r.state.entries() == Seq::<GetEntry>::empty(),
            r.max_retries == max_retries,
    {
        SpotifyApiRequestManager { state: RequestState::new(), max_retries, started: now() }
    }

    /// Milliseconds since the clock started (see `millis_of`).
    fn now_ms(&self) -> u64 {
        millis_of(elapsed_nanos(&self.started))
    }

    /// Registers a GET for `key` at the present time.
    pub fn register_get(&mut self, key: String) -> (r: GetRegistration)
        requires
            old(self).state.wf(),
        ensures
            final(self).state.wf(),
            final(self).max_retries == old(self).max_retries,
            final(self).state.retry_after_until == old(self).state.retry_after_until,
            exists|now: u64|
                registration(old(self).state.entries(), key@, now, r, final(self).state.entries()),
    {
        let now = self.now_ms();
        self.state.register_get(key, now)
    }

    /// Publishes the result of the GET for `key` at the present time.
    pub fn publish(&mut self, key: &String)
        requires
            old(self).state.wf(),
        ensures
            final(self).state.wf(),
            final(self).max_retries == old(self).max_retries,
            final(self).state.retry_after_until == old(self).state.retry_after_until,
            exists|now: u64|
                final(self).state.entries() == #[trigger] finish_entry(old(self).state.entries(), key@, now),
    {
        let now = self.now_ms();
        self.state.finish_get(key, now);
    }

    /// Stores the deadline of a Retry-After of `retry_after_secs` seconds seen
    /// now; where that deadline does not fit the clock, nothing is stored and
    /// `false` comes back.
    pub fn store_retry_after(&mut self, retry_after_secs: u64) -> (stored: bool)
        ensures
            final(self).state.recent_gets@ == old(self).state.recent_gets@,
            final(self).max_retries == old(self).max_retries,
            exists|now: u64|
                stored_retry_after(
                    old(self).state.retry_after_until,
                    now,
                    retry_after_secs,
                    stored,
                    final(self).state.retry_after_until,
                ),
    {
        let now = self.now_ms();
        let ghost before = self.state.retry_after_until;
        let stored = deadline_fits(now, retry_after_secs);
        if stored {
            self.state.store_retry_after(now, retry_after_secs);
        }
        assert(stored_retry_after(before, now, retry_after_secs, stored, self.state.retry_after_until));
        stored
    }

    /// One step of waiting for the Retry-After deadline: how long to sleep
    /// before GETs may go, in ms; once the deadline has passed it is cleared.
    pub fn retry_wait_ms(&mut self) -> (r: Option<u64>)
        ensures
            final(self).state.recent_gets@ == old(self).state.recent_gets@,
            final(self).max_retries == old(self).max_retries,
            exists|now: u64|
                wait_step(old(self).state.retry_after_until, now, r, final(self).state.retry_after_until),
    {
        let now = self.now_ms();
        let ghost before = self.state.retry_after_until;
        let r = match self.state.retry_wait(now) {
            Some(deadline) => Some(deadline - now),
            None => None,
        };
        assert(wait_step(before, now, r, self.state.retry_after_until));
        r
    }

    /// How long GETs are still held back, in ms.
    pub fn retry_after_remaining(&self) -> (r: Option<u64>)
        ensures
            exists|now: u64| r == #[trigger] remaining_at(self.state.retry_after_until, now),
    {
        let now = self.now_ms();
        self.state.retry_after_remaining(now)
    }

    /// After attempt `attempt` of a GET was answered with `status` and
    /// `retry_after_secs`: the rate limit is recorded (where its deadline
    /// fits the clock), and the response is handed back unless the request
    /// is to be made again.
    pub fn after_get_response(
        &mut self,
        status: u16,
        retry_after_secs: Option<u64>,
        attempt: usize,
    ) -> (r: GetAttempt)
        requires
            attempt <= old(self).max_retries,
        ensures
            final(self).state.recent_gets@ == old(self).state.recent_gets@,
            final(self).max_retries == old(self).max_retries,
            (r == GetAttempt::Deliver) == delivers(
                status,
                retry_after_secs,
                attempt as int,
                old(self).max_retries as int,
            ),
            exists|now: u64|
                final(self).state.retry_after_until == #[trigger] observed_deadline(
                    old(self).state.retry_after_until,
                    status,
                    retry_after_secs,
                    now,
                ),
    {
        let now = self.now_ms();
        let ghost before = self.state.retry_after_until;
        let fits = match retry_after_secs {
            Some(secs) => deadline_fits(now, secs),
            None => true,
        };
        let r = if fits {
            self.state.after_get_response(status, retry_after_secs, attempt, self.max_retries, now)
        } else if status != TOO_MANY_REQUESTS || attempt == self.max_retries {
            GetAttempt::Deliver
        } else {
            GetAttempt::Retry
        };
        assert(self.state.retry_after_until == observed_deadline(
            before,
            status,
            retry_after_secs,
            now,
        ));
        r
    }
}

/// Storing two Retry-After deadlines keeps the latest of them and of the one
/// stored before, whichever comes first.
pub proof fn law_latest_retry_deadline_is_kept(current: Option<u64>, first: u64, second: u64)
    ensures
        later_deadline(later_deadline(current, first), second) == later_deadline(
            later_deadline(current, second),
            first,
        ),
        later_deadline(later_deadline(current, first), second) matches Some(d) && d >= first && d
            >= second && (current matches Some(c) ==> d >= c) && (d == first || d == second
            || current == Some(d)),
{
}

/// A GET that leads is shared by identical GETs while it runs and for the
/// deduplication window after its result is published, and by none after
/// that or after its leader gave it up.
pub proof fn law_identical_gets_share_one_request(
    before: Seq<GetEntry>,
    key: Seq<char>,
    registered_at: u64,
    published_at: u64,
    now: u64,
)
    requires
        keys_distinct(before),
        !has_key(recent_entries(before, registered_at), key),
    ensures
        has_key(recent_entries(recent_entries(before, registered_at).push(leading(key)), now), key),
        has_key(
            recent_entries(
                finish_entry(recent_entries(before, registered_at).push(leading(key)), key, published_at),
                now,
            ),
            key,
        ) <==> elapsed_since(now, published_at) < GET_DEDUPLICATION_WINDOW_MS,
        !has_key(
            recent_entries(abandon_entry(recent_entries(before, registered_at).push(leading(key)), key), now),
            key,
        ),
{
    let kept = recent_entries(before, registered_at);
    let led = kept.push(leading(key));
    let last = led.len() - 1;
    lemma_recent_entries(before, registered_at);
    assert forall|i: int| 0 <= i < led.len() && (#[trigger] led[i]).key == key implies i == last by {
        if i < last {
            assert(led[i] == kept[i]);
        }
    }
    lemma_recent_has_key(led, now, key);
    assert(led[last].key == key && still_recent(led[last], now));
    let fin = finish_entry(led, key, published_at);
    lemma_recent_has_key(fin, now, key);
    assert(fin[last].key == key);
    if elapsed_since(now, published_at) < GET_DEDUPLICATION_WINDOW_MS {
        assert(still_recent(fin[last], now));
    }
    assert forall|i: int| 0 <= i < fin.len() && (#[trigger] fin[i]).key == key && still_recent(
        fin[i],
        now,
    ) implies elapsed_since(now, published_at) < GET_DEDUPLICATION_WINDOW_MS by {
        if i < last {
            assert(fin[i] == led[i]);
        }
    }
    let gone = abandon_entry(led, key);
    lemma_recent_has_key(gone, now, key);
    assert forall|i: int| 0 <= i < gone.len() && (#[trigger] gone[i]).key == key implies !still_recent(
        gone[i],
        now,
    ) by {
        if i < last {
            assert(gone[i] == led[i]);
        }
    }
}

} // verus!
