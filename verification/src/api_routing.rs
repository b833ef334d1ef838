//! Which Web API identity serves a request: the user's own client, or the
//! fallback one for endpoints only it may use and for requests the user's
//! client was refused.

use vstd::prelude::*;

use crate::text::chars_of;

verus! {

/// A Web API identity.
#[derive(Debug, Clone, Copy, PartialEq, Eq, Structural)]
pub enum ApiIdentity {
    /// The user's own client.
    Primary,
    /// The fallback client.
    Fallback,
}

/// How requests are routed between the two identities.
#[derive(Debug, Clone)]
pub struct ApiRouting {
    /// Whether a fallback client is configured.
    pub has_fallback: bool,
    /// Endpoints whose GET requests only the fallback client makes.
    pub ncspot_only_get_endpoints: Vec<String>,
}

/// Whether `url` starts with `prefix`.
pub open spec fn starts_with(url: Seq<char>, prefix: Seq<char>) -> bool {
    prefix.len() <= url.len() && url.take(prefix.len() as int) == prefix
}

/// Whether `url` starts with one of `endpoints`.
pub open spec fn starts_with_any(endpoints: Seq<Seq<char>>, url: Seq<char>) -> bool {
    exists|i: int| 0 <= i < endpoints.len() && starts_with(url, #[trigger] endpoints[i])
}

/// The status that sends a failed request to the fallback client: a client
/// error (4xx).
pub open spec fn is_client_error(status: u16) -> bool {
    400 <= status < 500
}

/// Whether `url` starts with `prefix`.
fn url_starts_with(url: &Vec<char>, prefix: &str) -> (r: bool)
    ensures
        r == starts_with(url@, prefix@),
{
    let p = chars_of(prefix);
    if p.len() > url.len() {
        return false;
    }
    let mut i: usize = 0;
    while i < p.len()
        invariant
            p@ == prefix@,
            p@.len() <= url@.len(),
            i <= p@.len(),
            forall|j: int| 0 <= j < i ==> url@[j] == p@[j],
        decreases p@.len() - i,
    {
        if url[i] != p[i] {
            assert(url@.take(p@.len() as int)[i as int] != p@[i as int]);
            return false;
        }
        i = i + 1;
    }
    assert(url@.take(p@.len() as int) =~= p@);
    true
}

impl ApiRouting {
    /// The view of the configured endpoints.
    pub open spec fn endpoints(&self) -> Seq<Seq<char>> {
        self.ncspot_only_get_endpoints@.map_values(|e: String| e@)
    }

    /// The routes of a client with or without a fallback client, whose
    /// fallback-only GET endpoints are searches and the user's playlists.
    pub fn new(has_fallback: bool) -> (r: Self)
        ensures
            r.has_fallback == has_fallback,
            r.endpoints() == seq!["search"@, "me/playlists"@],
    {
        let endpoints = vec![String::from_str("search"), String::from_str("me/playlists")];
        let r = ApiRouting { has_fallback, ncspot_only_get_endpoints: endpoints };
        assert(r.endpoints() =~= seq!["search"@, "me/playlists"@]);
        r
    }

    /// These routes with `endpoints` as the fallback-only GET endpoints.
    pub fn with_ncspot_only_get_endpoints(self, endpoints: Vec<String>) -> (r: Self)
        ensures
            r.has_fallback == self.has_fallback,
            r.ncspot_only_get_endpoints@ == endpoints@,
    {
        ApiRouting { has_fallback: self.has_fallback, ncspot_only_get_endpoints: endpoints }
    }

    /// Whether a GET request to `url` is for the fallback client only.
    pub fn is_ncspot_only_get(&self, url: &str) -> (r: bool)
        ensures
            r == starts_with_any(self.endpoints(), url@),
    {
        let chars = chars_of(url);
        let ghost eps = self.endpoints();
        let mut i: usize = 0;
        while i < self.ncspot_only_get_endpoints.len()
            invariant
                eps == self.endpoints(),
                chars@ == url@,
                i <= eps.len(),
                forall|j: int| 0 <= j < i ==> !starts_with(url@, #[trigger] eps[j]),
            decreases eps.len() - i,
        {
            if url_starts_with(&chars, self.ncspot_only_get_endpoints[i].as_str()) {
                assert(starts_with(url@, eps[i as int]));
                return true;
            }
            i = i + 1;
        }
        false
    }

    /// The identity that makes a GET request to `url` first: the fallback
    /// one, where configured, for its own endpoints; else the user's.
    pub fn get_identity(&self, url: &str) -> (r: ApiIdentity)
        ensures
            r == if starts_with_any(self.endpoints(), url@) && self.has_fallback {
                ApiIdentity::Fallback
            } else {
                ApiIdentity::Primary
            },
    {
        if self.is_ncspot_only_get(url) && self.has_fallback {
            ApiIdentity::Fallback
        } else {
            ApiIdentity::Primary
        }
    }

    /// Whether a request the user's client failed with `status` (none when
    /// it failed without an HTTP status) is made again by the fallback
    /// client: when one is configured and the status is a client error.
    pub fn retries_with_fallback(&self, status: Option<u16>) -> (r: bool)
        ensures
            r == (self.has_fallback && fallback_status_of(status) is Some),
    {
        self.has_fallback && fallback_status(status).is_some()
    }
}

/// The status of a failure that the fallback client may recover from.
pub open spec fn fallback_status_of(status: Option<u16>) -> Option<u16> {
    match status {
        Some(s) => if is_client_error(s) {
            Some(s)
        } else {
            None
        },
        None => None,
    }
}

/// The status of a failure, `status`, when it is a client error.
pub fn fallback_status(status: Option<u16>) -> (r: Option<u16>)
    ensures
        r == fallback_status_of(status),
{
    match status {
        Some(s) => if 400 <= s && s < 500 {
            Some(s)
        } else {
            None
        },
        None => None,
    }
}

} // verus!
