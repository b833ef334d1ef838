//! URLs as the library reads them: the parts a parsed URL is made of, and
//! the decisions taken on them (which requests go to the Web API, where an
//! authorization redirect carries its code).

use vstd::prelude::*;

use crate::command::{decimal_digits, push_decimal_digits};
use crate::text::{chars_of, push_char, spells};

verus! {

/// The parts of a parsed URL.
#[derive(Debug, Clone)]
pub struct UrlParts {
    pub scheme: String,
    pub host: Option<String>,
    /// The port written in the URL.
    pub port: Option<u16>,
    /// The port written in the URL, or the scheme's default one.
    pub port_or_default: Option<u16>,
    pub path: String,
    /// The decoded `key=value` pairs of the query, in order.
    pub query: Vec<(String, String)>,
}

/// The parts of a URL as characters.
pub struct UrlPartsView {
    pub scheme: Seq<char>,
    pub host: Option<Seq<char>>,
    pub port: Option<u16>,
    pub port_or_default: Option<u16>,
    pub path: Seq<char>,
    pub query: Seq<(Seq<char>, Seq<char>)>,
}

/// The characters of an optional string.
pub open spec fn opt_text(s: Option<String>) -> Option<Seq<char>> {
    match s {
        Some(s) => Some(s@),
        None => None,
    }
}

impl View for UrlParts {
    type V = UrlPartsView;

    open spec fn view(&self) -> UrlPartsView {
        UrlPartsView {
            scheme: self.scheme@,
            host: opt_text(self.host),
            port: self.port,
            port_or_default: self.port_or_default,
            path: self.path@,
            query: self.query@.map_values(|p: (String, String)| (p.0@, p.1@)),
        }
    }
}

/// The abstract value of an optional parsed URL.
pub open spec fn parts_view(p: Option<UrlParts>) -> Option<UrlPartsView> {
    match p {
        Some(p) => Some(p@),
        None => None,
    }
}

/// What `url::Url::parse` makes of `s`: its parts, or nothing when `s` is
/// not a URL.
pub uninterp spec fn url_parts_of(s: Seq<char>) -> Option<UrlPartsView>;

/// Parses `s` with `url::Url::parse` and reads its scheme, host, ports,
/// path and decoded query pairs; the result is named, not stated.
#[verifier::external_body]
fn parse_url_parts(s: &str) -> (r: Option<UrlParts>)
    ensures
        parts_view(r) == url_parts_of(s@),
{
    let u = url::Url::parse(s).ok()?;
    Some(UrlParts {
        scheme: u.scheme().to_string(),
        host: u.host_str().map(|h| h.to_string()),
        port: u.port(),
        port_or_default: u.port_or_known_default(),
        path: u.path().to_string(),
        query: u.query_pairs().map(|(k, v)| (k.into_owned(), v.into_owned())).collect(),
    })
}

impl UrlParts {
    /// The parts of the URL `s`, if it is one.
    pub fn parse(s: &str) -> (r: Option<UrlParts>)
        ensures
            parts_view(r) == url_parts_of(s@),
    {
        parse_url_parts(s)
    }
}

/// `s` without its trailing `/` characters.
pub open spec fn trim_trailing_slashes(s: Seq<char>) -> Seq<char>
    decreases s.len(),
{
    if s.len() > 0 && s.last() == '/' {
        trim_trailing_slashes(s.drop_last())
    } else {
        s
    }
}

/// Whether `path` is `base`, or lies under it: `base` followed by `/`.
pub open spec fn path_within(path: Seq<char>, base: Seq<char>) -> bool {
    path == base || (path.len() > base.len() && path.take(base.len() as int) == base
        && path[base.len() as int] == '/')
}

/// Whether `url` is a request to the API at `base`: same scheme, host and
/// port (the default one when none is written), and a path within the
/// base path.
pub open spec fn is_api_url(base: UrlPartsView, url: UrlPartsView) -> bool {
    &&& url.scheme == base.scheme
    &&& url.host == base.host
    &&& url.port_or_default == base.port_or_default
    &&& path_within(url.path, trim_trailing_slashes(base.path))
}

/// Whether two optional strings are equal.
fn same_opt_text(a: &Option<String>, b: &Option<String>) -> (r: bool)
    ensures
        r == (opt_text(*a) == opt_text(*b)),
{
    match (a, b) {
        (Some(x), Some(y)) => *x == *y,
        (None, None) => true,
        _ => false,
    }
}

/// The scope of the Web API that rate limiting applies to.
#[derive(Debug, Clone)]
pub struct ApiScope {
    pub base: UrlParts,
}

impl ApiScope {
    /// The scope of the API at `api_base_url`, if it is a URL.
    pub fn new(api_base_url: &str) -> (r: Option<ApiScope>)
        ensures
            match url_parts_of(api_base_url@) {
                Some(p) => r matches Some(scope) && scope.base@ == p,
                None => r is None,
            },
    {
        match UrlParts::parse(api_base_url) {
            Some(base) => Some(ApiScope { base }),
            None => None,
        }
    }

    /// Whether `url` is a request to the API.
    pub fn is_api_request(&self, url: &UrlParts) -> (r: bool)
        ensures
            r == is_api_url(self.base@, url@),
    {
        let base_chars = chars_of(self.base.path.as_str());
        let mut n = base_chars.len();
        proof {
            assert(base_chars@.take(n as int) =~= base_chars@);
        }
        while n > 0 && base_chars[n - 1] == '/'
            invariant
                n <= base_chars@.len(),
                trim_trailing_slashes(base_chars@.take(n as int)) == trim_trailing_slashes(base_chars@),
            decreases n,
        {
            assert(base_chars@.take(n as int).drop_last() =~= base_chars@.take(n - 1));
            n = n - 1;
        }
        let ghost base = base_chars@.take(n as int);
        assert(trim_trailing_slashes(base) == base);
        let path = chars_of(url.path.as_str());
        let within = if path.len() < n {
            assert(path@ != base);
            false
        } else {
            let same_prefix = forall_same(&path, &base_chars, n);
            if same_prefix {
                assert(path@.take(n as int) =~= base);
            } else {
                assert(path@.take(n as int) != base) by {
                    let j = choose|j: int| 0 <= j < n && path@[j] != base_chars@[j];
                    assert(base[j] == base_chars@[j]);
                    assert(path@.take(n as int)[j] == path@[j]);
                }
            }
            if path.len() == n {
                assert(path@.take(n as int) =~= path@);
                same_prefix
            } else {
                same_prefix && path[n] == '/'
            }
        };
        url.scheme == self.base.scheme && same_opt_text(&url.host, &self.base.host)
            && url.port_or_default == self.base.port_or_default && within
    }
}

/// Whether the first `n` characters of `a` and `b` agree.
fn forall_same(a: &Vec<char>, b: &Vec<char>, n: usize) -> (r: bool)
    requires
        n <= a@.len(),
        n <= b@.len(),
    ensures
        r == (forall|j: int| 0 <= j < n ==> a@[j] == b@[j]),
{
    let mut i: usize = 0;
    while i < n
        invariant
            n <= a@.len(),
            n <= b@.len(),
            i <= n,
            forall|j: int| 0 <= j < i ==> a@[j] == b@[j],
        decreases n - i,
    {
        if a[i] != b[i] {
            return false;
        }
        i = i + 1;
    }
    true
}

/// The value of the first query pair whose key is `key`.
pub open spec fn first_value(pairs: Seq<(Seq<char>, Seq<char>)>, key: Seq<char>) -> Option<Seq<char>>
    decreases pairs.len(),
{
    if pairs.len() == 0 {
        None
    } else if pairs[0].0 == key {
        Some(pairs[0].1)
    } else {
        first_value(pairs.drop_first(), key)
    }
}

/// The `code` query value of an authorization redirect, given as a full URL
/// or as a bare request target such as `/login?code=...`.
pub open spec fn redirect_code(redirect: Seq<char>) -> Option<Seq<char>> {
    let parsed = match url_parts_of(redirect) {
        Some(p) => Some(p),
        None => url_parts_of("http://localhost"@ + redirect),
    };
    match parsed {
        Some(p) => first_value(p.query, "code"@),
        None => None,
    }
}

/// The `code` query value of the redirect `redirect`.
pub fn code_from_redirect(redirect: &str) -> (r: Option<String>)
    ensures
        opt_text(r) == redirect_code(redirect@),
{
    let parsed = match UrlParts::parse(redirect) {
        Some(p) => p,
        None => {
            let mut full = String::from_str("http://localhost");
            full.append(redirect);
            match UrlParts::parse(full.as_str()) {
                Some(p) => p,
                None => return None,
            }
        },
    };
    assert(redirect_code(redirect@) == first_value(parsed@.query, "code"@));
    let ghost pairs = parsed@.query;
    let n = parsed.query.len();
    let mut i: usize = 0;
    assert(pairs.skip(0) =~= pairs);
    while i < n
        invariant
            n == parsed.query@.len(),
            pairs == parsed@.query,
            i <= n,
            first_value(pairs.skip(i as int), "code"@) == first_value(pairs, "code"@),
            redirect_code(redirect@) == first_value(pairs, "code"@),
        decreases n - i,
    {
        let pair = &parsed.query[i];
        assert(pairs.skip(i as int)[0] == (pair.0@, pair.1@));
        let key = chars_of(pair.0.as_str());
        if spells(key.as_slice(), "code") {
            let value = pair.1.clone();
            assert(first_value(pairs.skip(i as int), "code"@) == Some(value@));
            return Some(value);
        }
        assert(pairs.skip(i as int).drop_first() =~= pairs.skip(i + 1));
        i = i + 1;
    }
    assert(pairs.skip(n as int).len() == 0);
    None
}

/// Whether a local server should wait for the redirect to `redirect_uri`:
/// it is an `http` URL with a port. Otherwise the user pastes the redirect.
pub open spec fn listens_for_redirect(redirect_uri: Seq<char>) -> bool {
    match url_parts_of(redirect_uri) {
        Some(p) => p.scheme == "http"@ && p.port is Some,
        None => false,
    }
}

/// Whether the redirect to `redirect_uri` is collected by a local server.
pub fn uses_callback_server(redirect_uri: &str) -> (r: bool)
    ensures
        r == listens_for_redirect(redirect_uri@),
{
    match UrlParts::parse(redirect_uri) {
        Some(p) => {
            let scheme = chars_of(p.scheme.as_str());
            spells(scheme.as_slice(), "http") && p.port.is_some()
        },
        None => false,
    }
}

/// Whether `c` is white space, as `char::is_whitespace` has it: the
/// characters with the Unicode `White_Space` property.
pub open spec fn is_white(c: char) -> bool {
    ||| '\u{9}' <= c <= '\u{d}'
    ||| c == ' '
    ||| c == '\u{85}'
    ||| c == '\u{a0}'
    ||| c == '\u{1680}'
    ||| '\u{2000}' <= c <= '\u{200a}'
    ||| c == '\u{2028}'
    ||| c == '\u{2029}'
    ||| c == '\u{202f}'
    ||| c == '\u{205f}'
    ||| c == '\u{3000}'
}

/// Whether `c` is white space.
pub(crate) fn white(c: char) -> (r: bool)
    ensures
        r == is_white(c),
{
    ('\u{9}' <= c && c <= '\u{d}') || c == ' ' || c == '\u{85}' || c == '\u{a0}' || c == '\u{1680}'
        || ('\u{2000}' <= c && c <= '\u{200a}') || c == '\u{2028}' || c == '\u{2029}' || c
        == '\u{202f}' || c == '\u{205f}' || c == '\u{3000}'
}

/// The words of `s` read so far and the word being read: words are the
/// runs of characters between white space.
pub open spec fn word_state(s: Seq<char>) -> (Seq<Seq<char>>, Seq<char>)
    decreases s.len(),
{
    if s.len() == 0 {
        (Seq::empty(), Seq::empty())
    } else {
        let (words, current) = word_state(s.drop_last());
        if is_white(s.last()) {
            if current.len() > 0 {
                (words.push(current), Seq::empty())
            } else {
                (words, Seq::empty())
            }
        } else {
            (words, current.push(s.last()))
        }
    }
}

/// The words of `s`, as `str::split_whitespace` gives them.
pub open spec fn whitespace_words(s: Seq<char>) -> Seq<Seq<char>> {
    let (words, current) = word_state(s);
    if current.len() > 0 {
        words.push(current)
    } else {
        words
    }
}

/// The target of an HTTP request line such as `GET /login?code=... HTTP/1.1`:
/// its second word, or nothing.
pub open spec fn request_target(line: Seq<char>) -> Seq<char> {
    if whitespace_words(line).len() > 1 {
        whitespace_words(line)[1]
    } else {
        Seq::empty()
    }
}

/// The second word of `line`, or nothing.
fn second_word(line: &str) -> (r: String)
    ensures
        r@ == request_target(line@),
{
    let chars = chars_of(line);
    let mut words: Vec<Vec<char>> = Vec::new();
    let mut current: Vec<char> = Vec::new();
    let mut i: usize = 0;
    while i < chars.len()
        invariant
            i <= chars@.len(),
            words@.map_values(|w: Vec<char>| w@) == word_state(chars@.take(i as int)).0,
            current@ == word_state(chars@.take(i as int)).1,
        decreases chars@.len() - i,
    {
        let ghost before = words@.map_values(|w: Vec<char>| w@);
        proof {
            let t = chars@.take(i + 1);
            assert(t.drop_last() =~= chars@.take(i as int));
            assert(t.last() == chars@[i as int]);
        }
        if white(chars[i]) {
            if current.len() > 0 {
                let done = current;
                current = Vec::new();
                words.push(done);
                assert(words@.map_values(|w: Vec<char>| w@) =~= before.push(done@));
            }
        } else {
            current.push(chars[i]);
        }
        i = i + 1;
    }
    assert(chars@.take(i as int) =~= chars@);
    if current.len() > 0 {
        let ghost before = words@.map_values(|w: Vec<char>| w@);
        words.push(current);
        assert(words@.map_values(|w: Vec<char>| w@) =~= before.push(word_state(chars@).1));
    }
    let mut out = String::new();
    if words.len() > 1 {
        let w = &words[1];
        assert(w@ == whitespace_words(chars@)[1]);
        let mut k: usize = 0;
        while k < w.len()
            invariant
                k <= w@.len(),
                out@ == w@.take(k as int),
            decreases w@.len() - k,
        {
            push_char(&mut out, w[k]);
            assert(out@ =~= w@.take(k + 1));
            k = k + 1;
        }
        assert(w@.take(k as int) =~= w@);
    }
    out
}

/// The body of the answer to the redirect that brings the code.
pub const AUTH_SUCCESS_BODY: &'static str = "Authentication successful! You can close this tab and go back to your terminal.";

/// An HTTP response with `status` and `body`, which is `body_len` bytes
/// long, after which the connection closes.
pub open spec fn http_response(status: Seq<char>, body: Seq<char>, body_len: nat) -> Seq<char> {
    "HTTP/1.1 "@ + status + "\r\ncontent-length: "@ + decimal_digits(body_len)
        + "\r\nconnection: close\r\n\r\n"@ + body
}

/// An HTTP response with `status` and `body`.
pub fn http_response_text(status: &str, body: &str) -> (r: String)
    ensures
        r@ == http_response(status@, body@, body.len() as nat),
{
    let mut out = String::from_str("HTTP/1.1 ");
    out.append(status);
    out.append("\r\ncontent-length: ");
    push_decimal_digits(&mut out, body.len() as u64);
    out.append("\r\nconnection: close\r\n\r\n");
    out.append(body);
    out
}

/// How the callback server answers a request.
#[derive(Debug)]
pub struct CallbackReply {
    /// The authorization code the request brings, if any: the server stops
    /// once it has one.
    pub code: Option<String>,
    /// The HTTP response to send back.
    pub response: String,
}

/// How the callback server answers the request whose first line is
/// `request_line`: a request whose target carries a code gets a success
/// page and ends the wait; any other request (a browser's prefetch of an
/// icon, say) gets a 404 and the server keeps waiting.
pub fn callback_reply(request_line: &str) -> (r: CallbackReply)
    ensures
        opt_text(r.code) == redirect_code(request_target(request_line@)),
        r.response@ == if r.code is Some {
            http_response("200 OK"@, AUTH_SUCCESS_BODY@, AUTH_SUCCESS_BODY.len() as nat)
        } else {
            http_response("404 Not Found"@, ""@, "".len() as nat)
        },
{
    let target = second_word(request_line);
    let code = code_from_redirect(target.as_str());
    let response = match &code {
        Some(_) => http_response_text("200 OK", AUTH_SUCCESS_BODY),
        None => http_response_text("404 Not Found", ""),
    };
    CallbackReply { code, response }
}

} // verus!
