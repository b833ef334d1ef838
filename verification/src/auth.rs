//! The authorization code flow with PKCE: the verifier and challenge pair,
//! and the authorization URL the user is sent to.

use vstd::prelude::*;

use base64::Engine;
use sha2::Digest;
use vstd::utf8::encode_utf8;

verus! {

/// The Spotify client id of the official web application.
pub const SPOTIFY_CLIENT_ID: &'static str = "65b708073fc0480ea92a077233ca87bd";

/// Spotify's authorization endpoint.
pub const SPOTIFY_AUTHORIZE_URL: &'static str = "https://accounts.spotify.com/authorize";

/// The SHA-256 digest of `data`.
pub uninterp spec fn sha256_of(data: Seq<u8>) -> Seq<u8>;

/// The URL-safe base64 encoding of `data`, without padding.
pub uninterp spec fn base64_url_of(data: Seq<u8>) -> Seq<char>;

/// The number of characters of the URL-safe base64 encoding of `n` bytes
/// without padding: four for every three bytes, and two or three for the
/// one or two bytes left.
pub open spec fn base64_len(n: nat) -> nat {
    let rest: nat = if n % 3 == 0 {
        0
    } else if n % 3 == 1 {
        2
    } else {
        3
    };
    4 * (n / 3) + rest
}

/// Calls `sha2::Sha256::digest`: the 32-byte SHA-256 digest of `data`.
#[verifier::external_body]
fn sha256_digest(data: &[u8]) -> (r: Vec<u8>)
    ensures
        r@ == sha256_of(data@),
        r@.len() == 32,
{
    sha2::Sha256::digest(data).to_vec()
}

/// Calls `Engine::encode` of `base64`'s `URL_SAFE_NO_PAD` engine on `data`.
/// The crate computes the length as stated; the characters are named.
#[verifier::external_body]
fn encode_base64_url(data: &[u8]) -> (r: String)
    requires
        data@.len() / 3 * 4 + 3 <= usize::MAX,
    ensures
        r@ == base64_url_of(data@),
        r@.len() == base64_len(data@.len()),
{
    base64::engine::general_purpose::URL_SAFE_NO_PAD.encode(data)
}

/// Calls `rand::fill` on `n` zero bytes: `n` random bytes.
#[verifier::external_body]
fn random_bytes(n: usize) -> (r: Vec<u8>)
    ensures
        r@.len() == n,
{
    let mut bytes = vec![0u8; n];
    rand::fill(bytes.as_mut_slice());
    bytes
}

/// A random URL-safe string: `n` random bytes in URL-safe base64.
pub fn random_url_safe(n: usize) -> (r: String)
    requires
        n / 3 * 4 + 3 <= usize::MAX,
    ensures
        exists|bytes: Seq<u8>| bytes.len() == n && r@ == base64_url_of(bytes),
        r@.len() == base64_len(n as nat),
{
    let bytes = random_bytes(n);
    encode_base64_url(bytes.as_slice())
}

/// The PKCE challenge of a verifier: the URL-safe base64 of the SHA-256
/// digest of its UTF-8 bytes.
pub open spec fn challenge_of(verifier: Seq<char>) -> Seq<char> {
    base64_url_of(sha256_of(encode_utf8(verifier)))
}

/// The PKCE challenge of `verifier`.
pub fn pkce_challenge(verifier: &str) -> (r: String)
    ensures
        r@ == challenge_of(verifier@),
        r@.len() == 43,
{
    let digest = sha256_digest(verifier.as_bytes());
    encode_base64_url(digest.as_slice())
}

/// A PKCE code verifier and its challenge.
#[derive(Debug, Clone)]
pub struct Pkce {
    pub verifier: String,
    pub challenge: String,
}

impl Pkce {
    /// A fresh random verifier, 32 random bytes in URL-safe base64, with
    /// its challenge.
    pub fn new_random() -> (r: Self)
        ensures
            r.verifier@.len() == 43,
            r.challenge@ == challenge_of(r.verifier@),
    {
        let verifier = random_url_safe(32);
        let challenge = pkce_challenge(verifier.as_str());
        Pkce { verifier, challenge }
    }
}

/// `words` joined with single spaces.
pub open spec fn joined_with_spaces(words: Seq<Seq<char>>) -> Seq<char>
    decreases words.len(),
{
    if words.len() == 0 {
        seq![]
    } else if words.len() == 1 {
        words[0]
    } else {
        joined_with_spaces(words.drop_last()) + seq![' '] + words.last()
    }
}

/// The authorization scopes, joined with single spaces.
pub fn join_scopes(scopes: &[&str]) -> (r: String)
    ensures
        r@ == joined_with_spaces(scopes@.map_values(|s: &str| s@)),
{
    let ghost words = scopes@.map_values(|s: &str| s@);
    let mut out = String::new();
    let mut i: usize = 0;
    while i < scopes.len()
        invariant
            words == scopes@.map_values(|s: &str| s@),
            i <= scopes@.len(),
            out@ == joined_with_spaces(words.take(i as int)),
        decreases scopes@.len() - i,
    {
        proof {
            let t = words.take(i + 1);
            assert(t.drop_last() =~= words.take(i as int));
            assert(t.last() == scopes@[i as int]@);
        }
        if i > 0 {
            proof {
                reveal_strlit(" ");
            }
            out.append(" ");
        } else {
            assert(out@ + scopes@[0]@ =~= scopes@[0]@);
        }
        out.append(scopes[i]);
        i = i + 1;
    }
    assert(words.take(i as int) =~= words);
    out
}

/// What `url::Url::parse_with_params` makes of `base` and the query pairs
/// `params`, written out as text; nothing when `base` is not a URL.
pub uninterp spec fn url_with_params_of(base: Seq<char>, params: Seq<(Seq<char>, Seq<char>)>) -> Option<Seq<char>>;

/// Calls `url::Url::parse_with_params` on `base` and `params` and writes the
/// URL out; the result is named, not stated.
#[verifier::external_body]
fn url_with_params(base: &str, params: &Vec<(String, String)>) -> (r: Option<String>)
    ensures
        match r {
            Some(u) => url_with_params_of(base@, params@.map_values(|p: (String, String)| (p.0@, p.1@)))
                == Some(u@),
            None => url_with_params_of(base@, params@.map_values(|p: (String, String)| (p.0@, p.1@)))
                is None,
        },
{
    url::Url::parse_with_params(base, params.iter()).ok().map(String::from)
}

/// The query pairs of the authorization URL.
pub open spec fn authorize_params(
    client_id: Seq<char>,
    redirect_uri: Seq<char>,
    scope: Seq<char>,
    challenge: Seq<char>,
    state: Seq<char>,
) -> Seq<(Seq<char>, Seq<char>)> {
    seq![
        ("response_type"@, "code"@),
        ("client_id"@, client_id),
        ("redirect_uri"@, redirect_uri),
        ("scope"@, scope),
        ("code_challenge_method"@, "S256"@),
        ("code_challenge"@, challenge),
        ("state"@, state),
    ]
}

/// A query pair of two texts.
fn pair(key: &str, value: &str) -> (r: (String, String))
    ensures
        r.0@ == key@,
        r.1@ == value@,
{
    (String::from_str(key), String::from_str(value))
}

/// The URL that asks the user to authorize `client_id` for `scopes`, with
/// the PKCE challenge and the anti-forgery `state`.
pub fn build_authorize_url(
    client_id: &str,
    redirect_uri: &str,
    scopes: &[&str],
    challenge: &str,
    state: &str,
) -> (r: Option<String>)
    ensures
        ({
            let params = authorize_params(
                client_id@,
                redirect_uri@,
                joined_with_spaces(scopes@.map_values(|s: &str| s@)),
                challenge@,
                state@,
            );
            match r {
                Some(u) => url_with_params_of(SPOTIFY_AUTHORIZE_URL@, params) == Some(u@),
                None => url_with_params_of(SPOTIFY_AUTHORIZE_URL@, params) is None,
            }
        }),
{
    let scope = join_scopes(scopes);
    let mut params: Vec<(String, String)> = Vec::new();
    params.push(pair("response_type", "code"));
    params.push(pair("client_id", client_id));
    params.push(pair("redirect_uri", redirect_uri));
    params.push(pair("scope", scope.as_str()));
    params.push(pair("code_challenge_method", "S256"));
    params.push(pair("code_challenge", challenge));
    params.push(pair("state", state));
    assert(params@.map_values(|p: (String, String)| (p.0@, p.1@)) =~= authorize_params(
        client_id@,
        redirect_uri@,
        scope@,
        challenge@,
        state@,
    ));
    url_with_params(SPOTIFY_AUTHORIZE_URL, &params)
}

} // verus!
