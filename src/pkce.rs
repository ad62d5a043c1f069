//! PKCE challenges and the authorization URL that carries them.
use vstd::prelude::*;
use vstd::utf8::*;
use vstd::string::StringExecFns;
use base64::Engine;

use crate::crypto::{random_bytes, sha256, sha256_of};
use crate::types::PkceData;

verus! {

broadcast use vstd::string::group_string_axioms;

/// Random bytes behind a verifier; their text is 86 characters long.
pub const VERIFIER_BYTES: usize = 64;

/// Random bytes behind a state token; their text is 43 characters long.
pub const STATE_BYTES: usize = 32;

/// Authorization endpoint of the music service.
pub const AUTHORIZE_ENDPOINT: &'static str = "https://accounts.spotify.com/authorize";

/// URL-safe base64 text, without padding, of a byte string.
pub uninterp spec fn b64_url_nopad(data: Seq<u8>) -> Seq<char>;

/// Characters of the URL-safe base64 alphabet.
pub open spec fn url_safe_char(c: char) -> bool {
    ('A' <= c <= 'Z') || ('a' <= c <= 'z') || ('0' <= c <= '9') || c == '-' || c == '_'
}

/// Whether every character of `s` is URL-safe.
pub open spec fn url_safe(s: Seq<char>) -> bool {
    forall|i: int| 0 <= i < s.len() ==> url_safe_char(#[trigger] s[i])
}

/// Relies on base64's `URL_SAFE_NO_PAD.encode`, whose text has
/// `ceil(4n / 3)` characters for `n` bytes, all of the URL-safe alphabet
/// (no padding).
#[verifier::external_body]
fn b64_url(data: &[u8]) -> (r: String)
    ensures
        r@ == b64_url_nopad(data@),
        r@.len() == (4 * data@.len() + 2) / 3,
        url_safe(r@),
{
    base64::engine::general_purpose::URL_SAFE_NO_PAD.encode(data)
}

/// The S256 challenge of a verifier.
pub open spec fn challenge_of(verifier: Seq<char>) -> Seq<char> {
    b64_url_nopad(sha256_of(encode_utf8(verifier)))
}

/// Builds the PKCE triple from the random bytes of its verifier and state.
pub fn pkce_from_bytes(verifier_bytes: &[u8], state_bytes: &[u8]) -> (r: PkceData)
    ensures
        r.verifier@ == b64_url_nopad(verifier_bytes@),
        r.challenge@ == challenge_of(r.verifier@),
        r.state@ == b64_url_nopad(state_bytes@),
        r.verifier@.len() == (4 * verifier_bytes@.len() + 2) / 3,
        r.challenge@.len() == 43,
        r.state@.len() == (4 * state_bytes@.len() + 2) / 3,
        url_safe(r.verifier@),
        url_safe(r.challenge@),
        url_safe(r.state@),
{
    let verifier = b64_url(verifier_bytes);
    let digest = sha256(verifier.as_str().as_bytes());
    let challenge = b64_url(digest.as_slice());
    let state = b64_url(state_bytes);
    PkceData { verifier, challenge, state }
}

/// A fresh PKCE triple from the cryptographic generator: the verifier
/// encodes 64 drawn bytes, the state 32 bytes drawn apart from them.
pub fn generate_pkce() -> (r: PkceData)
    ensures
        exists|b: Seq<u8>| b.len() == VERIFIER_BYTES && r.verifier@ == #[trigger] b64_url_nopad(b),
        exists|b: Seq<u8>| b.len() == STATE_BYTES && r.state@ == #[trigger] b64_url_nopad(b),
        r.verifier@.len() == 86,
        43 <= r.verifier@.len() <= 128,
        r.challenge@ == challenge_of(r.verifier@),
        r.challenge@.len() == 43,
        r.state@.len() == 43,
        url_safe(r.verifier@),
        url_safe(r.challenge@),
        url_safe(r.state@),
{
    let verifier_bytes = random_bytes(VERIFIER_BYTES);
    let state_bytes = random_bytes(STATE_BYTES);
    let r = pkce_from_bytes(verifier_bytes.as_slice(), state_bytes.as_slice());
    assert(r.verifier@ == b64_url_nopad(verifier_bytes@));
    assert(r.state@ == b64_url_nopad(state_bytes@));
    r
}

/// Bytes that percent-encoding leaves as they are.
pub open spec fn unreserved(b: u8) -> bool {
    (48 <= b <= 57) || (65 <= b <= 90) || (97 <= b <= 122) || b == 45 || b == 46 || b == 95
        || b == 126
}

/// Upper-case hexadecimal digit of `d` (below 16).
pub open spec fn hex_upper(d: u8) -> char {
    if d < 10 {
        ((48 + d) as u8) as char
    } else {
        ((55 + d) as u8) as char
    }
}

/// Percent-encoding of bytes: unreserved bytes stay, the others become
/// `%` and two upper-case hexadecimal digits.
pub open spec fn percent_encoded(bytes: Seq<u8>) -> Seq<char>
    decreases bytes.len(),
{
    if bytes.len() == 0 {
        seq![]
    } else {
        let b = bytes[0];
        (if unreserved(b) {
            seq![b as char]
        } else {
            seq!['%', hex_upper(b / 16), hex_upper(b % 16)]
        }) + percent_encoded(bytes.drop_first())
    }
}

/// Percent-encoding of the UTF-8 bytes of a text.
pub open spec fn url_encoded(s: Seq<char>) -> Seq<char> {
    percent_encoded(encode_utf8(s))
}

/// Relies on `urlencoding::encode`, which percent-encodes every byte of the
/// UTF-8 text except ASCII letters, digits and `-`, `.`, `_`, `~`.
#[verifier::external_body]
fn url_encode(s: &str) -> (r: String)
    ensures
        r@ == url_encoded(s@),
{
    urlencoding::encode(s).into_owned()
}

/// The texts joined with one space between neighbours.
pub open spec fn joined(parts: Seq<Seq<char>>) -> Seq<char>
    decreases parts.len(),
{
    if parts.len() == 0 {
        seq![]
    } else if parts.len() == 1 {
        parts[0]
    } else {
        joined(parts.drop_last()) + " "@ + parts.last()
    }
}

/// Joins the scopes with single spaces.
pub fn join_scopes(scopes: &Vec<String>) -> (r: String)
    ensures
        r@ == joined(scopes.deep_view()),
{
    let mut r = String::new();
    let mut i: usize = 0;
    while i < scopes.len()
        invariant
            i <= scopes@.len(),
            r@ == joined(scopes.deep_view().take(i as int)),
        decreases scopes@.len() - i,
    {
        proof {
            let s = scopes.deep_view();
            assert(s.take(i + 1).drop_last() =~= s.take(i as int));
        }
        if i > 0 {
            r.append(" ");
        }
        r.append(scopes[i].as_str());
        i = i + 1;
    }
    assert(scopes.deep_view().take(scopes@.len() as int) =~= scopes.deep_view());
    r
}

/// `key=value` with the value percent-encoded.
pub open spec fn query_param(key: Seq<char>, value: Seq<char>) -> Seq<char> {
    key + "="@ + url_encoded(value)
}

/// The authorization URL that asks for `scope` with the given challenge
/// and state.
pub open spec fn authorize_url(
    client_id: Seq<char>,
    redirect_uri: Seq<char>,
    scope: Seq<char>,
    challenge: Seq<char>,
    state: Seq<char>,
) -> Seq<char> {
    AUTHORIZE_ENDPOINT@ + "?"@ + query_param("client_id"@, client_id) + "&"@ + query_param(
        "response_type"@,
        "code"@,
    ) + "&"@ + query_param("redirect_uri"@, redirect_uri) + "&"@ + query_param("scope"@, scope)
        + "&"@ + query_param("code_challenge_method"@, "S256"@) + "&"@ + query_param(
        "code_challenge"@,
        challenge,
    ) + "&"@ + query_param("state"@, state)
}

fn push_param(url: &mut String, sep: &str, key: &str, value: &str)
    ensures
        final(url)@ == old(url)@ + sep@ + query_param(key@, value@),
{
    url.append(sep);
    url.append(key);
    url.append("=");
    let v = url_encode(value);
    url.append(v.as_str());
}

/// Builds the authorization URL for a client and a PKCE triple.
pub fn build_authorize_url(
    client_id: &str,
    redirect_uri: &str,
    scopes: &Vec<String>,
    pkce: &PkceData,
) -> (r: String)
    ensures
        r@ == authorize_url(
            client_id@,
            redirect_uri@,
            joined(scopes.deep_view()),
            pkce.challenge@,
            pkce.state@,
        ),
{
    let scope = join_scopes(scopes);
    let mut url = String::from_str(AUTHORIZE_ENDPOINT);
    push_param(&mut url, "?", "client_id", client_id);
    push_param(&mut url, "&", "response_type", "code");
    push_param(&mut url, "&", "redirect_uri", redirect_uri);
    push_param(&mut url, "&", "scope", scope.as_str());
    push_param(&mut url, "&", "code_challenge_method", "S256");
    push_param(&mut url, "&", "code_challenge", pkce.challenge.as_str());
    push_param(&mut url, "&", "state", pkce.state.as_str());
    url
}

} // verus!
