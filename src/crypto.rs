//! Machine-bound authenticated encryption of credential text.
//!
//! A token is the standard base64 text of `nonce || AES-256-GCM(plaintext)`,
//! under a key hashed from the machine identifier and a fixed salt.
use vstd::prelude::*;
use vstd::utf8::*;
use vstd::slice::slice_to_vec;

use aes_gcm::aead::{Aead, KeyInit};
use base64::Engine;
use rand::RngCore;
use sha2::Digest;

use crate::types::AuthError;
use crate::types::with_detail;

verus! {

broadcast use vstd::string::group_string_axioms;

/// Bytes of an AES-GCM nonce.
pub const NONCE_LEN: usize = 12;

/// Bytes of an AES-256 key.
pub const KEY_LEN: usize = 32;

/// Bytes of the authentication tag that follows the ciphertext.
pub const TAG_LEN: usize = 16;

/// Longest plaintext, in bytes, that AES-GCM accepts.
pub const PLAINTEXT_MAX: u64 = 68_719_476_736;

/// Hashed after the machine identifier to derive the key.
pub const KEY_SALT: &'static str = "spotify-rework-salt-v1";

/// The SHA-256 digest of a byte string.
pub uninterp spec fn sha256_of(data: Seq<u8>) -> Seq<u8>;

/// Standard base64 text (with padding) of a byte string.
pub uninterp spec fn b64_standard(data: Seq<u8>) -> Seq<char>;

/// AES-256-GCM ciphertext followed by its tag, without associated data.
pub uninterp spec fn aes_gcm_sealed(key: Seq<u8>, nonce: Seq<u8>, plaintext: Seq<u8>) -> Seq<u8>;

/// Relies on `machine_uid::get`: the machine's identifier, or the reason
/// it could not be read.
#[verifier::external_body]
fn machine_id() -> (r: Result<String, String>) {
    match machine_uid::get() {
        Ok(id) => Ok(id),
        Err(e) => Err(e.to_string()),
    }
}

/// Relies on sha2's `Sha256::digest`: a 32-byte digest of `data`.
#[verifier::external_body]
pub(crate) fn sha256(data: &[u8]) -> (r: Vec<u8>)
    ensures
        r@ == sha256_of(data@),
        r@.len() == 32,
{
    sha2::Sha256::digest(data).to_vec()
}

/// Relies on rand's `thread_rng().fill_bytes`: `n` bytes from the
/// thread-local cryptographic generator.
#[verifier::external_body]
pub(crate) fn random_bytes(n: usize) -> (r: Vec<u8>)
    ensures
        r@.len() == n,
{
    let mut b = vec![0u8; n];
    rand::thread_rng().fill_bytes(&mut b);
    b
}

/// Relies on base64's `STANDARD.encode`; distinct byte strings have
/// distinct encodings.
#[verifier::external_body]
fn b64_encode(data: &[u8]) -> (r: String)
    ensures
        r@ == b64_standard(data@),
        forall|b: Seq<u8>| b != data@ ==> #[trigger] b64_standard(b) != r@,
{
    base64::engine::general_purpose::STANDARD.encode(data)
}

/// Relies on base64's `STANDARD.decode`, which gives back the bytes of any
/// text that `STANDARD.encode` produced, and, as it requires canonical
/// padding and no trailing bits, accepts no other text.
#[verifier::external_body]
fn b64_decode(text: &str) -> (r: Option<Vec<u8>>)
    ensures
        forall|b: Seq<u8>|
            text@ == #[trigger] b64_standard(b) ==> (r is Some && r->Some_0@ == b),
        r matches Some(b) ==> text@ == b64_standard(b@),
{
    base64::engine::general_purpose::STANDARD.decode(text).ok()
}

/// Relies on aes-gcm's `Aes256Gcm::encrypt`, which fails only on a
/// plaintext longer than its `P_MAX` and otherwise returns the ciphertext,
/// as long as the plaintext, followed by a 16-byte tag.
#[verifier::external_body]
fn aes_seal(key: &[u8], nonce: &[u8], plaintext: &[u8]) -> (r: Option<Vec<u8>>)
    requires
        key@.len() == KEY_LEN,
        nonce@.len() == NONCE_LEN,
    ensures
        r is Some <==> plaintext@.len() <= PLAINTEXT_MAX,
        r matches Some(c) ==> c@ == aes_gcm_sealed(key@, nonce@, plaintext@),
        r matches Some(c) ==> c@.len() == plaintext@.len() + TAG_LEN,
{
    let cipher = aes_gcm::Aes256Gcm::new_from_slice(key).ok()?;
    cipher.encrypt(aes_gcm::Nonce::from_slice(nonce), plaintext).ok()
}

/// Relies on aes-gcm's `Aes256Gcm::decrypt`: it recovers what `encrypt`
/// sealed under the same key and nonce, and succeeds only where the tag
/// checks, that is where encrypting its output gives `ciphertext` again.
#[verifier::external_body]
fn aes_open(key: &[u8], nonce: &[u8], ciphertext: &[u8]) -> (r: Option<Vec<u8>>)
    requires
        key@.len() == KEY_LEN,
        nonce@.len() == NONCE_LEN,
    ensures
        forall|p: Seq<u8>|
            p.len() <= PLAINTEXT_MAX && ciphertext@ == #[trigger] aes_gcm_sealed(key@, nonce@, p)
                ==> (r is Some && r->Some_0@ == p),
        r matches Some(p) ==> ciphertext@ == aes_gcm_sealed(key@, nonce@, p@),
{
    let cipher = aes_gcm::Aes256Gcm::new_from_slice(key).ok()?;
    cipher.decrypt(aes_gcm::Nonce::from_slice(nonce), ciphertext).ok()
}

/// Relies on `String::from_utf8`, which fails exactly on invalid UTF-8.
#[verifier::external_body]
fn utf8_string(bytes: Vec<u8>) -> (r: Option<String>)
    ensures
        r is Some <==> valid_utf8(bytes@),
        r matches Some(s) ==> s@ == decode_utf8(bytes@),
{
    String::from_utf8(bytes).ok()
}

/// `v` with the bytes of `s` added at its end.
pub fn append_bytes(v: &mut Vec<u8>, s: &[u8])
    ensures
        final(v)@ == old(v)@ + s@,
{
    let ghost start = v@;
    let mut i: usize = 0;
    while i < s.len()
        invariant
            i <= s@.len(),
            v@ == start + s@.subrange(0, i as int),
        decreases s@.len() - i,
    {
        v.push(s[i]);
        i = i + 1;
    }
    assert(s@.subrange(0, s@.len() as int) == s@);
}

/// The key that a machine with identifier `hwid` encrypts under.
pub open spec fn machine_key(hwid: Seq<char>) -> Seq<u8> {
    sha256_of(encode_utf8(hwid) + encode_utf8(KEY_SALT@))
}

/// The token that sealing `text` under `key` with `nonce` gives.
pub open spec fn sealed_token(key: Seq<u8>, nonce: Seq<u8>, text: Seq<char>) -> Seq<char> {
    b64_standard(nonce + aes_gcm_sealed(key, nonce, encode_utf8(text)))
}

/// Whether `text` is short enough to be sealed.
pub open spec fn sealable(text: Seq<char>) -> bool {
    encode_utf8(text).len() <= PLAINTEXT_MAX
}

/// The error of an unreadable machine identifier.
pub open spec fn hwid_failure(e: AuthError) -> bool {
    e matches AuthError::EncryptionError(d) && "Failed to get HWID: "@.is_prefix_of(d@)
}

/// Whether the AES-GCM part of a token sealing `text` under `key` with
/// `nonce` is as long as the text's bytes plus the tag.
pub open spec fn sealed_body_len_ok(key: Seq<u8>, nonce: Seq<u8>, text: Seq<char>) -> bool {
    aes_gcm_sealed(key, nonce, encode_utf8(text)).len() == encode_utf8(text).len() + TAG_LEN
}

/// The error of a plaintext too long to seal.
pub open spec fn too_long_failure(e: AuthError) -> bool {
    e matches AuthError::EncryptionError(d) && d@ == "Encryption failed"@
}

/// Reads the machine identifier.
pub fn get_hwid() -> (r: Result<String, AuthError>)
    ensures
        r matches Err(e) ==> hwid_failure(e),
{
    match machine_id() {
        Ok(id) => Ok(id),
        Err(e) => {
            let d = with_detail("Failed to get HWID: ", e.as_str());
            assert("Failed to get HWID: "@.is_prefix_of(d@)) by {
                assert(d@.subrange(0, "Failed to get HWID: "@.len() as int) =~= "Failed to get HWID: "@);
            }
            Err(AuthError::EncryptionError(d))
        },
    }
}

/// Derives the 256-bit key of a machine from its identifier.
pub fn derive_key_from_hwid(hwid: &str) -> (r: Vec<u8>)
    ensures
        r@ == machine_key(hwid@),
        r@.len() == KEY_LEN,
{
    let mut data = slice_to_vec(hwid.as_bytes());
    append_bytes(&mut data, KEY_SALT.as_bytes());
    sha256(data.as_slice())
}

/// Seals `plaintext` under `key` with `nonce` into a token. A token sealed
/// with another nonce, of any text, is a different token.
pub fn seal_with_key(key: &Vec<u8>, nonce: &Vec<u8>, plaintext: &str) -> (r: Result<String, AuthError>)
    requires
        key@.len() == KEY_LEN,
        nonce@.len() == NONCE_LEN,
    ensures
        r is Ok <==> sealable(plaintext@),
        r matches Ok(t) ==> t@ == sealed_token(key@, nonce@, plaintext@),
        r is Ok ==> sealed_body_len_ok(key@, nonce@, plaintext@),
        r matches Ok(t) ==> forall|n: Seq<u8>, p: Seq<char>|
            n.len() == NONCE_LEN && n != nonce@ ==> #[trigger] sealed_token(key@, n, p) != t@,
        r matches Err(e) ==> too_long_failure(e),
{
    match aes_seal(key.as_slice(), nonce.as_slice(), plaintext.as_bytes()) {
        Some(body) => {
            let mut combined = nonce.clone();
            append_bytes(&mut combined, body.as_slice());
            let t = b64_encode(combined.as_slice());
            assert forall|n: Seq<u8>, p: Seq<char>|
                n.len() == NONCE_LEN && n != nonce@ implies #[trigger] sealed_token(key@, n, p) != t@ by {
                let other = n + aes_gcm_sealed(key@, n, encode_utf8(p));
                assert(other.subrange(0, 12) =~= n);
                assert(combined@.subrange(0, 12) =~= nonce@);
                assert(other != combined@);
            }
            Ok(t)
        },
        None => Err(AuthError::EncryptionError(String::from_str("Encryption failed"))),
    }
}

/// Opens a token sealed under `key`: every token that `seal_with_key`
/// produced under that key opens to the text it sealed, and a text comes
/// out only of a token that seals exactly that text under `key`.
pub fn open_with_key(key: &Vec<u8>, token: &str) -> (r: Result<String, AuthError>)
    requires
        key@.len() == KEY_LEN,
    ensures
        forall|n: Seq<u8>, p: Seq<char>|
            n.len() == NONCE_LEN && sealable(p) && token@ == #[trigger] sealed_token(key@, n, p)
                ==> (r is Ok && r->Ok_0@ == p),
        r matches Ok(p) ==> exists|n: Seq<u8>|
            n.len() == NONCE_LEN && token@ == #[trigger] sealed_token(key@, n, p@),
        r matches Err(e) ==> e is EncryptionError,
{
    let mut combined = match b64_decode(token) {
        Some(b) => b,
        None => {
            return Err(AuthError::EncryptionError(String::from_str("Base64 decode failed")));
        },
    };
    if combined.len() < NONCE_LEN {
        return Err(AuthError::EncryptionError(String::from_str("Invalid encrypted data")));
    }
    let ghost all = combined@;
    let body = combined.split_off(NONCE_LEN);
    let nonce = combined;
    assert forall|n: Seq<u8>, p: Seq<char>|
        n.len() == NONCE_LEN && sealable(p) && token@ == #[trigger] sealed_token(key@, n, p)
        implies nonce@ == n && body@ == aes_gcm_sealed(key@, n, encode_utf8(p)) by {
        assert(all == n + aes_gcm_sealed(key@, n, encode_utf8(p)));
        assert(all.subrange(0, 12) =~= n);
        assert(all.subrange(12, all.len() as int) =~= aes_gcm_sealed(key@, n, encode_utf8(p)));
    }
    let plain = match aes_open(key.as_slice(), nonce.as_slice(), body.as_slice()) {
        Some(p) => p,
        None => {
            return Err(AuthError::EncryptionError(String::from_str("Decryption failed")));
        },
    };
    proof {
        broadcast use encode_utf8_valid_utf8, encode_utf8_decode_utf8;
    }
    let ghost plain_bytes = plain@;
    match utf8_string(plain) {
        Some(s) => {
            proof {
                decode_utf8_encode_utf8(plain_bytes);
                assert(all =~= nonce@ + body@);
                assert(nonce@.len() == NONCE_LEN);
                assert(token@ == sealed_token(key@, nonce@, s@));
            }
            let res: Result<String, AuthError> = Ok(s);
            assert(token@ == sealed_token(key@, nonce@, res->Ok_0@));
            res
        },
        None => Err(AuthError::EncryptionError(String::from_str("UTF-8 decode failed"))),
    }
}

/// Encrypts `plaintext` under this machine's key with a fresh random nonce.
pub fn encrypt(plaintext: &str) -> (r: Result<String, AuthError>)
    ensures
        r matches Ok(t) ==> exists|h: Seq<char>, n: Seq<u8>|
            n.len() == NONCE_LEN && t@ == #[trigger] sealed_token(machine_key(h), n, plaintext@)
                && sealed_body_len_ok(machine_key(h), n, plaintext@),
        r matches Err(e) ==> hwid_failure(e) || (!sealable(plaintext@) && too_long_failure(e)),
{
    let hwid = get_hwid()?;
    let key = derive_key_from_hwid(hwid.as_str());
    let nonce = random_bytes(NONCE_LEN);
    let r = seal_with_key(&key, &nonce, plaintext);
    proof {
        if r is Ok {
            assert(r->Ok_0@ == sealed_token(machine_key(hwid@), nonce@, plaintext@));
        }
    }
    r
}

/// Decrypts a token that `encrypt` produced on this machine.
pub fn decrypt(encrypted: &str) -> (r: Result<String, AuthError>)
    ensures
        r matches Ok(p) ==> exists|h: Seq<char>, n: Seq<u8>|
            n.len() == NONCE_LEN && encrypted@ == #[trigger] sealed_token(machine_key(h), n, p@),
        r matches Err(e) ==> e is EncryptionError,
{
    let hwid = get_hwid()?;
    let key = derive_key_from_hwid(hwid.as_str());
    let r = open_with_key(&key, encrypted);
    proof {
        if r is Ok {
            let n = choose|n: Seq<u8>|
                n.len() == NONCE_LEN && encrypted@ == #[trigger] sealed_token(key@, n, r->Ok_0@);
            assert(encrypted@ == sealed_token(machine_key(hwid@), n, r->Ok_0@));
        }
    }
    r
}

} // verus!
