use vstd::prelude::*;

use base64::Engine;
use sha2::Digest;

verus! {

/// The SHA-256 digest of the UTF-8 bytes of `s`, a function of `s` alone.
pub uninterp spec fn sha256_of(s: Seq<char>) -> Seq<u8>;

/// The URL-safe base64 rendering of `b` without padding, a function of `b`
/// alone.
pub uninterp spec fn b64url_of(b: Seq<u8>) -> Seq<char>;

/// The percent-encoded form of `s`, a function of `s` alone.
pub uninterp spec fn urlenc_of(s: Seq<char>) -> Seq<char>;

/// Relies on sha2's Sha256 (Digest::update then finalize): the digest is a
/// function of the input bytes alone and is 32 bytes long.
#[verifier::external_body]
fn sha256(s: &str) -> (r: Vec<u8>)
    ensures
        r@ == sha256_of(s@),
        r@.len() == 32,
{
    let mut hasher = sha2::Sha256::new();
    hasher.update(s.as_bytes());
    hasher.finalize().to_vec()
}

/// Relies on base64's URL_SAFE_NO_PAD engine: four output characters for
/// every three input bytes, the final group shortened instead of padded, a
/// function of the input alone.
#[verifier::external_body]
fn b64url(b: &[u8]) -> (r: String)
    ensures
        r@ == b64url_of(b@),
        r@.len() == (4 * b@.len() + 2) / 3,
{
    base64::engine::general_purpose::URL_SAFE_NO_PAD.encode(b)
}

/// Relies on urlencoding::encode: percent-encodes every byte outside
/// `A`-`Z`, `a`-`z`, `0`-`9`, `-`, `_`, `.` and `~`, a function of the input
/// alone.
#[verifier::external_body]
pub(crate) fn url_encode(s: &str) -> (r: String)
    ensures
        r@ == urlenc_of(s@),
{
    urlencoding::encode(s).into_owned()
}

/// Relies on rand::random drawing from the thread-local cryptographically
/// secure generator: 32 bytes, nothing promised of their values.
#[verifier::external_body]
fn random_bytes() -> (r: Vec<u8>)
    ensures
        r@.len() == 32,
{
    rand::random::<[u8; 32]>().to_vec()
}

/// Relies on uuid::Uuid::new_v4 and its Display form: a freshly drawn random
/// identifier, printed as 36 hyphenated characters; nothing promised of its
/// value.
#[verifier::external_body]
pub(crate) fn new_state_token() -> (r: String)
    ensures
        r@.len() == 36,
{
    uuid::Uuid::new_v4().to_string()
}

/// The challenge that belongs to a verifier string: the URL-safe unpadded
/// base64 rendering of the SHA-256 digest of the verifier's bytes.
pub fn challenge_of_verifier(verifier: &str) -> (r: String)
    ensures
        r@ == b64url_of(sha256_of(verifier@)),
        r@.len() == 43,
{
    let digest = sha256(verifier);
    b64url(digest.as_slice())
}

/// Draws a fresh verifier from 32 random bytes and derives its challenge:
/// the challenge is exactly `challenge_of_verifier` of the returned
/// verifier, so the pair is self-consistent and bound to this one attempt.
pub fn generate_challenge() -> (r: (String, String))
    ensures
        r.1@ == b64url_of(sha256_of(r.0@)),
        r.0@.len() == 43,
        r.1@.len() == 43,
{
    let raw = random_bytes();
    let verifier = b64url(raw.as_slice());
    let challenge = challenge_of_verifier(verifier.as_str());
    (verifier, challenge)
}

} // verus!
