use vstd::prelude::*;

use base64::Engine;
use rand::RngCore;
use sha2::Digest;

verus! {

/// The SHA-256 digest of the UTF-8 bytes of a string; computed only by the
/// outside hash, named here so that contracts can speak of it.
pub uninterp spec fn sha256_str(s: Seq<char>) -> Seq<u8>;

/// The unpadded URL-safe base64 encoding of a byte sequence; computed only
/// by the outside encoder, named here so that contracts can speak of it.
pub uninterp spec fn b64url_nopad(bs: Seq<u8>) -> Seq<char>;

/// A character of the URL-safe base64 alphabet: ASCII alphanumerics, `-`
/// and `_`.
pub open spec fn is_b64url_char(c: char) -> bool {
    ||| (48 <= c as u32 && c as u32 <= 57)
    ||| (65 <= c as u32 && c as u32 <= 90)
    ||| (97 <= c as u32 && c as u32 <= 122)
    ||| c == '-'
    ||| c == '_'
}

/// Relies on rand::thread_rng and RngCore::fill_bytes: `n` bytes from the
/// thread-local cryptographically secure generator. Nothing is assumed of
/// the values beyond their count.
#[verifier::external_body]
fn random_bytes(n: usize) -> (r: Vec<u8>)
    ensures
        r@.len() == n,
{
    let mut bytes = vec![0u8; n];
    rand::thread_rng().fill_bytes(&mut bytes);
    bytes
}

/// Relies on base64's URL_SAFE_NO_PAD engine: the unpadded URL-safe base64
/// encoding of the bytes — four characters for every three bytes, rounded
/// up, all from the URL-safe alphabet.
#[verifier::external_body]
fn b64url_encode(bs: &Vec<u8>) -> (r: String)
    ensures
        r@ == b64url_nopad(bs@),
        r@.len() == (bs@.len() * 4 + 2) / 3,
        forall|i: int| 0 <= i < r@.len() ==> is_b64url_char(r@[i]),
{
    base64::engine::general_purpose::URL_SAFE_NO_PAD.encode(bs)
}

/// Relies on sha2::Sha256::digest over the string's UTF-8 bytes: a 32-byte
/// digest determined by the input alone.
#[verifier::external_body]
fn sha256_of_str(s: &str) -> (r: Vec<u8>)
    ensures
        r@ == sha256_str(s@),
        r@.len() == 32,
{
    sha2::Sha256::digest(s.as_bytes()).to_vec()
}

/// A random URL-safe string: the unpadded URL-safe base64 encoding of `len`
/// random bytes.
pub fn random_url_safe(len: usize) -> (r: String)
    ensures
        r@.len() == (len * 4 + 2) / 3,
        forall|i: int| 0 <= i < r@.len() ==> is_b64url_char(r@[i]),
        exists|bs: Seq<u8>| bs.len() == len && r@ == b64url_nopad(bs),
{
    let bytes = random_bytes(len);
    let r = b64url_encode(&bytes);
    proof {
        assert(bytes@.len() == len && r@ == b64url_nopad(bytes@));
    }
    r
}

/// The per-attempt PKCE material: an anti-CSRF state token, a code
/// verifier, and the S256 challenge derived from the verifier.
pub struct PkceMaterial {
    pub state: String,
    pub verifier: String,
    pub challenge: String,
}

/// Well-formed PKCE material: the challenge is the unpadded URL-safe base64
/// encoding of the SHA-256 digest of the verifier's bytes, the verifier is
/// within the 43..=128 character bound, and the state token is URL-safe
/// with at least 128 bits of entropy behind it.
pub open spec fn pkce_wf(m: PkceMaterial) -> bool {
    &&& m.challenge@ == b64url_nopad(sha256_str(m.verifier@))
    &&& 43 <= m.verifier@.len() <= 128
    &&& m.state@.len() == 32
    &&& forall|i: int| 0 <= i < m.state@.len() ==> is_b64url_char(m.state@[i])
    &&& forall|i: int| 0 <= i < m.verifier@.len() ==> is_b64url_char(m.verifier@[i])
}

impl PkceMaterial {
    /// Generates fresh material for one login attempt: a state token from
    /// 24 random bytes, a verifier from 64 random bytes (86 characters once
    /// encoded), and the challenge `b64url_nopad(sha256(verifier))`.
    pub fn generate() -> (m: PkceMaterial)
        ensures
            pkce_wf(m),
            m.verifier@.len() == 86,
    {
        let state = random_url_safe(24);
        let verifier = random_url_safe(64);
        let digest = sha256_of_str(verifier.as_str());
        let challenge = b64url_encode(&digest);
        PkceMaterial { state, verifier, challenge }
    }
}

} // verus!
