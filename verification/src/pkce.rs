//! PKCE (RFC 7636) and OAuth `state` values.
use vstd::prelude::*;
use vstd::utf8::encode_utf8;
use crate::encoding::{b64url_encode, lemma_b64url_encode_len, b64url_encode_bytes, random_bytes, sha256, sha256_digest};

verus! {

/// Random bytes behind a PKCE code verifier.
pub const VERIFIER_BYTES: usize = 32;

/// Random bytes behind an OAuth state.
pub const STATE_BYTES: usize = 16;

/// A PKCE code verifier and its S256 code challenge.
pub struct PkcePair {
    pub code_verifier: String,
    pub code_challenge: String,
}

/// The S256 code challenge of `code_verifier`: base64url (no padding) of the
/// SHA-256 digest of its UTF-8 bytes.
pub open spec fn s256_challenge(code_verifier: Seq<char>) -> Seq<char> {
    b64url_encode(sha256_digest(encode_utf8(code_verifier)))
}

/// The PKCE pair made from `random`: the verifier is `random` in base64url, the
/// challenge is its S256 challenge.
pub fn pkce_pair_from_bytes(random: &[u8]) -> (p: PkcePair)
    ensures
        p.code_verifier@ == b64url_encode(random@),
        p.code_challenge@ == s256_challenge(p.code_verifier@),
        sha256_digest(encode_utf8(p.code_verifier@)).len() == 32,
{
    let code_verifier = b64url_encode_bytes(random);
    let digest = sha256(code_verifier.as_str().as_bytes());
    let code_challenge = b64url_encode_bytes(digest.as_slice());
    PkcePair { code_verifier, code_challenge }
}

/// A fresh PKCE pair: a verifier from 32 random bytes and its S256 challenge.
///
/// Both values are 43 characters long, within the 43 to 128 that RFC 7636 allows.
pub fn generate_pkce_pair() -> (p: PkcePair)
    ensures
        exists|r: Seq<u8>| r.len() == VERIFIER_BYTES && p.code_verifier@ == b64url_encode(r),
        p.code_challenge@ == s256_challenge(p.code_verifier@),
        p.code_verifier@.len() == 43,
        p.code_challenge@.len() == 43,
{
    let random = random_bytes(VERIFIER_BYTES);
    let p = pkce_pair_from_bytes(random.as_slice());
    proof {
        lemma_b64url_encode_len(random@);
        lemma_b64url_encode_len(sha256_digest(encode_utf8(p.code_verifier@)));
    }
    p
}

/// The OAuth state made from `random`: `random` in base64url.
pub fn state_from_bytes(random: &[u8]) -> (s: String)
    ensures
        s@ == b64url_encode(random@),
{
    b64url_encode_bytes(random)
}

/// A fresh OAuth state: 16 random bytes in base64url.
pub fn generate_state() -> (s: String)
    ensures
        exists|r: Seq<u8>| r.len() == STATE_BYTES && s@ == b64url_encode(r),
        s@.len() == 22,
{
    let random = random_bytes(STATE_BYTES);
    proof {
        lemma_b64url_encode_len(random@);
    }
    state_from_bytes(random.as_slice())
}

} // verus!
