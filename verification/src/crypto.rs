//! Token encryption with AES-256-GCM.
//!
//! The key is derived from the key material with HKDF-SHA256 rather than cut
//! from its first bytes, so all of a longer key material counts.
//!
//! Format: `base64url(nonce (12 bytes) ++ ciphertext)`.
use vstd::prelude::*;
use crate::text::result_str_view;
use aes_gcm::aead::{Aead, KeyInit};
use vstd::utf8::{decode_utf8, encode_utf8, encode_utf8_decode_utf8, encode_utf8_valid_utf8, valid_utf8};
use crate::encoding::{
    b64url_decode, b64url_encode, b64url_encode_bytes, lemma_b64url_decode_encode, random_bytes,
    spec_b64url_decode, string_from_utf8,
};

verus! {

/// Length of the AES-GCM nonce, in bytes.
pub const NONCE_LEN: usize = 12;

/// Least length of the key material, in bytes.
pub const MIN_KEY_MATERIAL_LEN: usize = 32;

/// Length of the AES-GCM authentication tag, in bytes.
pub const TAG_LEN: usize = 16;

/// Longest plaintext AES-GCM encrypts (`aes_gcm::P_MAX`, 2^36 bytes).
pub const AES_GCM_P_MAX: u64 = 68_719_476_736;

/// The HKDF `info` that binds derived keys to this use.
pub const HKDF_INFO: &'static str = "auth-core/token/v1";

/// The first 32 bytes of output keying material of HKDF-SHA256 without salt.
pub uninterp spec fn hkdf_sha256(ikm: Seq<u8>, info: Seq<u8>) -> Seq<u8>;

/// Derives 32 bytes with `hkdf::Hkdf::<Sha256>::new(None, ikm)` and `expand(info, ..)`.
///
/// Trusted: the result is what `hkdf_sha256` names, 32 bytes long; `expand`
/// fails only for outputs longer than 255 * 32 bytes, so it does not fail here.
#[verifier::external_body]
fn hkdf_sha256_32(ikm: &[u8], info: &[u8]) -> (okm: Option<Vec<u8>>)
    ensures
        okm is Some,
        okm matches Some(k) ==> k@ == hkdf_sha256(ikm@, info@) && k@.len() == 32,
{
    let mut okm = vec![0u8; 32];
    hkdf::Hkdf::<sha2::Sha256>::new(None, ikm).expand(info, &mut okm).ok()?;
    Some(okm)
}

/// The AES-256-GCM ciphertext (with its 16-byte tag appended) of `plaintext`
/// under `key` and `nonce`, without associated data.
pub uninterp spec fn aes256gcm_seal(key: Seq<u8>, nonce: Seq<u8>, plaintext: Seq<u8>) -> Seq<u8>;

/// The AES-256-GCM decryption of `ciphertext` under `key` and `nonce`, without
/// associated data (`None` when authentication fails).
pub uninterp spec fn aes256gcm_open(key: Seq<u8>, nonce: Seq<u8>, ciphertext: Seq<u8>) -> Option<Seq<u8>>;

/// Encrypts with `aes_gcm::Aes256Gcm::encrypt`.
///
/// Trusted: encryption fails exactly for plaintexts longer than `P_MAX`; the
/// ciphertext is what `aes256gcm_seal` names, 16 bytes longer than the
/// plaintext, and decrypting it with the same key and nonce gives the plaintext back.
#[verifier::external_body]
fn aes256gcm_encrypt(key: &[u8], nonce: &[u8], plaintext: &[u8]) -> (res: Option<Vec<u8>>)
    requires
        key@.len() == 32,
        nonce@.len() == NONCE_LEN,
    ensures
        res is Some == (plaintext@.len() <= AES_GCM_P_MAX),
        res matches Some(c) ==> {
            &&& c@ == aes256gcm_seal(key@, nonce@, plaintext@)
            &&& c@.len() == plaintext@.len() + TAG_LEN
            &&& aes256gcm_open(key@, nonce@, c@) == Some(plaintext@)
        },
{
    let cipher = aes_gcm::Aes256Gcm::new(aes_gcm::Key::<aes_gcm::Aes256Gcm>::from_slice(key));
    cipher.encrypt(aes_gcm::Nonce::from_slice(nonce), plaintext).ok()
}

/// Decrypts with `aes_gcm::Aes256Gcm::decrypt`.
///
/// Trusted: the result is what `aes256gcm_open` names.
#[verifier::external_body]
fn aes256gcm_decrypt(key: &[u8], nonce: &[u8], ciphertext: &[u8]) -> (res: Option<Vec<u8>>)
    requires
        key@.len() == 32,
        nonce@.len() == NONCE_LEN,
    ensures
        match res {
            Some(p) => aes256gcm_open(key@, nonce@, ciphertext@) == Some(p@),
            None => aes256gcm_open(key@, nonce@, ciphertext@) is None,
        },
{
    let cipher = aes_gcm::Aes256Gcm::new(aes_gcm::Key::<aes_gcm::Aes256Gcm>::from_slice(key));
    cipher.decrypt(aes_gcm::Nonce::from_slice(nonce), ciphertext).ok()
}

/// Why a token could not be encrypted or decrypted.
#[derive(Debug, Clone, Copy, PartialEq, Eq, Structural)]
pub enum CryptoError {
    /// The key material is shorter than 32 bytes.
    KeyTooShort,
    /// HKDF refused to expand the key.
    KeyDerivation,
    /// The plaintext is too long for AES-GCM.
    Encrypt,
    /// The token is not base64url without padding.
    Decode,
    /// The token holds no more than a nonce.
    TooShort,
    /// Authentication failed: wrong key, or a tampered token.
    Decrypt,
    /// The decrypted token is not UTF-8 text.
    Utf8,
}

impl CryptoError {
    /// The human-readable description of the error.
    pub open spec fn spec_message(self) -> Seq<char> {
        match self {
            CryptoError::KeyTooShort => "token encryption key must be at least 32 bytes"@,
            CryptoError::KeyDerivation => "hkdf expand"@,
            CryptoError::Encrypt => "encrypt token"@,
            CryptoError::Decode => "decode encrypted token"@,
            CryptoError::TooShort => "encrypted token too short"@,
            CryptoError::Decrypt => "decrypt token"@,
            CryptoError::Utf8 => "token utf8"@,
        }
    }

    /// The human-readable description of the error.
    pub fn message(&self) -> (m: &'static str)
        ensures
            m@ == self.spec_message(),
    {
        match self {
            CryptoError::KeyTooShort => "token encryption key must be at least 32 bytes",
            CryptoError::KeyDerivation => "hkdf expand",
            CryptoError::Encrypt => "encrypt token",
            CryptoError::Decode => "decode encrypted token",
            CryptoError::TooShort => "encrypted token too short",
            CryptoError::Decrypt => "decrypt token",
            CryptoError::Utf8 => "token utf8",
        }
    }
}

/// The key derived from `key_material`.
pub open spec fn spec_derive_key(key_material: Seq<char>) -> Result<Seq<u8>, CryptoError> {
    if encode_utf8(key_material).len() < MIN_KEY_MATERIAL_LEN {
        Err(CryptoError::KeyTooShort)
    } else {
        Ok(hkdf_sha256(encode_utf8(key_material), encode_utf8(HKDF_INFO@)))
    }
}

/// Derives the 32-byte AES key from the UTF-8 bytes of `key_material` with
/// HKDF-SHA256 (no salt, info `auth-core/token/v1`); refuses key material
/// shorter than 32 bytes.
pub fn derive_key(key_material: &str) -> (res: Result<Vec<u8>, CryptoError>)
    ensures
        match res {
            Ok(k) => spec_derive_key(key_material@) == Ok::<Seq<u8>, CryptoError>(k@) && k@.len() == 32,
            Err(e) => spec_derive_key(key_material@) == Err::<Seq<u8>, CryptoError>(e),
        },
{
    let bytes = key_material.as_bytes();
    if bytes.len() < MIN_KEY_MATERIAL_LEN {
        return Err(CryptoError::KeyTooShort);
    }
    match hkdf_sha256_32(bytes, HKDF_INFO.as_bytes()) {
        Some(k) => Ok(k),
        None => Err(CryptoError::KeyDerivation),
    }
}

/// The key is HKDF-SHA256 over all the UTF-8 bytes of the key material (not
/// over a prefix of it), with the info `auth-core/token/v1`; key material under
/// 32 bytes is refused.
pub proof fn lemma_key_derived_from_whole_key_material(key_material: Seq<char>)
    ensures
        encode_utf8(key_material).len() < 32 ==> spec_derive_key(key_material)
            == Err::<Seq<u8>, CryptoError>(CryptoError::KeyTooShort),
        encode_utf8(key_material).len() >= 32 ==> spec_derive_key(key_material)
            == Ok::<Seq<u8>, CryptoError>(
            hkdf_sha256(encode_utf8(key_material), encode_utf8("auth-core/token/v1"@)),
        ),
{
}

/// Two different key materials (of at least 32 bytes) derive their keys from
/// different input keying material, even when they share their first 32 bytes.
pub proof fn lemma_distinct_key_materials_distinct_ikm(a: Seq<char>, b: Seq<char>)
    requires
        a != b,
        encode_utf8(a).len() >= 32,
        encode_utf8(b).len() >= 32,
    ensures
        spec_derive_key(a) == Ok::<Seq<u8>, CryptoError>(hkdf_sha256(encode_utf8(a), encode_utf8(HKDF_INFO@))),
        spec_derive_key(b) == Ok::<Seq<u8>, CryptoError>(hkdf_sha256(encode_utf8(b), encode_utf8(HKDF_INFO@))),
        encode_utf8(a) != encode_utf8(b),
{
    lemma_key_derived_from_whole_key_material(a);
    lemma_key_derived_from_whole_key_material(b);
    encode_utf8_decode_utf8(a);
    encode_utf8_decode_utf8(b);
}

/// What [`decrypt_token`] gives for `encoded` under `key_material`.
pub open spec fn spec_decrypt_token(key_material: Seq<char>, encoded: Seq<char>) -> Result<Seq<char>, CryptoError> {
    match spec_derive_key(key_material) {
        Err(e) => Err(e),
        Ok(key) => match spec_b64url_decode(encoded) {
            None => Err(CryptoError::Decode),
            Some(bytes) => if bytes.len() <= NONCE_LEN {
                Err(CryptoError::TooShort)
            } else {
                match aes256gcm_open(key, bytes.take(NONCE_LEN as int), bytes.skip(NONCE_LEN as int)) {
                    None => Err(CryptoError::Decrypt),
                    Some(plain) => if valid_utf8(plain) {
                        Ok(decode_utf8(plain))
                    } else {
                        Err(CryptoError::Utf8)
                    },
                }
            },
        },
    }
}

/// How a token is read: base64url without padding, then the first 12 bytes are
/// the nonce and the rest is the AES-GCM ciphertext; a token of 12 bytes or fewer
/// is too short (there is no ciphertext), and the plaintext must be UTF-8.
pub proof fn lemma_decrypt_decision(key_material: Seq<char>, encoded: Seq<char>)
    requires
        encode_utf8(key_material).len() >= 32,
    ensures
        ({
            let key = hkdf_sha256(encode_utf8(key_material), encode_utf8("auth-core/token/v1"@));
            &&& spec_b64url_decode(encoded) is None ==> spec_decrypt_token(key_material, encoded)
                == Err::<Seq<char>, CryptoError>(CryptoError::Decode)
            &&& spec_b64url_decode(encoded) matches Some(b) ==> (b.len() <= 12
                ==> spec_decrypt_token(key_material, encoded) == Err::<Seq<char>, CryptoError>(
                CryptoError::TooShort,
            ))
            &&& spec_b64url_decode(encoded) matches Some(b) ==> (b.len() > 12 ==> (
            spec_decrypt_token(key_material, encoded) == match aes256gcm_open(
                key,
                b.subrange(0, 12),
                b.subrange(12, b.len() as int),
            ) {
                None => Err::<Seq<char>, CryptoError>(CryptoError::Decrypt),
                Some(p) => if valid_utf8(p) {
                    Ok::<Seq<char>, CryptoError>(decode_utf8(p))
                } else {
                    Err::<Seq<char>, CryptoError>(CryptoError::Utf8)
                },
            }))
        }),
{
    lemma_key_derived_from_whole_key_material(key_material);
    if let Some(b) = spec_b64url_decode(encoded) {
        assert(b.take(12) == b.subrange(0, 12));
        assert(b.skip(12) == b.subrange(12, b.len() as int));
    }
}

/// Decrypting fails whenever the token does not decode, is too short, or does
/// not authenticate under the derived key: only a token that AES-GCM opens with
/// its own first 12 bytes as nonce gives a plaintext.
pub proof fn lemma_decrypt_ok_only_if_authentic(key_material: Seq<char>, encoded: Seq<char>)
    requires
        spec_decrypt_token(key_material, encoded) is Ok,
    ensures
        encode_utf8(key_material).len() >= 32,
        spec_b64url_decode(encoded) is Some,
        spec_b64url_decode(encoded)->Some_0.len() > 12,
        aes256gcm_open(
            hkdf_sha256(encode_utf8(key_material), encode_utf8("auth-core/token/v1"@)),
            spec_b64url_decode(encoded)->Some_0.subrange(0, 12),
            spec_b64url_decode(encoded)->Some_0.subrange(12, spec_b64url_decode(encoded)->Some_0.len() as int),
        ) matches Some(p) && valid_utf8(p) && spec_decrypt_token(key_material, encoded)
            == Ok::<Seq<char>, CryptoError>(decode_utf8(p)),
{
    lemma_key_derived_from_whole_key_material(key_material);
    let b = spec_b64url_decode(encoded)->Some_0;
    assert(b.take(12) == b.subrange(0, 12));
    assert(b.skip(12) == b.subrange(12, b.len() as int));
}

/// Whether `encoded` is an encryption of `plaintext` under the key of `key_material`
/// with some 12-byte nonce.
pub open spec fn is_encryption_of(key_material: Seq<char>, plaintext: Seq<char>, encoded: Seq<char>) -> bool {
    exists|nonce: Seq<u8>| #![trigger b64url_encode(nonce)]
        nonce.len() == NONCE_LEN && encoded == b64url_encode(
            nonce + aes256gcm_seal(spec_derive_key(key_material)->Ok_0, nonce, encode_utf8(plaintext)),
        )
}

/// Encrypts `plaintext` under the key derived from `key_material`, with a fresh
/// random nonce, as `base64url(nonce ++ ciphertext)`.
///
/// Fails exactly when the key material is shorter than 32 bytes or the
/// plaintext is longer than AES-GCM allows; a token it returns decrypts to
/// `plaintext` under the same key material.
pub fn encrypt_token(key_material: &str, plaintext: &str) -> (res: Result<String, CryptoError>)
    ensures
        match res {
            Ok(e) => {
                &&& spec_derive_key(key_material@) is Ok
                &&& encode_utf8(plaintext@).len() <= AES_GCM_P_MAX
                &&& is_encryption_of(key_material@, plaintext@, e@)
                &&& spec_decrypt_token(key_material@, e@) == Ok::<Seq<char>, CryptoError>(plaintext@)
            },
            Err(err) => match spec_derive_key(key_material@) {
                Err(k) => err == k,
                Ok(_) => err == CryptoError::Encrypt && encode_utf8(plaintext@).len() > AES_GCM_P_MAX,
            },
        },
{
    let key = derive_key(key_material)?;
    let nonce = random_bytes(NONCE_LEN);
    let plain = plaintext.as_bytes();
    let ciphertext = match aes256gcm_encrypt(key.as_slice(), nonce.as_slice(), plain) {
        Some(c) => c,
        None => return Err(CryptoError::Encrypt),
    };
    let mut out: Vec<u8> = Vec::new();
    let mut i: usize = 0;
    while i < nonce.len()
        invariant
            i <= nonce@.len(),
            out@ == nonce@.take(i as int),
        decreases nonce.len() - i,
    {
        out.push(nonce[i]);
        i = i + 1;
    }
    let mut j: usize = 0;
    while j < ciphertext.len()
        invariant
            nonce@.len() == NONCE_LEN,
            j <= ciphertext@.len(),
            out@ == nonce@ + ciphertext@.take(j as int),
        decreases ciphertext.len() - j,
    {
        out.push(ciphertext[j]);
        j = j + 1;
    }
    assert(nonce@.take(NONCE_LEN as int) == nonce@);
    assert(ciphertext@.take(ciphertext@.len() as int) == ciphertext@);
    let encoded = b64url_encode_bytes(out.as_slice());
    proof {
        let bytes = out@;
        lemma_b64url_decode_encode(bytes);
        assert(bytes.take(NONCE_LEN as int) == nonce@);
        assert(bytes.skip(NONCE_LEN as int) == ciphertext@);
        encode_utf8_valid_utf8(plaintext@);
        encode_utf8_decode_utf8(plaintext@);
        assert(b64url_encode(nonce@) == b64url_encode(nonce@));
    }
    Ok(encoded)
}

/// Decrypts a token made by [`encrypt_token`] (see [`spec_decrypt_token`]).
pub fn decrypt_token(key_material: &str, encoded: &str) -> (res: Result<String, CryptoError>)
    ensures
        result_str_view(res) == spec_decrypt_token(key_material@, encoded@),
{
    let key = derive_key(key_material)?;
    let bytes = match b64url_decode(encoded) {
        Some(b) => b,
        None => return Err(CryptoError::Decode),
    };
    if bytes.len() <= NONCE_LEN {
        return Err(CryptoError::TooShort);
    }
    let (nonce, ciphertext) = bytes.as_slice().split_at(NONCE_LEN);
    assert(nonce@ == bytes@.take(NONCE_LEN as int));
    assert(ciphertext@ == bytes@.skip(NONCE_LEN as int));
    let plain = match aes256gcm_decrypt(key.as_slice(), nonce, ciphertext) {
        Some(p) => p,
        None => return Err(CryptoError::Decrypt),
    };
    match string_from_utf8(plain) {
        Some(s) => Ok(s),
        None => Err(CryptoError::Utf8),
    }
}

} // verus!
