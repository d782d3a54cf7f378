//! Byte encodings the protocol uses: base64url without padding, UTF-8 text,
//! and SHA-256 digests.
use vstd::prelude::*;
use base64::Engine;
use rand::Rng;
use sha2::Digest;
use vstd::utf8::{decode_utf8, valid_utf8};

verus! {

/// The base64url alphabet (RFC 4648, section 5): the character for a 6-bit value.
pub open spec fn b64url_char(v: int) -> char {
    if v < 26 {
        (65 + v) as char
    } else if v < 52 {
        (97 + (v - 26)) as char
    } else if v < 62 {
        (48 + (v - 52)) as char
    } else if v == 62 {
        '-'
    } else {
        '_'
    }
}

/// The base64url encoding of `b` without padding (RFC 4648, section 5): each
/// group of three bytes becomes four characters, a final one or two bytes
/// become two or three.
pub open spec fn b64url_encode(b: Seq<u8>) -> Seq<char>
    decreases b.len(),
{
    let x = if b.len() > 0 { b[0] as int } else { 0 };
    let y = if b.len() > 1 { b[1] as int } else { 0 };
    let z = if b.len() > 2 { b[2] as int } else { 0 };
    if b.len() == 0 {
        Seq::empty()
    } else if b.len() == 1 {
        seq![b64url_char(x / 4), b64url_char((x % 4) * 16)]
    } else if b.len() == 2 {
        seq![b64url_char(x / 4), b64url_char((x % 4) * 16 + y / 16), b64url_char((y % 16) * 4)]
    } else {
        seq![
            b64url_char(x / 4),
            b64url_char((x % 4) * 16 + y / 16),
            b64url_char((y % 16) * 4 + z / 64),
            b64url_char(z % 64),
        ] + b64url_encode(b.skip(3))
    }
}

/// The alphabet is the URL-safe one of RFC 4648: the value `v` is written as the
/// `v`-th character of `A`..`Z`, `a`..`z`, `0`..`9`, `-`, `_`.
pub proof fn lemma_b64url_alphabet(v: int)
    requires
        0 <= v < 64,
    ensures
        b64url_char(v) == "ABCDEFGHIJKLMNOPQRSTUVWXYZabcdefghijklmnopqrstuvwxyz0123456789-_"@[v],
{
    reveal_strlit("ABCDEFGHIJKLMNOPQRSTUVWXYZabcdefghijklmnopqrstuvwxyz0123456789-_");
}

/// Each group of three bytes, read as a 24-bit big-endian number, is written as
/// four characters of six bits each, most significant first.
pub proof fn lemma_b64url_group_bits(b: Seq<u8>)
    requires
        b.len() >= 3,
    ensures
        ({
            let n = b[0] * 65536 + b[1] * 256 + b[2];
            b64url_encode(b) == seq![
                b64url_char(n / 262144),
                b64url_char((n / 4096) % 64),
                b64url_char((n / 64) % 64),
                b64url_char(n % 64),
            ] + b64url_encode(b.skip(3))
        }),
{
    let x = b[0] as int;
    let y = b[1] as int;
    let z = b[2] as int;
    let n = x * 65536 + y * 256 + z;
    assert(n / 262144 == x / 4) by (nonlinear_arith)
        requires n == x * 65536 + y * 256 + z, 0 <= x < 256, 0 <= y < 256, 0 <= z < 256;
    assert((n / 4096) % 64 == (x % 4) * 16 + y / 16) by (nonlinear_arith)
        requires n == x * 65536 + y * 256 + z, 0 <= x < 256, 0 <= y < 256, 0 <= z < 256;
    assert((n / 64) % 64 == (y % 16) * 4 + z / 64) by (nonlinear_arith)
        requires n == x * 65536 + y * 256 + z, 0 <= x < 256, 0 <= y < 256, 0 <= z < 256;
    assert(n % 64 == z % 64) by (nonlinear_arith)
        requires n == x * 65536 + y * 256 + z, 0 <= x < 256, 0 <= y < 256, 0 <= z < 256;
}

proof fn lemma_b64url_char_injective(v: int, w: int)
    requires
        0 <= v < 64,
        0 <= w < 64,
        b64url_char(v) == b64url_char(w),
    ensures
        v == w,
{
    let cv = b64url_char(v) as int;
    let cw = b64url_char(w) as int;
    assert(cv == cw);
}

/// The length of a base64url encoding without padding.
pub proof fn lemma_b64url_encode_len(b: Seq<u8>)
    ensures
        b64url_encode(b).len() == 4 * (b.len() / 3) + (if b.len() % 3 == 0 {
            0int
        } else {
            b.len() % 3 + 1int
        }),
    decreases b.len(),
{
    if b.len() >= 3 {
        lemma_b64url_encode_len(b.skip(3));
    }
}

/// Two byte strings with the same base64url encoding are equal.
pub proof fn lemma_b64url_encode_injective(a: Seq<u8>, b: Seq<u8>)
    requires
        b64url_encode(a) == b64url_encode(b),
    ensures
        a == b,
    decreases a.len(),
{
    lemma_b64url_encode_len(a);
    lemma_b64url_encode_len(b);
    let ea = b64url_encode(a);
    let eb = b64url_encode(b);
    if a.len() == 0 {
        assert(b.len() == 0);
        assert(a =~= b);
    } else if a.len() == 1 {
        assert(b.len() == 1);
        let (x, u) = (a[0] as int, b[0] as int);
        assert(ea[0] == eb[0] && ea[1] == eb[1]);
        lemma_b64url_char_injective(x / 4, u / 4);
        lemma_b64url_char_injective((x % 4) * 16, (u % 4) * 16);
        assert(a =~= b);
    } else if a.len() == 2 {
        assert(b.len() == 2);
        let (x, y, u, v) = (a[0] as int, a[1] as int, b[0] as int, b[1] as int);
        assert(ea[0] == eb[0] && ea[1] == eb[1] && ea[2] == eb[2]);
        lemma_b64url_char_injective(x / 4, u / 4);
        lemma_b64url_char_injective((x % 4) * 16 + y / 16, (u % 4) * 16 + v / 16);
        lemma_b64url_char_injective((y % 16) * 4, (v % 16) * 4);
        assert(a =~= b);
    } else {
        assert(b.len() >= 3);
        let (x, y, z) = (a[0] as int, a[1] as int, a[2] as int);
        let (u, v, w) = (b[0] as int, b[1] as int, b[2] as int);
        let ha = seq![
            b64url_char(x / 4),
            b64url_char((x % 4) * 16 + y / 16),
            b64url_char((y % 16) * 4 + z / 64),
            b64url_char(z % 64),
        ];
        let hb = seq![
            b64url_char(u / 4),
            b64url_char((u % 4) * 16 + v / 16),
            b64url_char((v % 16) * 4 + w / 64),
            b64url_char(w % 64),
        ];
        assert(ea == ha + b64url_encode(a.skip(3)));
        assert(eb == hb + b64url_encode(b.skip(3)));
        assert(ea[0] == ha[0] && ea[1] == ha[1] && ea[2] == ha[2] && ea[3] == ha[3]);
        assert(eb[0] == hb[0] && eb[1] == hb[1] && eb[2] == hb[2] && eb[3] == hb[3]);
        lemma_b64url_char_injective(x / 4, u / 4);
        lemma_b64url_char_injective((x % 4) * 16 + y / 16, (u % 4) * 16 + v / 16);
        lemma_b64url_char_injective((y % 16) * 4 + z / 64, (v % 16) * 4 + w / 64);
        lemma_b64url_char_injective(z % 64, w % 64);
        assert(ea.skip(4) =~= b64url_encode(a.skip(3)));
        assert(eb.skip(4) =~= b64url_encode(b.skip(3)));
        lemma_b64url_encode_injective(a.skip(3), b.skip(3));
        assert(a =~= a.take(3) + a.skip(3));
        assert(b =~= b.take(3) + b.skip(3));
        assert(a.take(3) =~= b.take(3));
    }
}

/// What base64url decoding without padding gives for `s`: the bytes whose
/// encoding `s` is, or `None` when `s` is no such encoding.
pub open spec fn spec_b64url_decode(s: Seq<char>) -> Option<Seq<u8>> {
    if exists|b: Seq<u8>| b64url_encode(b) == s {
        Some(choose|b: Seq<u8>| b64url_encode(b) == s)
    } else {
        None
    }
}

/// Decoding an encoding gives back the bytes.
pub proof fn lemma_b64url_decode_encode(b: Seq<u8>)
    ensures
        spec_b64url_decode(b64url_encode(b)) == Some(b),
{
    let s = b64url_encode(b);
    assert(exists|c: Seq<u8>| b64url_encode(c) == s);
    let c = choose|c: Seq<u8>| b64url_encode(c) == s;
    lemma_b64url_encode_injective(c, b);
}

/// Encodes `bytes` with `base64::engine::general_purpose::URL_SAFE_NO_PAD`.
///
/// Trusted: the result is the base64url encoding without padding of RFC 4648,
/// which `b64url_encode` spells out.
#[verifier::external_body]
pub(crate) fn b64url_encode_bytes(bytes: &[u8]) -> (s: String)
    ensures
        s@ == b64url_encode(bytes@),
{
    base64::engine::general_purpose::URL_SAFE_NO_PAD.encode(bytes)
}

/// Decodes `s` with `base64::engine::general_purpose::URL_SAFE_NO_PAD`.
///
/// Trusted: this engine requires no padding and no trailing bits, so it accepts
/// exactly the strings that are encodings, and returns the encoded bytes.
#[verifier::external_body]
pub(crate) fn b64url_decode_str(s: &str) -> (res: Option<Vec<u8>>)
    ensures
        match res {
            Some(b) => b64url_encode(b@) == s@,
            None => forall|b: Seq<u8>| b64url_encode(b) != s@,
        },
{
    base64::engine::general_purpose::URL_SAFE_NO_PAD.decode(s).ok()
}

/// Decodes `s` as base64url without padding.
pub fn b64url_decode(s: &str) -> (res: Option<Vec<u8>>)
    ensures
        match res {
            Some(b) => spec_b64url_decode(s@) == Some(b@),
            None => spec_b64url_decode(s@) is None,
        },
{
    let res = b64url_decode_str(s);
    proof {
        if res is Some {
            lemma_b64url_decode_encode(res->Some_0@);
        }
    }
    res
}

/// The SHA-256 digest of `data`.
pub uninterp spec fn sha256_digest(data: Seq<u8>) -> Seq<u8>;

/// Hashes `data` with `sha2::Sha256::digest`.
///
/// Trusted: the result is what `sha256_digest` names for `data`, and it is 32 bytes long.
#[verifier::external_body]
pub(crate) fn sha256(data: &[u8]) -> (d: Vec<u8>)
    ensures
        d@ == sha256_digest(data@),
        d@.len() == 32,
{
    sha2::Sha256::digest(data).to_vec()
}

/// Reads `bytes` as UTF-8 text (`String::from_utf8`).
///
/// Trusted: std accepts exactly the valid UTF-8 byte strings, and the text is
/// their decoding.
#[verifier::external_body]
pub(crate) fn string_from_utf8(bytes: Vec<u8>) -> (res: Option<String>)
    ensures
        res is Some == valid_utf8(bytes@),
        res matches Some(s) ==> s@ == decode_utf8(bytes@),
{
    String::from_utf8(bytes).ok()
}

/// `n` bytes from the thread-local random generator (`rand::rng().fill_bytes`).
///
/// Trusted: only the length is stated; the bytes are random.
#[verifier::external_body]
pub(crate) fn random_bytes(n: usize) -> (b: Vec<u8>)
    ensures
        b@.len() == n,
{
    let mut b = vec![0u8; n];
    rand::rng().fill_bytes(&mut b);
    b
}

} // verus!
