use auth_core::encoding::b64url_decode;
use sha2::Digest;
use auth_core::pkce::{generate_pkce_pair, generate_state, pkce_pair_from_bytes, state_from_bytes};
use base64::engine::general_purpose::URL_SAFE_NO_PAD;
use base64::Engine;

#[test]
fn pkce_challenge_is_sha256_of_verifier() {
    let pair = generate_pkce_pair();
    let expected = URL_SAFE_NO_PAD.encode(sha2::Sha256::digest(pair.code_verifier.as_bytes()));
    assert_eq!(pair.code_challenge, expected);
}

#[test]
fn generated_states_differ() {
    assert_ne!(generate_state(), generate_state());
}

#[test]
fn pkce_lengths() {
    let pair = generate_pkce_pair();
    assert_eq!(pair.code_verifier.len(), 43);
    assert_eq!(pair.code_challenge.len(), 43);
    assert_eq!(generate_state().len(), 22);
}

#[test]
fn rfc7636_example() {
    // RFC 7636, appendix B.
    let random: [u8; 32] = [
        116, 24, 223, 180, 151, 153, 224, 37, 79, 250, 96, 125, 216, 173, 187, 186, 22, 212, 37, 77,
        105, 214, 191, 240, 91, 88, 5, 88, 83, 132, 141, 121,
    ];
    let pair = pkce_pair_from_bytes(&random);
    assert_eq!(pair.code_verifier, "dBjftJeZ4CVP-mB92K27uhbUJU1p1r_wW1gFWFOEjXk");
    assert_eq!(pair.code_challenge, "E9Melhoa2OwvFrEMTJguCHaoeK1t8URWbuGJSstw-cM");
}

#[test]
fn base64url_vectors() {
    assert_eq!(state_from_bytes(b""), "");
    assert_eq!(state_from_bytes(b"f"), "Zg");
    assert_eq!(state_from_bytes(b"fo"), "Zm8");
    assert_eq!(state_from_bytes(b"foo"), "Zm9v");
    assert_eq!(state_from_bytes(&[0xfb, 0xff]), "-_8");
    assert_eq!(b64url_decode("Zm9v"), Some(b"foo".to_vec()));
    assert_eq!(b64url_decode("Zm9v="), None);
    assert_eq!(b64url_decode("Zh"), None);
    assert_eq!(state_from_bytes(&[0u8; 3]), "AAAA");
}
