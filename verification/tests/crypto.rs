use auth_core::crypto::{decrypt_token, derive_key, encrypt_token, CryptoError, MIN_KEY_MATERIAL_LEN, NONCE_LEN};
use base64::engine::general_purpose::URL_SAFE_NO_PAD;
use base64::Engine;
use aes_gcm::aead::{Aead, KeyInit};

fn key() -> String {
    "a".repeat(32)
}

#[test]
fn roundtrip_encrypt_decrypt() {
    let enc = encrypt_token(&key(), "ghs_test_token").unwrap();
    assert_eq!(decrypt_token(&key(), &enc).unwrap(), "ghs_test_token");
}

#[test]
fn rejects_short_key_material() {
    let short = "a".repeat(MIN_KEY_MATERIAL_LEN - 1);
    assert!(encrypt_token(&short, "token").is_err());
    assert!(decrypt_token(&short, "whatever").is_err());
}

#[test]
fn derived_key_is_not_a_prefix_of_key_material() {
    let material = key();
    let derived = derive_key(&material).unwrap();
    assert_ne!(derived, material.as_bytes()[..32]);
}

#[test]
fn each_encryption_uses_a_fresh_nonce() {
    let a = encrypt_token(&key(), "same").unwrap();
    let b = encrypt_token(&key(), "same").unwrap();
    assert_ne!(a, b, "nonce reuse would make ciphertexts identical");
}

#[test]
fn decrypt_fails_with_wrong_key() {
    let enc = encrypt_token(&key(), "secret").unwrap();
    assert!(decrypt_token(&"b".repeat(32), &enc).is_err());
}

#[test]
fn decrypt_rejects_truncated_ciphertext() {
    let enc = encrypt_token(&key(), "secret").unwrap();
    let truncated = URL_SAFE_NO_PAD.encode(&URL_SAFE_NO_PAD.decode(&enc).unwrap()[..NONCE_LEN]);
    assert!(decrypt_token(&key(), &truncated).is_err());
}

#[test]
fn crypto_error_kinds() {
    assert_eq!(encrypt_token("short", "x"), Err(CryptoError::KeyTooShort));
    assert_eq!(decrypt_token(&key(), "!!!"), Err(CryptoError::Decode));
    assert_eq!(decrypt_token(&key(), &URL_SAFE_NO_PAD.encode([0u8; 12])), Err(CryptoError::TooShort));
    assert_eq!(decrypt_token(&key(), &URL_SAFE_NO_PAD.encode([0u8; 40])), Err(CryptoError::Decrypt));
    let multibyte = "é".repeat(16);
    assert!(encrypt_token(&multibyte, "x").is_ok());
    assert_eq!(encrypt_token(&"é".repeat(15), "x"), Err(CryptoError::KeyTooShort));
}

#[test]
fn roundtrip_non_ascii_plaintext() {
    let enc = encrypt_token(&key(), "トークン🔑").unwrap();
    assert_eq!(decrypt_token(&key(), &enc).unwrap(), "トークン🔑");
    let raw = URL_SAFE_NO_PAD.decode(&enc).unwrap();
    assert_eq!(raw.len(), NONCE_LEN + "トークン🔑".len() + 16);
}

#[test]
fn derive_key_is_deterministic_and_32_bytes() {
    let a = derive_key(&key()).unwrap();
    assert_eq!(a.len(), 32);
    assert_eq!(a, derive_key(&key()).unwrap());
    assert_ne!(a, derive_key(&"b".repeat(32)).unwrap());
}

#[test]
fn decrypt_rejects_non_utf8_plaintext() {
    let derived = derive_key(&key()).unwrap();
    let cipher = aes_gcm::Aes256Gcm::new(aes_gcm::Key::<aes_gcm::Aes256Gcm>::from_slice(&derived));
    let nonce = [7u8; 12];
    let ciphertext = cipher.encrypt(aes_gcm::Nonce::from_slice(&nonce), &[0xffu8, 0xfe][..]).unwrap();
    let mut raw = nonce.to_vec();
    raw.extend_from_slice(&ciphertext);
    assert_eq!(decrypt_token(&key(), &URL_SAFE_NO_PAD.encode(raw)), Err(CryptoError::Utf8));
}

#[test]
fn crypto_error_messages() {
    assert_eq!(CryptoError::TooShort.message(), "encrypted token too short");
    assert_eq!(CryptoError::KeyTooShort.message(), "token encryption key must be at least 32 bytes");
}
