use clipvanish::base64::{base64_decode, base64_encode, char_to_base64_value};
use clipvanish::crypto::{CryptoEngine, EncryptedData, SecureKey};

#[test]
fn test_key_generation() {
    let key1 = SecureKey::generate().unwrap();
    let key2 = SecureKey::generate().unwrap();

    // Two fresh keys must differ.
    assert_ne!(key1.as_bytes(), key2.as_bytes());
}

#[test]
fn test_encryption_decryption() {
    let engine = CryptoEngine::new().unwrap();
    let plaintext = b"Hello, ClipVanish!";

    let encrypted = engine.encrypt(plaintext).unwrap();
    assert!(encrypted.total_length() > plaintext.len());

    let decrypted = engine.decrypt(&encrypted).unwrap();
    assert_eq!(decrypted, plaintext);
}

#[test]
fn test_multiple_encryptions_different_results() {
    let engine = CryptoEngine::new().unwrap();
    let plaintext = b"Same message";

    let encrypted1 = engine.encrypt(plaintext).unwrap();
    let encrypted2 = engine.encrypt(plaintext).unwrap();

    // The nonce is fresh per call, so the ciphertexts differ.
    assert_ne!(encrypted1.ciphertext(), encrypted2.ciphertext());

    let decrypted1 = engine.decrypt(&encrypted1).unwrap();
    let decrypted2 = engine.decrypt(&encrypted2).unwrap();
    assert_eq!(decrypted1, decrypted2);
    assert_eq!(decrypted1, plaintext);
}

#[test]
fn test_key_regeneration() {
    let mut engine = CryptoEngine::new().unwrap();
    let original_fingerprint = engine.key_fingerprint();

    engine.regenerate_key().unwrap();
    let new_fingerprint = engine.key_fingerprint();

    assert_ne!(original_fingerprint, new_fingerprint);
}

#[test]
fn test_decrypt_and_reset_key() {
    let mut engine = CryptoEngine::new().unwrap();
    let plaintext = b"Secret message for paste";
    let original_fingerprint = engine.key_fingerprint();

    let encrypted = engine.encrypt(plaintext).unwrap();

    let decrypted = engine.decrypt_and_reset_key(&encrypted).unwrap();
    assert_eq!(decrypted, plaintext);

    let new_fingerprint = engine.key_fingerprint();
    assert_ne!(original_fingerprint, new_fingerprint);

    // The payload was sealed under the old key; after the rotation it is
    // orphaned for good.
    let decrypt_result = engine.decrypt(&encrypted);
    assert!(decrypt_result.is_err());
}

#[test]
fn test_base64_encoding_decoding() {
    let engine = CryptoEngine::new().unwrap();
    let plaintext = b"Hello, ClipVanish Base64 test!";

    let encrypted = engine.encrypt(plaintext).unwrap();

    let base64_str = encrypted.to_base64();
    assert!(!base64_str.is_empty());

    let recovered = EncryptedData::from_base64(&base64_str).unwrap();

    assert_eq!(recovered.nonce(), encrypted.nonce());
    assert_eq!(recovered.ciphertext(), encrypted.ciphertext());

    let decrypted = engine.decrypt(&recovered).unwrap();
    assert_eq!(decrypted, plaintext);
}

#[test]
fn test_base64_invalid_input() {
    let result = EncryptedData::from_base64("invalid base64!");
    assert!(result.is_err());

    // Valid Base64, but shorter than one nonce.
    let result = EncryptedData::from_base64("dGVzdA==");
    assert!(result.is_err());
}

#[test]
fn test_base64_known_values() {
    assert_eq!(base64_encode(b"Man"), "TWFu");
    assert_eq!(base64_encode(b"Ma"), "TWE=");
    assert_eq!(base64_encode(b"M"), "TQ==");
    assert_eq!(base64_encode(b""), "");

    assert_eq!(base64_decode("TWFu").unwrap(), b"Man");
    assert_eq!(base64_decode("TWE=").unwrap(), b"Ma");
    assert_eq!(base64_decode("TQ==").unwrap(), b"M");
    assert!(base64_decode("T Q").is_err());
}

#[test]
fn test_char_to_base64_value_table() {
    assert_eq!(char_to_base64_value('A').unwrap(), 0);
    assert_eq!(char_to_base64_value('Z').unwrap(), 25);
    assert_eq!(char_to_base64_value('a').unwrap(), 26);
    assert_eq!(char_to_base64_value('z').unwrap(), 51);
    assert_eq!(char_to_base64_value('0').unwrap(), 52);
    assert_eq!(char_to_base64_value('9').unwrap(), 61);
    assert_eq!(char_to_base64_value('+').unwrap(), 62);
    assert_eq!(char_to_base64_value('/').unwrap(), 63);
    assert_eq!(char_to_base64_value('=').unwrap(), 0);
    assert!(char_to_base64_value('!').is_err());
}

#[test]
fn test_base64_round_trip_various_lengths() {
    let data: Vec<u8> = (0u16..=255).map(|b| b as u8).collect();
    for len in 0..64 {
        let slice = &data[..len];
        let encoded = base64_encode(slice);
        let decoded = base64_decode(&encoded).unwrap();
        assert_eq!(decoded, slice);
    }
}

#[test]
fn test_key_fingerprint_format() {
    let engine = CryptoEngine::new().unwrap();
    let fp = engine.key_fingerprint();
    assert_eq!(fp.len(), 16);
    assert!(fp.chars().all(|c| c.is_ascii_hexdigit()));
    // Deterministic: the same key gives the same fingerprint.
    assert_eq!(fp, engine.key_fingerprint());
}

#[test]
fn test_oversized_plaintext_refused() {
    // The cipher's length bound is far over any real clipboard; the
    // contract still pins the failure mode, checked here on the happy side.
    let engine = CryptoEngine::new().unwrap();
    let encrypted = engine.encrypt(b"").unwrap();
    assert_eq!(encrypted.total_length(), 12 + 16);
}
