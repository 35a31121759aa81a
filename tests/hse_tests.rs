use lostlove::aead::{AesEncryptor, ChaChaEncryptor};
use lostlove::error::LostLoveError;
use lostlove::hse::HSEEncryptor;

fn create_test_hse() -> HSEEncryptor {
    let chacha_key = [1u8; 32];
    let aes_key = [2u8; 32];
    HSEEncryptor::new(&chacha_key, &aes_key)
}

#[test]
fn test_hse_different_from_single_encryption() {
    let hse = create_test_hse();
    let plaintext = b"Test data";
    let nonce = [0u8; 12];

    let hse_ciphertext = hse.encrypt(plaintext, &nonce).unwrap();

    let chacha_key = [1u8; 32];
    let chacha = ChaChaEncryptor::new(&chacha_key);
    let chacha_ciphertext = chacha.encrypt(plaintext, &nonce).unwrap();

    assert_ne!(hse_ciphertext, chacha_ciphertext);
}

#[test]
fn test_hse_tampering_detection() {
    let hse = create_test_hse();
    let plaintext = b"Sensitive data";
    let nonce = [0u8; 12];

    let mut ciphertext = hse.encrypt(plaintext, &nonce).unwrap();

    if !ciphertext.is_empty() {
        ciphertext[0] ^= 1;
    }

    let result = hse.decrypt(&ciphertext, &nonce);
    assert!(result.is_err());
}

#[test]
fn test_hse_wrong_nonce() {
    let hse = create_test_hse();
    let plaintext = b"Secret message";
    let nonce1 = [1u8; 12];
    let nonce2 = [2u8; 12];

    let ciphertext = hse.encrypt(plaintext, &nonce1).unwrap();

    let result = hse.decrypt(&ciphertext, &nonce2);
    assert!(result.is_err());
}

#[test]
fn test_hse_deterministic() {
    let hse = create_test_hse();
    let plaintext = b"Deterministic test";
    let nonce = [0u8; 12];

    let ciphertext1 = hse.encrypt(plaintext, &nonce).unwrap();
    let ciphertext2 = hse.encrypt(plaintext, &nonce).unwrap();

    assert_eq!(ciphertext1, ciphertext2);
}

#[test]
fn test_hse_different_keys_produce_different_output() {
    let hse1 = HSEEncryptor::new(&[1u8; 32], &[2u8; 32]);
    let hse2 = HSEEncryptor::new(&[3u8; 32], &[4u8; 32]);

    let plaintext = b"Test message";
    let nonce = [0u8; 12];

    let ciphertext1 = hse1.encrypt(plaintext, &nonce).unwrap();
    let ciphertext2 = hse2.encrypt(plaintext, &nonce).unwrap();

    assert_ne!(ciphertext1, ciphertext2);
}

#[test]
fn test_generate_keys() {
    let (key1, key2) = HSEEncryptor::generate_keys();

    assert_ne!(key1, key2);

    assert_eq!(key1.len(), 32);
    assert_eq!(key2.len(), 32);
}

#[test]
fn hse_ciphertext_is_xor_of_both_ciphers() {
    let nonce = [4u8; 12];
    let plaintext = b"xor of two ciphertexts";
    let hse = create_test_hse();
    let combined = hse.encrypt(plaintext, &nonce).unwrap();
    let c1 = ChaChaEncryptor::new(&[1u8; 32]).encrypt(plaintext, &nonce).unwrap();
    let c2 = AesEncryptor::new(&[2u8; 32]).encrypt(plaintext, &nonce).unwrap();
    assert_eq!(combined.len(), plaintext.len() + 16);
    let expected: Vec<u8> = c1.iter().zip(c2.iter()).map(|(a, b)| a ^ b).collect();
    assert_eq!(combined, expected);
}

#[test]
fn hse_decrypt_of_own_ciphertext_fails_with_crypto_error() {
    // The length search never reaches |ciphertext| - 16, the true length.
    let hse = create_test_hse();
    let nonce = [0u8; 12];
    for size in [1usize, 10, 16, 17, 100] {
        let ciphertext = hse.encrypt(&vec![42u8; size], &nonce).unwrap();
        assert!(matches!(hse.decrypt(&ciphertext, &nonce), Err(LostLoveError::Crypto(_))));
    }
}

#[test]
fn hse_short_ciphertext_is_rejected() {
    let hse = create_test_hse();
    assert_eq!(
        hse.decrypt(&[0u8; 32], &[0u8; 12]).unwrap_err(),
        LostLoveError::Crypto("HSE ciphertext too short".to_string())
    );
}

#[test]
fn hse_empty_plaintext_encrypts_to_tag_length() {
    let hse = create_test_hse();
    let c = hse.encrypt(b"", &[0u8; 12]).unwrap();
    assert_eq!(c.len(), 16);
}
