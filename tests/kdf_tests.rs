use lostlove::kdf::{derive_keys, derive_rotation_keys, derive_session_keys, SessionKeys};

#[test]
fn test_kdf_deterministic() {
    let secret = b"test_secret";
    let salt = b"test_salt";
    let info = b"test_info";

    let key1 = derive_keys(secret, salt, info, 32).unwrap();
    let key2 = derive_keys(secret, salt, info, 32).unwrap();

    assert_eq!(key1, key2);
}

#[test]
fn test_kdf_different_info() {
    let secret = b"test_secret";
    let salt = b"test_salt";

    let key1 = derive_keys(secret, salt, b"info1", 32).unwrap();
    let key2 = derive_keys(secret, salt, b"info2", 32).unwrap();

    assert_ne!(key1, key2);
}

#[test]
fn test_session_keys_derivation() {
    let shared_secret = b"shared_secret_from_key_exchange";
    let client_random = [1u8; 32];
    let server_random = [2u8; 32];

    let keys = derive_session_keys(shared_secret, &client_random, &server_random).unwrap();

    assert_ne!(keys.chacha_key, keys.aes_key);

    assert_eq!(keys.chacha_key.len(), 32);
    assert_eq!(keys.aes_key.len(), 32);
    assert_eq!(keys.master_secret.len(), 64);
}

#[test]
fn test_session_keys_deterministic() {
    let shared_secret = b"shared_secret";
    let client_random = [1u8; 32];
    let server_random = [2u8; 32];

    let keys1 = derive_session_keys(shared_secret, &client_random, &server_random).unwrap();
    let keys2 = derive_session_keys(shared_secret, &client_random, &server_random).unwrap();

    assert_eq!(keys1.chacha_key, keys2.chacha_key);
    assert_eq!(keys1.aes_key, keys2.aes_key);
    assert_eq!(keys1.master_secret, keys2.master_secret);
}

#[test]
fn test_different_random_produces_different_keys() {
    let shared_secret = b"shared_secret";
    let client_random1 = [1u8; 32];
    let client_random2 = [2u8; 32];
    let server_random = [3u8; 32];

    let keys1 = derive_session_keys(shared_secret, &client_random1, &server_random).unwrap();
    let keys2 = derive_session_keys(shared_secret, &client_random2, &server_random).unwrap();

    assert_ne!(keys1.chacha_key, keys2.chacha_key);
    assert_ne!(keys1.aes_key, keys2.aes_key);
}

#[test]
fn test_kdf_various_lengths() {
    let secret = b"test_secret";
    let salt = b"test_salt";
    let info = b"test_info";

    for length in [16, 32, 64, 128] {
        let key = derive_keys(secret, salt, info, length).unwrap();
        assert_eq!(key.len(), length);
    }
}

#[test]
fn kdf_rejects_too_long_output() {
    assert!(derive_keys(b"s", b"", b"i", 255 * 64).is_ok());
    assert!(derive_keys(b"s", b"", b"i", 255 * 64 + 1).is_err());
}

#[test]
fn session_keys_follow_the_documented_schedule() {
    let secret = [7u8; 32];
    let cr = [1u8; 32];
    let sr = [2u8; 32];
    let keys = derive_session_keys(&secret, &cr, &sr).unwrap();
    let mut salt = cr.to_vec();
    salt.extend_from_slice(&sr);
    let master = derive_keys(&secret, &salt, b"LLP-v1-master-secret", 64).unwrap();
    assert_eq!(keys.master_secret.to_vec(), master);
    assert_eq!(keys.chacha_key.to_vec(), derive_keys(&master, &[], b"LLP-chacha20-key", 32).unwrap());
    assert_eq!(keys.aes_key.to_vec(), derive_keys(&master, &[], b"LLP-aes-key", 32).unwrap());
}

#[test]
fn one_changed_client_random_byte_changes_both_keys() {
    let secret = b"shared_secret";
    let cr = [2u8; 32];
    let mut cr2 = cr;
    cr2[31] ^= 0x01;
    let sr = [3u8; 32];
    let a = derive_session_keys(secret, &cr, &sr).unwrap();
    let b = derive_session_keys(secret, &cr2, &sr).unwrap();
    assert_ne!(a.chacha_key, b.chacha_key);
    assert_ne!(a.aes_key, b.aes_key);
    assert_ne!(a.master_secret, b.master_secret);
}

#[test]
fn rotation_keys_use_the_decimal_index() {
    let secret = [1u8; 32];
    let keys = derive_rotation_keys(&secret, 12).unwrap();
    let master = derive_keys(&secret, &[], b"LLP-v1-rotation-12", 64).unwrap();
    assert_eq!(keys.master_secret.to_vec(), master);
    assert_eq!(keys.chacha_key.to_vec(), derive_keys(&master, &[], b"LLP-chacha20-key", 32).unwrap());
}

#[test]
fn from_raw_and_clear() {
    let mut keys = SessionKeys::from_raw([1u8; 32], [2u8; 32]);
    assert_eq!(keys.master_secret, [0u8; 64]);
    keys.clear();
    assert_eq!(keys.chacha_key, [0u8; 32]);
    assert_eq!(keys.aes_key, [0u8; 32]);
}
