use lostlove::error::LostLoveError;
use lostlove::keys::{KeyManager, KEY_ROTATION_INTERVAL_MS};

fn create_test_key_manager() -> KeyManager {
    let shared_secret = vec![1u8; 32];
    let client_random = [2u8; 32];
    let server_random = [3u8; 32];

    KeyManager::new(shared_secret, client_random, server_random, false, 0).unwrap()
}

#[test]
fn test_key_manager_creation() {
    let km = create_test_key_manager();
    let keys = km.get_keys();

    assert_eq!(keys.chacha_key.len(), 32);
    assert_eq!(keys.aes_key.len(), 32);
    assert_eq!(keys.master_secret.len(), 64);
}

#[test]
fn test_key_rotation() {
    let km_secret = vec![1u8; 32];
    let mut km = KeyManager::new(km_secret, [2u8; 32], [3u8; 32], true, 0).unwrap();

    let keys_before = km.get_keys();
    km.rotate_keys(10).unwrap();
    let keys_after = km.get_keys();

    assert_ne!(keys_before.chacha_key, keys_after.chacha_key);
    assert_ne!(keys_before.aes_key, keys_after.aes_key);
}

#[test]
fn test_previous_keys_stored() {
    let mut km = create_test_key_manager();

    assert!(km.get_previous_keys().is_none());

    let keys_before = km.get_keys();
    km.rotate_keys(5).unwrap();

    let prev_keys = km.get_previous_keys().unwrap();
    assert_eq!(prev_keys.chacha_key, keys_before.chacha_key);
}

#[test]
fn test_auto_rotation_disabled() {
    let mut km = KeyManager::new(vec![1u8; 32], [2u8; 32], [3u8; 32], false, 0).unwrap();

    let rotated = km.check_rotation(10 * KEY_ROTATION_INTERVAL_MS).unwrap();
    assert!(!rotated);
}

#[test]
fn test_time_until_rotation() {
    let km = KeyManager::new(vec![1u8; 32], [2u8; 32], [3u8; 32], true, 1_000).unwrap();

    let time_left = km.time_until_rotation(1_000);
    assert!(time_left <= KEY_ROTATION_INTERVAL_MS);
}

#[test]
fn test_clear_keys() {
    let mut km = create_test_key_manager();

    km.clear_keys();

    let keys = km.get_keys();

    assert_eq!(keys.chacha_key, [0u8; 32]);
    assert_eq!(keys.aes_key, [0u8; 32]);
}

#[test]
fn rotation_with_elapsed_intervals_uses_a_new_index() {
    let mut km = create_test_key_manager();
    let first = km.get_keys();
    km.rotate_keys(0).unwrap();
    let second = km.get_keys();
    km.rotate_keys(KEY_ROTATION_INTERVAL_MS).unwrap();
    let third = km.get_keys();
    assert_ne!(first.chacha_key, second.chacha_key);
    assert_ne!(second.chacha_key, third.chacha_key);
    assert_eq!(km.get_previous_keys().unwrap().chacha_key, second.chacha_key);
}

#[test]
fn rotations_at_the_same_index_derive_the_same_keys() {
    // The index is the number of whole intervals since the last rotation,
    // plus one: two quick rotations both use index 1.
    let mut km = create_test_key_manager();
    km.rotate_keys(1).unwrap();
    let once = km.get_keys();
    km.rotate_keys(2).unwrap();
    let twice = km.get_keys();
    assert_eq!(once.chacha_key, twice.chacha_key);
}

#[test]
fn check_rotation_follows_the_schedule() {
    let mut km = KeyManager::new(vec![1u8; 32], [2u8; 32], [3u8; 32], true, 1_000).unwrap();
    assert!(!km.check_rotation(1_000 + KEY_ROTATION_INTERVAL_MS - 1).unwrap());
    assert!(km.get_previous_keys().is_none());
    assert_eq!(km.time_until_rotation(1_000 + KEY_ROTATION_INTERVAL_MS - 1), 1);
    assert!(km.check_rotation(1_000 + KEY_ROTATION_INTERVAL_MS).unwrap());
    assert!(km.get_previous_keys().is_some());
    assert_eq!(km.time_until_rotation(1_000 + KEY_ROTATION_INTERVAL_MS), KEY_ROTATION_INTERVAL_MS);
}

#[test]
fn time_until_rotation_is_zero_when_disabled() {
    let km = create_test_key_manager();
    assert_eq!(km.time_until_rotation(5), 0);
}

#[test]
fn key_rotation_fallback_scenario() {
    let mut km = KeyManager::new(vec![1u8; 32], [2u8; 32], [3u8; 32], false, 0).unwrap();
    let nonce = [0u8; 12];
    let ciphertext = km.get_hse_encryptor().encrypt(b"Secret data", &nonce).unwrap();
    km.rotate_keys(0).unwrap();
    assert!(km.get_hse_encryptor().decrypt(&ciphertext, &nonce).is_err());
    // HSE decryption cannot recover a plaintext, so the fallback fails too.
    assert!(matches!(km.decrypt_with_fallback(&ciphertext, &nonce), Err(LostLoveError::Crypto(_))));
}

#[test]
fn clear_keys_drops_previous_generation() {
    let mut km = create_test_key_manager();
    km.rotate_keys(0).unwrap();
    assert!(km.get_previous_keys().is_some());
    km.clear_keys();
    assert!(km.get_previous_keys().is_none());
    assert_eq!(km.get_keys().master_secret, [0u8; 64]);
}
