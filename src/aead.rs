use vstd::prelude::*;

use aes_gcm::Aes256Gcm;
use chacha20poly1305::aead::{Aead, KeyInit};
use chacha20poly1305::ChaCha20Poly1305;

use crate::error::{LostLoveError, Result};

verus! {

/// Error type shared by both AEAD crates.
#[verifier::external_type_specification]
#[verifier::external_body]
pub struct ExAeadError(chacha20poly1305::aead::Error);

/// Key length of both AEADs in bytes.
pub const KEY_SIZE: usize = 32;

/// Nonce length of both AEADs in bytes.
pub const NONCE_SIZE: usize = 12;

/// Authentication tag length of both AEADs in bytes.
pub const TAG_SIZE: usize = 16;

/// Longest plaintext that AES-256-GCM accepts, in bytes.
pub const AES_GCM_MAX_PLAINTEXT: u64 = 0x10_0000_0000;

/// ChaCha20-Poly1305 ciphertext (with tag) of `plaintext` under `key` and `nonce`.
pub uninterp spec fn chacha20poly1305_seal(key: Seq<u8>, nonce: Seq<u8>, plaintext: Seq<u8>) -> Seq<u8>;

/// ChaCha20-Poly1305 opening of `ciphertext`: the plaintext if the tag verifies.
pub uninterp spec fn chacha20poly1305_open(key: Seq<u8>, nonce: Seq<u8>, ciphertext: Seq<u8>) -> Option<Seq<u8>>;

/// AES-256-GCM ciphertext (with tag) of `plaintext` under `key` and `nonce`.
pub uninterp spec fn aes256gcm_seal(key: Seq<u8>, nonce: Seq<u8>, plaintext: Seq<u8>) -> Seq<u8>;

/// AES-256-GCM opening of `ciphertext`: the plaintext if the tag verifies.
pub uninterp spec fn aes256gcm_open(key: Seq<u8>, nonce: Seq<u8>, ciphertext: Seq<u8>) -> Option<Seq<u8>>;

/// Longest plaintext that ChaCha20-Poly1305 handles, in bytes: the 2^32 - 2
/// keystream blocks of 64 bytes left after the one that keys Poly1305.
pub const CHACHA_MAX_PLAINTEXT: u64 = 274_877_906_816;

/// Plaintext lengths that ChaCha20-Poly1305 handles.
pub open spec fn chacha_accepts(len: nat) -> bool {
    len <= CHACHA_MAX_PLAINTEXT
}

/// Plaintext lengths that AES-256-GCM accepts.
pub open spec fn aes_accepts(len: nat) -> bool {
    len <= AES_GCM_MAX_PLAINTEXT
}

/// Plaintext lengths whose ciphertext length is addressable.
pub open spec fn sealable(len: nat) -> bool {
    len + TAG_SIZE <= usize::MAX
}

/// Relies on chacha20poly1305's `Aead::encrypt` for `ChaCha20Poly1305` without
/// associated data: for plaintexts the keystream covers it succeeds with the
/// ciphertext followed by a 16-byte tag, which `Aead::decrypt` opens back to
/// the plaintext (longer plaintexts make the keystream panic and are left out).
#[verifier::external_body]
fn chacha20poly1305_encrypt(key: &[u8; 32], nonce: &[u8; 12], plaintext: &[u8]) -> (r:
    core::result::Result<Vec<u8>, chacha20poly1305::aead::Error>)
    requires
        plaintext@.len() + 16 <= usize::MAX,
        chacha_accepts(plaintext@.len()),
    ensures
        r is Ok,
        r is Ok ==> r->Ok_0@ == chacha20poly1305_seal(key@, nonce@, plaintext@),
        r is Ok ==> r->Ok_0@.len() == plaintext@.len() + 16,
        r is Ok ==> chacha20poly1305_open(key@, nonce@, r->Ok_0@) == Some(plaintext@),
{
    let cipher = ChaCha20Poly1305::new(chacha20poly1305::Key::from_slice(key));
    cipher.encrypt(chacha20poly1305::Nonce::from_slice(nonce), plaintext)
}

/// Relies on chacha20poly1305's `Aead::decrypt` for `ChaCha20Poly1305` without
/// associated data: on success the plaintext is 16 bytes shorter than the
/// input (inputs longer than the keystream covers are left out: they panic).
#[verifier::external_body]
fn chacha20poly1305_decrypt(key: &[u8; 32], nonce: &[u8; 12], ciphertext: &[u8]) -> (r:
    core::result::Result<Vec<u8>, chacha20poly1305::aead::Error>)
    requires
        ciphertext@.len() <= CHACHA_MAX_PLAINTEXT + 16,
    ensures
        r is Ok <==> chacha20poly1305_open(key@, nonce@, ciphertext@) is Some,
        r is Ok ==> r->Ok_0@ == chacha20poly1305_open(key@, nonce@, ciphertext@)->Some_0,
        r is Ok ==> r->Ok_0@.len() + 16 == ciphertext@.len(),
{
    let cipher = ChaCha20Poly1305::new(chacha20poly1305::Key::from_slice(key));
    cipher.decrypt(chacha20poly1305::Nonce::from_slice(nonce), ciphertext)
}

/// Relies on aes-gcm's `Aead::encrypt` for `Aes256Gcm` without associated
/// data: it fails only when the plaintext is longer than 2^36 bytes, and
/// otherwise returns the ciphertext followed by a 16-byte tag, which
/// `Aead::decrypt` opens back to the plaintext.
#[verifier::external_body]
fn aes256gcm_encrypt(key: &[u8; 32], nonce: &[u8; 12], plaintext: &[u8]) -> (r:
    core::result::Result<Vec<u8>, chacha20poly1305::aead::Error>)
    requires
        plaintext@.len() + 16 <= usize::MAX,
    ensures
        r is Ok <==> aes_accepts(plaintext@.len()),
        r is Ok ==> r->Ok_0@ == aes256gcm_seal(key@, nonce@, plaintext@),
        r is Ok ==> r->Ok_0@.len() == plaintext@.len() + 16,
        r is Ok ==> aes256gcm_open(key@, nonce@, r->Ok_0@) == Some(plaintext@),
{
    let cipher = Aes256Gcm::new(aes_gcm::Key::<Aes256Gcm>::from_slice(key));
    cipher.encrypt(aes_gcm::Nonce::from_slice(nonce), plaintext)
}

/// Relies on aes-gcm's `Aead::decrypt` for `Aes256Gcm` without associated
/// data: on success the plaintext is 16 bytes shorter than the input.
#[verifier::external_body]
fn aes256gcm_decrypt(key: &[u8; 32], nonce: &[u8; 12], ciphertext: &[u8]) -> (r:
    core::result::Result<Vec<u8>, chacha20poly1305::aead::Error>)
    ensures
        r is Ok <==> aes256gcm_open(key@, nonce@, ciphertext@) is Some,
        r is Ok ==> r->Ok_0@ == aes256gcm_open(key@, nonce@, ciphertext@)->Some_0,
        r is Ok ==> r->Ok_0@.len() + 16 == ciphertext@.len(),
{
    let cipher = Aes256Gcm::new(aes_gcm::Key::<Aes256Gcm>::from_slice(key));
    cipher.decrypt(aes_gcm::Nonce::from_slice(nonce), ciphertext)
}

/// Relies on chacha20poly1305's `KeyInit::generate_key` with `OsRng`: 32 bytes
/// from the operating system's random source.
#[verifier::external_body]
fn chacha20poly1305_random_key() -> [u8; 32] {
    ChaCha20Poly1305::generate_key(&mut chacha20poly1305::aead::OsRng).into()
}

/// Relies on chacha20poly1305's `AeadCore::generate_nonce` with `OsRng`: 12
/// bytes from the operating system's random source.
#[verifier::external_body]
fn chacha20poly1305_random_nonce() -> [u8; 12] {
    <ChaCha20Poly1305 as chacha20poly1305::AeadCore>::generate_nonce(
        &mut chacha20poly1305::aead::OsRng,
    ).into()
}

/// Relies on aes-gcm's `KeyInit::generate_key` with `OsRng`: 32 bytes from the
/// operating system's random source.
#[verifier::external_body]
fn aes256gcm_random_key() -> [u8; 32] {
    Aes256Gcm::generate_key(&mut aes_gcm::aead::OsRng).into()
}

/// Relies on aes-gcm's `AeadCore::generate_nonce` with `OsRng`: 12 bytes from
/// the operating system's random source.
#[verifier::external_body]
fn aes256gcm_random_nonce() -> [u8; 12] {
    <Aes256Gcm as aes_gcm::AeadCore>::generate_nonce(&mut aes_gcm::aead::OsRng).into()
}

/// ChaCha20-Poly1305 with a 256-bit key.
pub struct ChaChaEncryptor {
    key: [u8; 32],
}

impl ChaChaEncryptor {
    pub closed spec fn key(&self) -> Seq<u8> {
        self.key@
    }

    pub fn new(key: &[u8; 32]) -> (r: ChaChaEncryptor)
        ensures
            r.key() == key@,
    {
        ChaChaEncryptor { key: *key }
    }

    /// A fresh random key.
    pub fn generate_key() -> [u8; 32] {
        chacha20poly1305_random_key()
    }

    /// A fresh random nonce.
    pub fn generate_nonce() -> [u8; 12] {
        chacha20poly1305_random_nonce()
    }

    /// Ciphertext followed by the 16-byte tag, which `decrypt` opens back to
    /// the plaintext; fails only for plaintexts longer than the keystream covers.
    pub fn encrypt(&self, plaintext: &[u8], nonce: &[u8; 12]) -> (r: Result<Vec<u8>>)
        ensures
            r is Ok <==> chacha_accepts(plaintext@.len()) && sealable(plaintext@.len()),
            r is Ok ==> r->Ok_0@ == chacha20poly1305_seal(self.key(), nonce@, plaintext@),
            r is Ok ==> r->Ok_0@.len() == plaintext@.len() + 16,
            r is Ok ==> chacha20poly1305_open(self.key(), nonce@, r->Ok_0@) == Some(plaintext@),
            r is Err ==> r->Err_0 is Crypto,
    {
        if plaintext.len() as u64 > CHACHA_MAX_PLAINTEXT || plaintext.len() > usize::MAX - TAG_SIZE {
            return Err(LostLoveError::Crypto("ChaCha20-Poly1305 encryption failed".to_string()));
        }
        match chacha20poly1305_encrypt(&self.key, nonce, plaintext) {
            Ok(c) => Ok(c),
            Err(_) => Err(LostLoveError::Crypto("ChaCha20-Poly1305 encryption failed".to_string())),
        }
    }

    /// The plaintext if the tag verifies under this key and `nonce`; fails
    /// for ciphertexts longer than the keystream covers.
    pub fn decrypt(&self, ciphertext: &[u8], nonce: &[u8; 12]) -> (r: Result<Vec<u8>>)
        ensures
            r is Ok <==> ciphertext@.len() <= CHACHA_MAX_PLAINTEXT + 16 && chacha20poly1305_open(
                self.key(),
                nonce@,
                ciphertext@,
            ) is Some,
            r is Ok ==> r->Ok_0@ == chacha20poly1305_open(self.key(), nonce@, ciphertext@)->Some_0,
            r is Ok ==> r->Ok_0@.len() + 16 == ciphertext@.len(),
            r is Err ==> r->Err_0 is Crypto,
    {
        if ciphertext.len() as u64 > CHACHA_MAX_PLAINTEXT + 16 {
            return Err(LostLoveError::Crypto("ChaCha20-Poly1305 decryption failed".to_string()));
        }
        match chacha20poly1305_decrypt(&self.key, nonce, ciphertext) {
            Ok(p) => Ok(p),
            Err(_) => Err(LostLoveError::Crypto("ChaCha20-Poly1305 decryption failed".to_string())),
        }
    }

    /// Replaces `buffer` by its ciphertext; on failure it is left unchanged.
    pub fn encrypt_in_place(&self, buffer: &mut Vec<u8>, nonce: &[u8; 12]) -> (r: Result<()>)
        ensures
            r is Ok <==> chacha_accepts(old(buffer)@.len()) && sealable(old(buffer)@.len()),
            r is Ok ==> final(buffer)@ == chacha20poly1305_seal(self.key(), nonce@, old(buffer)@),
            r is Err ==> final(buffer)@ == old(buffer)@,
    {
        let c = self.encrypt(buffer.as_slice(), nonce)?;
        *buffer = c;
        Ok(())
    }

    /// Replaces `buffer` by its plaintext; on failure it is left unchanged.
    pub fn decrypt_in_place(&self, buffer: &mut Vec<u8>, nonce: &[u8; 12]) -> (r: Result<()>)
        ensures
            r is Ok <==> old(buffer)@.len() <= CHACHA_MAX_PLAINTEXT + 16 && chacha20poly1305_open(
                self.key(),
                nonce@,
                old(buffer)@,
            ) is Some,
            r is Ok ==> final(buffer)@ == chacha20poly1305_open(self.key(), nonce@, old(buffer)@)->Some_0,
            r is Err ==> final(buffer)@ == old(buffer)@,
    {
        let p = self.decrypt(buffer.as_slice(), nonce)?;
        *buffer = p;
        Ok(())
    }

    pub fn key_size() -> (r: usize)
        ensures
            r == KEY_SIZE,
    {
        KEY_SIZE
    }

    pub fn nonce_size() -> (r: usize)
        ensures
            r == NONCE_SIZE,
    {
        NONCE_SIZE
    }

    pub fn tag_size() -> (r: usize)
        ensures
            r == TAG_SIZE,
    {
        TAG_SIZE
    }
}

/// AES-256-GCM.
pub struct AesEncryptor {
    key: [u8; 32],
}

impl AesEncryptor {
    pub closed spec fn key(&self) -> Seq<u8> {
        self.key@
    }

    pub fn new(key: &[u8; 32]) -> (r: AesEncryptor)
        ensures
            r.key() == key@,
    {
        AesEncryptor { key: *key }
    }

    /// A fresh random key.
    pub fn generate_key() -> [u8; 32] {
        aes256gcm_random_key()
    }

    /// A fresh random nonce.
    pub fn generate_nonce() -> [u8; 12] {
        aes256gcm_random_nonce()
    }

    /// Ciphertext followed by the 16-byte tag, which `decrypt` opens back to
    /// the plaintext; fails only for plaintexts longer than 2^36 bytes.
    pub fn encrypt(&self, plaintext: &[u8], nonce: &[u8; 12]) -> (r: Result<Vec<u8>>)
        ensures
            r is Ok <==> aes_accepts(plaintext@.len()) && sealable(plaintext@.len()),
            r is Ok ==> r->Ok_0@ == aes256gcm_seal(self.key(), nonce@, plaintext@),
            r is Ok ==> r->Ok_0@.len() == plaintext@.len() + 16,
            r is Ok ==> aes256gcm_open(self.key(), nonce@, r->Ok_0@) == Some(plaintext@),
            r is Err ==> r->Err_0 is Crypto,
    {
        if plaintext.len() as u64 > AES_GCM_MAX_PLAINTEXT || plaintext.len() > usize::MAX - TAG_SIZE {
            return Err(LostLoveError::Crypto("AES-GCM encryption failed".to_string()));
        }
        match aes256gcm_encrypt(&self.key, nonce, plaintext) {
            Ok(c) => Ok(c),
            Err(_) => Err(LostLoveError::Crypto("AES-GCM encryption failed".to_string())),
        }
    }

    /// The plaintext if the tag verifies under this key and `nonce`.
    pub fn decrypt(&self, ciphertext: &[u8], nonce: &[u8; 12]) -> (r: Result<Vec<u8>>)
        ensures
            r is Ok <==> aes256gcm_open(self.key(), nonce@, ciphertext@) is Some,
            r is Ok ==> r->Ok_0@ == aes256gcm_open(self.key(), nonce@, ciphertext@)->Some_0,
            r is Ok ==> r->Ok_0@.len() + 16 == ciphertext@.len(),
            r is Err ==> r->Err_0 is Crypto,
    {
        match aes256gcm_decrypt(&self.key, nonce, ciphertext) {
            Ok(p) => Ok(p),
            Err(_) => Err(LostLoveError::Crypto("AES-GCM decryption failed".to_string())),
        }
    }

    /// Replaces `buffer` by its ciphertext; on failure it is left unchanged.
    pub fn encrypt_in_place(&self, buffer: &mut Vec<u8>, nonce: &[u8; 12]) -> (r: Result<()>)
        ensures
            r is Ok <==> aes_accepts(old(buffer)@.len()) && sealable(old(buffer)@.len()),
            r is Ok ==> final(buffer)@ == aes256gcm_seal(self.key(), nonce@, old(buffer)@),
            r is Err ==> final(buffer)@ == old(buffer)@,
    {
        let c = self.encrypt(buffer.as_slice(), nonce)?;
        *buffer = c;
        Ok(())
    }

    /// Replaces `buffer` by its plaintext; on failure it is left unchanged.
    pub fn decrypt_in_place(&self, buffer: &mut Vec<u8>, nonce: &[u8; 12]) -> (r: Result<()>)
        ensures
            r is Ok <==> aes256gcm_open(self.key(), nonce@, old(buffer)@) is Some,
            r is Ok ==> final(buffer)@ == aes256gcm_open(self.key(), nonce@, old(buffer)@)->Some_0,
            r is Err ==> final(buffer)@ == old(buffer)@,
    {
        let p = self.decrypt(buffer.as_slice(), nonce)?;
        *buffer = p;
        Ok(())
    }

    pub fn key_size() -> (r: usize)
        ensures
            r == KEY_SIZE,
    {
        KEY_SIZE
    }

    pub fn nonce_size() -> (r: usize)
        ensures
            r == NONCE_SIZE,
    {
        NONCE_SIZE
    }

    pub fn tag_size() -> (r: usize)
        ensures
            r == TAG_SIZE,
    {
        TAG_SIZE
    }
}

} // verus!
