use vstd::prelude::*;

use crate::aead::{
    aes256gcm_open, aes256gcm_seal, aes_accepts, chacha20poly1305_open, chacha20poly1305_seal,
    chacha_accepts, sealable, AesEncryptor, ChaChaEncryptor, TAG_SIZE,
};
use crate::error::{LostLoveError, Result};

verus! {

/// Byte-wise xor of two sequences of the same length.
pub open spec fn xor_bytes(a: Seq<u8>, b: Seq<u8>) -> Seq<u8> {
    Seq::new(a.len(), |i: int| a[i] ^ b[i])
}

/// `n` zero bytes.
pub open spec fn zeros(n: nat) -> Seq<u8> {
    Seq::new(n, |i: int| 0u8)
}

/// Plaintext lengths that both AEADs accept.
pub open spec fn hse_accepts(len: nat) -> bool {
    chacha_accepts(len) && aes_accepts(len) && sealable(len)
}

/// The hybrid ciphertext: ChaCha20-Poly1305 and AES-256-GCM ciphertexts of
/// the same plaintext under the same nonce, xored.
pub open spec fn hse_seal(kc: Seq<u8>, ka: Seq<u8>, nonce: Seq<u8>, plaintext: Seq<u8>) -> Seq<u8> {
    xor_bytes(
        chacha20poly1305_seal(kc, nonce, plaintext),
        aes256gcm_seal(ka, nonce, plaintext),
    )
}

/// What assuming plaintext length `len` recovers from the combined
/// ciphertext `c`: xor `c` with the other cipher's encryption of `len`
/// zero bytes, open both results, and accept if they agree.
pub open spec fn hse_candidate(kc: Seq<u8>, ka: Seq<u8>, nonce: Seq<u8>, c: Seq<u8>, len: nat) -> Option<
    Seq<u8>,
> {
    if !hse_accepts(len) || c.len() != len + 16 {
        None
    } else {
        let z = zeros(len);
        let chacha_part = xor_bytes(c, aes256gcm_seal(ka, nonce, z));
        let aes_part = xor_bytes(c, chacha20poly1305_seal(kc, nonce, z));
        match chacha20poly1305_open(kc, nonce, chacha_part) {
            None => None,
            Some(p1) => match aes256gcm_open(ka, nonce, aes_part) {
                None => None,
                Some(p2) => if p1 == p2 {
                    Some(p1)
                } else {
                    None
                },
            },
        }
    }
}

/// The plaintext lengths that decryption tries for a combined ciphertext of
/// `n` bytes: within 10 of `n - 32`.
pub open spec fn in_search_window(n: nat, len: nat) -> bool {
    n > 32 && (if n - 32 >= 10 {
        n - 42
    } else {
        0
    }) <= len <= n - 22
}

fn xor_vecs(a: &Vec<u8>, b: &Vec<u8>) -> (r: Vec<u8>)
    requires
        a@.len() == b@.len(),
    ensures
        r@ == xor_bytes(a@, b@),
{
    let mut r: Vec<u8> = Vec::new();
    let mut i: usize = 0;
    while i < a.len()
        invariant
            i <= a@.len(),
            a@.len() == b@.len(),
            r@ == xor_bytes(a@, b@).subrange(0, i as int),
        decreases a@.len() - i,
    {
        r.push(a[i] ^ b[i]);
        i = i + 1;
        assert(r@ =~= xor_bytes(a@, b@).subrange(0, i as int));
    }
    assert(xor_bytes(a@, b@).subrange(0, i as int) =~= xor_bytes(a@, b@));
    r
}

fn xor_slice_vec(a: &[u8], b: &Vec<u8>) -> (r: Vec<u8>)
    requires
        a@.len() == b@.len(),
    ensures
        r@ == xor_bytes(a@, b@),
{
    let mut r: Vec<u8> = Vec::new();
    let mut i: usize = 0;
    while i < a.len()
        invariant
            i <= a@.len(),
            a@.len() == b@.len(),
            r@ == xor_bytes(a@, b@).subrange(0, i as int),
        decreases a@.len() - i,
    {
        r.push(a[i] ^ b[i]);
        i = i + 1;
        assert(r@ =~= xor_bytes(a@, b@).subrange(0, i as int));
    }
    assert(xor_bytes(a@, b@).subrange(0, i as int) =~= xor_bytes(a@, b@));
    r
}

/// Whether two byte vectors hold the same bytes.
pub fn bytes_equal(a: &Vec<u8>, b: &Vec<u8>) -> (r: bool)
    ensures
        r == (a@ == b@),
{
    if a.len() != b.len() {
        return false;
    }
    let mut i: usize = 0;
    while i < a.len()
        invariant
            i <= a@.len(),
            a@.len() == b@.len(),
            forall|j: int| 0 <= j < i ==> a@[j] == b@[j],
        decreases a@.len() - i,
    {
        if a[i] != b[i] {
            return false;
        }
        i = i + 1;
    }
    assert(a@ =~= b@);
    true
}

/// Hybrid Symmetric Encryption: the xor of a ChaCha20-Poly1305 and an
/// AES-256-GCM encryption of the same plaintext under one nonce.
pub struct HSEEncryptor {
    chacha: ChaChaEncryptor,
    aes: AesEncryptor,
}

impl HSEEncryptor {
    pub closed spec fn chacha_key(&self) -> Seq<u8> {
        self.chacha.key()
    }

    pub closed spec fn aes_key(&self) -> Seq<u8> {
        self.aes.key()
    }

    pub fn new(chacha_key: &[u8; 32], aes_key: &[u8; 32]) -> (r: HSEEncryptor)
        ensures
            r.chacha_key() == chacha_key@,
            r.aes_key() == aes_key@,
    {
        HSEEncryptor { chacha: ChaChaEncryptor::new(chacha_key), aes: AesEncryptor::new(aes_key) }
    }

    /// Encrypts with both ciphers and returns the xor of the two ciphertexts.
    pub fn encrypt(&self, plaintext: &[u8], nonce: &[u8; 12]) -> (r: Result<Vec<u8>>)
        ensures
            r is Ok <==> hse_accepts(plaintext@.len()),
            r is Ok ==> r->Ok_0@ == hse_seal(self.chacha_key(), self.aes_key(), nonce@, plaintext@),
            r is Ok ==> r->Ok_0@.len() == plaintext@.len() + TAG_SIZE,
            r is Err ==> r->Err_0 is Crypto,
    {
        let chacha_encrypted = self.chacha.encrypt(plaintext, nonce)?;
        let aes_encrypted = self.aes.encrypt(plaintext, nonce)?;
        if chacha_encrypted.len() != aes_encrypted.len() {
            return Err(LostLoveError::Crypto("Ciphertext length mismatch in HSE".to_string()));
        }
        Ok(xor_vecs(&chacha_encrypted, &aes_encrypted))
    }

    /// Searches the plaintext lengths within 10 of `|ciphertext| - 32` for one
    /// under which both ciphers open the combined ciphertext to the same
    /// plaintext.
    ///
    /// A combined ciphertext of a plaintext of length `l` has `l + 16` bytes,
    /// which no length in that window gives; so this always fails, with a
    /// crypto error.
    pub fn decrypt(&self, ciphertext: &[u8], nonce: &[u8; 12]) -> (r: Result<Vec<u8>>)
        ensures
            forall|len: nat| #[trigger]
                in_search_window(ciphertext@.len(), len) ==> hse_candidate(
                    self.chacha_key(),
                    self.aes_key(),
                    nonce@,
                    ciphertext@,
                    len,
                ) is None,
            r is Err,
            r is Err ==> r->Err_0 is Crypto,
    {
        if ciphertext.len() <= 32 {
            return Err(LostLoveError::Crypto("HSE ciphertext too short".to_string()));
        }
        let estimated_plaintext_len = ciphertext.len() - 32;
        let mut plaintext_len = estimated_plaintext_len.saturating_sub(10);
        let last = estimated_plaintext_len + 10;
        while plaintext_len <= last
            invariant
                last == ciphertext@.len() - 22,
                last < usize::MAX,
                plaintext_len <= last + 1,
            decreases last + 1 - plaintext_len,
        {
            if let Ok(plaintext) = self.try_decrypt_with_length(ciphertext, nonce, plaintext_len) {
                return Ok(plaintext);
            }
            plaintext_len = plaintext_len + 1;
        }
        Err(
            LostLoveError::Crypto(
                "HSE decryption failed: could not find valid plaintext".to_string(),
            ),
        )
    }

    /// Tries one candidate plaintext length.
    fn try_decrypt_with_length(
        &self,
        combined_ciphertext: &[u8],
        nonce: &[u8; 12],
        plaintext_len: usize,
    ) -> (r: Result<Vec<u8>>)
        ensures
            match r {
                Ok(p) => hse_candidate(
                    self.chacha_key(),
                    self.aes_key(),
                    nonce@,
                    combined_ciphertext@,
                    plaintext_len as nat,
                ) == Some(p@),
                Err(e) => hse_candidate(
                    self.chacha_key(),
                    self.aes_key(),
                    nonce@,
                    combined_ciphertext@,
                    plaintext_len as nat,
                ) is None && e is Crypto,
            },
    {
        let test_plaintext: Vec<u8> = vec![0u8; plaintext_len];
        assert(test_plaintext@ =~= zeros(plaintext_len as nat));
        let chacha_test = self.chacha.encrypt(test_plaintext.as_slice(), nonce)?;
        let aes_test = self.aes.encrypt(test_plaintext.as_slice(), nonce)?;
        if chacha_test.len() != combined_ciphertext.len() || aes_test.len()
            != combined_ciphertext.len() {
            return Err(LostLoveError::Crypto("Length mismatch".to_string()));
        }
        let chacha_ciphertext = xor_slice_vec(combined_ciphertext, &aes_test);
        if let Ok(plaintext1) = self.chacha.decrypt(chacha_ciphertext.as_slice(), nonce) {
            let aes_ciphertext = xor_slice_vec(combined_ciphertext, &chacha_test);
            if let Ok(plaintext2) = self.aes.decrypt(aes_ciphertext.as_slice(), nonce) {
                if bytes_equal(&plaintext1, &plaintext2) {
                    return Ok(plaintext1);
                }
            }
        }
        Err(LostLoveError::Crypto("Decryption failed".to_string()))
    }

    /// A fresh random key pair: ChaCha20-Poly1305 key, then AES-256-GCM key.
    pub fn generate_keys() -> ([u8; 32], [u8; 32]) {
        (ChaChaEncryptor::generate_key(), AesEncryptor::generate_key())
    }
}

} // verus!
