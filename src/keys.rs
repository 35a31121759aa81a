use vstd::prelude::*;

use crate::error::{LostLoveError, Result};
use crate::hse::{zeros, HSEEncryptor};
use crate::kdf::{wipe_vec, derive_rotation_keys, derive_session_keys, master_secret_of, rotation_master_of};

pub use crate::kdf::SessionKeys;

verus! {

/// Time between scheduled rotations, in milliseconds (30 minutes).
pub const KEY_ROTATION_INTERVAL_MS: u64 = 1_800_000;

/// Time between scheduled rotations, in seconds.
pub const KEY_ROTATION_INTERVAL_SECS: u64 = 1800;

/// Milliseconds from `last` to `now` on a monotonic clock; zero if `now` is earlier.
pub open spec fn elapsed_ms(last: u64, now: u64) -> u64 {
    if now >= last {
        (now - last) as u64
    } else {
        0
    }
}

/// Index of a rotation made `elapsed` milliseconds after the last one:
/// whole intervals elapsed, plus one.
pub open spec fn rotation_index(elapsed: u64) -> u64 {
    (elapsed / 1000 / KEY_ROTATION_INTERVAL_SECS + 1) as u64
}

/// Session keys of one connection, with scheduled rotation and one previous
/// generation kept for decryption across a rotation.
pub struct KeyManager {
    current_keys: SessionKeys,
    previous_keys: Option<SessionKeys>,
    last_rotation: u64,
    shared_secret: Vec<u8>,
    client_random: [u8; 32],
    server_random: [u8; 32],
    auto_rotation: bool,
}

impl KeyManager {
    pub closed spec fn current(&self) -> SessionKeys {
        self.current_keys
    }

    pub closed spec fn previous(&self) -> Option<SessionKeys> {
        self.previous_keys
    }

    /// Monotonic time of the last rotation (or of creation), in milliseconds.
    pub closed spec fn last_rotation(&self) -> u64 {
        self.last_rotation
    }

    pub closed spec fn shared_secret(&self) -> Seq<u8> {
        self.shared_secret@
    }

    pub closed spec fn auto_rotation(&self) -> bool {
        self.auto_rotation
    }

    /// What a rotation at time `now` makes of `old`.
    pub open spec fn rotated_from(&self, old: KeyManager, now: u64) -> bool {
        &&& self.previous() == Some(old.current())
        &&& self.current().derived_from(
            rotation_master_of(
                old.shared_secret(),
                rotation_index(elapsed_ms(old.last_rotation(), now)) as nat,
            ),
        )
        &&& self.last_rotation() == now
        &&& self.shared_secret() == old.shared_secret()
        &&& self.auto_rotation() == old.auto_rotation()
    }

    /// Derives the first generation of keys; `now` is the monotonic time in milliseconds.
    pub fn new(
        shared_secret: Vec<u8>,
        client_random: [u8; 32],
        server_random: [u8; 32],
        auto_rotation: bool,
        now: u64,
    ) -> (r: Result<KeyManager>)
        ensures
            r is Ok,
            r is Ok ==> ({
                let m = r->Ok_0;
                &&& m.current().derived_from(
                    master_secret_of(shared_secret@, client_random@, server_random@),
                )
                &&& m.previous() is None
                &&& m.last_rotation() == now
                &&& m.shared_secret() == shared_secret@
                &&& m.auto_rotation() == auto_rotation
            }),
    {
        let keys = derive_session_keys(shared_secret.as_slice(), &client_random, &server_random)?;
        Ok(KeyManager {
            current_keys: keys,
            previous_keys: None,
            last_rotation: now,
            shared_secret,
            client_random,
            server_random,
            auto_rotation,
        })
    }

    /// A copy of the current keys.
    pub fn get_keys(&self) -> (r: SessionKeys)
        ensures
            r == self.current(),
    {
        self.current_keys.duplicate()
    }

    /// An HSE encryptor under the current keys.
    pub fn get_hse_encryptor(&self) -> (r: HSEEncryptor)
        ensures
            r.chacha_key() == self.current().chacha_key@,
            r.aes_key() == self.current().aes_key@,
    {
        HSEEncryptor::new(&self.current_keys.chacha_key, &self.current_keys.aes_key)
    }

    /// Rotates when automatic rotation is on and a whole interval has passed
    /// since the last rotation; says whether it rotated.
    pub fn check_rotation(&mut self, now: u64) -> (r: Result<bool>)
        ensures
            r is Ok,
            r == Ok::<bool, LostLoveError>(
                old(self).auto_rotation() && elapsed_ms(old(self).last_rotation(), now)
                    >= KEY_ROTATION_INTERVAL_MS,
            ),
            r == Ok::<bool, LostLoveError>(true) ==> final(self).rotated_from(*old(self), now),
            r == Ok::<bool, LostLoveError>(false) ==> *final(self) == *old(self),
    {
        if !self.auto_rotation {
            return Ok(false);
        }
        let elapsed = now.saturating_sub(self.last_rotation);
        if elapsed >= KEY_ROTATION_INTERVAL_MS {
            self.rotate_keys(now)?;
            Ok(true)
        } else {
            Ok(false)
        }
    }

    /// Derives the next generation: its index is the number of whole
    /// intervals since the last rotation plus one. The current keys become
    /// the previous ones (the older previous keys are wiped) and `now` the
    /// time of the last rotation.
    pub fn rotate_keys(&mut self, now: u64) -> (r: Result<()>)
        ensures
            r is Ok,
            final(self).rotated_from(*old(self), now),
    {
        let rotation_count = self.get_rotation_count(now);
        let rotated_keys = derive_rotation_keys(self.shared_secret.as_slice(), rotation_count)?;
        let current = self.current_keys.duplicate();
        if let Some(older) = &mut self.previous_keys {
            older.clear();
        }
        self.previous_keys = Some(current);
        self.current_keys = rotated_keys;
        self.last_rotation = now;
        Ok(())
    }

    /// A copy of the previous generation, if a rotation has happened.
    pub fn get_previous_keys(&self) -> (r: Option<SessionKeys>)
        ensures
            r == self.previous(),
    {
        match &self.previous_keys {
            Some(k) => Some(k.duplicate()),
            None => None,
        }
    }

    /// Decrypts with an HSE encryptor under the current keys and, failing
    /// that, under the previous keys if there are any.
    ///
    /// HSE decryption never succeeds (see `HSEEncryptor::decrypt`), so this
    /// always ends in a crypto error.
    pub fn decrypt_with_fallback(&self, ciphertext: &[u8], nonce: &[u8; 12]) -> (r: Result<
        Vec<u8>,
    >)
        ensures
            r is Err,
            r is Err ==> r->Err_0 is Crypto,
    {
        let current_hse = self.get_hse_encryptor();
        if let Ok(plaintext) = current_hse.decrypt(ciphertext, nonce) {
            return Ok(plaintext);
        }
        if let Some(prev_keys) = &self.previous_keys {
            let prev_hse = HSEEncryptor::new(&prev_keys.chacha_key, &prev_keys.aes_key);
            if let Ok(plaintext) = prev_hse.decrypt(ciphertext, nonce) {
                return Ok(plaintext);
            }
        }
        Err(
            LostLoveError::Crypto(
                "Decryption failed with both current and previous keys".to_string(),
            ),
        )
    }

    /// Milliseconds until the next scheduled rotation; zero when automatic
    /// rotation is off or the interval has passed.
    pub fn time_until_rotation(&self, now: u64) -> (r: u64)
        ensures
            r == if !self.auto_rotation() {
                0
            } else if elapsed_ms(self.last_rotation(), now) >= KEY_ROTATION_INTERVAL_MS {
                0
            } else {
                (KEY_ROTATION_INTERVAL_MS - elapsed_ms(self.last_rotation(), now)) as u64
            },
            r <= KEY_ROTATION_INTERVAL_MS,
    {
        if !self.auto_rotation {
            return 0;
        }
        let elapsed = now.saturating_sub(self.last_rotation);
        KEY_ROTATION_INTERVAL_MS.saturating_sub(elapsed)
    }

    /// Index of a rotation made at `now`.
    fn get_rotation_count(&self, now: u64) -> (r: u64)
        ensures
            r == rotation_index(elapsed_ms(self.last_rotation(), now)),
    {
        let total_time = now.saturating_sub(self.last_rotation);
        total_time / 1000 / KEY_ROTATION_INTERVAL_SECS + 1
    }

    /// Wipes the current keys to zeros and drops the previous generation
    /// after wiping it.
    pub fn clear_keys(&mut self)
        ensures
            final(self).current().chacha_key@ == zeros(32),
            final(self).current().aes_key@ == zeros(32),
            final(self).current().master_secret@ == zeros(64),
            final(self).previous() is None,
            final(self).last_rotation() == old(self).last_rotation(),
            final(self).shared_secret() == old(self).shared_secret(),
            final(self).auto_rotation() == old(self).auto_rotation(),
    {
        self.current_keys.clear();
        if let Some(older) = &mut self.previous_keys {
            older.clear();
        }
        self.previous_keys = None;
    }
}

impl Drop for KeyManager {
    /// The shared secret is wiped before its memory is freed; the key
    /// generations wipe themselves.
    fn drop(&mut self)
        opens_invariants none
        no_unwind
    {
        wipe_vec(&mut self.shared_secret);
    }
}

} // verus!
