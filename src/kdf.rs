use vstd::prelude::*;

use vstd::string::StringSliceAdditionalSpecFns;

use crate::error::{LostLoveError, Result};
use crate::hse::zeros;

verus! {

/// Error of an HKDF expansion that asks for too many bytes.
#[verifier::external_type_specification]
#[verifier::external_body]
pub struct ExInvalidLength(hkdf::InvalidLength);

/// Most bytes that one HKDF-SHA512 expansion yields: 255 blocks of 64 bytes.
pub const HKDF_SHA512_MAX_OUTPUT: usize = 16320;

/// HKDF-SHA512 output: extract with `salt` from `secret`, then expand
/// `length` bytes for `info`.
pub uninterp spec fn hkdf_sha512(secret: Seq<u8>, salt: Seq<u8>, info: Seq<u8>, length: nat) -> Seq<u8>;

/// Relies on hkdf's `Hkdf::<Sha512>::new(Some(salt), secret)` followed by
/// `expand(info, okm)`, which fills `okm` and fails only when it is longer
/// than 255 * 64 bytes.
#[verifier::external_body]
fn hkdf_sha512_expand(secret: &[u8], salt: &[u8], info: &[u8], length: usize) -> (r:
    core::result::Result<Vec<u8>, hkdf::InvalidLength>)
    requires
        length <= HKDF_SHA512_MAX_OUTPUT,
    ensures
        r is Ok,
        r is Ok ==> r->Ok_0@ == hkdf_sha512(secret@, salt@, info@, length as nat),
        r is Ok ==> r->Ok_0@.len() == length,
{
    let hk = hkdf::Hkdf::<sha2::Sha512>::new(Some(salt), secret);
    let mut okm = vec![0u8; length];
    hk.expand(info, &mut okm).map(|_| okm)
}

/// Relies on zeroize's `Zeroize` for `[u8]`: every byte is overwritten with
/// zero by volatile writes that the compiler keeps. Its one assertion (the
/// length fits in `isize`) holds for every slice, so it does not panic.
#[verifier::external_body]
pub(crate) fn wipe(bytes: &mut [u8])
    ensures
        final(bytes)@ == zeros(old(bytes)@.len()),
    opens_invariants none
    no_unwind
{
    zeroize::Zeroize::zeroize(bytes)
}

/// Relies on zeroize's `Zeroize` for `Vec<u8>`: the bytes and the spare
/// capacity are overwritten with zero, then the vector is cleared.
#[verifier::external_body]
pub(crate) fn wipe_vec(bytes: &mut Vec<u8>)
    ensures
        final(bytes)@.len() == 0,
    opens_invariants none
    no_unwind
{
    zeroize::Zeroize::zeroize(bytes)
}

/// Derives `output_length` bytes of key material with HKDF-SHA512.
pub fn derive_keys(secret: &[u8], salt: &[u8], info: &[u8], output_length: usize) -> (r: Result<
    Vec<u8>,
>)
    ensures
        r is Ok <==> output_length <= HKDF_SHA512_MAX_OUTPUT,
        r is Ok ==> r->Ok_0@ == hkdf_sha512(secret@, salt@, info@, output_length as nat),
        r is Ok ==> r->Ok_0@.len() == output_length,
        r is Err ==> r->Err_0 is Connection,
{
    if output_length > HKDF_SHA512_MAX_OUTPUT {
        return Err(LostLoveError::Connection("HKDF key derivation failed".to_string()));
    }
    match hkdf_sha512_expand(secret, salt, info, output_length) {
        Ok(okm) => Ok(okm),
        Err(_) => Err(LostLoveError::Connection("HKDF key derivation failed".to_string())),
    }
}

/// Info string of the master-secret derivation.
pub open spec fn master_info() -> Seq<u8> {
    "LLP-v1-master-secret".spec_bytes()
}

/// Info string of the ChaCha20-Poly1305 key derivation.
pub open spec fn chacha_info() -> Seq<u8> {
    "LLP-chacha20-key".spec_bytes()
}

/// Info string of the AES-256-GCM key derivation.
pub open spec fn aes_info() -> Seq<u8> {
    "LLP-aes-key".spec_bytes()
}

/// ASCII decimal digits of `n`, most significant first.
pub open spec fn decimal_digits(n: nat) -> Seq<u8>
    decreases n,
{
    if n < 10 {
        seq![(48 + n) as u8]
    } else {
        decimal_digits(n / 10).push((48 + n % 10) as u8)
    }
}

/// Info string of the `n`-th rotation: "LLP-v1-rotation-" followed by `n` in decimal.
pub open spec fn rotation_info(n: nat) -> Seq<u8> {
    "LLP-v1-rotation-".spec_bytes() + decimal_digits(n)
}

/// The 64-byte master secret of a session.
pub open spec fn master_secret_of(secret: Seq<u8>, client_random: Seq<u8>, server_random: Seq<
    u8,
>) -> Seq<u8> {
    hkdf_sha512(secret, client_random + server_random, master_info(), 64)
}

/// The 64-byte master secret of the `n`-th rotation.
pub open spec fn rotation_master_of(secret: Seq<u8>, n: nat) -> Seq<u8> {
    hkdf_sha512(secret, Seq::empty(), rotation_info(n), 64)
}

/// The ChaCha20-Poly1305 key expanded from a master secret.
pub open spec fn chacha_key_of(master: Seq<u8>) -> Seq<u8> {
    hkdf_sha512(master, Seq::empty(), chacha_info(), 32)
}

/// The AES-256-GCM key expanded from a master secret.
pub open spec fn aes_key_of(master: Seq<u8>) -> Seq<u8> {
    hkdf_sha512(master, Seq::empty(), aes_info(), 32)
}

/// The key triple of one session generation.
#[derive(Clone)]
pub struct SessionKeys {
    pub chacha_key: [u8; 32],
    pub aes_key: [u8; 32],
    pub master_secret: [u8; 64],
}

impl SessionKeys {
    /// Both cipher keys are expanded from `master`, which is the stored master secret.
    pub open spec fn derived_from(&self, master: Seq<u8>) -> bool {
        &&& self.master_secret@ == master
        &&& self.chacha_key@ == chacha_key_of(master)
        &&& self.aes_key@ == aes_key_of(master)
    }

    /// Keys given directly, with an all-zero master secret.
    pub fn from_raw(chacha_key: [u8; 32], aes_key: [u8; 32]) -> (r: SessionKeys)
        ensures
            r.chacha_key == chacha_key,
            r.aes_key == aes_key,
            r.master_secret@ == zeros(64),
    {
        let r = SessionKeys { chacha_key, aes_key, master_secret: [0u8; 64] };
        assert(r.master_secret@ =~= zeros(64));
        r
    }

    /// A copy of the three keys.
    pub fn duplicate(&self) -> (r: SessionKeys)
        ensures
            r == *self,
    {
        SessionKeys {
            chacha_key: self.chacha_key,
            aes_key: self.aes_key,
            master_secret: self.master_secret,
        }
    }

    /// Overwrites all three keys with zeros.
    pub fn clear(&mut self)
        ensures
            final(self).chacha_key@ == zeros(32),
            final(self).aes_key@ == zeros(32),
            final(self).master_secret@ == zeros(64),
    {
        wipe(&mut self.chacha_key);
        wipe(&mut self.aes_key);
        wipe(&mut self.master_secret);
    }
}

impl Drop for SessionKeys {
    /// The keys are wiped before their memory is freed.
    fn drop(&mut self)
        opens_invariants none
        no_unwind
    {
        wipe(&mut self.chacha_key);
        wipe(&mut self.aes_key);
        wipe(&mut self.master_secret);
    }
}

fn copy_key(v: &Vec<u8>) -> (r: [u8; 32])
    requires
        v@.len() == 32,
    ensures
        r@ == v@,
{
    let mut a = [0u8; 32];
    let mut i: usize = 0;
    while i < 32
        invariant
            i <= 32,
            v@.len() == 32,
            forall|j: int| 0 <= j < i ==> a@[j] == v@[j],
        decreases 32 - i,
    {
        a[i] = v[i];
        i = i + 1;
    }
    assert(a@ =~= v@);
    a
}

fn copy_secret(v: &Vec<u8>) -> (r: [u8; 64])
    requires
        v@.len() == 64,
    ensures
        r@ == v@,
{
    let mut a = [0u8; 64];
    let mut i: usize = 0;
    while i < 64
        invariant
            i <= 64,
            v@.len() == 64,
            forall|j: int| 0 <= j < i ==> a@[j] == v@[j],
        decreases 64 - i,
    {
        a[i] = v[i];
        i = i + 1;
    }
    assert(a@ =~= v@);
    a
}

/// Expands the cipher keys from a 64-byte master secret; the intermediate
/// buffers are wiped.
fn keys_from_master(master: &mut Vec<u8>) -> (r: SessionKeys)
    requires
        old(master)@.len() == 64,
    ensures
        r.derived_from(old(master)@),
{
    let no_salt: Vec<u8> = Vec::new();
    let chacha = derive_keys(master.as_slice(), no_salt.as_slice(), "LLP-chacha20-key".as_bytes(), 32);
    let aes = derive_keys(master.as_slice(), no_salt.as_slice(), "LLP-aes-key".as_bytes(), 32);
    match (chacha, aes) {
        (Ok(mut chacha_key), Ok(mut aes_key)) => {
            let keys = SessionKeys {
                chacha_key: copy_key(&chacha_key),
                aes_key: copy_key(&aes_key),
                master_secret: copy_secret(master),
            };
            wipe_vec(&mut chacha_key);
            wipe_vec(&mut aes_key);
            wipe_vec(master);
            keys
        },
        _ => {
            assert(false);
            SessionKeys::from_raw([0u8; 32], [0u8; 32])
        },
    }
}

/// Derives the keys of a session from the shared secret and both nonces:
/// the master secret is expanded with the nonces (client's first) as salt,
/// and each cipher key from the master secret.
pub fn derive_session_keys(
    shared_secret: &[u8],
    client_random: &[u8; 32],
    server_random: &[u8; 32],
) -> (r: Result<SessionKeys>)
    ensures
        r is Ok,
        r is Ok ==> r->Ok_0.derived_from(
            master_secret_of(shared_secret@, client_random@, server_random@),
        ),
{
    let mut salt: Vec<u8> = Vec::new();
    let mut i: usize = 0;
    while i < 32
        invariant
            i <= 32,
            salt@ == client_random@.subrange(0, i as int),
        decreases 32 - i,
    {
        salt.push(client_random[i]);
        i = i + 1;
        assert(salt@ =~= client_random@.subrange(0, i as int));
    }
    let mut j: usize = 0;
    while j < 32
        invariant
            j <= 32,
            salt@ == client_random@ + server_random@.subrange(0, j as int),
        decreases 32 - j,
    {
        salt.push(server_random[j]);
        j = j + 1;
        assert(salt@ =~= client_random@ + server_random@.subrange(0, j as int));
    }
    assert(server_random@.subrange(0, 32) =~= server_random@);
    assert(client_random@.subrange(0, 32) =~= client_random@);
    let master = derive_keys(shared_secret, salt.as_slice(), "LLP-v1-master-secret".as_bytes(), 64);
    match master {
        Ok(mut m) => Ok(keys_from_master(&mut m)),
        Err(e) => Err(e),
    }
}

/// Appends the decimal digits of `n`.
fn push_decimal(buf: &mut Vec<u8>, n: u64)
    ensures
        final(buf)@ == old(buf)@ + decimal_digits(n as nat),
    decreases n,
{
    if n >= 10 {
        push_decimal(buf, n / 10);
    }
    buf.push((48 + n % 10) as u8);
    assert(final(buf)@ =~= old(buf)@ + decimal_digits(n as nat));
}

/// The info string of the `n`-th rotation.
fn rotation_info_bytes(n: u64) -> (r: Vec<u8>)
    ensures
        r@ == rotation_info(n as nat),
{
    let prefix = "LLP-v1-rotation-".as_bytes();
    let mut info: Vec<u8> = Vec::new();
    let mut i: usize = 0;
    while i < prefix.len()
        invariant
            i <= prefix@.len(),
            prefix@ == "LLP-v1-rotation-".spec_bytes(),
            info@ == prefix@.subrange(0, i as int),
        decreases prefix@.len() - i,
    {
        info.push(prefix[i]);
        i = i + 1;
        assert(info@ =~= prefix@.subrange(0, i as int));
    }
    assert(prefix@.subrange(0, prefix@.len() as int) =~= prefix@);
    push_decimal(&mut info, n);
    info
}

/// Derives the keys of the `rotation`-th generation from the shared secret
/// alone: the master secret is expanded with no salt for the rotation's info
/// string, and each cipher key from it as for a session.
pub fn derive_rotation_keys(shared_secret: &[u8], rotation: u64) -> (r: Result<SessionKeys>)
    ensures
        r is Ok,
        r is Ok ==> r->Ok_0.derived_from(rotation_master_of(shared_secret@, rotation as nat)),
{
    let info = rotation_info_bytes(rotation);
    let no_salt: Vec<u8> = Vec::new();
    match derive_keys(shared_secret, no_salt.as_slice(), info.as_slice(), 64) {
        Ok(mut m) => Ok(keys_from_master(&mut m)),
        Err(e) => Err(e),
    }
}

/// Two derivations from the same shared secret and nonces give the same keys.
pub proof fn lemma_session_keys_deterministic(
    a: SessionKeys,
    b: SessionKeys,
    secret: Seq<u8>,
    client_random: Seq<u8>,
    server_random: Seq<u8>,
)
    requires
        a.derived_from(master_secret_of(secret, client_random, server_random)),
        b.derived_from(master_secret_of(secret, client_random, server_random)),
    ensures
        a.chacha_key@ == b.chacha_key@,
        a.aes_key@ == b.aes_key@,
        a.master_secret@ == b.master_secret@,
{
}

} // verus!
