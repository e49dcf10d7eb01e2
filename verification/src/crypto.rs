//! AES-256-GCM sealing (the `aes-gcm` crate) and fresh random bytes (the
//! `rand` crate) for the encrypted cookie file.
use vstd::prelude::*;
use aes_gcm::aead::{Aead, KeyInit};
use rand::RngCore;

verus! {

/// Bytes in an AES-256 key.
pub const KEY_LEN: usize = 32;

/// Bytes in an AES-GCM nonce.
pub const NONCE_LEN: usize = 12;

/// Bytes in the authentication tag appended to every ciphertext.
pub const TAG_LEN: usize = 16;

/// Largest plaintext AES-GCM accepts, in bytes.
pub const MAX_PLAINTEXT: u64 = 68719476736;

/// The AES-256-GCM ciphertext (with its tag appended) of `plaintext`
/// under `key` and `nonce`, without associated data.
pub uninterp spec fn aes256gcm_seal(key: Seq<u8>, nonce: Seq<u8>, plaintext: Seq<u8>) -> Seq<u8>;

/// The plaintext that AES-256-GCM recovers from `ciphertext` under `key`
/// and `nonce`, or `None` when the tag does not authenticate it.
pub uninterp spec fn aes256gcm_open(key: Seq<u8>, nonce: Seq<u8>, ciphertext: Seq<u8>) -> Option<Seq<u8>>;

/// Calls `Aes256Gcm::new` and `Aead::encrypt`. Trusted: it succeeds exactly
/// when the plaintext is within the cipher's limit; the ciphertext is the
/// plaintext's length plus the tag, and opening it with the same key and
/// nonce gives the plaintext back. The crate panics on a key or nonce of
/// another length, so those are excluded. The error's message is the
/// crate's and is not described.
#[verifier::external_body]
pub(crate) fn aes256gcm_encrypt(key: &[u8], nonce: &[u8], plaintext: &[u8]) -> (r: Result<Vec<u8>, String>)
    requires
        key@.len() == KEY_LEN,
        nonce@.len() == NONCE_LEN,
    ensures
        r is Ok <==> plaintext@.len() <= MAX_PLAINTEXT,
        r matches Ok(c) ==> c@ == aes256gcm_seal(key@, nonce@, plaintext@),
        r matches Ok(c) ==> c@.len() == plaintext@.len() + TAG_LEN,
        r matches Ok(c) ==> aes256gcm_open(key@, nonce@, c@) == Some(plaintext@),
{
    let cipher = aes_gcm::Aes256Gcm::new(aes_gcm::Key::<aes_gcm::Aes256Gcm>::from_slice(key));
    cipher.encrypt(aes_gcm::Nonce::from_slice(nonce), plaintext).map_err(|e| e.to_string())
}

/// Calls `Aes256Gcm::new` and `Aead::decrypt`. Trusted: the result is the
/// plaintext that authenticated decryption recovers, or `None` when it
/// fails. The crate panics on a key or nonce of another length, so those
/// are excluded.
#[verifier::external_body]
pub(crate) fn aes256gcm_decrypt(key: &[u8], nonce: &[u8], ciphertext: &[u8]) -> (r: Option<Vec<u8>>)
    requires
        key@.len() == KEY_LEN,
        nonce@.len() == NONCE_LEN,
    ensures
        match aes256gcm_open(key@, nonce@, ciphertext@) {
            Some(p) => r matches Some(v) && v@ == p,
            None => r is None,
        },
{
    let cipher = aes_gcm::Aes256Gcm::new(aes_gcm::Key::<aes_gcm::Aes256Gcm>::from_slice(key));
    cipher.decrypt(aes_gcm::Nonce::from_slice(nonce), ciphertext).ok()
}

/// Calls `rand::thread_rng().fill_bytes` on `n` zero bytes. Trusted: `n`
/// bytes come back; what they are is chance and is not described. The
/// crate panics when the operating system's generator cannot seed it, which
/// no input can avoid.
#[verifier::external_body]
pub(crate) fn random_bytes(n: usize) -> (r: Vec<u8>)
    ensures
        r@.len() == n,
{
    let mut buf = vec![0u8; n];
    rand::thread_rng().fill_bytes(&mut buf);
    buf
}

} // verus!
