//! Encrypted transport codec: authenticated encryption of command and
//! response payloads under the 32-byte shared secret established at
//! pairing, with a 12-byte nonce.
//!
//! Responses use a nonce freshly drawn here; commands arrive with a
//! caller-supplied nonce. Decryption fails closed: tampering, a wrong key,
//! a wrong nonce or truncation yields `None`, never partial plaintext.
//! A `(secret, nonce)` pair must never be reused for two distinct
//! plaintexts; drawing response nonces at random here is how this side of
//! the protocol keeps that obligation.
use vstd::prelude::*;

use aes_gcm::aead::Aead;
use aes_gcm::{Aes256Gcm, KeyInit, Nonce};

use crate::hex::opt_bytes_view;

verus! {

/// The AES-256-GCM ciphertext (with its appended tag) of a plaintext under
/// a key and nonce; a function of its arguments alone.
pub uninterp spec fn sealed(key: Seq<u8>, nonce: Seq<u8>, plaintext: Seq<u8>) -> Seq<u8>;

/// The result of AES-256-GCM decryption of a ciphertext under a key and
/// nonce: the plaintext, or `None` when authentication fails.
pub uninterp spec fn opened(key: Seq<u8>, nonce: Seq<u8>, ciphertext: Seq<u8>) -> Option<Seq<u8>>;

/// An encrypted payload together with the nonce it was sealed under.
#[derive(Debug)]
pub struct EncryptedPayload {
    pub nonce: Vec<u8>,
    pub ciphertext: Vec<u8>,
}

/// Relies on `Aes256Gcm::encrypt` (aes-gcm): deterministic in key, nonce
/// and plaintext; appends the 16-byte authentication tag after the
/// ciphertext; `Aes256Gcm::decrypt` under the same key and nonce recovers
/// exactly the plaintext.
#[verifier::external_body]
fn aead_seal(key: &[u8], nonce: &[u8], plaintext: &[u8]) -> (r: Vec<u8>)
    requires
        key@.len() == 32,
        nonce@.len() == 12,
        plaintext@.len() <= 0xFFFF_FFFF,
    ensures
        r@ == sealed(key@, nonce@, plaintext@),
        r@.len() == plaintext@.len() + 16,
        opened(key@, nonce@, r@) == Some(plaintext@),
{
    let cipher = Aes256Gcm::new_from_slice(key).unwrap();
    cipher.encrypt(Nonce::from_slice(nonce), plaintext).unwrap()
}

/// Relies on `Aes256Gcm::decrypt` (aes-gcm): deterministic in key, nonce
/// and ciphertext; returns the plaintext only when the authentication tag
/// verifies, and an error otherwise.
#[verifier::external_body]
fn aead_open(key: &[u8], nonce: &[u8], ciphertext: &[u8]) -> (r: Option<Vec<u8>>)
    requires
        key@.len() == 32,
        nonce@.len() == 12,
    ensures
        opt_bytes_view(r) == opened(key@, nonce@, ciphertext@),
{
    let cipher = Aes256Gcm::new_from_slice(key).unwrap();
    cipher.decrypt(Nonce::from_slice(nonce), ciphertext).ok()
}

/// Relies on `rand::random`: returns twelve bytes drawn from the thread
/// RNG; nothing further is assumed of their values.
#[verifier::external_body]
fn random_nonce() -> (r: Vec<u8>)
    ensures
        r@.len() == 12,
{
    let bytes: [u8; 12] = rand::random();
    bytes.to_vec()
}

/// Seals a response payload under the shared secret and a fresh random
/// nonce; the result carries the nonce the caller must transmit alongside.
pub fn encrypt(shared_secret: &[u8], plaintext: &[u8]) -> (r: EncryptedPayload)
    requires
        shared_secret@.len() == 32,
        plaintext@.len() <= 0xFFFF_FFFF,
    ensures
        r.nonce@.len() == 12,
        r.ciphertext@ == sealed(shared_secret@, r.nonce@, plaintext@),
        r.ciphertext@.len() == plaintext@.len() + 16,
        opened(shared_secret@, r.nonce@, r.ciphertext@) == Some(plaintext@),
{
    let nonce = random_nonce();
    let ciphertext = aead_seal(shared_secret, nonce.as_slice(), plaintext);
    EncryptedPayload { nonce, ciphertext }
}

/// Opens a command payload under the shared secret and the caller-supplied
/// nonce; fails closed on a malformed nonce or failed authentication.
pub fn decrypt(shared_secret: &[u8], nonce: &[u8], ciphertext: &[u8]) -> (r: Option<Vec<u8>>)
    requires
        shared_secret@.len() == 32,
    ensures
        nonce@.len() == 12 ==> opt_bytes_view(r) == opened(shared_secret@, nonce@, ciphertext@),
        nonce@.len() != 12 ==> r is None,
{
    if nonce.len() != 12 {
        return None;
    }
    aead_open(shared_secret, nonce, ciphertext)
}

} // verus!
