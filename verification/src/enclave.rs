//! The key-management client: sealing and opening of confidential payloads,
//! and provisioning of randomness key material.
//!
//! A payload is sealed with AES-256-GCM under a key derived from the
//! recipient's encryption public key; opening authenticates the ciphertext
//! and can therefore never hand back a payload other than the one sealed.

use aes_gcm::aead::{Aead, KeyInit};
use sha2::Digest;
use vstd::prelude::*;

use crate::primitives::clone_bytes;

verus! {

/// The longest payload the sealing scheme accepts, in bytes: the AES-GCM
/// plaintext bound for a 96-bit nonce.
pub const MAX_PLAINTEXT_LEN: u64 = 68719476704;

/// The SHA-256 digest of a byte string.
pub uninterp spec fn sha256_of(data: Seq<u8>) -> Seq<u8>;

/// The AES-256-GCM sealing of a plaintext under a 32-byte key and a 12-byte
/// nonce: the ciphertext with its authentication tag appended.
pub uninterp spec fn sealed_of(key: Seq<u8>, nonce: Seq<u8>, plaintext: Seq<u8>) -> Seq<u8>;

/// Relies on sha2::Sha256: the digest is 32 bytes and a function of the
/// input alone.
#[verifier::external_body]
fn sha256_digest(data: &Vec<u8>) -> (r: Vec<u8>)
    ensures
        r@ == sha256_of(data@),
        r@.len() == 32,
{
    sha2::Sha256::digest(data.as_slice()).to_vec()
}

/// Relies on aes_gcm::Aes256Gcm::encrypt: deterministic in key, nonce and
/// plaintext, appends the 16-byte authentication tag, and succeeds for every
/// plaintext within the GCM length bound.
#[verifier::external_body]
fn aead_seal(key: &Vec<u8>, nonce: &Vec<u8>, plaintext: &Vec<u8>) -> (r: Vec<u8>)
    requires
        key@.len() == 32,
        nonce@.len() == 12,
        plaintext@.len() <= MAX_PLAINTEXT_LEN,
    ensures
        r@ == sealed_of(key@, nonce@, plaintext@),
        r@.len() == plaintext@.len() + 16,
{
    let cipher = aes_gcm::Aes256Gcm::new_from_slice(key.as_slice()).unwrap();
    let nonce_arr = aes_gcm::Nonce::try_from(nonce.as_slice()).unwrap();
    cipher.encrypt(&nonce_arr, plaintext.as_slice()).unwrap()
}

/// Relies on aes_gcm::Aes256Gcm::decrypt: it succeeds exactly on the sealing
/// of some plaintext under the given key and nonce, and then returns that
/// plaintext; every other ciphertext fails tag authentication.
#[verifier::external_body]
fn aead_open(key: &Vec<u8>, nonce: &Vec<u8>, ciphertext: &Vec<u8>) -> (r: Option<Vec<u8>>)
    requires
        key@.len() == 32,
        nonce@.len() == 12,
    ensures
        r.is_some() ==> ciphertext@ == sealed_of(key@, nonce@, r.unwrap()@),
        forall|p: Seq<u8>|
            p.len() <= MAX_PLAINTEXT_LEN && ciphertext@ == sealed_of(key@, nonce@, p)
                ==> r.is_some() && r.unwrap()@ == p,
{
    let cipher = aes_gcm::Aes256Gcm::new_from_slice(key.as_slice()).unwrap();
    let nonce_arr = aes_gcm::Nonce::try_from(nonce.as_slice()).unwrap();
    cipher.decrypt(&nonce_arr, ciphertext.as_slice()).ok()
}

/// Relies on schnorrkel::Keypair::generate: a freshly drawn Ristretto
/// signing keypair, serialized through Keypair::to_bytes into 96 bytes.
/// Nothing is assumed of the drawn value itself.
#[verifier::external_body]
fn generate_rng_keypair_bytes() -> (r: Vec<u8>)
    ensures
        r@.len() == 96,
{
    schnorrkel::Keypair::generate().to_bytes().to_vec()
}

/// Errors of the key-management client.
#[derive(Clone, Copy, PartialEq, Eq, Structural, Debug)]
pub enum EnclaveError {
    /// The ciphertext does not validate against the stated key and nonce.
    DecryptionFailure,
    /// The key service could not provide the requested material.
    KeyServiceUnavailable,
}

/// A randomness keypair fetched from the key service, held as its 96-byte
/// serialization.
pub struct KeyMaterial {
    pub bytes: Vec<u8>,
}

impl View for KeyMaterial {
    type V = Seq<u8>;

    open spec fn view(&self) -> Seq<u8> {
        self.bytes@
    }
}

impl KeyMaterial {
    /// Key material is well formed when it holds a full 96-byte keypair
    /// serialization.
    pub open spec fn wf(self) -> bool {
        self.bytes@.len() == 96
    }

    /// Copies the key material.
    pub fn duplicate(&self) -> (r: KeyMaterial)
        ensures
            r@ == self@,
    {
        KeyMaterial { bytes: clone_bytes(&self.bytes) }
    }
}

/// A connected key-management client. One instance is shared across executor
/// instances; its randomness key material is fixed at connection time and
/// only read afterwards.
pub struct EnclaveClient {
    /// The randomness keypair this client serves.
    pub rng_keypair: KeyMaterial,
}

impl EnclaveClient {
    /// Seals `data` under the key derived from `key` and the given 96-bit
    /// nonce. Used by producers of confidential transactions; the executor
    /// itself only decrypts.
    pub fn encrypt(&self, key: &Vec<u8>, data: &Vec<u8>, nonce: &Vec<u8>) -> (r: Vec<u8>)
        requires
            nonce@.len() == 12,
            data@.len() <= MAX_PLAINTEXT_LEN,
        ensures
            r@ == sealed_of(sha256_of(key@), nonce@, data@),
            r@.len() == data@.len() + 16,
    {
        let derived = sha256_digest(key);
        aead_seal(&derived, nonce, data)
    }

    /// Opens `ciphertext` against the stated key and nonce.
    ///
    /// Success certifies that the ciphertext is exactly the sealing of the
    /// returned plaintext under that key and nonce: a tampered ciphertext or
    /// a mismatched key can only fail, never yield a different plaintext.
    /// Every honestly sealed ciphertext is owed success.
    pub fn decrypt(&self, ciphertext: &Vec<u8>, key: &Vec<u8>, nonce: &Vec<u8>) -> (r: Result<
        Vec<u8>,
        EnclaveError,
    >)
        requires
            nonce@.len() == 12,
        ensures
            r matches Ok(p) ==> ciphertext@ == sealed_of(sha256_of(key@), nonce@, p@),
            forall|p: Seq<u8>|
                p.len() <= MAX_PLAINTEXT_LEN && ciphertext@ == sealed_of(sha256_of(key@), nonce@, p)
                    ==> (r matches Ok(v) && v@ == p),
            r matches Err(e) ==> e == EnclaveError::DecryptionFailure,
    {
        let derived = sha256_digest(key);
        match aead_open(&derived, nonce, ciphertext) {
            Some(p) => Ok(p),
            None => Err(EnclaveError::DecryptionFailure),
        }
    }

    /// Law: decrypting an encryption under the same key and nonce returns the
    /// original plaintext, for every plaintext and every well-formed
    /// key/nonce pair.
    pub fn encrypt_decrypt_roundtrip(&self, key: &Vec<u8>, data: &Vec<u8>, nonce: &Vec<u8>) -> (r:
        Vec<u8>)
        requires
            nonce@.len() == 12,
            data@.len() <= MAX_PLAINTEXT_LEN,
        ensures
            r@ == data@,
    {
        let ciphertext = self.encrypt(key, data, nonce);
        match self.decrypt(&ciphertext, key, nonce) {
            Ok(p) => p,
            Err(_) => vstd::pervasive::unreached(),
        }
    }

    /// Hands out the purpose-scoped randomness key material for an epoch.
    /// This client serves one fixed keypair, so the call always succeeds and
    /// every epoch resolves to the same material.
    pub fn get_purpose_keys(&self, epoch: u64) -> (r: Result<KeyMaterial, EnclaveError>)
        ensures
            r matches Ok(k) && k@ == self.rng_keypair@,
    {
        let _ = epoch;
        Ok(self.rng_keypair.duplicate())
    }
}

/// Builds connected [`EnclaveClient`]s. The randomness keypair is drawn once
/// when the builder is created; every client it builds serves that same
/// material.
pub struct EnclaveClientBuilder {
    /// The randomness keypair served to every built client.
    pub rng_keypair: KeyMaterial,
}

impl EnclaveClientBuilder {
    /// Draws fresh randomness key material and wraps it in a builder.
    pub fn new() -> (r: EnclaveClientBuilder)
        ensures
            r.rng_keypair.wf(),
    {
        EnclaveClientBuilder { rng_keypair: KeyMaterial { bytes: generate_rng_keypair_bytes() } }
    }

    /// Builds a connected client serving this builder's key material.
    pub fn build(&self) -> (r: EnclaveClient)
        ensures
            r.rng_keypair@ == self.rng_keypair@,
    {
        EnclaveClient { rng_keypair: self.rng_keypair.duplicate() }
    }

    /// Copies the builder.
    pub fn duplicate(&self) -> (r: EnclaveClientBuilder)
        ensures
            r.rng_keypair@ == self.rng_keypair@,
    {
        EnclaveClientBuilder { rng_keypair: self.rng_keypair.duplicate() }
    }
}

} // verus!
