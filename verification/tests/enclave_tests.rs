use seismic_evm::enclave::{EnclaveClientBuilder, EnclaveError};

fn sample_pubkey() -> Vec<u8> {
    let mut k = vec![2u8; 33];
    k[1] = 0x7f;
    k
}

fn sample_nonce() -> Vec<u8> {
    (0u8..12u8).collect()
}

#[test]
fn encrypt_then_decrypt_returns_plaintext() {
    let client = EnclaveClientBuilder::new().build();
    let key = sample_pubkey();
    let nonce = sample_nonce();
    let data = b"hello world".to_vec();
    let ciphertext = client.encrypt(&key, &data, &nonce);
    assert_eq!(ciphertext.len(), data.len() + 16);
    assert_ne!(ciphertext, data);
    let plaintext = client.decrypt(&ciphertext, &key, &nonce).unwrap();
    assert_eq!(plaintext, data);
}

#[test]
fn roundtrip_witness_returns_plaintext() {
    let client = EnclaveClientBuilder::new().build();
    let key = sample_pubkey();
    let nonce = sample_nonce();
    let data = vec![0u8, 255, 1, 2, 3];
    assert_eq!(client.encrypt_decrypt_roundtrip(&key, &data, &nonce), data);
}

#[test]
fn roundtrip_of_empty_plaintext() {
    let client = EnclaveClientBuilder::new().build();
    let key = sample_pubkey();
    let nonce = sample_nonce();
    let data: Vec<u8> = Vec::new();
    let ciphertext = client.encrypt(&key, &data, &nonce);
    assert_eq!(ciphertext.len(), 16);
    assert_eq!(client.decrypt(&ciphertext, &key, &nonce).unwrap(), data);
}

#[test]
fn decrypt_with_mismatched_key_fails() {
    let client = EnclaveClientBuilder::new().build();
    let key = sample_pubkey();
    let nonce = sample_nonce();
    let data = b"hello world".to_vec();
    let ciphertext = client.encrypt(&key, &data, &nonce);
    let other_key = vec![3u8; 33];
    let r = client.decrypt(&ciphertext, &other_key, &nonce);
    assert_eq!(r, Err(EnclaveError::DecryptionFailure));
}

#[test]
fn decrypt_of_tampered_ciphertext_fails() {
    let client = EnclaveClientBuilder::new().build();
    let key = sample_pubkey();
    let nonce = sample_nonce();
    let data = b"hello world".to_vec();
    let mut ciphertext = client.encrypt(&key, &data, &nonce);
    ciphertext[0] ^= 1;
    let r = client.decrypt(&ciphertext, &key, &nonce);
    assert_eq!(r, Err(EnclaveError::DecryptionFailure));
}

#[test]
fn decrypt_with_mismatched_nonce_fails() {
    let client = EnclaveClientBuilder::new().build();
    let key = sample_pubkey();
    let nonce = sample_nonce();
    let data = b"hello world".to_vec();
    let ciphertext = client.encrypt(&key, &data, &nonce);
    let other_nonce = vec![9u8; 12];
    let r = client.decrypt(&ciphertext, &key, &other_nonce);
    assert_eq!(r, Err(EnclaveError::DecryptionFailure));
}

#[test]
fn purpose_keys_are_stable_per_builder() {
    let builder = EnclaveClientBuilder::new();
    let a = builder.build().get_purpose_keys(0).unwrap();
    let b = builder.build().get_purpose_keys(7).unwrap();
    assert_eq!(a.bytes.len(), 96);
    assert_eq!(a.bytes, b.bytes);
}
