use aes_gcm::aead::Aead;
use aes_gcm::KeyInit;

use prover_service::{decrypt, Error};

fn encrypt(key: [u8; 32], nonce: [u8; 12], plaintext: &[u8]) -> (Vec<u8>, Vec<u8>) {
    let cipher = aes_gcm::Aes256Gcm::new(&key.into());
    let nonce_arr = aes_gcm::aead::Nonce::<aes_gcm::Aes256Gcm>::from(nonce);
    let mut combined = cipher.encrypt(&nonce_arr, plaintext).unwrap();
    let tag = combined.split_off(combined.len() - 16);
    (combined, tag)
}

#[test]
fn decrypt_round_trip_recovers_plaintext() {
    let key = [0x11u8; 32];
    let nonce = [0x22u8; 12];
    let plaintext = "attested secret payload";
    let (cipher_text, tag) = encrypt(key, nonce, plaintext.as_bytes());
    let recovered = decrypt(key, cipher_text, &tag, &nonce).unwrap();
    assert_eq!(recovered, plaintext);
}

#[test]
fn decrypt_round_trip_empty_plaintext() {
    let key = [0x07u8; 32];
    let nonce = [0x00u8; 12];
    let (cipher_text, tag) = encrypt(key, nonce, b"");
    let recovered = decrypt(key, cipher_text, &tag, &nonce).unwrap();
    assert_eq!(recovered, "");
}

#[test]
fn decrypt_with_wrong_key_fails() {
    let key = [0x11u8; 32];
    let other_key = [0x12u8; 32];
    let nonce = [0x22u8; 12];
    let (cipher_text, tag) = encrypt(key, nonce, b"secret");
    let r = decrypt(other_key, cipher_text, &tag, &nonce);
    assert_eq!(r, Err(Error::DecryptionError));
}

#[test]
fn decrypt_with_tampered_tag_fails() {
    let key = [0x11u8; 32];
    let nonce = [0x22u8; 12];
    let (cipher_text, mut tag) = encrypt(key, nonce, b"secret");
    tag[0] ^= 0x01;
    let r = decrypt(key, cipher_text, &tag, &nonce);
    assert_eq!(r, Err(Error::DecryptionError));
}

#[test]
fn decrypt_with_tampered_ciphertext_fails() {
    let key = [0x11u8; 32];
    let nonce = [0x22u8; 12];
    let (mut cipher_text, tag) = encrypt(key, nonce, b"secret payload");
    cipher_text[3] ^= 0x80;
    let r = decrypt(key, cipher_text, &tag, &nonce);
    assert_eq!(r, Err(Error::DecryptionError));
}

#[test]
fn decrypt_of_non_utf8_plaintext_is_encoding_error() {
    let key = [0x33u8; 32];
    let nonce = [0x44u8; 12];
    let plaintext: Vec<u8> = vec![0xff, 0xfe, 0x00, 0x41];
    let (cipher_text, tag) = encrypt(key, nonce, &plaintext);
    let r = decrypt(key, cipher_text, &tag, &nonce);
    assert_eq!(r, Err(Error::EncodingError));
}
