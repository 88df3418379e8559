use aes_gcm::aead::Aead;
use aes_gcm::KeyInit;
use vstd::prelude::*;
use vstd::utf8::{decode_utf8, valid_utf8};

use crate::errors::Error;

verus! {

/// The ciphertext-with-appended-tag that AES-256-GCM encryption produces for
/// a key, a nonce and a plaintext. The encryption is deterministic in these
/// three inputs, so its result can be named without being written out.
pub uninterp spec fn aead_seal_of(key: Seq<u8>, nonce: Seq<u8>, plaintext: Seq<u8>) -> Seq<u8>;

/// Relies on `aes_gcm::Aes256Gcm` through `aead::Aead::decrypt`:
/// authenticated decryption inverts encryption, so whenever `data` is the
/// ciphertext-with-tag that encryption produces for some plaintext under this
/// key and nonce, decryption succeeds and returns that plaintext; and,
/// conversely, decryption succeeds only by recovering a plaintext whose
/// encryption is exactly `data` (the tag is checked over the ciphertext, and
/// the recovered plaintext re-encrypts to it).
#[verifier::external_body]
fn aead_open(key: &[u8; 32], nonce: &[u8], data: &[u8]) -> (r: Option<Vec<u8>>)
    requires
        nonce@.len() == 12,
    ensures
        forall|p: Seq<u8>| (#[trigger] aead_seal_of(key@, nonce@, p)) == data@ ==> r is Some
            && r->0@ == p,
        r is Some ==> aead_seal_of(key@, nonce@, r->0@) == data@,
{
    let cipher = aes_gcm::Aes256Gcm::new(&(*key).into());
    let nonce_arr = aes_gcm::aead::Nonce::<aes_gcm::Aes256Gcm>::try_from(nonce).ok()?;
    cipher.decrypt(&nonce_arr, data).ok()
}

/// Relies on `String::from_utf8`: it succeeds exactly on valid UTF-8 and
/// then returns the decoded text.
#[verifier::external_body]
fn bytes_to_string(bytes: Vec<u8>) -> (r: Result<String, Error>)
    ensures
        r is Ok <==> valid_utf8(bytes@),
        r is Ok ==> r->Ok_0@ == decode_utf8(bytes@),
        r is Err ==> r->Err_0 == Error::EncodingError,
{
    match String::from_utf8(bytes) {
        Ok(s) => Ok(s),
        Err(_) => Err(Error::EncodingError),
    }
}

/// Authenticated decryption of an inbound secret.
///
/// Appends the 16-byte authentication tag to the ciphertext, decrypts the
/// pair under AES-256-GCM, and decodes the recovered bytes as UTF-8 text.
/// Authentication failure (a tampered ciphertext or a wrong key) is reported
/// as `DecryptionError`, a recovered plaintext that is not valid UTF-8 as
/// `EncodingError`.
///
/// Whenever ciphertext and tag are exactly what encryption under this key
/// and nonce produced for a plaintext, that plaintext is recovered: the
/// round trip through encryption and decryption is the identity. Success is
/// owed exactly when some plaintext encrypts to ciphertext-and-tag and is
/// valid UTF-8; `DecryptionError` comes exactly when nothing does, and
/// `EncodingError` exactly when the one recovered plaintext is not UTF-8.
pub fn decrypt(key: [u8; 32], cipher_text: Vec<u8>, auth_tag: &[u8], nonce: &[u8]) -> (r: Result<
    String,
    Error,
>)
    requires
        nonce@.len() == 12,
        auth_tag@.len() == 16,
    ensures
        forall|p: Seq<u8>|
            (#[trigger] aead_seal_of(key@, nonce@, p)) == cipher_text@ + auth_tag@ ==> {
                &&& valid_utf8(p) ==> r is Ok && r->Ok_0@ == decode_utf8(p)
                &&& !valid_utf8(p) ==> r == Err::<String, Error>(Error::EncodingError)
            },
        r is Ok <==> exists|p: Seq<u8>|
            (#[trigger] aead_seal_of(key@, nonce@, p)) == cipher_text@ + auth_tag@
                && valid_utf8(p),
        r == Err::<String, Error>(Error::DecryptionError) <==> forall|p: Seq<u8>|
            (#[trigger] aead_seal_of(key@, nonce@, p)) != cipher_text@ + auth_tag@,
        r == Err::<String, Error>(Error::EncodingError) <==> exists|p: Seq<u8>|
            (#[trigger] aead_seal_of(key@, nonce@, p)) == cipher_text@ + auth_tag@
                && !valid_utf8(p),
{
    let mut combined = cipher_text;
    let tag_len = auth_tag.len();
    let mut i: usize = 0;
    while i < tag_len
        invariant
            i <= tag_len,
            tag_len == auth_tag@.len(),
            combined@ == cipher_text@ + auth_tag@.take(i as int),
        decreases tag_len - i,
    {
        combined.push(auth_tag[i]);
        proof {
            assert(combined@ =~= cipher_text@ + auth_tag@.take(i + 1));
        }
        i = i + 1;
    }
    proof {
        assert(combined@ =~= cipher_text@ + auth_tag@);
    }
    match aead_open(&key, nonce, combined.as_slice()) {
        Some(plaintext) => bytes_to_string(plaintext),
        None => Err(Error::DecryptionError),
    }
}

} // verus!
