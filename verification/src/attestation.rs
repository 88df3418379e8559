use base64::Engine;
use vstd::prelude::*;

use crate::errors::{device_error_code, DeviceErrorCode, Error};

verus! {

/// The standard, padded base64 text for a byte string. The encoding depends
/// on the input bytes alone.
pub uninterp spec fn base64_of(bytes: Seq<u8>) -> Seq<char>;

/// The CBOR encoding of a map with text keys whose values are text or null,
/// given as a key/value sequence. The encoding depends on the entries alone.
pub uninterp spec fn cbor_text_map_of(entries: Seq<(Seq<char>, Option<Seq<char>>)>) -> Seq<u8>;

/// The CBOR encoding of a four-element signed-message envelope: the protected
/// header bytes, an empty unprotected-header map, the payload bytes and the
/// signature bytes. The encoding depends on the three byte strings alone.
pub uninterp spec fn cose_sign1_of(protected: Seq<u8>, payload: Seq<u8>, signature: Seq<u8>) -> Seq<
    u8,
>;

/// Relies on `base64::engine::general_purpose::STANDARD.encode`: the standard
/// alphabet with padding, a pure function of the input bytes.
#[verifier::external_body]
fn base64_encode(data: &[u8]) -> (r: String)
    ensures
        r@ == base64_of(data@),
{
    base64::engine::general_purpose::STANDARD.encode(data)
}

/// Relies on `serde_cbor::to_vec` over `serde_cbor::Value`: encodes the given
/// entries as a CBOR map from text keys to text-or-null values. Entries with
/// one key overwrite each other and the map is written in the key order that
/// CBOR's canonical map ordering gives, so the bytes depend on the entry
/// sequence alone; writing into a vector cannot fail, so the encoding always
/// succeeds.
#[verifier::external_body]
fn cbor_encode_text_map(entries: &Vec<(String, Option<String>)>) -> (r: Option<Vec<u8>>)
    ensures
        r is Some,
        r->0@ == cbor_text_map_of(entries_view(entries@)),
{
    let mut map = std::collections::BTreeMap::new();
    for (key, value) in entries {
        let cbor_value = match value {
            Some(text) => serde_cbor::Value::Text(text.clone()),
            None => serde_cbor::Value::Null,
        };
        map.insert(serde_cbor::Value::Text(key.clone()), cbor_value);
    }
    serde_cbor::to_vec(&serde_cbor::Value::Map(map)).ok()
}

/// Relies on `serde_cbor::to_vec` over `serde_cbor::Value`: encodes the empty
/// map, which CBOR writes as the single byte 0xA0; writing into a vector
/// cannot fail.
#[verifier::external_body]
fn cbor_encode_empty_map() -> (r: Option<Vec<u8>>)
    ensures
        r is Some,
        r->0@ == seq![0xa0u8],
{
    serde_cbor::to_vec(&serde_cbor::Value::Map(std::collections::BTreeMap::new())).ok()
}

/// Relies on `serde_cbor::to_vec` over `serde_cbor::Value`: encodes the
/// four-element array `[bytes(protected), {}, bytes(payload),
/// bytes(signature)]`, the shape of a signed-message envelope; writing into a
/// vector cannot fail.
#[verifier::external_body]
fn cbor_encode_cose_sign1(protected: &Vec<u8>, payload: &Vec<u8>, signature: &Vec<u8>) -> (r:
    Option<Vec<u8>>)
    ensures
        r is Some,
        r->0@ == cose_sign1_of(protected@, payload@, signature@),
{
    let envelope = serde_cbor::Value::Array(vec![
        serde_cbor::Value::Bytes(protected.clone()),
        serde_cbor::Value::Map(std::collections::BTreeMap::new()),
        serde_cbor::Value::Bytes(payload.clone()),
        serde_cbor::Value::Bytes(signature.clone()),
    ]);
    serde_cbor::to_vec(&envelope).ok()
}

/// What the hardware attestation service answered: a signed document, an
/// error, or an unexpected response kind.
pub enum NsmAttestationReply {
    Document(Vec<u8>),
    ErrorReply(DeviceErrorCode),
    Unexpected,
}

/// Relies on `aws_nitro_enclaves_nsm_api::driver::nsm_process_request` with an
/// `Attestation` request: the device answers with a signed attestation
/// document, an error code (mirrored onto the library's plain value), or some
/// other response kind, which a correct device never sends. Nothing is
/// assumed about which of the three comes back.
#[verifier::external_body]
fn nsm_attestation(
    fd: i32,
    user_data: Option<Vec<u8>>,
    nonce: Option<Vec<u8>>,
    public_key: Option<Vec<u8>>,
) -> NsmAttestationReply {
    let request = aws_nitro_enclaves_nsm_api::api::Request::Attestation {
        user_data: user_data.map(serde_bytes::ByteBuf::from),
        nonce: nonce.map(serde_bytes::ByteBuf::from),
        public_key: public_key.map(serde_bytes::ByteBuf::from),
    };
    match aws_nitro_enclaves_nsm_api::driver::nsm_process_request(fd, request) {
        aws_nitro_enclaves_nsm_api::api::Response::Attestation { document } =>
            NsmAttestationReply::Document(document),
        aws_nitro_enclaves_nsm_api::api::Response::Error(e) =>
            NsmAttestationReply::ErrorReply(device_error_code(e)),
        _ => NsmAttestationReply::Unexpected,
    }
}

/// View of a key/value entry sequence as its text.
pub open spec fn entries_view(entries: Seq<(String, Option<String>)>) -> Seq<
    (Seq<char>, Option<Seq<char>>),
> {
    entries.map_values(
        |e: (String, Option<String>)|
            (
                e.0@,
                match e.1 {
                    Some(text) => Some(text@),
                    None => None,
                },
            ),
    )
}

/// Base64 text of an optional byte string.
pub open spec fn opt_base64_of(data: Option<Seq<u8>>) -> Option<Seq<char>> {
    match data {
        Some(bytes) => Some(base64_of(bytes)),
        None => None,
    }
}

/// View of an optional byte buffer.
pub open spec fn opt_bytes_view(data: Option<Vec<u8>>) -> Option<Seq<u8>> {
    match data {
        Some(bytes) => Some(bytes@),
        None => None,
    }
}

/// The payload entries of a software-fallback attestation document: the
/// base64 text of the public key, and the base64 texts of the user data and
/// the nonce where they are given, null where not.
pub open spec fn fallback_payload_entries(
    public_key: Seq<u8>,
    user_data: Option<Seq<u8>>,
    nonce: Option<Seq<u8>>,
) -> Seq<(Seq<char>, Option<Seq<char>>)> {
    seq![
        ("public_key"@, Some(base64_of(public_key))),
        ("user_data"@, opt_base64_of(user_data)),
        ("nonce"@, opt_base64_of(nonce)),
    ]
}

/// The document of a software-fallback attestation: the payload map wrapped
/// in an envelope whose protected header is the encoded empty map and whose
/// signature is empty, signalling that the document is unsigned.
pub open spec fn fallback_document_of(
    public_key: Seq<u8>,
    user_data: Option<Seq<u8>>,
    nonce: Option<Seq<u8>>,
) -> Seq<u8> {
    cose_sign1_of(
        seq![0xa0u8],
        cbor_text_map_of(fallback_payload_entries(public_key, user_data, nonce)),
        Seq::<u8>::empty(),
    )
}

/// Turns the hardware attestation service's reply into the operation's
/// result: a document is passed on verbatim, a device error is handed on as
/// `DeviceError` with exactly the code the device reported, and an unexpected
/// response kind becomes `InvalidResponse`.
pub fn attestation_from_reply(reply: NsmAttestationReply) -> (r: Result<Vec<u8>, Error>)
    ensures
        reply is Document ==> r is Ok && r->Ok_0 == reply->Document_0,
        reply is ErrorReply ==> r == Err::<Vec<u8>, Error>(
            Error::DeviceError(reply->ErrorReply_0),
        ),
        reply is Unexpected ==> r == Err::<Vec<u8>, Error>(Error::InvalidResponse),
{
    match reply {
        NsmAttestationReply::Document(document) => Ok(document),
        NsmAttestationReply::ErrorReply(code) => Err(Error::DeviceError(code)),
        NsmAttestationReply::Unexpected => Err(Error::InvalidResponse),
    }
}

/// Attestation-document generation.
///
/// With a real trusted-hardware device (`fd != 0`) the user data, nonce and
/// public key are forwarded to the hardware attestation service and its
/// signed document is returned verbatim; a device error is handed on as
/// `DeviceError` with the code the device reported, and an unexpected
/// response kind becomes `InvalidResponse`.
///
/// With no hardware device (`fd == 0`) an unsigned envelope is returned
/// instead: a payload mapping `public_key`, `user_data` and `nonce` to their
/// base64 texts (null for an absent optional), wrapped in a four-element
/// envelope with empty headers and an explicitly empty signature. The public
/// key is mandatory here, and the one failure of this mode is its absence,
/// reported as `InvalidArgument`: with a public key the document is always
/// built, a pure function of the three arguments. The empty signature tells
/// a verifier that the document proves nothing about hardware isolation.
pub fn get_attestation(
    fd: i32,
    user_data: Option<Vec<u8>>,
    nonce: Option<Vec<u8>>,
    public_key: Option<Vec<u8>>,
) -> (r: Result<Vec<u8>, Error>)
    ensures
        fd == 0 && public_key is None ==> r == Err::<Vec<u8>, Error>(Error::InvalidArgument),
        fd == 0 && public_key is Some ==> r is Ok && r->Ok_0@ == fallback_document_of(
            public_key->0@,
            opt_bytes_view(user_data),
            opt_bytes_view(nonce),
        ),
        fd != 0 ==> r is Ok || r->Err_0 is DeviceError || r->Err_0 == Error::InvalidResponse,
{
    if fd == 0 {
        let pk = match public_key {
            Some(pk) => pk,
            None => {
                return Err(Error::InvalidArgument);
            },
        };
        let pk_b64 = base64_encode(pk.as_slice());
        let user_data_b64 = match &user_data {
            Some(data) => Some(base64_encode(data.as_slice())),
            None => None,
        };
        let nonce_b64 = match &nonce {
            Some(data) => Some(base64_encode(data.as_slice())),
            None => None,
        };
        let mut entries: Vec<(String, Option<String>)> = Vec::new();
        entries.push(("public_key".to_owned(), Some(pk_b64)));
        entries.push(("user_data".to_owned(), user_data_b64));
        entries.push(("nonce".to_owned(), nonce_b64));
        proof {
            assert(entries_view(entries@) =~~= fallback_payload_entries(
                pk@,
                opt_bytes_view(user_data),
                opt_bytes_view(nonce),
            ));
        }
        let payload = cbor_encode_text_map(&entries).unwrap();
        let protected = cbor_encode_empty_map().unwrap();
        let signature: Vec<u8> = Vec::new();
        Ok(cbor_encode_cose_sign1(&protected, &payload, &signature).unwrap())
    } else {
        attestation_from_reply(nsm_attestation(fd, user_data, nonce, public_key))
    }
}

} // verus!
