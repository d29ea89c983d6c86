//! The payload decoder: from the bytes of a notification to its plaintext.
//!
//! A payload is one `aes128gcm` record. Its header names the salt and the
//! sender's public key; with the receiver's key material these give the
//! content-encryption key and the nonce, under which AES-128-GCM opens the
//! rest. Multi-record messages are not split: the record size of the
//! header is read and not acted on.
//!
//! AES-GCM is the work of the `aes-gcm` crate and base64 that of the
//! `base64` crate; their results enter the contracts under the names
//! [`aes128gcm_open`] and [`base64url_decode`].

use aes_gcm::aead::{Aead, KeyInit};
use base64::Engine;
use vstd::prelude::*;
use crate::kdf::{
    bytes_view, derive_record_keys, derive_record_keys_spec, is_uncompressed_point, RecordKeys,
    RecordKeysView, KEY_LEN, NONCE_LEN,
};
use crate::keys::{KeyMaterial, KeyMaterialView};
use crate::record::{
    ciphertext_offset, lemma_parse_of_layout, parse_record, parse_record_spec, record_bytes,
    DecodeError, HEADER_LEN, KEY_ID_LEN_OFFSET, SALT_LEN,
};

verus! {

/// Length of the authentication tag that ends a ciphertext.
pub const TAG_LEN: usize = 16;

/// Why the text of a notification could not be turned into plaintext.
#[derive(Clone, Copy, Debug, PartialEq, Eq, Structural)]
pub enum EnvelopeError {
    /// The notification names a channel that is not registered, so there
    /// is no key material to open it with.
    UnknownChannel,
    /// The text is not base64 in the URL-safe alphabet without padding.
    Encoding,
    /// The bytes are not a record that the key material opens.
    Record(DecodeError),
}

/// The plaintext that AES-128-GCM yields for a key, a nonce and a ciphertext
/// with its tag at the end, with no additional authenticated data; `None`
/// where the tag does not match.
pub uninterp spec fn aes128gcm_open(key: Seq<u8>, nonce: Seq<u8>, sealed: Seq<u8>) -> Option<
    Seq<u8>,
>;

/// The bytes that a text stands for in base64 with the URL-safe alphabet
/// and no padding; `None` where the text is not such an encoding.
pub uninterp spec fn base64url_decode(text: Seq<char>) -> Option<Seq<u8>>;

/// What opening a ciphertext under given keys arrives at: the plaintext
/// that AES-GCM releases, or a tag mismatch.
pub open spec fn open_record_spec(ciphertext: Seq<u8>, keys: RecordKeysView) -> Result<
    Seq<u8>,
    DecodeError,
> {
    match aes128gcm_open(keys.key, keys.nonce, ciphertext) {
        Some(plaintext) => Ok(plaintext),
        None => Err(DecodeError::AuthTagMismatch),
    }
}

/// What opening a payload with given key material arrives at.
///
/// The header is parsed first, so a truncated payload or a bad key id
/// length is reported before any key is derived. A key id that key
/// agreement refuses is a bad key id too. The tag decides last.
pub open spec fn decode_spec(blob: Seq<u8>, keys: KeyMaterialView) -> Result<
    Seq<u8>,
    DecodeError,
> {
    match parse_record_spec(blob) {
        Err(e) => Err(e),
        Ok(record) => match derive_record_keys_spec(
            keys.private_key,
            keys.public_key,
            record.key_id,
            keys.auth_secret,
            record.salt,
        ) {
            Err(_) => Err(DecodeError::BadKeyId),
            Ok(record_keys) => open_record_spec(record.ciphertext, record_keys),
        },
    }
}

/// What opening the text of a notification arrives at.
pub open spec fn decode_envelope_spec(data: Seq<char>, keys: KeyMaterialView) -> Result<
    Seq<u8>,
    EnvelopeError,
> {
    match base64url_decode(data) {
        None => Err(EnvelopeError::Encoding),
        Some(blob) => match decode_spec(blob, keys) {
            Ok(plaintext) => Ok(plaintext),
            Err(e) => Err(EnvelopeError::Record(e)),
        },
    }
}

/// The view of a decoding result.
pub open spec fn decoded_view<E>(r: Result<Vec<u8>, E>) -> Result<Seq<u8>, E> {
    match r {
        Ok(plaintext) => Ok(plaintext@),
        Err(e) => Err(e),
    }
}

/// Runs `decrypt` of an `aes_gcm::Aes128Gcm` made by `new` from the key, on
/// the nonce and the ciphertext, without associated data.
///
/// Trusted: the result is the one that [`aes128gcm_open`] names. The tag is
/// the last 16 bytes of the input and is not part of the plaintext, so
/// nothing shorter than a tag opens.
#[verifier::external_body]
fn aes128gcm_decrypt(key: &[u8; KEY_LEN], nonce: &[u8; NONCE_LEN], sealed: &[u8]) -> (r: Option<
    Vec<u8>,
>)
    ensures
        bytes_view(r) == aes128gcm_open(key@, nonce@, sealed@),
        r matches Some(plaintext) ==> plaintext@.len() + TAG_LEN == sealed@.len(),
{
    let cipher = aes_gcm::Aes128Gcm::new(&aes_gcm::Key::<aes_gcm::Aes128Gcm>::from(*key));
    cipher.decrypt(&aes_gcm::Nonce::from(*nonce), sealed).ok()
}

/// Runs `decode` of `base64::engine::general_purpose::URL_SAFE_NO_PAD`.
///
/// Trusted: the result is the one that [`base64url_decode`] names.
#[verifier::external_body]
fn base64url_to_bytes(text: &str) -> (r: Option<Vec<u8>>)
    ensures
        bytes_view(r) == base64url_decode(text@),
{
    base64::engine::general_purpose::URL_SAFE_NO_PAD.decode(text).ok()
}

/// Opens the ciphertext of a record under its key and nonce.
///
/// Fails with `AuthTagMismatch` exactly when AES-GCM does not release a
/// plaintext; a ciphertext shorter than a tag never opens.
pub fn open_record(ciphertext: &[u8], keys: &RecordKeys) -> (r: Result<Vec<u8>, DecodeError>)
    ensures
        decoded_view(r) == open_record_spec(ciphertext@, keys@),
        r matches Ok(plaintext) ==> plaintext@.len() + TAG_LEN == ciphertext@.len(),
        r matches Err(e) ==> e == DecodeError::AuthTagMismatch,
{
    match aes128gcm_decrypt(&keys.key, &keys.nonce, ciphertext) {
        Some(plaintext) => Ok(plaintext),
        None => Err(DecodeError::AuthTagMismatch),
    }
}

/// Opens the payload of a notification with the receiver's key material.
///
/// Fails with `Truncated` on a payload shorter than the fixed header, with
/// `BadKeyId` on a key id that is empty, runs past the end or is refused by
/// key agreement, and with `AuthTagMismatch` when the tag does not match.
/// A plaintext is returned only as AES-GCM released it.
pub fn decode(envelope_blob: &[u8], keys: &KeyMaterial) -> (r: Result<Vec<u8>, DecodeError>)
    ensures
        decoded_view(r) == decode_spec(envelope_blob@, keys@),
        envelope_blob@.len() < HEADER_LEN ==> r == Err::<Vec<u8>, DecodeError>(
            DecodeError::Truncated,
        ),
        envelope_blob@.len() >= HEADER_LEN && HEADER_LEN
            + envelope_blob@[KEY_ID_LEN_OFFSET as int] > envelope_blob@.len() ==> r == Err::<
            Vec<u8>,
            DecodeError,
        >(DecodeError::BadKeyId),
        r matches Ok(plaintext) ==> plaintext@.len() + TAG_LEN + HEADER_LEN
            + envelope_blob@[KEY_ID_LEN_OFFSET as int] == envelope_blob@.len(),
{
    let record = match parse_record(envelope_blob) {
        Ok(record) => record,
        Err(e) => {
            return Err(e);
        },
    };
    let record_keys = match derive_record_keys(
        keys.private_key(),
        keys.public_key(),
        record.key_id.as_slice(),
        keys.auth_secret(),
        record.salt.as_slice(),
    ) {
        Ok(record_keys) => record_keys,
        Err(_) => {
            return Err(DecodeError::BadKeyId);
        },
    };
    open_record(record.ciphertext.as_slice(), &record_keys)
}

/// Opens the text of a notification: base64 first, then [`decode`].
pub fn decode_envelope(data: &str, keys: &KeyMaterial) -> (r: Result<Vec<u8>, EnvelopeError>)
    ensures
        decoded_view(r) == decode_envelope_spec(data@, keys@),
{
    match base64url_to_bytes(data) {
        None => Err(EnvelopeError::Encoding),
        Some(blob) => match decode(blob.as_slice(), keys) {
            Ok(plaintext) => Ok(plaintext),
            Err(e) => Err(EnvelopeError::Record(e)),
        },
    }
}

/// A record laid out around a ciphertext decodes to what the ciphertext
/// opens to: where the receiver's key material and the record's salt and
/// sender key derive a key and a nonce under which AES-GCM releases a
/// plaintext, the payload made of salt, record size, sender key and
/// ciphertext decodes to that plaintext.
pub proof fn lemma_sealed_record_decodes(
    keys: KeyMaterialView,
    salt: Seq<u8>,
    record_size: u32,
    sender_public_key: Seq<u8>,
    sealed: Seq<u8>,
    plaintext: Seq<u8>,
)
    requires
        salt.len() == SALT_LEN,
        is_uncompressed_point(sender_public_key),
        derive_record_keys_spec(
            keys.private_key,
            keys.public_key,
            sender_public_key,
            keys.auth_secret,
            salt,
        ) matches Ok(record_keys) && aes128gcm_open(record_keys.key, record_keys.nonce, sealed)
            == Some(plaintext),
    ensures
        decode_spec(record_bytes(salt, record_size, sender_public_key, sealed), keys) == Ok::<
            Seq<u8>,
            DecodeError,
        >(plaintext),
{
    lemma_parse_of_layout(salt, record_size, sender_public_key, sealed);
}

/// Changes behind the key id are judged by the tag alone.
///
/// Let a payload open, and let another payload agree with it up to the end
/// of the key id. Then the other payload has the same salt and sender key,
/// so the same key and nonce, and it decodes to exactly what AES-GCM
/// releases for its own ciphertext under them: that plaintext, or
/// `AuthTagMismatch` where nothing is released. No other error and no other
/// plaintext can come of it. That AES-GCM releases nothing once a bit of
/// ciphertext or tag is flipped is the cipher's part and is not shown here.
pub proof fn lemma_changed_ciphertext_is_judged_by_the_tag(
    blob: Seq<u8>,
    changed: Seq<u8>,
    keys: KeyMaterialView,
)
    requires
        decode_spec(blob, keys) is Ok,
        changed.len() >= ciphertext_offset(blob),
        changed.subrange(0, ciphertext_offset(blob)) == blob.subrange(0, ciphertext_offset(blob)),
    ensures
        parse_record_spec(blob) matches Ok(record) && derive_record_keys_spec(
            keys.private_key,
            keys.public_key,
            record.key_id,
            keys.auth_secret,
            record.salt,
        ) matches Ok(record_keys) && decode_spec(changed, keys) == open_record_spec(
            changed.subrange(ciphertext_offset(blob), changed.len() as int),
            record_keys,
        ),
{
    let offset = ciphertext_offset(blob);
    assert forall|i: int| 0 <= i < offset implies changed[i] == blob[i] by {
        assert(changed.subrange(0, offset)[i] == blob.subrange(0, offset)[i]);
    }
    assert(changed[KEY_ID_LEN_OFFSET as int] == blob[KEY_ID_LEN_OFFSET as int]);
    assert(ciphertext_offset(changed) == offset);
    assert(changed.subrange(0, SALT_LEN as int) =~= blob.subrange(0, SALT_LEN as int));
    assert(changed.subrange(HEADER_LEN as int, offset) =~= blob.subrange(
        HEADER_LEN as int,
        offset,
    ));
}

} // verus!
