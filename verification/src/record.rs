//! The binary layout of one `aes128gcm` record.
//!
//! ```text
//! salt (16) | record size (4, big endian) | key id length (1) | key id | ciphertext
//! ```
//!
//! The key id of a push message is the sender's ephemeral public key.

use vstd::prelude::*;
use vstd::slice::{slice_subrange, slice_to_vec};

verus! {

/// Length of the salt that opens a record.
pub const SALT_LEN: usize = 16;

/// Offset of the key id length byte: salt and record size come before it.
pub const KEY_ID_LEN_OFFSET: usize = 20;

/// Length of the fixed part of the header: salt, record size, key id length.
pub const HEADER_LEN: usize = 21;

/// Why a notification payload could not be turned into plaintext.
#[derive(Clone, Copy, Debug, PartialEq, Eq, Structural)]
pub enum DecodeError {
    /// The payload ends before the fixed header does.
    Truncated,
    /// The key id is empty, runs past the end of the payload, or is not the
    /// encoding of a public key.
    BadKeyId,
    /// The authentication tag does not match key, nonce and ciphertext.
    AuthTagMismatch,
}

/// One parsed record. The ciphertext still carries its authentication tag.
#[derive(Debug)]
pub struct Record {
    pub salt: Vec<u8>,
    pub record_size: u32,
    pub key_id: Vec<u8>,
    pub ciphertext: Vec<u8>,
}

/// The mathematical content of a [`Record`].
pub ghost struct RecordView {
    pub salt: Seq<u8>,
    pub record_size: u32,
    pub key_id: Seq<u8>,
    pub ciphertext: Seq<u8>,
}

impl View for Record {
    type V = RecordView;

    open spec fn view(&self) -> RecordView {
        RecordView {
            salt: self.salt@,
            record_size: self.record_size,
            key_id: self.key_id@,
            ciphertext: self.ciphertext@,
        }
    }
}

/// The number that four bytes spell in big-endian order.
pub open spec fn be_u32(b0: u8, b1: u8, b2: u8, b3: u8) -> int {
    b0 as int * 0x100_0000 + b1 as int * 0x1_0000 + b2 as int * 0x100 + b3 as int
}

/// Offset of the first ciphertext byte in a payload with a full header.
pub open spec fn ciphertext_offset(blob: Seq<u8>) -> int
    recommends
        blob.len() >= HEADER_LEN,
{
    HEADER_LEN as int + blob[KEY_ID_LEN_OFFSET as int] as int
}

/// What a payload parses to.
///
/// A payload shorter than the fixed header is truncated. Otherwise the key
/// id must hold at least one byte and end within the payload; whatever
/// follows it is ciphertext, possibly none.
pub open spec fn parse_record_spec(blob: Seq<u8>) -> Result<RecordView, DecodeError> {
    if blob.len() < HEADER_LEN {
        Err(DecodeError::Truncated)
    } else if blob[KEY_ID_LEN_OFFSET as int] == 0 || ciphertext_offset(blob) > blob.len() {
        Err(DecodeError::BadKeyId)
    } else {
        Ok(
            RecordView {
                salt: blob.subrange(0, SALT_LEN as int),
                record_size: be_u32(blob[16], blob[17], blob[18], blob[19]) as u32,
                key_id: blob.subrange(HEADER_LEN as int, ciphertext_offset(blob)),
                ciphertext: blob.subrange(ciphertext_offset(blob), blob.len() as int),
            },
        )
    }
}

/// The bytes that a record is laid out as.
pub open spec fn record_bytes(
    salt: Seq<u8>,
    record_size: u32,
    key_id: Seq<u8>,
    ciphertext: Seq<u8>,
) -> Seq<u8> {
    salt + seq![
        (record_size / 0x100_0000) as u8,
        (record_size / 0x1_0000 % 0x100) as u8,
        (record_size / 0x100 % 0x100) as u8,
        (record_size % 0x100) as u8,
        key_id.len() as u8,
    ] + key_id + ciphertext
}

/// The view of a parse result.
pub open spec fn parsed_view(r: Result<Record, DecodeError>) -> Result<RecordView, DecodeError> {
    match r {
        Ok(record) => Ok(record@),
        Err(e) => Err(e),
    }
}

/// Reads four bytes as a big-endian number.
fn read_be_u32(b0: u8, b1: u8, b2: u8, b3: u8) -> (n: u32)
    ensures
        n == be_u32(b0, b1, b2, b3),
{
    (b0 as u32) * 0x100_0000 + (b1 as u32) * 0x1_0000 + (b2 as u32) * 0x100 + (b3 as u32)
}

/// Splits a payload into salt, record size, key id and ciphertext.
pub fn parse_record(blob: &[u8]) -> (r: Result<Record, DecodeError>)
    ensures
        parsed_view(r) == parse_record_spec(blob@),
        blob@.len() < HEADER_LEN ==> r == Err::<Record, DecodeError>(DecodeError::Truncated),
{
    let len = blob.len();
    if len < HEADER_LEN {
        return Err(DecodeError::Truncated);
    }
    let key_id_len = blob[KEY_ID_LEN_OFFSET] as usize;
    if key_id_len == 0 || key_id_len > len - HEADER_LEN {
        return Err(DecodeError::BadKeyId);
    }
    let body = HEADER_LEN + key_id_len;
    let record = Record {
        salt: slice_to_vec(slice_subrange(blob, 0, SALT_LEN)),
        record_size: read_be_u32(blob[16], blob[17], blob[18], blob[19]),
        key_id: slice_to_vec(slice_subrange(blob, HEADER_LEN, body)),
        ciphertext: slice_to_vec(slice_subrange(blob, body, len)),
    };
    Ok(record)
}

/// A well-formed layout parses back to its parts.
pub proof fn lemma_parse_of_layout(
    salt: Seq<u8>,
    record_size: u32,
    key_id: Seq<u8>,
    ciphertext: Seq<u8>,
)
    requires
        salt.len() == SALT_LEN,
        0 < key_id.len() < 0x100,
    ensures
        parse_record_spec(record_bytes(salt, record_size, key_id, ciphertext)) == Ok::<
            RecordView,
            DecodeError,
        >(RecordView { salt, record_size, key_id, ciphertext }),
{
    let blob = record_bytes(salt, record_size, key_id, ciphertext);
    assert(blob.len() == HEADER_LEN + key_id.len() + ciphertext.len());
    assert(blob[KEY_ID_LEN_OFFSET as int] == key_id.len() as u8);
    assert(blob.subrange(0, SALT_LEN as int) =~= salt);
    assert(blob.subrange(HEADER_LEN as int, ciphertext_offset(blob)) =~= key_id);
    assert(blob.subrange(ciphertext_offset(blob), blob.len() as int) =~= ciphertext);
    let n = record_size as int;
    assert(n == (n / 0x100_0000) * 0x100_0000 + (n / 0x1_0000 % 0x100) * 0x1_0000 + (n / 0x100
        % 0x100) * 0x100 + n % 0x100) by (nonlinear_arith)
        requires
            0 <= n < 0x1_0000_0000,
    ;
    assert(n / 0x100_0000 < 0x100) by (nonlinear_arith)
        requires
            0 <= n < 0x1_0000_0000,
    ;
}

} // verus!
