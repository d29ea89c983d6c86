//! The key schedule of one record: ECDH over P-256, then HKDF-SHA-256
//! three times, as RFC 8291 lays it out over the `aes128gcm` encoding of
//! RFC 8188.
//!
//! The curve arithmetic and the hash are the work of the `p256`, `hkdf` and
//! `sha2` crates. Their results enter the contracts under the names
//! [`p256_shared_secret`] and [`hkdf_sha256`]; everything around them, the
//! labels and the order in which secrets and salts are fed in, is stated in
//! full and proved.

use vstd::prelude::*;

verus! {

/// Length of the pseudo-random key that the first HKDF round yields.
pub const PRK_LEN: usize = 32;

/// Length of an AES-128 content-encryption key.
pub const KEY_LEN: usize = 16;

/// Length of an AES-GCM nonce.
pub const NONCE_LEN: usize = 12;

/// Length of an uncompressed P-256 point: the tag byte and two coordinates.
pub const POINT_LEN: usize = 65;

/// Tag byte that opens an uncompressed point.
pub const UNCOMPRESSED_TAG: u8 = 4;

/// Largest output that HKDF-SHA-256 yields: 255 blocks of 32 bytes.
pub const HKDF_MAX_LEN: usize = 8160;

/// The sender's key is not an uncompressed point on the curve, or the local
/// private key is not a scalar of the curve.
#[derive(Clone, Copy, Debug, PartialEq, Eq, Structural)]
pub enum KeyAgreementError {
    InvalidKey,
}

/// Content-encryption key and nonce of one record.
#[derive(Debug)]
pub struct RecordKeys {
    pub key: [u8; KEY_LEN],
    pub nonce: [u8; NONCE_LEN],
}

/// The mathematical content of [`RecordKeys`].
pub ghost struct RecordKeysView {
    pub key: Seq<u8>,
    pub nonce: Seq<u8>,
}

impl View for RecordKeys {
    type V = RecordKeysView;

    open spec fn view(&self) -> RecordKeysView {
        RecordKeysView { key: self.key@, nonce: self.nonce@ }
    }
}

/// The x coordinate of the point that ECDH over P-256 arrives at, for a
/// private scalar in big-endian bytes and a peer's SEC1-encoded point;
/// `None` where either does not parse.
pub uninterp spec fn p256_shared_secret(private_key: Seq<u8>, peer_public: Seq<u8>) -> Option<
    Seq<u8>,
>;

/// The first `len` bytes of HKDF-SHA-256 (RFC 5869): extract with `salt`
/// over `ikm`, then expand with `info`.
pub uninterp spec fn hkdf_sha256(salt: Seq<u8>, ikm: Seq<u8>, info: Seq<u8>, len: nat) -> Seq<u8>;

/// `"WebPush: info"` and the NUL byte that ends it.
pub open spec fn webpush_info_label() -> Seq<u8> {
    seq![
        0x57u8, 0x65, 0x62, 0x50, 0x75, 0x73, 0x68, 0x3a, 0x20, 0x69, 0x6e, 0x66, 0x6f, 0x00,
    ]
}

/// `"Content-Encoding: aes128gcm"` and the NUL byte that ends it.
pub open spec fn key_info_label() -> Seq<u8> {
    seq![
        0x43u8, 0x6f, 0x6e, 0x74, 0x65, 0x6e, 0x74, 0x2d, 0x45, 0x6e, 0x63, 0x6f, 0x64, 0x69,
        0x6e, 0x67, 0x3a, 0x20, 0x61, 0x65, 0x73, 0x31, 0x32, 0x38, 0x67, 0x63, 0x6d, 0x00,
    ]
}

/// `"Content-Encoding: nonce"` and the NUL byte that ends it.
pub open spec fn nonce_info_label() -> Seq<u8> {
    seq![
        0x43u8, 0x6f, 0x6e, 0x74, 0x65, 0x6e, 0x74, 0x2d, 0x45, 0x6e, 0x63, 0x6f, 0x64, 0x69,
        0x6e, 0x67, 0x3a, 0x20, 0x6e, 0x6f, 0x6e, 0x63, 0x65, 0x00,
    ]
}

/// The bytes of a text in ASCII.
pub open spec fn ascii_bytes(text: Seq<char>) -> Seq<u8> {
    Seq::new(text.len(), |i: int| text[i] as u8)
}

/// The three labels are their texts in ASCII, each with one NUL byte at
/// its end.
pub proof fn lemma_labels_spell_their_text()
    ensures
        webpush_info_label() == ascii_bytes("WebPush: info\0"@),
        key_info_label() == ascii_bytes("Content-Encoding: aes128gcm\0"@),
        nonce_info_label() == ascii_bytes("Content-Encoding: nonce\0"@),
        webpush_info_label().last() == 0,
        key_info_label().last() == 0,
        nonce_info_label().last() == 0,
{
    reveal_strlit("WebPush: info\0");
    reveal_strlit("Content-Encoding: aes128gcm\0");
    reveal_strlit("Content-Encoding: nonce\0");
    assert(webpush_info_label() =~= ascii_bytes("WebPush: info\0"@));
    assert(key_info_label() =~= ascii_bytes("Content-Encoding: aes128gcm\0"@));
    assert(nonce_info_label() =~= ascii_bytes("Content-Encoding: nonce\0"@));
}

/// The context of the first HKDF round: the label, then the receiver's
/// public key, then the sender's.
pub open spec fn auth_info(receiver_public: Seq<u8>, sender_public: Seq<u8>) -> Seq<u8> {
    webpush_info_label() + receiver_public + sender_public
}

/// Whether `bytes` has the form of an uncompressed P-256 point.
pub open spec fn is_uncompressed_point(bytes: Seq<u8>) -> bool {
    bytes.len() == POINT_LEN && bytes[0] == UNCOMPRESSED_TAG
}

/// The pseudo-random key of a message: the shared secret, salted with the
/// authentication secret and bound to both public keys.
pub open spec fn message_prk(
    shared_secret: Seq<u8>,
    receiver_public: Seq<u8>,
    sender_public: Seq<u8>,
    auth_secret: Seq<u8>,
) -> Seq<u8> {
    hkdf_sha256(
        auth_secret,
        shared_secret,
        auth_info(receiver_public, sender_public),
        PRK_LEN as nat,
    )
}

/// Key and nonce of the record with the given salt, from a shared secret.
pub open spec fn keys_from_secret(
    shared_secret: Seq<u8>,
    receiver_public: Seq<u8>,
    sender_public: Seq<u8>,
    auth_secret: Seq<u8>,
    salt: Seq<u8>,
) -> RecordKeysView {
    let prk = message_prk(shared_secret, receiver_public, sender_public, auth_secret);
    RecordKeysView {
        key: hkdf_sha256(salt, prk, key_info_label(), KEY_LEN as nat),
        nonce: hkdf_sha256(salt, prk, nonce_info_label(), NONCE_LEN as nat),
    }
}

/// Key and nonce of a record, from the key material of both sides.
///
/// The sender's key must be an uncompressed point that the curve accepts;
/// the shared secret then runs through [`keys_from_secret`].
pub open spec fn derive_record_keys_spec(
    local_private_key: Seq<u8>,
    local_public_key: Seq<u8>,
    sender_public_key: Seq<u8>,
    auth_secret: Seq<u8>,
    salt: Seq<u8>,
) -> Result<RecordKeysView, KeyAgreementError> {
    if !is_uncompressed_point(sender_public_key) {
        Err(KeyAgreementError::InvalidKey)
    } else {
        match p256_shared_secret(local_private_key, sender_public_key) {
            Some(shared_secret) => Ok(
                keys_from_secret(
                    shared_secret,
                    local_public_key,
                    sender_public_key,
                    auth_secret,
                    salt,
                ),
            ),
            None => Err(KeyAgreementError::InvalidKey),
        }
    }
}

/// The view of a derivation result.
pub open spec fn derived_view(r: Result<RecordKeys, KeyAgreementError>) -> Result<
    RecordKeysView,
    KeyAgreementError,
> {
    match r {
        Ok(keys) => Ok(keys@),
        Err(e) => Err(e),
    }
}

/// The view of optional bytes.
pub open spec fn bytes_view(r: Option<Vec<u8>>) -> Option<Seq<u8>> {
    match r {
        Some(bytes) => Some(bytes@),
        None => None,
    }
}

/// Runs `p256::ecdh::diffie_hellman` on a private key read by
/// `p256::SecretKey::from_slice` and a peer key read by
/// `p256::PublicKey::from_sec1_bytes`, and copies out the raw secret.
///
/// Trusted: the result is the one that [`p256_shared_secret`] names.
#[verifier::external_body]
fn ecdh_agree(private_key: &[u8], peer_public: &[u8]) -> (r: Option<Vec<u8>>)
    ensures
        bytes_view(r) == p256_shared_secret(private_key@, peer_public@),
{
    let secret = p256::SecretKey::from_slice(private_key).ok()?;
    let peer = p256::PublicKey::from_sec1_bytes(peer_public).ok()?;
    let shared = p256::ecdh::diffie_hellman(secret.to_nonzero_scalar(), peer.as_affine());
    Some(shared.raw_secret_bytes().to_vec())
}

/// Runs `hkdf::Hkdf::<sha2::Sha256>::new` with the salt and the input key
/// material, then `expand` with the context into `N` bytes.
///
/// Trusted: the result is the one that [`hkdf_sha256`] names. `expand`
/// refuses more than 255 blocks, which the bound on `N` rules out.
#[verifier::external_body]
fn hkdf_expand<const N: usize>(salt: &[u8], ikm: &[u8], info: &[u8]) -> (okm: [u8; N])
    requires
        N <= HKDF_MAX_LEN,
    ensures
        okm@ == hkdf_sha256(salt@, ikm@, info@, N as nat),
{
    let hkdf = hkdf::Hkdf::<sha2::Sha256>::new(Some(salt), ikm);
    let mut okm = [0u8; N];
    hkdf.expand(info, &mut okm).unwrap();
    okm
}

/// The label of the first HKDF round, NUL byte included.
pub fn webpush_info() -> (label: Vec<u8>)
    ensures
        label@ == webpush_info_label(),
{
    let label = vec![
        0x57u8, 0x65, 0x62, 0x50, 0x75, 0x73, 0x68, 0x3a, 0x20, 0x69, 0x6e, 0x66, 0x6f, 0x00,
    ];
    assert(label@ =~= webpush_info_label());
    label
}

/// The label under which the content-encryption key is derived, NUL byte
/// included.
pub fn key_info() -> (label: Vec<u8>)
    ensures
        label@ == key_info_label(),
{
    let label = vec![
        0x43u8, 0x6f, 0x6e, 0x74, 0x65, 0x6e, 0x74, 0x2d, 0x45, 0x6e, 0x63, 0x6f, 0x64, 0x69,
        0x6e, 0x67, 0x3a, 0x20, 0x61, 0x65, 0x73, 0x31, 0x32, 0x38, 0x67, 0x63, 0x6d, 0x00,
    ];
    assert(label@ =~= key_info_label());
    label
}

/// The label under which the nonce is derived, NUL byte included.
pub fn nonce_info() -> (label: Vec<u8>)
    ensures
        label@ == nonce_info_label(),
{
    let label = vec![
        0x43u8, 0x6f, 0x6e, 0x74, 0x65, 0x6e, 0x74, 0x2d, 0x45, 0x6e, 0x63, 0x6f, 0x64, 0x69,
        0x6e, 0x67, 0x3a, 0x20, 0x6e, 0x6f, 0x6e, 0x63, 0x65, 0x00,
    ];
    assert(label@ =~= nonce_info_label());
    label
}

/// Appends `tail` to `bytes`.
fn append(bytes: &mut Vec<u8>, tail: &[u8])
    ensures
        final(bytes)@ == old(bytes)@ + tail@,
{
    let ghost before = bytes@;
    let mut i: usize = 0;
    while i < tail.len()
        invariant
            i <= tail@.len(),
            bytes@ == before + tail@.subrange(0, i as int),
        decreases tail@.len() - i,
    {
        bytes.push(tail[i]);
        assert(bytes@ =~= before + tail@.subrange(0, i as int + 1));
        i += 1;
    }
    assert(tail@.subrange(0, i as int) =~= tail@);
}

/// Derives key and nonce of a record from a shared secret that ECDH has
/// already arrived at.
pub fn derive_from_shared_secret(
    shared_secret: &[u8],
    local_public_key: &[u8],
    sender_public_key: &[u8],
    auth_secret: &[u8],
    salt: &[u8],
) -> (keys: RecordKeys)
    ensures
        keys@ == keys_from_secret(
            shared_secret@,
            local_public_key@,
            sender_public_key@,
            auth_secret@,
            salt@,
        ),
{
    let mut info = webpush_info();
    append(&mut info, local_public_key);
    append(&mut info, sender_public_key);
    let prk = hkdf_expand::<PRK_LEN>(auth_secret, shared_secret, info.as_slice());
    let key_label = key_info();
    let nonce_label = nonce_info();
    let key = hkdf_expand::<KEY_LEN>(salt, prk.as_slice(), key_label.as_slice());
    let nonce = hkdf_expand::<NONCE_LEN>(salt, prk.as_slice(), nonce_label.as_slice());
    RecordKeys { key, nonce }
}

/// Derives the content-encryption key and the nonce of one record.
///
/// Fails exactly when the sender's key is not an uncompressed point or the
/// curve refuses one of the two keys.
pub fn derive_record_keys(
    local_private_key: &[u8],
    local_public_key: &[u8],
    sender_public_key: &[u8],
    auth_secret: &[u8],
    salt: &[u8],
) -> (r: Result<RecordKeys, KeyAgreementError>)
    ensures
        derived_view(r) == derive_record_keys_spec(
            local_private_key@,
            local_public_key@,
            sender_public_key@,
            auth_secret@,
            salt@,
        ),
{
    if sender_public_key.len() != POINT_LEN || sender_public_key[0] != UNCOMPRESSED_TAG {
        return Err(KeyAgreementError::InvalidKey);
    }
    match ecdh_agree(local_private_key, sender_public_key) {
        Some(shared_secret) => Ok(
            derive_from_shared_secret(
                shared_secret.as_slice(),
                local_public_key,
                sender_public_key,
                auth_secret,
                salt,
            ),
        ),
        None => Err(KeyAgreementError::InvalidKey),
    }
}

/// Key derivation is a function of its five inputs: two results that both
/// meet the contract of [`derive_record_keys`] for the same inputs hold the
/// same key and nonce, or fail alike.
pub proof fn lemma_derivation_is_deterministic(
    local_private_key: Seq<u8>,
    local_public_key: Seq<u8>,
    sender_public_key: Seq<u8>,
    auth_secret: Seq<u8>,
    salt: Seq<u8>,
    first: Result<RecordKeys, KeyAgreementError>,
    second: Result<RecordKeys, KeyAgreementError>,
)
    requires
        derived_view(first) == derive_record_keys_spec(
            local_private_key,
            local_public_key,
            sender_public_key,
            auth_secret,
            salt,
        ),
        derived_view(second) == derive_record_keys_spec(
            local_private_key,
            local_public_key,
            sender_public_key,
            auth_secret,
            salt,
        ),
    ensures
        derived_view(first) == derived_view(second),
        first matches Ok(a) ==> second matches Ok(b) && a.key@ == b.key@ && a.nonce@ == b.nonce@,
{
}

} // verus!
