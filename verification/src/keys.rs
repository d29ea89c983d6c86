//! The key material of one channel: a P-256 key pair and a 16-byte
//! authentication secret, made once and used for every record that the
//! channel receives.
//!
//! The private key never leaves a [`KeyMaterial`]: there is no accessor for
//! it. The public key and the authentication secret are what a subscriber
//! hands to the application server.

use vstd::pervasive::unreached;
use vstd::prelude::*;
use crate::kdf::{bytes_view, POINT_LEN, UNCOMPRESSED_TAG};

verus! {

/// Length of a P-256 private scalar in bytes.
pub const PRIVATE_KEY_LEN: usize = 32;

/// Length of the authentication secret in bytes.
pub const AUTH_SECRET_LEN: usize = 16;

/// The public key that belongs to a private scalar of P-256, as an
/// uncompressed SEC1 point; `None` where the bytes are no such scalar.
pub uninterp spec fn p256_public_key(private_key: Seq<u8>) -> Option<Seq<u8>>;

/// Private key, public key and authentication secret of one channel.
pub struct KeyMaterial {
    private_key: Vec<u8>,
    public_key: Vec<u8>,
    auth_secret: Vec<u8>,
}

/// The mathematical content of [`KeyMaterial`].
pub ghost struct KeyMaterialView {
    pub private_key: Seq<u8>,
    pub public_key: Seq<u8>,
    pub auth_secret: Seq<u8>,
}

/// Whether three byte strings have the lengths and the form of key
/// material: a 32-byte scalar, a 65-byte uncompressed point, a 16-byte
/// secret.
pub open spec fn well_formed(
    private_key: Seq<u8>,
    public_key: Seq<u8>,
    auth_secret: Seq<u8>,
) -> bool {
    &&& private_key.len() == PRIVATE_KEY_LEN
    &&& public_key.len() == POINT_LEN
    &&& public_key[0] == UNCOMPRESSED_TAG
    &&& auth_secret.len() == AUTH_SECRET_LEN
}

impl View for KeyMaterial {
    type V = KeyMaterialView;

    closed spec fn view(&self) -> KeyMaterialView {
        KeyMaterialView {
            private_key: self.private_key@,
            public_key: self.public_key@,
            auth_secret: self.auth_secret@,
        }
    }
}

/// The view of optional key material.
pub open spec fn material_view(r: Option<KeyMaterial>) -> Option<KeyMaterialView> {
    match r {
        Some(keys) => Some(keys@),
        None => None,
    }
}

/// Reads the private key with `p256::SecretKey::from_slice`, takes its
/// `public_key` and encodes it with `to_sec1_bytes`.
///
/// Trusted: the result is the one that [`p256_public_key`] names; the curve
/// encodes without compression, so a key is 65 bytes and opens with the
/// tag 4.
#[verifier::external_body]
fn public_key_of(private_key: &[u8]) -> (r: Option<Vec<u8>>)
    ensures
        bytes_view(r) == p256_public_key(private_key@),
        r matches Some(point) ==> point@.len() == POINT_LEN && point@[0] == UNCOMPRESSED_TAG,
{
    let secret = p256::SecretKey::from_slice(private_key).ok()?;
    Some(secret.public_key().to_sec1_bytes().to_vec())
}

/// Draws a private key with `p256::SecretKey::random` from the operating
/// system's generator and copies out its bytes.
///
/// Trusted: whatever was drawn is a 32-byte scalar that the curve accepts.
#[verifier::external_body]
fn random_private_key() -> (key: Vec<u8>)
    ensures
        key@.len() == PRIVATE_KEY_LEN,
        p256_public_key(key@) is Some,
{
    p256::SecretKey::random(&mut elliptic_curve::rand_core::OsRng).to_bytes().to_vec()
}

/// Draws one byte with `rand::random`. Nothing is known of it.
#[verifier::external_body]
fn random_byte() -> u8 {
    rand::random::<u8>()
}

/// Draws `len` bytes.
fn random_bytes(len: usize) -> (bytes: Vec<u8>)
    ensures
        bytes@.len() == len,
{
    let mut bytes: Vec<u8> = Vec::new();
    while bytes.len() < len
        invariant
            bytes@.len() <= len,
        decreases len - bytes@.len(),
    {
        bytes.push(random_byte());
    }
    bytes
}

impl KeyMaterial {
    #[verifier::type_invariant]
    spec fn inv(self) -> bool {
        well_formed(self.private_key@, self.public_key@, self.auth_secret@)
    }

    /// Key material from its three parts, where they have the right lengths
    /// and the public key the form of an uncompressed point. Whether the
    /// public key belongs to the private one is not looked at.
    pub fn from_parts(private_key: Vec<u8>, public_key: Vec<u8>, auth_secret: Vec<u8>) -> (r:
        Option<KeyMaterial>)
        ensures
            material_view(r) == if well_formed(private_key@, public_key@, auth_secret@) {
                Some(
                    KeyMaterialView {
                        private_key: private_key@,
                        public_key: public_key@,
                        auth_secret: auth_secret@,
                    },
                )
            } else {
                None
            },
    {
        if private_key.len() == PRIVATE_KEY_LEN && public_key.len() == POINT_LEN && public_key[0]
            == UNCOMPRESSED_TAG && auth_secret.len() == AUTH_SECRET_LEN {
            Some(KeyMaterial { private_key, public_key, auth_secret })
        } else {
            None
        }
    }

    /// Key material from a private key and an authentication secret; the
    /// public key is computed. `None` where a length is wrong or the curve
    /// refuses the private key.
    pub fn new(private_key: Vec<u8>, auth_secret: Vec<u8>) -> (r: Option<KeyMaterial>)
        ensures
            material_view(r) == if private_key@.len() == PRIVATE_KEY_LEN && auth_secret@.len()
                == AUTH_SECRET_LEN {
                match p256_public_key(private_key@) {
                    Some(public_key) => Some(
                        KeyMaterialView {
                            private_key: private_key@,
                            public_key,
                            auth_secret: auth_secret@,
                        },
                    ),
                    None => None,
                }
            } else {
                None
            },
    {
        if private_key.len() != PRIVATE_KEY_LEN || auth_secret.len() != AUTH_SECRET_LEN {
            return None;
        }
        match public_key_of(private_key.as_slice()) {
            Some(public_key) => Some(KeyMaterial { private_key, public_key, auth_secret }),
            None => None,
        }
    }

    /// Fresh key material: a random key pair and a random secret.
    pub fn generate() -> (keys: KeyMaterial)
        ensures
            well_formed(keys@.private_key, keys@.public_key, keys@.auth_secret),
            p256_public_key(keys@.private_key) == Some(keys@.public_key),
    {
        let private_key = random_private_key();
        let auth_secret = random_bytes(AUTH_SECRET_LEN);
        match public_key_of(private_key.as_slice()) {
            Some(public_key) => KeyMaterial { private_key, public_key, auth_secret },
            None => unreached(),
        }
    }

    /// The public key, an uncompressed point of 65 bytes.
    pub fn public_key(&self) -> (bytes: &[u8])
        ensures
            bytes@ == self@.public_key,
            bytes@.len() == POINT_LEN,
            bytes@[0] == UNCOMPRESSED_TAG,
    {
        proof {
            use_type_invariant(self);
        }
        self.public_key.as_slice()
    }

    /// The authentication secret, 16 bytes.
    pub fn auth_secret(&self) -> (bytes: &[u8])
        ensures
            bytes@ == self@.auth_secret,
            bytes@.len() == AUTH_SECRET_LEN,
    {
        proof {
            use_type_invariant(self);
        }
        self.auth_secret.as_slice()
    }

    /// The private key, for the decoder of this crate alone.
    pub(crate) fn private_key(&self) -> (bytes: &[u8])
        ensures
            bytes@ == self@.private_key,
            bytes@.len() == PRIVATE_KEY_LEN,
    {
        proof {
            use_type_invariant(self);
        }
        self.private_key.as_slice()
    }

}

} // verus!
