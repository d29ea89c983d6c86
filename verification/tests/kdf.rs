use webpush_client::kdf::{key_info, nonce_info, webpush_info};
use webpush_client::{derive_from_shared_secret, derive_record_keys, KeyAgreementError};

fn hex(text: &str) -> Vec<u8> {
    (0..text.len() / 2)
        .map(|i| u8::from_str_radix(&text[2 * i..2 * i + 2], 16).unwrap())
        .collect()
}

const RECEIVER_PRIVATE: &str = "ab5757a70dd4a53e553a6bbf71ffefea2874ec07a6b379e3c48f895a02dc33de";
const RECEIVER_PUBLIC: &str = "042571b2becdfde360551aaf1ed0f4cd366c11cebe555f89bcb7b186a53339173168ece2ebe018597bd30479b86e3c8f8eced577ca59187e9246990db682008b0e";
const SENDER_PUBLIC: &str = "04fe33f4ab0dea71914db55823f73b54948f41306d920732dbb9a59a53286482200e597a7b7bc260ba1c227998580992e93973002f3012a28ae8f06bbb78e5ec0f";
const AUTH_SECRET: &str = "05305932a1c7eabe13b6cec9fda48882";
const SALT: &str = "0c6bfaadad67958803092d454676f397";
const SHARED_SECRET: &str = "932acbd63208387133837b0cd995911c3441eb66000998614a592727aef6912b";
const CONTENT_KEY: &str = "a088555b4e0c45dcb65cdf4288a2f14e";
const NONCE: &str = "e21ffde6495727913faa7a0d";

#[test]
fn labels_end_with_a_nul_byte() {
    assert_eq!(webpush_info(), b"WebPush: info\0".to_vec());
    assert_eq!(key_info(), b"Content-Encoding: aes128gcm\0".to_vec());
    assert_eq!(nonce_info(), b"Content-Encoding: nonce\0".to_vec());
}

#[test]
fn known_answer_for_fixed_keys() {
    let keys = derive_record_keys(
        &hex(RECEIVER_PRIVATE),
        &hex(RECEIVER_PUBLIC),
        &hex(SENDER_PUBLIC),
        &hex(AUTH_SECRET),
        &hex(SALT),
    )
    .unwrap();
    assert_eq!(keys.key.to_vec(), hex(CONTENT_KEY));
    assert_eq!(keys.nonce.to_vec(), hex(NONCE));
}

#[test]
fn known_answer_from_shared_secret() {
    let keys = derive_from_shared_secret(
        &hex(SHARED_SECRET),
        &hex(RECEIVER_PUBLIC),
        &hex(SENDER_PUBLIC),
        &hex(AUTH_SECRET),
        &hex(SALT),
    );
    assert_eq!(keys.key.to_vec(), hex(CONTENT_KEY));
    assert_eq!(keys.nonce.to_vec(), hex(NONCE));
}

#[test]
fn derivation_is_deterministic() {
    let derive = || {
        derive_record_keys(
            &hex(RECEIVER_PRIVATE),
            &hex(RECEIVER_PUBLIC),
            &hex(SENDER_PUBLIC),
            &hex(AUTH_SECRET),
            &hex(SALT),
        )
        .unwrap()
    };
    let first = derive();
    let second = derive();
    assert_eq!(first.key, second.key);
    assert_eq!(first.nonce, second.nonce);
}

#[test]
fn salt_changes_key_and_nonce() {
    let mut salt = hex(SALT);
    salt[0] ^= 1;
    let keys = derive_record_keys(
        &hex(RECEIVER_PRIVATE),
        &hex(RECEIVER_PUBLIC),
        &hex(SENDER_PUBLIC),
        &hex(AUTH_SECRET),
        &salt,
    )
    .unwrap();
    assert_ne!(keys.key.to_vec(), hex(CONTENT_KEY));
    assert_ne!(keys.nonce.to_vec(), hex(NONCE));
    assert_eq!(keys.key.len(), 16);
    assert_eq!(keys.nonce.len(), 12);
}

#[test]
fn point_off_the_curve_is_refused() {
    let mut sender = hex(SENDER_PUBLIC);
    sender[64] ^= 1;
    let r = derive_record_keys(
        &hex(RECEIVER_PRIVATE),
        &hex(RECEIVER_PUBLIC),
        &sender,
        &hex(AUTH_SECRET),
        &hex(SALT),
    );
    assert_eq!(r.err(), Some(KeyAgreementError::InvalidKey));
}

#[test]
fn compressed_point_is_refused() {
    let mut sender = hex(SENDER_PUBLIC);
    sender.truncate(33);
    sender[0] = 0x03;
    let r = derive_record_keys(
        &hex(RECEIVER_PRIVATE),
        &hex(RECEIVER_PUBLIC),
        &sender,
        &hex(AUTH_SECRET),
        &hex(SALT),
    );
    assert_eq!(r.err(), Some(KeyAgreementError::InvalidKey));
}

#[test]
fn empty_sender_key_is_refused() {
    let r = derive_record_keys(
        &hex(RECEIVER_PRIVATE),
        &hex(RECEIVER_PUBLIC),
        &[],
        &hex(AUTH_SECRET),
        &hex(SALT),
    );
    assert_eq!(r.err(), Some(KeyAgreementError::InvalidKey));
}

#[test]
fn zero_private_key_is_refused() {
    let r = derive_record_keys(
        &[0u8; 32],
        &hex(RECEIVER_PUBLIC),
        &hex(SENDER_PUBLIC),
        &hex(AUTH_SECRET),
        &hex(SALT),
    );
    assert_eq!(r.err(), Some(KeyAgreementError::InvalidKey));
}
