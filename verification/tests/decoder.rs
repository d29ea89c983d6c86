use aes_gcm::aead::{Aead, KeyInit};
use base64::Engine;
use webpush_client::{
    decode, decode_envelope, derive_record_keys, open_record, parse_record, DecodeError,
    EnvelopeError, KeyMaterial, RecordKeys,
};

fn hex(text: &str) -> Vec<u8> {
    (0..text.len() / 2)
        .map(|i| u8::from_str_radix(&text[2 * i..2 * i + 2], 16).unwrap())
        .collect()
}

const RECEIVER_PRIVATE: &str = "ab5757a70dd4a53e553a6bbf71ffefea2874ec07a6b379e3c48f895a02dc33de";
const RECEIVER_PUBLIC: &str = "042571b2becdfde360551aaf1ed0f4cd366c11cebe555f89bcb7b186a53339173168ece2ebe018597bd30479b86e3c8f8eced577ca59187e9246990db682008b0e";
const SENDER_PUBLIC: &str = "04fe33f4ab0dea71914db55823f73b54948f41306d920732dbb9a59a53286482200e597a7b7bc260ba1c227998580992e93973002f3012a28ae8f06bbb78e5ec0f";
const AUTH_SECRET: &str = "05305932a1c7eabe13b6cec9fda48882";
const SALT: &str = "0c6bfaadad67958803092d454676f397";
const ENVELOPE: &str = "DGv6ra1nlYgDCS1FRnbzlwAAEABBBP4z9KsN6nGRTbVYI_c7VJSPQTBtkgcy27mlmlMoZIIgDll6e3vCYLocInmYWAmS6TlzAC8wEqKK6PBru3jl7A_yl95bQpu6cVPTpK4Mqgkf1CXztLVBSt2Ks3oZwbuwXPXLWyouBWLVWGNWQexSgSxsj_Qulcy4a-fN";
const PLAINTEXT: &[u8] = b"When I grow up, I want to be a watermelon\x02";

/// Offset of the first ciphertext byte in the fixture: header and key id.
const BODY: usize = 21 + 65;

fn keys() -> KeyMaterial {
    KeyMaterial::new(hex(RECEIVER_PRIVATE), hex(AUTH_SECRET)).unwrap()
}

fn blob() -> Vec<u8> {
    base64::engine::general_purpose::URL_SAFE_NO_PAD.decode(ENVELOPE).unwrap()
}

/// A payload for the fixture's receiver, sealed as a sender would.
fn seal(plaintext: &[u8], salt: &[u8]) -> Vec<u8> {
    let record_keys = derive_record_keys(
        &hex(RECEIVER_PRIVATE),
        &hex(RECEIVER_PUBLIC),
        &hex(SENDER_PUBLIC),
        &hex(AUTH_SECRET),
        salt,
    )
    .unwrap();
    let cipher = aes_gcm::Aes128Gcm::new_from_slice(&record_keys.key).unwrap();
    let nonce: [u8; 12] = record_keys.nonce.as_slice().try_into().unwrap();
    let sealed = cipher.encrypt(&aes_gcm::Nonce::from(nonce), plaintext).unwrap();
    let mut payload = salt.to_vec();
    payload.extend_from_slice(&4096u32.to_be_bytes());
    payload.push(65);
    payload.extend_from_slice(&hex(SENDER_PUBLIC));
    payload.extend_from_slice(&sealed);
    payload
}

#[test]
fn published_message_opens() {
    assert_eq!(decode(&blob(), &keys()).unwrap(), PLAINTEXT.to_vec());
}

#[test]
fn published_message_opens_from_its_text() {
    assert_eq!(decode_envelope(ENVELOPE, &keys()).unwrap(), PLAINTEXT.to_vec());
}

#[test]
fn ciphertext_opens_under_the_published_key_and_nonce() {
    let record = parse_record(&blob()).unwrap();
    let keys = RecordKeys {
        key: hex("a088555b4e0c45dcb65cdf4288a2f14e").try_into().unwrap(),
        nonce: hex("e21ffde6495727913faa7a0d").try_into().unwrap(),
    };
    assert_eq!(open_record(&record.ciphertext, &keys).unwrap(), PLAINTEXT.to_vec());
}

#[test]
fn ciphertext_does_not_open_under_another_nonce() {
    let record = parse_record(&blob()).unwrap();
    let keys = RecordKeys {
        key: hex("a088555b4e0c45dcb65cdf4288a2f14e").try_into().unwrap(),
        nonce: hex("e21ffde6495727913faa7a0c").try_into().unwrap(),
    };
    assert_eq!(
        open_record(&record.ciphertext, &keys).err(),
        Some(DecodeError::AuthTagMismatch),
    );
    assert_eq!(open_record(&[], &keys).err(), Some(DecodeError::AuthTagMismatch));
}

#[test]
fn fixture_has_the_expected_layout() {
    let blob = blob();
    assert_eq!(blob.len(), 144);
    assert_eq!(&blob[..16], hex(SALT).as_slice());
    assert_eq!(&blob[21..BODY], hex(SENDER_PUBLIC).as_slice());
}

#[test]
fn sealed_plaintext_comes_back() {
    let plaintext = b"{\"title\":\"hello\"}".to_vec();
    let payload = seal(&plaintext, &[0x5a; 16]);
    assert_eq!(decode(&payload, &keys()).unwrap(), plaintext);
}

#[test]
fn sealed_plaintext_comes_back_through_base64() {
    let plaintext: Vec<u8> = (0u8..=255).collect();
    let payload = seal(&plaintext, &[0x11; 16]);
    let text = base64::engine::general_purpose::URL_SAFE_NO_PAD.encode(&payload);
    assert_eq!(decode_envelope(&text, &keys()).unwrap(), plaintext);
}

#[test]
fn empty_plaintext_comes_back() {
    let payload = seal(&[], &[0x22; 16]);
    assert_eq!(payload.len(), BODY + 16);
    assert_eq!(decode(&payload, &keys()).unwrap(), Vec::<u8>::new());
}

#[test]
fn envelope_shorter_than_the_header_is_truncated() {
    let blob = blob();
    for len in 0..21 {
        assert_eq!(decode(&blob[..len], &keys()).err(), Some(DecodeError::Truncated));
    }
}

#[test]
fn key_id_longer_than_the_rest_is_bad_key_id() {
    let blob = blob();
    for len in 21..BODY {
        assert_eq!(decode(&blob[..len], &keys()).err(), Some(DecodeError::BadKeyId));
    }
}

#[test]
fn empty_key_id_is_bad_key_id() {
    let mut blob = blob();
    blob[20] = 0;
    assert_eq!(decode(&blob, &keys()).err(), Some(DecodeError::BadKeyId));
}

#[test]
fn key_id_of_another_length_is_bad_key_id() {
    let mut blob = blob();
    blob[20] = 64;
    assert_eq!(decode(&blob, &keys()).err(), Some(DecodeError::BadKeyId));
    blob[20] = 33;
    assert_eq!(decode(&blob, &keys()).err(), Some(DecodeError::BadKeyId));
}

#[test]
fn key_id_off_the_curve_is_bad_key_id() {
    let mut blob = blob();
    blob[BODY - 1] ^= 1;
    assert_eq!(decode(&blob, &keys()).err(), Some(DecodeError::BadKeyId));
}

#[test]
fn ciphertext_shorter_than_a_tag_does_not_open() {
    let blob = blob();
    for len in BODY..BODY + 16 {
        assert_eq!(decode(&blob[..len], &keys()).err(), Some(DecodeError::AuthTagMismatch));
    }
}

#[test]
fn every_flipped_bit_of_ciphertext_or_tag_is_detected() {
    let blob = blob();
    for position in BODY..blob.len() {
        for bit in 0..8 {
            let mut tampered = blob.clone();
            tampered[position] ^= 1 << bit;
            assert_eq!(
                decode(&tampered, &keys()).err(),
                Some(DecodeError::AuthTagMismatch),
                "byte {position}, bit {bit}",
            );
        }
    }
}

#[test]
fn flipped_salt_is_detected() {
    let mut blob = blob();
    blob[3] ^= 0x10;
    assert_eq!(decode(&blob, &keys()).err(), Some(DecodeError::AuthTagMismatch));
}

#[test]
fn truncated_ciphertext_is_detected() {
    let mut blob = blob();
    blob.pop();
    assert_eq!(decode(&blob, &keys()).err(), Some(DecodeError::AuthTagMismatch));
}

#[test]
fn record_size_is_not_acted_on() {
    let mut blob = blob();
    blob[16] = 0xff;
    blob[19] = 0x01;
    assert_eq!(decode(&blob, &keys()).unwrap(), PLAINTEXT.to_vec());
}

#[test]
fn other_private_key_does_not_open() {
    let other = KeyMaterial::new(
        hex("1234567890abcdef1234567890abcdef1234567890abcdef1234567890abcdef"),
        hex(AUTH_SECRET),
    )
    .unwrap();
    assert_eq!(decode(&blob(), &other).err(), Some(DecodeError::AuthTagMismatch));
}

#[test]
fn other_auth_secret_does_not_open() {
    let mut auth = hex(AUTH_SECRET);
    auth[15] ^= 1;
    let other = KeyMaterial::new(hex(RECEIVER_PRIVATE), auth).unwrap();
    assert_eq!(decode(&blob(), &other).err(), Some(DecodeError::AuthTagMismatch));
}

#[test]
fn text_outside_the_alphabet_is_an_encoding_error() {
    assert_eq!(decode_envelope("not base64!", &keys()).err(), Some(EnvelopeError::Encoding));
    assert_eq!(decode_envelope("ab+/", &keys()).err(), Some(EnvelopeError::Encoding));
}

#[test]
fn padded_text_is_an_encoding_error() {
    assert_eq!(decode_envelope("AAAA====", &keys()).err(), Some(EnvelopeError::Encoding));
    let padded = format!("{ENVELOPE}==");
    assert_eq!(decode_envelope(&padded, &keys()).err(), Some(EnvelopeError::Encoding));
}

#[test]
fn short_text_is_a_truncated_record() {
    assert_eq!(
        decode_envelope("", &keys()).err(),
        Some(EnvelopeError::Record(DecodeError::Truncated)),
    );
    assert_eq!(
        decode_envelope("AAAA", &keys()).err(),
        Some(EnvelopeError::Record(DecodeError::Truncated)),
    );
}

#[test]
fn tampered_text_fails_the_tag() {
    let mut text = ENVELOPE.to_string();
    text.pop();
    text.push('A');
    assert_eq!(
        decode_envelope(&text, &keys()).err(),
        Some(EnvelopeError::Record(DecodeError::AuthTagMismatch)),
    );
}
