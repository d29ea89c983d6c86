use webpush_client::KeyMaterial;

fn hex(text: &str) -> Vec<u8> {
    (0..text.len() / 2)
        .map(|i| u8::from_str_radix(&text[2 * i..2 * i + 2], 16).unwrap())
        .collect()
}

const PRIVATE: &str = "ab5757a70dd4a53e553a6bbf71ffefea2874ec07a6b379e3c48f895a02dc33de";
const PUBLIC: &str = "042571b2becdfde360551aaf1ed0f4cd366c11cebe555f89bcb7b186a53339173168ece2ebe018597bd30479b86e3c8f8eced577ca59187e9246990db682008b0e";
const AUTH: &str = "05305932a1c7eabe13b6cec9fda48882";

#[test]
fn public_key_is_computed_from_the_private_key() {
    let keys = KeyMaterial::new(hex(PRIVATE), hex(AUTH)).unwrap();
    assert_eq!(keys.public_key(), hex(PUBLIC).as_slice());
    assert_eq!(keys.auth_secret(), hex(AUTH).as_slice());
}

#[test]
fn zero_is_no_private_key() {
    assert!(KeyMaterial::new(vec![0u8; 32], hex(AUTH)).is_none());
}

#[test]
fn group_order_is_no_private_key() {
    let order = hex("ffffffff00000000ffffffffffffffffbce6faada7179e84f3b9cac2fc632551");
    assert!(KeyMaterial::new(order, hex(AUTH)).is_none());
}

#[test]
fn short_private_key_is_refused() {
    assert!(KeyMaterial::new(hex(PRIVATE)[..31].to_vec(), hex(AUTH)).is_none());
    assert!(KeyMaterial::new(hex(PRIVATE)[..24].to_vec(), hex(AUTH)).is_none());
}

#[test]
fn auth_secret_must_have_sixteen_bytes() {
    assert!(KeyMaterial::new(hex(PRIVATE), vec![1u8; 15]).is_none());
    assert!(KeyMaterial::new(hex(PRIVATE), vec![1u8; 17]).is_none());
}

#[test]
fn parts_are_taken_as_given() {
    let keys = KeyMaterial::from_parts(hex(PRIVATE), hex(PUBLIC), hex(AUTH)).unwrap();
    assert_eq!(keys.public_key(), hex(PUBLIC).as_slice());
    assert_eq!(keys.auth_secret(), hex(AUTH).as_slice());
}

#[test]
fn parts_of_wrong_form_are_refused() {
    let mut compressed = hex(PUBLIC);
    compressed[0] = 0x02;
    assert!(KeyMaterial::from_parts(hex(PRIVATE), compressed, hex(AUTH)).is_none());
    assert!(KeyMaterial::from_parts(hex(PRIVATE), hex(PUBLIC)[..64].to_vec(), hex(AUTH)).is_none());
    assert!(KeyMaterial::from_parts(hex(PRIVATE), Vec::new(), hex(AUTH)).is_none());
    assert!(KeyMaterial::from_parts(vec![1u8; 33], hex(PUBLIC), hex(AUTH)).is_none());
    assert!(KeyMaterial::from_parts(hex(PRIVATE), hex(PUBLIC), vec![0u8; 4]).is_none());
}

#[test]
fn generated_material_has_the_right_lengths() {
    let keys = KeyMaterial::generate();
    assert_eq!(keys.public_key().len(), 65);
    assert_eq!(keys.public_key()[0], 4);
    assert_eq!(keys.auth_secret().len(), 16);
}

#[test]
fn generated_public_key_is_a_point_of_the_curve() {
    let keys = KeyMaterial::generate();
    assert!(p256::PublicKey::from_sec1_bytes(keys.public_key()).is_ok());
}

#[test]
fn two_generations_differ() {
    let first = KeyMaterial::generate();
    let second = KeyMaterial::generate();
    assert_ne!(first.public_key(), second.public_key());
    assert_ne!(first.auth_secret(), second.auth_secret());
}
