use webpush_client::{parse_record, DecodeError};

fn layout(salt: &[u8], record_size: u32, key_id: &[u8], ciphertext: &[u8]) -> Vec<u8> {
    let mut blob = salt.to_vec();
    blob.extend_from_slice(&record_size.to_be_bytes());
    blob.push(key_id.len() as u8);
    blob.extend_from_slice(key_id);
    blob.extend_from_slice(ciphertext);
    blob
}

#[test]
fn empty_payload_is_truncated() {
    assert_eq!(parse_record(&[]).err(), Some(DecodeError::Truncated));
}

#[test]
fn payload_of_twenty_bytes_is_truncated() {
    assert_eq!(parse_record(&[7u8; 20]).err(), Some(DecodeError::Truncated));
}

#[test]
fn header_alone_with_empty_key_id_is_bad_key_id() {
    let blob = layout(&[1u8; 16], 4096, &[], &[]);
    assert_eq!(blob.len(), 21);
    assert_eq!(parse_record(&blob).err(), Some(DecodeError::BadKeyId));
}

#[test]
fn empty_key_id_before_ciphertext_is_bad_key_id() {
    let blob = layout(&[1u8; 16], 4096, &[], &[9u8; 40]);
    assert_eq!(parse_record(&blob).err(), Some(DecodeError::BadKeyId));
}

#[test]
fn key_id_past_the_end_is_bad_key_id() {
    let mut blob = layout(&[1u8; 16], 4096, &[5u8; 65], &[]);
    blob.pop();
    assert_eq!(parse_record(&blob).err(), Some(DecodeError::BadKeyId));
}

#[test]
fn longest_key_id_length_past_the_end_is_bad_key_id() {
    let mut blob = vec![0u8; 21];
    blob[20] = 255;
    blob.extend_from_slice(&[0u8; 254]);
    assert_eq!(parse_record(&blob).err(), Some(DecodeError::BadKeyId));
}

#[test]
fn fields_are_split_at_their_offsets() {
    let salt: Vec<u8> = (0u8..16).collect();
    let key_id: Vec<u8> = (100u8..165).collect();
    let ciphertext: Vec<u8> = (200u8..230).collect();
    let blob = layout(&salt, 4096, &key_id, &ciphertext);
    let record = parse_record(&blob).unwrap();
    assert_eq!(record.salt, salt);
    assert_eq!(record.record_size, 4096);
    assert_eq!(record.key_id, key_id);
    assert_eq!(record.ciphertext, ciphertext);
}

#[test]
fn record_size_is_big_endian() {
    let mut blob = layout(&[0u8; 16], 0, &[4], &[]);
    blob[16] = 0x01;
    blob[17] = 0x02;
    blob[18] = 0x03;
    blob[19] = 0x04;
    assert_eq!(parse_record(&blob).unwrap().record_size, 0x0102_0304);
    blob[16] = 0xff;
    blob[17] = 0xff;
    blob[18] = 0xff;
    blob[19] = 0xff;
    assert_eq!(parse_record(&blob).unwrap().record_size, u32::MAX);
}

#[test]
fn key_id_may_end_the_payload() {
    let blob = layout(&[3u8; 16], 18, &[4, 5, 6], &[]);
    let record = parse_record(&blob).unwrap();
    assert_eq!(record.key_id, vec![4, 5, 6]);
    assert!(record.ciphertext.is_empty());
}

#[test]
fn key_id_of_255_bytes_is_read_whole() {
    let blob = layout(&[3u8; 16], 18, &[8u8; 255], &[1, 2]);
    let record = parse_record(&blob).unwrap();
    assert_eq!(record.key_id, vec![8u8; 255]);
    assert_eq!(record.ciphertext, vec![1, 2]);
}
