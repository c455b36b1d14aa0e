use lnwallet::keystore::{decode_record, verify_record, KeyRecord};

fn sample_record() -> KeyRecord {
    let mut l1_key = Vec::new();
    let mut node_seed = Vec::new();
    for i in 0..32u8 {
        l1_key.push(i);
        node_seed.push(0xff - i);
    }
    KeyRecord { l1_key, node_seed }
}

#[test]
fn record_round_trip() {
    let rec = sample_record();
    let encoded = rec.encode();
    assert_eq!(encoded.len(), 128);
    let back = decode_record(&encoded).unwrap();
    assert_eq!(back.l1_key, rec.l1_key);
    assert_eq!(back.node_seed, rec.node_seed);
}

#[test]
fn encoding_is_the_documented_hex() {
    let rec = KeyRecord { l1_key: vec![0u8; 32], node_seed: vec![0xffu8; 32] };
    let encoded = rec.encode();
    let mut expected = Vec::new();
    expected.extend_from_slice(&[b'0'; 64]);
    expected.extend_from_slice(&[b'f'; 64]);
    assert_eq!(encoded, expected);
}

#[test]
fn mixed_bytes_encode_exactly() {
    let mut l1_key = vec![0u8; 32];
    l1_key[0] = 0x01;
    l1_key[1] = 0xab;
    l1_key[31] = 0x9f;
    let rec = KeyRecord { l1_key, node_seed: vec![0u8; 32] };
    let encoded = rec.encode();
    assert_eq!(&encoded[0..4], b"01ab");
    assert_eq!(&encoded[62..64], b"9f");
}

#[test]
fn truncated_contents_are_absent() {
    let rec = sample_record();
    let encoded = rec.encode();
    let truncated: Vec<u8> = encoded[..100].to_vec();
    assert!(decode_record(&truncated).is_none());
    let short: Vec<u8> = encoded[..127].to_vec();
    assert!(decode_record(&short).is_none());
    assert!(decode_record(&Vec::new()).is_none());
}

#[test]
fn non_hex_contents_are_absent() {
    let contents = vec![b'z'; 128];
    assert!(decode_record(&contents).is_none());
    // One bad byte in an otherwise valid record.
    let rec = sample_record();
    let mut encoded = rec.encode();
    encoded[70] = b'!';
    assert!(decode_record(&encoded).is_none());
}

#[test]
fn surrounding_whitespace_is_tolerated() {
    let rec = sample_record();
    let encoded = rec.encode();
    let mut padded = Vec::new();
    padded.extend_from_slice(b" \n\t");
    padded.extend_from_slice(&encoded);
    padded.extend_from_slice(b"\r\n");
    let back = decode_record(&padded).unwrap();
    assert_eq!(back.l1_key, rec.l1_key);
    assert_eq!(back.node_seed, rec.node_seed);
}

#[test]
fn uppercase_hex_decodes_too() {
    let rec = sample_record();
    let encoded: Vec<u8> = rec.encode().iter().map(|b| b.to_ascii_uppercase()).collect();
    let back = decode_record(&encoded).unwrap();
    assert_eq!(back.l1_key, rec.l1_key);
    assert_eq!(back.node_seed, rec.node_seed);
}

#[test]
fn verify_record_accepts_own_encoding() {
    let rec = sample_record();
    let encoded = rec.encode();
    assert!(verify_record(&rec, &encoded));
}

#[test]
fn verify_record_rejects_other_contents() {
    let rec = sample_record();
    let other = KeyRecord { l1_key: vec![9u8; 32], node_seed: vec![4u8; 32] };
    assert!(!verify_record(&rec, &other.encode()));
    let encoded = rec.encode();
    assert!(!verify_record(&rec, &encoded[..100].to_vec()));
}
