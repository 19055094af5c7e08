use keytide::key::{encode, parse, SecretKey, KEY_FILE_LEN};
use keytide::KeyTideError;

#[test]
fn key_file_is_exactly_44_bytes_and_round_trips() {
    let key = SecretKey([7; 32]);
    let encoded = encode(&key);
    assert_eq!(encoded.len(), KEY_FILE_LEN);
    assert_eq!(parse(&encoded).unwrap().as_bytes(), key.as_bytes());
}

#[test]
fn key_parser_rejects_every_structural_deviation() {
    let key = SecretKey([7; 32]);
    let valid = encode(&key);
    for length in [0, 43, 45] {
        assert!(matches!(
            parse(&vec![0; length]),
            Err(KeyTideError::InvalidKey)
        ));
    }
    for index in 0..12 {
        let mut changed = valid.to_vec();
        changed[index] ^= 1;
        assert!(matches!(parse(&changed), Err(KeyTideError::InvalidKey)));
    }
}

#[test]
fn key_file_layout_matches_the_format() {
    let mut material = [0_u8; 32];
    for (index, byte) in material.iter_mut().enumerate() {
        *byte = index as u8;
    }
    let encoded = encode(&SecretKey(material));
    assert_eq!(&encoded[..8], b"COFKEY\0\x01");
    assert_eq!(&encoded[8..12], &[1, 1, 0, 0]);
    assert_eq!(&encoded[12..], &material);
}

#[test]
fn key_material_is_not_checked_only_the_header() {
    let mut bytes = encode(&SecretKey([0; 32]));
    bytes[12] = 0xFF;
    bytes[43] = 0x01;
    let key = parse(&bytes).unwrap();
    assert_eq!(key.as_bytes()[0], 0xFF);
    assert_eq!(key.as_bytes()[31], 0x01);
    assert_eq!(encode(&key), bytes);
}

#[test]
fn generated_keys_are_random_and_wipe_clears_them() {
    let first = SecretKey::generate().unwrap();
    let mut second = SecretKey::generate().unwrap();
    assert_ne!(first.as_bytes(), second.as_bytes());
    second.wipe();
    assert_eq!(second.as_bytes(), &[0; 32]);
}
