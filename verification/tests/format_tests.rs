use keytide::format::{
    check_filename, decrypt, encode_payload, encode_prefix, encrypt, encrypt_with_nonce,
    parse_container, parse_payload, validate_filename,
};
use keytide::key::SecretKey;
use keytide::KeyTideError;

fn fixture() -> (SecretKey, Vec<u8>) {
    let key = SecretKey([0x11; 32]);
    let container = encrypt_with_nonce("note.txt", b"hello", &key, [0x22; 12]).unwrap();
    (key, container)
}

#[test]
fn deterministic_fixture_is_byte_for_byte_stable() {
    let (_, container) = fixture();
    let encoded = container
        .iter()
        .map(|byte| format!("{byte:02x}"))
        .collect::<String>();
    assert_eq!(
        encoded,
        "434f4646455200010101222222222222222222222222000000000000002717ff6926b4aab12b9d4bde3c48a6e9d51f96a58706edc3edae22ac447457f57b1a54dfb50676d9"
    );
}

#[test]
fn payload_round_trips_binary_content() {
    let key = SecretKey([9; 32]);
    let container = encrypt_with_nonce("data.bin", &[0, 1, 0xff, 4], &key, [3; 12]).unwrap();
    let result = decrypt(&container, &key).unwrap();
    assert_eq!(result.filename, "data.bin");
    assert_eq!(&*result.bytes, &[0, 1, 0xff, 4]);
}

#[test]
fn wrong_key_and_authenticated_changes_share_one_error() {
    let (key, container) = fixture();
    assert!(matches!(
        decrypt(&container, &SecretKey([0x33; 32])),
        Err(KeyTideError::AuthenticationFailed)
    ));
    for index in [10, 21, 30, container.len() - 1] {
        let mut changed = container.clone();
        changed[index] ^= 1;
        assert!(matches!(
            decrypt(&changed, &key),
            Err(KeyTideError::AuthenticationFailed)
        ));
    }
}

#[test]
fn container_rejects_truncation_trailing_data_and_unknown_fields() {
    let (key, container) = fixture();
    for length in [0, 29, container.len() - 1] {
        assert!(decrypt(&container[..length], &key).is_err());
    }
    let mut trailing = container.clone();
    trailing.push(0);
    assert!(matches!(
        decrypt(&trailing, &key),
        Err(KeyTideError::InvalidContainer)
    ));
    let mut version = container.clone();
    version[8] = 2;
    assert!(matches!(
        decrypt(&version, &key),
        Err(KeyTideError::UnsupportedVersion(2))
    ));
    let mut algorithm = container;
    algorithm[9] = 2;
    assert!(matches!(
        decrypt(&algorithm, &key),
        Err(KeyTideError::UnsupportedAlgorithm(2))
    ));
}

#[test]
fn filenames_are_strictly_safe() {
    for invalid in ["", ".", "..", "../x", "a/b", "a\\b", "nul\0x"] {
        assert!(matches!(
            validate_filename(invalid),
            Err(KeyTideError::InvalidFilename)
        ));
    }
    assert!(validate_filename("résumé.txt").is_ok());
}

#[test]
fn payload_parser_rejects_invalid_utf8_truncation_and_size_mismatch() {
    for payload in [vec![], vec![0], vec![0, 1], vec![0, 1, b'a']] {
        assert!(parse_payload(&payload).is_err());
    }

    let mut invalid_utf8 = vec![0, 1, 0xff];
    invalid_utf8.extend_from_slice(&0_u64.to_be_bytes());
    assert!(matches!(
        parse_payload(&invalid_utf8),
        Err(KeyTideError::InvalidFilename)
    ));

    let mut wrong_size = vec![0, 1, b'a'];
    wrong_size.extend_from_slice(&2_u64.to_be_bytes());
    wrong_size.push(1);
    assert!(matches!(
        parse_payload(&wrong_size),
        Err(KeyTideError::InvalidContainer)
    ));
}

#[test]
fn fixture_payload_matches_the_published_vector() {
    let payload = encode_payload(b"note.txt", b"hello");
    let encoded = payload
        .iter()
        .map(|byte| format!("{byte:02x}"))
        .collect::<String>();
    assert_eq!(encoded, "00086e6f74652e747874000000000000000568656c6c6f");
    let parsed = parse_payload(&payload).unwrap();
    assert_eq!(parsed.filename, "note.txt");
    assert_eq!(parsed.bytes, b"hello");
}

#[test]
fn prefix_layout_matches_the_format() {
    let prefix = encode_prefix([0xAB; 12], 0x0102_0304_0506_0708);
    assert_eq!(&prefix[..8], b"COFFER\0\x01");
    assert_eq!(prefix[8], 1);
    assert_eq!(prefix[9], 1);
    assert_eq!(&prefix[10..22], &[0xAB; 12]);
    assert_eq!(&prefix[22..30], &[1, 2, 3, 4, 5, 6, 7, 8]);
}

#[test]
fn container_parser_splits_prefix_and_ciphertext() {
    let (_, container) = fixture();
    let (prefix, ciphertext) = parse_container(&container).unwrap();
    assert_eq!(prefix, &container[..30]);
    assert_eq!(ciphertext, &container[30..]);
    assert_eq!(ciphertext.len(), 2 + 8 + 8 + 5 + 16);
}

#[test]
fn container_parser_error_precedence() {
    let (_, container) = fixture();
    let mut bad_magic = container.clone();
    bad_magic[0] = b'X';
    bad_magic[8] = 7;
    assert!(matches!(
        parse_container(&bad_magic),
        Err(KeyTideError::InvalidContainer)
    ));
    let mut short_declared = container.clone();
    short_declared[22..30].copy_from_slice(&15_u64.to_be_bytes());
    assert!(matches!(
        parse_container(&short_declared[..45]),
        Err(KeyTideError::InvalidContainer)
    ));
    let mut huge = container.clone();
    huge[22..30].copy_from_slice(&u64::MAX.to_be_bytes());
    if usize::BITS < 64 {
        assert!(matches!(parse_container(&huge), Err(KeyTideError::FileTooLarge)));
    } else {
        assert!(matches!(
            parse_container(&huge),
            Err(KeyTideError::InvalidContainer)
        ));
    }
}

#[test]
fn sealed_container_is_not_the_plaintext() {
    let key = SecretKey([5; 32]);
    let plaintext = vec![0_u8; 64];
    let container = encrypt_with_nonce("zeros.bin", &plaintext, &key, [0; 12]).unwrap();
    assert_eq!(container.len(), 30 + 2 + 9 + 8 + 64 + 16);
    assert_ne!(&container[30 + 2 + 9 + 8..30 + 2 + 9 + 8 + 64], &plaintext[..]);
}

#[test]
fn random_nonce_encryption_round_trips_and_differs() {
    let key = SecretKey([8; 32]);
    let first = encrypt("same.txt", b"same bytes", &key).unwrap();
    let second = encrypt("same.txt", b"same bytes", &key).unwrap();
    assert_ne!(first[10..22], second[10..22]);
    let opened = decrypt(&first, &key).unwrap();
    assert_eq!(opened.filename, "same.txt");
    assert_eq!(opened.bytes, b"same bytes");
}

#[test]
fn encryption_refuses_unsafe_names_first() {
    let key = SecretKey([1; 32]);
    for name in ["", "..", "a/b", "x\\y"] {
        assert!(matches!(
            encrypt_with_nonce(name, b"data", &key, [0; 12]),
            Err(KeyTideError::InvalidFilename)
        ));
    }
    let long = "n".repeat(1025);
    assert!(matches!(
        encrypt_with_nonce(&long, b"data", &key, [0; 12]),
        Err(KeyTideError::InvalidFilename)
    ));
    let longest = "n".repeat(1024);
    let container = encrypt_with_nonce(&longest, b"data", &key, [0; 12]).unwrap();
    assert_eq!(decrypt(&container, &key).unwrap().filename, longest);
}

#[test]
fn payload_parser_checks_filename_length_and_safety() {
    assert!(matches!(
        parse_payload(&[0, 0]),
        Err(KeyTideError::InvalidFilename)
    ));
    let mut too_long = vec![0x04, 0x01];
    too_long.extend(std::iter::repeat(b'a').take(1025));
    assert!(matches!(
        parse_payload(&too_long),
        Err(KeyTideError::InvalidFilename)
    ));
    let mut dots = vec![0, 2, b'.', b'.'];
    dots.extend_from_slice(&0_u64.to_be_bytes());
    assert!(matches!(
        parse_payload(&dots),
        Err(KeyTideError::InvalidFilename)
    ));
    let mut no_size = vec![0, 1, b'a'];
    no_size.extend_from_slice(&[0, 0, 0]);
    assert!(matches!(
        parse_payload(&no_size),
        Err(KeyTideError::InvalidContainer)
    ));
    let mut empty_file = vec![0, 1, b'a'];
    empty_file.extend_from_slice(&0_u64.to_be_bytes());
    let parsed = parse_payload(&empty_file).unwrap();
    assert_eq!(parsed.filename, "a");
    assert!(parsed.bytes.is_empty());
}

#[test]
fn filename_decision_needs_a_single_component() {
    assert!(check_filename("notes.txt", 1).is_ok());
    assert!(matches!(
        check_filename("notes.txt", 2),
        Err(KeyTideError::InvalidFilename)
    ));
    assert!(matches!(
        check_filename("a/b", 1),
        Err(KeyTideError::InvalidFilename)
    ));
    assert!(check_filename(&"é".repeat(512), 1).is_ok());
    assert!(check_filename(&"é".repeat(513), 1).is_err());
}

#[test]
fn safe_names_without_a_colon_pass_on_every_platform() {
    for name in ["notes.txt", "a b.c", ".hidden", "...", "CON", "résumé.pdf", "x"] {
        assert!(validate_filename(name).is_ok(), "{name}");
    }
    let key = SecretKey([0x11; 32]);
    let container = encrypt_with_nonce(".hidden", b"data", &key, [0x22; 12]).unwrap();
    let restored = decrypt(&container, &key).unwrap();
    assert_eq!(restored.filename, ".hidden");
    assert_eq!(restored.bytes, b"data");
}
