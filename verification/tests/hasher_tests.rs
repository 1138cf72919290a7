use entitlement_core::hasher::{
    decode_hex, encode_hex, hash, hash_with_salt, read_blob, verify, HashingError,
};

#[test]
fn hex_encoding() {
    assert_eq!(encode_hex(&vec![]), "");
    assert_eq!(encode_hex(&vec![0x00, 0x0f, 0xa5, 0xff]), "000fa5ff");
}

#[test]
fn hex_decoding() {
    assert_eq!(decode_hex(""), Some(vec![]));
    assert_eq!(decode_hex("000fa5ff"), Some(vec![0x00, 0x0f, 0xa5, 0xff]));
    assert_eq!(decode_hex("abc"), None);
    assert_eq!(decode_hex("AB"), None);
    assert_eq!(decode_hex("0g"), None);
    assert_eq!(decode_hex("g0"), None);
}

#[test]
fn hex_round_trip() {
    let bytes: Vec<u8> = (0..=255).collect();
    assert_eq!(decode_hex(&encode_hex(&bytes)), Some(bytes));
}

#[test]
fn hash_with_known_salt() {
    let salt: Vec<u8> = (0..16).collect();
    assert_eq!(
        hash_with_salt("password123", Some(salt)),
        Ok("000102030405060708090a0b0c0d0e0f$43ed94b665686e9ca6f2e13a8dd27bd5a7bc585e2607789f1dc9ab9a416de21a"
            .to_string())
    );
}

#[test]
fn hash_without_salt_fails() {
    assert_eq!(hash_with_salt("password123", None), Err(HashingError::Backend));
    assert_eq!(hash_with_salt("password123", Some(vec![1, 2, 3])), Err(HashingError::Backend));
}

#[test]
fn hash_then_verify() {
    let blob = hash("password123").unwrap();
    assert_eq!(blob.len(), 97);
    assert_eq!(blob.chars().nth(32), Some('$'));
    assert_ne!(blob, "password123");
    assert_eq!(verify("password123", &blob), Ok(true));
    assert_eq!(verify("password124", &blob), Ok(false));
    assert_eq!(verify("", &blob), Ok(false));
}

#[test]
fn salts_differ() {
    let a = hash("password123").unwrap();
    let b = hash("password123").unwrap();
    assert_ne!(a, b);
    assert_eq!(verify("password123", &a), Ok(true));
    assert_eq!(verify("password123", &b), Ok(true));
}

#[test]
fn verify_against_known_blob() {
    let blob = "000102030405060708090a0b0c0d0e0f$43ed94b665686e9ca6f2e13a8dd27bd5a7bc585e2607789f1dc9ab9a416de21a";
    assert_eq!(verify("password123", blob), Ok(true));
    assert_eq!(verify("Password123", blob), Ok(false));
}

#[test]
fn verify_malformed_blob_is_an_error() {
    assert_eq!(verify("password123", ""), Err(HashingError::Malformed));
    assert_eq!(verify("password123", "not a blob"), Err(HashingError::Malformed));
    let upper = "000102030405060708090A0B0C0D0E0F$43ed94b665686e9ca6f2e13a8dd27bd5a7bc585e2607789f1dc9ab9a416de21a";
    assert_eq!(verify("password123", upper), Err(HashingError::Malformed));
    let no_separator = "000102030405060708090a0b0c0d0e0f043ed94b665686e9ca6f2e13a8dd27bd5a7bc585e2607789f1dc9ab9a416de21a";
    assert_eq!(verify("password123", no_separator), Err(HashingError::Malformed));
    let short = "000102030405060708090a0b0c0d0e0f$43ed";
    assert_eq!(verify("password123", short), Err(HashingError::Malformed));
}

#[test]
fn blob_reads_apart() {
    let blob = "000102030405060708090a0b0c0d0e0f$43ed94b665686e9ca6f2e13a8dd27bd5a7bc585e2607789f1dc9ab9a416de21a";
    let (salt, digest) = read_blob(blob).unwrap();
    assert_eq!(salt, (0..16).collect::<Vec<u8>>());
    assert_eq!(digest.len(), 32);
    assert_eq!(digest[0], 0x43);
    assert_eq!(digest[31], 0x1a);
    assert!(read_blob("x").is_none());
}

#[test]
fn error_messages() {
    assert_eq!(HashingError::Backend.message(), "the hashing backend failed");
    assert_eq!(HashingError::Malformed.message(), "the stored hash is malformed");
}
