use health_check::encode_credential;

#[test]
fn encodes_known_bytes_uppercase() {
    let r = encode_credential(&vec![0x0A, 0xFF]);
    assert_eq!(r, "0AFF");
}

#[test]
fn empty_credential_encodes_to_empty_text() {
    let r = encode_credential(&Vec::new());
    assert_eq!(r, "");
}

#[test]
fn encoding_is_deterministic_and_uppercase() {
    let bytes = vec![0u8, 1, 0x7F, 0x80, 0xAB, 0xCD, 0xEF, 0xFF];
    let first = encode_credential(&bytes);
    let second = encode_credential(&bytes);
    assert_eq!(first, second);
    assert_eq!(first.len(), 2 * bytes.len());
    for c in first.chars() {
        assert!(c.is_ascii_digit() || ('A'..='F').contains(&c));
    }
}

#[test]
fn encoding_round_trips_through_standard_decoding() {
    let bytes = vec![0x0A, 0xFF, 0x00, 0x12, 0x9C, 0x61];
    let text = encode_credential(&bytes);
    let decoded = hex::decode(&text).expect("the encoder writes valid hex");
    assert_eq!(decoded, bytes);
}
