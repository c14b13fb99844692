use ngrok2::protocol::{encode_credential, strip_credential};
use ngrok2::{AuthResponse, CREDENTIAL_LEN, HANDSHAKE};

#[test]
fn handshake_marker_is_ascii_digits_little_endian() {
    let mut bytes = [0u8; 16];
    bytes[..9].copy_from_slice(b"123456789");
    assert_eq!(HANDSHAKE, u128::from_le_bytes(bytes));
}

#[test]
fn status_bytes() {
    assert_eq!(u8::from(AuthResponse::Success), 1);
    assert_eq!(u8::from(AuthResponse::Failure), 0);
    assert_eq!(AuthResponse::Success.to_byte(), 1);
    assert_eq!(AuthResponse::from_byte(1), Some(AuthResponse::Success));
    assert_eq!(AuthResponse::from_byte(0), Some(AuthResponse::Failure));
    assert_eq!(AuthResponse::from_byte(2), None);
    assert_eq!(AuthResponse::from_byte(255), None);
}

#[test]
fn credential_frame_is_padded_key() {
    let frame = encode_credential("abc").unwrap();
    assert_eq!(frame.len(), CREDENTIAL_LEN);
    assert_eq!(&frame[..3], b"abc");
    assert!(frame[3..].iter().all(|b| *b == 0));
}

#[test]
fn credential_frame_of_largest_key() {
    let key = "k".repeat(CREDENTIAL_LEN);
    let frame = encode_credential(&key).unwrap();
    assert_eq!(frame, key.as_bytes().to_vec());
}

#[test]
fn credential_too_long_is_refused() {
    let key = "k".repeat(CREDENTIAL_LEN + 1);
    assert!(encode_credential(&key).is_none());
}

#[test]
fn empty_credential_is_all_padding() {
    let frame = encode_credential("").unwrap();
    assert_eq!(frame, vec![0u8; CREDENTIAL_LEN]);
    assert!(strip_credential(&frame).is_empty());
}

#[test]
fn credential_round_trip() {
    let frame = encode_credential("secret-key").unwrap();
    assert_eq!(strip_credential(&frame), b"secret-key".to_vec());
}

#[test]
fn strip_keeps_inner_zero_bytes() {
    assert_eq!(strip_credential(&[1, 0, 2, 0, 0]), vec![1, 0, 2]);
    assert_eq!(strip_credential(&[7, 8]), vec![7, 8]);
}
