use ngrok2::protocol::encode_credential;
use ngrok2::{init_api_keys, AuthResponse};

#[test]
fn keys_are_split_on_commas_and_trimmed() {
    let reg = init_api_keys(" abc ,xyz\t, key three ");
    assert!(reg.contains(&"abc".to_string()));
    assert!(reg.contains(&"xyz".to_string()));
    assert!(reg.contains(&"key three".to_string()));
    assert!(!reg.contains(&" abc ".to_string()));
    assert!(!reg.contains(&"ab".to_string()));
}

#[test]
fn single_key_without_comma() {
    let reg = init_api_keys("only");
    assert!(reg.contains(&"only".to_string()));
    assert!(!reg.contains(&"".to_string()));
}

#[test]
fn empty_pieces_are_empty_keys() {
    let reg = init_api_keys("a,,b,");
    assert!(reg.contains(&"a".to_string()));
    assert!(reg.contains(&"b".to_string()));
    assert!(reg.contains(&"".to_string()));
}

#[test]
fn registered_credential_authenticates() {
    let reg = init_api_keys("abc,xyz");
    let frame = encode_credential("abc").unwrap();
    assert_eq!(reg.authenticate(&frame), AuthResponse::Success);
    assert_eq!(u8::from(reg.authenticate(&frame)), 1);
}

#[test]
fn unknown_credential_fails() {
    let reg = init_api_keys("abc,xyz");
    let frame = encode_credential("abd").unwrap();
    assert_eq!(reg.authenticate(&frame), AuthResponse::Failure);
    assert_eq!(u8::from(reg.authenticate(&frame)), 0);
}

#[test]
fn credential_with_invalid_utf8_is_decoded_lossily() {
    let reg = init_api_keys("a\u{FFFD}b");
    let mut frame = vec![0u8; 256];
    frame[0] = b'a';
    frame[1] = 0xFF;
    frame[2] = b'b';
    assert_eq!(reg.authenticate(&frame), AuthResponse::Success);
}
