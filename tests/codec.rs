use katana_native::codec::{decode, encode};
use katana_native::error::BridgeError;

#[test]
fn encode_is_upper_case_without_separators() {
    assert_eq!(encode(&[0x90, 0x3c, 0x7f]), "903C7F");
    assert_eq!(encode(&[0x00, 0xab, 0xff, 0x0a]), "00ABFF0A");
}

#[test]
fn encode_empty_is_empty() {
    assert_eq!(encode(&[]), "");
}

#[test]
fn decode_accepts_either_case() {
    assert_eq!(decode("903C7F").unwrap(), vec![0x90, 0x3c, 0x7f]);
    assert_eq!(decode("903c7f").unwrap(), vec![0x90, 0x3c, 0x7f]);
    assert_eq!(decode("aB").unwrap(), vec![0xab]);
}

#[test]
fn decode_empty_is_empty() {
    assert_eq!(decode("").unwrap(), Vec::<u8>::new());
}

#[test]
fn decode_odd_length_is_invalid_encoding() {
    assert!(matches!(decode("903"), Err(BridgeError::InvalidEncoding(_))));
}

#[test]
fn decode_non_hex_is_invalid_encoding() {
    assert!(matches!(decode("90 3C"), Err(BridgeError::InvalidEncoding(_))));
    assert!(matches!(decode("zz"), Err(BridgeError::InvalidEncoding(_))));
}

#[test]
fn hex_round_trip_on_every_byte() {
    let all: Vec<u8> = (0..=255u8).collect();
    let text = encode(&all);
    assert_eq!(text.len(), 512);
    assert!(!text.chars().any(|c| c.is_ascii_lowercase()));
    assert_eq!(decode(&text).unwrap(), all);
}
