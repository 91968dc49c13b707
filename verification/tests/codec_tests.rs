use codegen::CodegenError;
use codegen::codec::decode_seed_hex;
use codegen::codec::encode_hex;

#[test]
fn decode_known_values() {
    assert_eq!(decode_seed_hex("00"), Ok(vec![0x00]));
    assert_eq!(decode_seed_hex("deadbeef"), Ok(vec![0xde, 0xad, 0xbe, 0xef]));
    assert_eq!(decode_seed_hex("DEADbeef"), Ok(vec![0xde, 0xad, 0xbe, 0xef]));
    assert_eq!(decode_seed_hex("0102030f10"), Ok(vec![1, 2, 3, 15, 16]));
}

#[test]
fn decode_empty_is_empty_seed() {
    assert_eq!(decode_seed_hex(""), Ok(Vec::new()));
}

#[test]
fn decode_rejects_odd_length() {
    assert_eq!(decode_seed_hex("0"), Err(CodegenError::MalformedSeedHex));
    assert_eq!(decode_seed_hex("abc"), Err(CodegenError::MalformedSeedHex));
}

#[test]
fn decode_rejects_non_hex() {
    assert_eq!(decode_seed_hex("0g"), Err(CodegenError::MalformedSeedHex));
    assert_eq!(decode_seed_hex("  "), Err(CodegenError::MalformedSeedHex));
    assert_eq!(decode_seed_hex("héllo!"), Err(CodegenError::MalformedSeedHex));
}

#[test]
fn encode_known_values() {
    assert_eq!(encode_hex(&vec![1, 2, 3, 15, 16]), "0102030f10");
    assert_eq!(encode_hex(&vec![0xde, 0xad, 0xbe, 0xef]), "deadbeef");
    assert_eq!(encode_hex(&Vec::new()), "");
}

#[test]
fn round_trip() {
    let bytes: Vec<u8> = vec![0x00, 0x7f, 0x80, 0xff];
    assert_eq!(decode_seed_hex(&encode_hex(&bytes)), Ok(bytes));
    assert_eq!(encode_hex(&decode_seed_hex("00ff10").unwrap()), "00ff10");
}
