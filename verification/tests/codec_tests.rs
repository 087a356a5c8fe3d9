use dapptest::codec::{decode_revert_reason, encode_revert_payload, hex_string};

#[test]
fn revert_round_trip_insufficient_balance() {
    let reason: Vec<u8> = b"insufficient balance".to_vec();
    let payload = encode_revert_payload(&reason);
    let back = decode_revert_reason(&payload);
    assert_eq!(back, Some(reason));
}

#[test]
fn revert_payload_exact_bytes() {
    let reason: Vec<u8> = b"nope".to_vec();
    let payload = encode_revert_payload(&reason);
    let mut expected: Vec<u8> = vec![0x08, 0xc3, 0x79, 0xa0];
    let mut offset_word = vec![0u8; 32];
    offset_word[31] = 0x20;
    expected.extend_from_slice(&offset_word);
    let mut len_word = vec![0u8; 32];
    len_word[31] = 4;
    expected.extend_from_slice(&len_word);
    expected.extend_from_slice(b"nope");
    expected.extend_from_slice(&[0u8; 28]);
    assert_eq!(payload, expected);
}

#[test]
fn revert_round_trip_empty_reason() {
    let reason: Vec<u8> = Vec::new();
    let payload = encode_revert_payload(&reason);
    assert_eq!(decode_revert_reason(&payload), Some(Vec::new()));
}

#[test]
fn decode_rejects_short_payload() {
    assert_eq!(decode_revert_reason(&vec![0x08, 0xc3, 0x79]), None);
    assert_eq!(decode_revert_reason(&vec![]), None);
}

#[test]
fn decode_rejects_malformed_body() {
    // selector followed by too few bytes for an offset word
    let data = vec![0x08, 0xc3, 0x79, 0xa0, 0x01, 0x02];
    assert_eq!(decode_revert_reason(&data), None);
    // offset word pointing past the end
    let mut data = vec![0x08, 0xc3, 0x79, 0xa0];
    let mut word = vec![0u8; 32];
    word[31] = 0xff;
    data.extend_from_slice(&word);
    assert_eq!(decode_revert_reason(&data), None);
}

#[test]
fn decode_matches_external_codec() {
    // cross-check against the real ABI codec: decode what ethers encodes
    let tokens = [ethers::abi::Token::String("insufficient balance".to_string())];
    let encoded = ethers::abi::encode(&tokens);
    let mut payload: Vec<u8> = vec![0x08, 0xc3, 0x79, 0xa0];
    payload.extend_from_slice(&encoded);
    let got = decode_revert_reason(&payload);
    assert_eq!(got, Some(b"insufficient balance".to_vec()));
}

#[test]
fn hex_spelling_matches_external_encoder() {
    let bytes: Vec<u8> = vec![0x1f, 0x7b, 0x4f, 0x30];
    assert_eq!(hex_string(&bytes), "1f7b4f30".to_string());
    let more: Vec<u8> = vec![0x00, 0xff, 0x0a, 0x90];
    assert_eq!(hex_string(&more), hex::encode(&more));
    assert_eq!(hex_string(&Vec::new()), String::new());
}
