use ruuvi_telemetry::hex::{decode_hex, encode_hex, FormatError};

#[test]
fn decodes_pairs_most_significant_nibble_first() {
    assert_eq!(decode_hex("AABB"), Ok(vec![0xAA, 0xBB]));
    assert_eq!(decode_hex("0a1B9f"), Ok(vec![0x0A, 0x1B, 0x9F]));
    assert_eq!(decode_hex("00ff"), Ok(vec![0x00, 0xFF]));
    assert_eq!(decode_hex("10"), Ok(vec![16]));
    assert_eq!(decode_hex(""), Ok(vec![]));
}

#[test]
fn odd_length_is_refused() {
    assert_eq!(decode_hex("A"), Err(FormatError::OddLength));
    assert_eq!(decode_hex("AAB"), Err(FormatError::OddLength));
    assert_eq!(decode_hex("zzz"), Err(FormatError::OddLength));
}

#[test]
fn other_characters_are_refused() {
    assert_eq!(decode_hex("AG"), Err(FormatError::InvalidDigit));
    assert_eq!(decode_hex("0x12"), Err(FormatError::InvalidDigit));
    assert_eq!(decode_hex("+A"), Err(FormatError::InvalidDigit));
    assert_eq!(decode_hex("A "), Err(FormatError::InvalidDigit));
    assert_eq!(decode_hex("\u{e9}\u{e9}"), Err(FormatError::InvalidDigit));
    assert_eq!(decode_hex("AB\u{ff21}B"), Err(FormatError::InvalidDigit));
    assert_eq!(decode_hex("/0"), Err(FormatError::InvalidDigit));
    assert_eq!(decode_hex(":0"), Err(FormatError::InvalidDigit));
    assert_eq!(decode_hex("@0"), Err(FormatError::InvalidDigit));
    assert_eq!(decode_hex("`0"), Err(FormatError::InvalidDigit));
    assert_eq!(decode_hex("g0"), Err(FormatError::InvalidDigit));
}

#[test]
fn encodes_in_lower_case() {
    assert_eq!(encode_hex(&[0xAA, 0xBB]), "aabb");
    assert_eq!(encode_hex(&[0x00, 0x0F, 0xF0, 0x9A]), "000ff09a");
    assert_eq!(encode_hex(&[]), "");
}

#[test]
fn decode_then_encode_gives_the_text_back() {
    let text = "0512FC5394C37C0004FFFC040CAC364200CDCBB8334C884F";
    let bytes = decode_hex(text).unwrap();
    assert_eq!(encode_hex(&bytes), text.to_lowercase());
    let mixed = "aAbBcCdDeEfF0123456789";
    assert_eq!(encode_hex(&decode_hex(mixed).unwrap()), "aabbccddeeff0123456789");
}

#[test]
fn encode_then_decode_gives_the_bytes_back() {
    let mut bytes: Vec<u8> = Vec::new();
    for b in 0..=255u8 {
        bytes.push(b);
    }
    assert_eq!(decode_hex(&encode_hex(&bytes)), Ok(bytes));
}
