use nft_verifier::addr::{parse_addr, to_hex_literal};
use nft_verifier::hexbytes::encode_hex;

#[test]
fn normalization_is_case_insensitive() {
    let upper = parse_addr(b"0xABCDEF0123456789ABCDEF0123456789ABCDEF01").unwrap();
    let bare_lower = parse_addr(b"abcdef0123456789abcdef0123456789abcdef01").unwrap();
    let prefixed_lower = parse_addr(b"0xabcdef0123456789abcdef0123456789abcdef01").unwrap();
    assert_eq!(upper, bare_lower);
    assert_eq!(upper, prefixed_lower);
    assert_eq!(
        upper,
        [
            0xab, 0xcd, 0xef, 0x01, 0x23, 0x45, 0x67, 0x89, 0xab, 0xcd, 0xef, 0x01, 0x23, 0x45,
            0x67, 0x89, 0xab, 0xcd, 0xef, 0x01
        ]
    );
}

#[test]
fn normalization_rejects_short_input() {
    // 38 digits: 19 bytes worth of hex.
    assert!(parse_addr(b"0xABCDEF0123456789ABCDEF0123456789ABCDEF").is_err());
}

#[test]
fn normalization_rejects_long_input() {
    // 42 digits: 21 bytes worth of hex.
    assert!(parse_addr(b"0xABCDEF0123456789ABCDEF0123456789ABCDEF0123").is_err());
}

#[test]
fn normalization_rejects_non_hex_digit() {
    assert!(parse_addr(b"0xGBCDEF0123456789ABCDEF0123456789ABCDEF01").is_err());
    assert!(parse_addr(b"0xabcdef0123456789abcdef0123456789abcdef0x").is_err());
}

#[test]
fn normalization_matches_hex_crate() {
    let s = "88888888a9361f15aadbaca355a6b2938c6a674e";
    let ours = parse_addr(s.as_bytes()).unwrap();
    let theirs = hex::decode(s).unwrap();
    assert_eq!(ours.to_vec(), theirs);
}

#[test]
fn normalization_is_idempotent_through_rendering() {
    let bytes = parse_addr(b"0xABCDEF0123456789ABCDEF0123456789ABCDEF01").unwrap();
    let rendered = to_hex_literal(&bytes);
    assert_eq!(
        rendered,
        b"0xabcdef0123456789abcdef0123456789abcdef01".to_vec()
    );
    let reparsed = parse_addr(&rendered).unwrap();
    assert_eq!(bytes, reparsed);
}

#[test]
fn normalization_strips_one_prefix_only() {
    // a second 0x is not part of a valid address
    assert!(parse_addr(b"0x0xabcdef0123456789abcdef0123456789abcdef01").is_err());
}

#[test]
fn normalization_rejects_uppercase_prefix() {
    assert!(parse_addr(b"0XABCDEF0123456789ABCDEF0123456789ABCDEF01").is_err());
}

#[test]
fn hex_encoding_of_empty_input_is_empty() {
    assert_eq!(encode_hex(&[]), Vec::<u8>::new());
}

#[test]
fn hex_encoding_matches_hex_crate() {
    let data = vec![0x00u8, 0x01, 0x7f, 0x80, 0xfe, 0xff, 0x12, 0x34];
    let ours = encode_hex(&data);
    let theirs = hex::encode(&data);
    assert_eq!(String::from_utf8(ours).unwrap(), theirs);
}
