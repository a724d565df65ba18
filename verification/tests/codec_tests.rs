use nft_verifier::NFTProofPublicValues;
use nft_verifier::codec::{deserialize_record, serialize_record, DecodeError};

#[test]
fn roundtrip_true_case() {
    let rec = NFTProofPublicValues {
        wallet: [0x11u8; 20],
        ca: [0x33u8; 20],
        token_id: 12345,
        has_nft: true,
    };
    let bytes = serialize_record(&rec);
    assert_eq!(bytes.len(), 57);
    let back = deserialize_record(&bytes).unwrap();
    assert_eq!(back, rec);
}

#[test]
fn roundtrip_false_case() {
    // wallet 0x1111… against owner 0x2222… yields has_nft = false.
    let rec = NFTProofPublicValues {
        wallet: [0x11u8; 20],
        ca: [0x33u8; 20],
        token_id: 12345,
        has_nft: false,
    };
    let bytes = serialize_record(&rec);
    let back = deserialize_record(&bytes).unwrap();
    assert_eq!(back, rec);
}

#[test]
fn token_id_zero_survives_roundtrip() {
    let rec = NFTProofPublicValues {
        wallet: [0xaau8; 20],
        ca: [0xbbu8; 20],
        token_id: 0,
        has_nft: true,
    };
    let back = deserialize_record(&serialize_record(&rec)).unwrap();
    assert_eq!(back.token_id, 0);
}

#[test]
fn token_id_max_survives_roundtrip() {
    let rec = NFTProofPublicValues {
        wallet: [0xaau8; 20],
        ca: [0xbbu8; 20],
        token_id: u128::MAX,
        has_nft: false,
    };
    let back = deserialize_record(&serialize_record(&rec)).unwrap();
    assert_eq!(back.token_id, u128::MAX);
}

#[test]
fn layout_is_exactly_57_bytes_in_field_order() {
    let rec = NFTProofPublicValues {
        wallet: [0x01u8; 20],
        ca: [0x02u8; 20],
        token_id: 0x0102030405060708090a0b0c0d0e0f10,
        has_nft: true,
    };
    let bytes = serialize_record(&rec);
    let mut expected = vec![0x01u8; 20];
    expected.extend(vec![0x02u8; 20]);
    // token id, little endian
    expected.extend(vec![
        0x10, 0x0f, 0x0e, 0x0d, 0x0c, 0x0b, 0x0a, 0x09, 0x08, 0x07, 0x06, 0x05, 0x04, 0x03, 0x02,
        0x01,
    ]);
    expected.push(1);
    assert_eq!(bytes, expected);
}

#[test]
fn layout_matches_bincode_encoding() {
    let wallet = [0x9au8; 20];
    let ca = [0x7cu8; 20];
    let token_id: u128 = 0xdead_beef_0123_4567_89ab_cdef_aabb_ccdd;
    for has_nft in [false, true] {
        let rec = NFTProofPublicValues { wallet, ca, token_id, has_nft };
        let ours = serialize_record(&rec);
        let theirs = bincode::serialize(&(wallet, ca, token_id, has_nft)).unwrap();
        assert_eq!(ours, theirs);
    }
}

#[test]
fn decode_rejects_wrong_length() {
    let rec = NFTProofPublicValues {
        wallet: [0u8; 20],
        ca: [0u8; 20],
        token_id: 1,
        has_nft: true,
    };
    let mut bytes = serialize_record(&rec);
    bytes.pop();
    assert_eq!(deserialize_record(&bytes), Err(DecodeError::BadLength));
    bytes.push(1);
    bytes.push(0);
    assert_eq!(deserialize_record(&bytes), Err(DecodeError::BadLength));
    assert_eq!(deserialize_record(&[]), Err(DecodeError::BadLength));
}

#[test]
fn decode_rejects_bad_flag_byte() {
    let rec = NFTProofPublicValues {
        wallet: [0u8; 20],
        ca: [0u8; 20],
        token_id: 1,
        has_nft: true,
    };
    let mut bytes = serialize_record(&rec);
    bytes[56] = 2;
    assert_eq!(deserialize_record(&bytes), Err(DecodeError::BadFlag));
}
