use sqwerk::error::ConnectionError;
use sqwerk::token::{
    decode_token, encode_token, read_token, token_from_le_bytes, token_to_le_bytes, TOKEN_LENGTH,
};

#[test]
fn bytes_of_a_token_start_with_the_least_significant() {
    let bytes = token_to_le_bytes(0x0102);
    assert_eq!(bytes.len(), TOKEN_LENGTH);
    assert_eq!(bytes[0], 2);
    assert_eq!(bytes[1], 1);
    assert!(bytes[2..].iter().all(|byte| *byte == 0));
}

#[test]
fn bytes_agree_with_the_integer() {
    for token in [0, 1, 255, 256, 0x0123_4567_89ab_cdef_0011_2233_4455_6677, u128::MAX] {
        assert_eq!(token_to_le_bytes(token), token.to_le_bytes().to_vec());
        assert_eq!(token_from_le_bytes(&token.to_le_bytes()), token);
    }
}

#[test]
fn token_has_a_known_text() {
    assert_eq!(encode_token(0), "AAAAAAAAAAAAAAAAAAAAAA==");
    assert_eq!(encode_token(1), "AQAAAAAAAAAAAAAAAAAAAA==");
    assert_eq!(encode_token(u128::MAX), "/////////////////////w==");
}

#[test]
fn token_is_read_from_its_text() {
    assert!(matches!(decode_token("AQAAAAAAAAAAAAAAAAAAAA=="), Ok(1)));
    for token in [0, 7, u64::MAX as u128, u128::MAX] {
        assert!(matches!(decode_token(&encode_token(token)), Ok(read) if read == token));
    }
}

#[test]
fn what_is_not_base64_is_no_token() {
    assert!(matches!(decode_token("***"), Err(ConnectionError::InvalidValue)));
    assert!(matches!(decode_token("AQAAAAAAAAAAAAAAAAAAAA"), Err(ConnectionError::InvalidValue)));
}

#[test]
fn token_of_another_length_is_refused() {
    assert!(matches!(decode_token(""), Err(ConnectionError::InvalidValue)));
    assert!(matches!(decode_token("AQ=="), Err(ConnectionError::InvalidValue)));
    assert!(matches!(
        decode_token("AQAAAAAAAAAAAAAAAAAAAAAA"),
        Err(ConnectionError::InvalidValue)
    ));
}

#[test]
fn decoded_bytes_become_a_token() {
    let mut raw = vec![0u8; 16];
    raw[15] = 0x80;
    assert!(matches!(read_token(Some(raw)), Ok(token) if token == 1u128 << 127));
    assert!(matches!(read_token(Some(vec![1; 15])), Err(ConnectionError::InvalidValue)));
    assert!(matches!(read_token(None), Err(ConnectionError::InvalidValue)));
}

#[test]
fn token_is_read_from_no_other_text() {
    for text in [
        "AQAAAAAAAAAAAAAAAAAAAB==",
        "AQAAAAAAAAAAAAAAAAAAAP==",
        "AQAAAAAAAAAAAAAAAAAAAA=",
        "AQAAAAAAAAAAAAAAAAAAAA===",
        " AQAAAAAAAAAAAAAAAAAAAA==",
        "AQAAAAAAAAAAAAAAAAAAAA==\n",
        "____________________-w==",
    ] {
        assert!(matches!(decode_token(text), Err(ConnectionError::InvalidValue)));
    }
}
